//! The instruction model that the helper generators emit.
//!
//! Every helper body is first built as a sequence of [`Ins`] values; the
//! encoder in `encode` turns such a body into a `wasm_encoder::Function`.
//! Floating-point immediates are carried by their IEEE-754 bit patterns.
use vstd::prelude::*;

verus! {

/// A WebAssembly value type used by the runtime helpers.
#[derive(Clone, Copy, Debug, PartialEq, Eq, Structural)]
pub enum ValTy {
    I32,
    I64,
    F32,
    F64,
}

/// The type of a structured block.
#[derive(Clone, Copy, Debug, PartialEq, Eq, Structural)]
pub enum BlockTy {
    Empty,
    Result(ValTy),
}

/// A memory immediate: static offset, alignment exponent and memory index.
#[derive(Clone, Copy, Debug, PartialEq, Eq, Structural)]
pub struct MemArg {
    pub offset: u64,
    pub align: u32,
    pub memory_index: u32,
}

/// A memory immediate for `offset` with no alignment assumption.
pub open spec fn spec_m(offset: u64) -> MemArg {
    MemArg { offset, align: 0, memory_index: 0 }
}

/// A memory immediate for `offset` with no alignment assumption.
#[verifier::when_used_as_spec(spec_m)]
pub fn m(offset: u64) -> (r: MemArg)
    ensures
        r == (MemArg { offset, align: 0, memory_index: 0 }),
{
    MemArg { offset, align: 0, memory_index: 0 }
}

/// One WebAssembly instruction of the subset the runtime helpers use.
#[derive(Clone, Copy, Debug, PartialEq, Eq, Structural)]
pub enum Ins {
    // control
    Unreachable,
    Block(BlockTy),
    Loop(BlockTy),
    If(BlockTy),
    Else,
    End,
    Br(u32),
    BrIf(u32),
    /// `br_table` whose table is the depths `0, 1, …, targets − 1`, with
    /// `default` for any other index.
    BrTable { targets: u32, default: u32 },
    Return,
    Call(u32),
    CallIndirect { type_index: u32, table_index: u32 },
    Drop,
    // variables
    LocalGet(u32),
    LocalSet(u32),
    LocalTee(u32),
    GlobalGet(u32),
    GlobalSet(u32),
    // memory
    I32Load(MemArg),
    I64Load(MemArg),
    F32Load(MemArg),
    F64Load(MemArg),
    I32Load8U(MemArg),
    I32Load8S(MemArg),
    I32Load16S(MemArg),
    I32Load16U(MemArg),
    I32Store(MemArg),
    I64Store(MemArg),
    F32Store(MemArg),
    F64Store(MemArg),
    I32Store8(MemArg),
    I32Store16(MemArg),
    MemorySize(u32),
    MemoryGrow(u32),
    MemoryCopy { src_mem: u32, dst_mem: u32 },
    MemoryFill(u32),
    // constants
    I32Const(i32),
    I64Const(i64),
    /// An `f32.const` given by its IEEE-754 bit pattern.
    F32Const(u32),
    /// An `f64.const` given by its IEEE-754 bit pattern.
    F64Const(u64),
    // i32 numeric
    I32Eqz,
    I32Eq,
    I32Ne,
    I32LtS,
    I32LtU,
    I32GtS,
    I32GtU,
    I32LeS,
    I32LeU,
    I32GeS,
    I32GeU,
    I32Add,
    I32Sub,
    I32Mul,
    I32DivS,
    I32DivU,
    I32RemS,
    I32And,
    I32Or,
    I32Shl,
    I32ShrU,
    // i64 numeric
    I64Eqz,
    I64Eq,
    I64LtS,
    I64LtU,
    I64GtS,
    I64GtU,
    I64LeS,
    I64LeU,
    I64GeS,
    I64GeU,
    I64Ne,
    I64Add,
    I64Sub,
    I64Mul,
    I64DivS,
    I64DivU,
    I64RemS,
    I64RemU,
    I64Or,
    I64Shl,
    I64ShrS,
    I64ShrU,
    // f64 numeric
    F64Eq,
    F64Ne,
    F64Lt,
    F64Le,
    F64Gt,
    F64Ge,
    F64Abs,
    F64Neg,
    F64Trunc,
    F64Add,
    F64Sub,
    F64Mul,
    F64Div,
    // conversions
    I32WrapI64,
    I64ExtendI32S,
    I64ExtendI32U,
    F64ConvertI64S,
    F64ConvertI64U,
    F64ReinterpretI64,
    I64ReinterpretF64,
    I64TruncSatF64S,
    I64TruncF64S,
    I64TruncF64U,
    F64ConvertI32S,
    F64ConvertI32U,
    F32ConvertI64S,
    F32ConvertI64U,
    F32DemoteF64,
    F64PromoteF32,
    F32ReinterpretI32,
    F32Neg,
}

} // verus!
