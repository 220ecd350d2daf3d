//! Turns a generated [`Body`] into a `wasm_encoder::Function`.
//!
//! `wasm_encoder::Function::instruction` appends the binary encoding of one
//! instruction to the function. The trusted items below each make that call
//! for one family of instructions; their contracts speak of [`emitted`], the
//! instructions a function holds, and [`declared_locals`], the local
//! declarations it was created with.
use vstd::prelude::*;
use wasm_encoder::{BlockType, Ieee32, Ieee64, Instruction, MemArg as WasmMemArg, MemArgTarget, ValType};
use crate::wasm::builder::Body;
use crate::wasm::model::{BlockTy, Ins, MemArg, ValTy};

verus! {

#[verifier::external_type_specification]
#[verifier::external_body]
pub struct ExWasmFunction(wasm_encoder::Function);

/// The instructions appended to `f` since it was created.
pub uninterp spec fn emitted(f: wasm_encoder::Function) -> Seq<Ins>;

/// The local declarations `f` was created with.
pub uninterp spec fn declared_locals(f: wasm_encoder::Function) -> Seq<(u32, ValTy)>;

/// What `f` writes into a code section: its size, then its locals and
/// instructions.
pub uninterp spec fn function_bytes(f: wasm_encoder::Function) -> Seq<u8>;

/// What a function with these locals and these instructions writes into a
/// code section.
pub uninterp spec fn body_encoding(locals: Seq<(u32, ValTy)>, code: Seq<Ins>) -> Seq<u8>;

/// `f` holds exactly its declared locals and emitted instructions, so that
/// its encoding is that of those.
pub open spec fn faithful(f: wasm_encoder::Function) -> bool {
    function_bytes(f) == body_encoding(declared_locals(f), emitted(f))
}

/// Instructions without immediates that shape control flow or the stack.
pub enum Plain {
    Unreachable,
    Else,
    End,
    Return,
    Drop,
}

pub enum Structured {
    Block,
    Loop,
    If,
}

pub enum Branch {
    Br,
    BrIf,
}

pub enum Variable {
    LocalGet,
    LocalSet,
    LocalTee,
    GlobalGet,
    GlobalSet,
}

pub enum Load {
    I32,
    I64,
    F32,
    F64,
    I32U8,
    I32S8,
    I32S16,
    I32U16,
}

pub enum Store {
    I32,
    I64,
    F32,
    F64,
    I32Low8,
    I32Low16,
}

pub enum Memory {
    Size,
    Grow,
    Fill,
}

pub enum I32Op {
    Eqz,
    Eq,
    Ne,
    LtS,
    LtU,
    GtS,
    GtU,
    LeS,
    LeU,
    GeS,
    GeU,
    Add,
    Sub,
    Mul,
}

pub enum I32Bits {
    DivS,
    DivU,
    RemS,
    And,
    Or,
    Shl,
    ShrU,
}

pub enum I64Op {
    Eqz,
    Eq,
    Ne,
    LtS,
    LtU,
    GtS,
    GtU,
    LeS,
    LeU,
    GeS,
    GeU,
    Add,
    Sub,
    Mul,
}

pub enum I64Bits {
    DivS,
    DivU,
    RemS,
    RemU,
    Or,
    Shl,
    ShrS,
    ShrU,
}

pub enum FloatOp {
    Eq,
    Ne,
    Lt,
    Le,
    Gt,
    Ge,
    Abs,
    Neg,
    Trunc,
    Add,
    Sub,
    Mul,
    Div,
}

pub enum Convert {
    I32WrapI64,
    I64ExtendI32S,
    I64ExtendI32U,
    F64ConvertI64S,
    F64ConvertI64U,
    F64ReinterpretI64,
    I64ReinterpretF64,
    I64TruncSatF64S,
    I64TruncF64S,
    I64TruncF64U,
    F64ConvertI32S,
    F64ConvertI32U,
}

/// Conversions that produce or take an `f32`.
pub enum Single {
    F32ConvertI64S,
    F32ConvertI64U,
    F32DemoteF64,
    F64PromoteF32,
    F32ReinterpretI32,
    F32Neg,
}

pub open spec fn plain_ins(op: Plain) -> Ins {
    match op {
        Plain::Unreachable => Ins::Unreachable,
        Plain::Else => Ins::Else,
        Plain::End => Ins::End,
        Plain::Return => Ins::Return,
        Plain::Drop => Ins::Drop,
    }
}

pub open spec fn structured_ins(op: Structured, ty: BlockTy) -> Ins {
    match op {
        Structured::Block => Ins::Block(ty),
        Structured::Loop => Ins::Loop(ty),
        Structured::If => Ins::If(ty),
    }
}

pub open spec fn branch_ins(op: Branch, depth: u32) -> Ins {
    match op {
        Branch::Br => Ins::Br(depth),
        Branch::BrIf => Ins::BrIf(depth),
    }
}

pub open spec fn variable_ins(op: Variable, index: u32) -> Ins {
    match op {
        Variable::LocalGet => Ins::LocalGet(index),
        Variable::LocalSet => Ins::LocalSet(index),
        Variable::LocalTee => Ins::LocalTee(index),
        Variable::GlobalGet => Ins::GlobalGet(index),
        Variable::GlobalSet => Ins::GlobalSet(index),
    }
}

pub open spec fn load_ins(op: Load, arg: MemArg) -> Ins {
    match op {
        Load::I32 => Ins::I32Load(arg),
        Load::I64 => Ins::I64Load(arg),
        Load::F32 => Ins::F32Load(arg),
        Load::F64 => Ins::F64Load(arg),
        Load::I32U8 => Ins::I32Load8U(arg),
        Load::I32S8 => Ins::I32Load8S(arg),
        Load::I32S16 => Ins::I32Load16S(arg),
        Load::I32U16 => Ins::I32Load16U(arg),
    }
}

pub open spec fn store_ins(op: Store, arg: MemArg) -> Ins {
    match op {
        Store::I32 => Ins::I32Store(arg),
        Store::I64 => Ins::I64Store(arg),
        Store::F32 => Ins::F32Store(arg),
        Store::F64 => Ins::F64Store(arg),
        Store::I32Low8 => Ins::I32Store8(arg),
        Store::I32Low16 => Ins::I32Store16(arg),
    }
}

pub open spec fn memory_ins(op: Memory, index: u32) -> Ins {
    match op {
        Memory::Size => Ins::MemorySize(index),
        Memory::Grow => Ins::MemoryGrow(index),
        Memory::Fill => Ins::MemoryFill(index),
    }
}

pub open spec fn i32_ins(op: I32Op) -> Ins {
    match op {
        I32Op::Eqz => Ins::I32Eqz,
        I32Op::Eq => Ins::I32Eq,
        I32Op::Ne => Ins::I32Ne,
        I32Op::LtS => Ins::I32LtS,
        I32Op::LtU => Ins::I32LtU,
        I32Op::GtS => Ins::I32GtS,
        I32Op::GtU => Ins::I32GtU,
        I32Op::LeS => Ins::I32LeS,
        I32Op::LeU => Ins::I32LeU,
        I32Op::GeS => Ins::I32GeS,
        I32Op::GeU => Ins::I32GeU,
        I32Op::Add => Ins::I32Add,
        I32Op::Sub => Ins::I32Sub,
        I32Op::Mul => Ins::I32Mul,
    }
}

pub open spec fn i32_bits_ins(op: I32Bits) -> Ins {
    match op {
        I32Bits::DivS => Ins::I32DivS,
        I32Bits::DivU => Ins::I32DivU,
        I32Bits::RemS => Ins::I32RemS,
        I32Bits::And => Ins::I32And,
        I32Bits::Or => Ins::I32Or,
        I32Bits::Shl => Ins::I32Shl,
        I32Bits::ShrU => Ins::I32ShrU,
    }
}

pub open spec fn i64_ins(op: I64Op) -> Ins {
    match op {
        I64Op::Eqz => Ins::I64Eqz,
        I64Op::Eq => Ins::I64Eq,
        I64Op::Ne => Ins::I64Ne,
        I64Op::LtS => Ins::I64LtS,
        I64Op::LtU => Ins::I64LtU,
        I64Op::GtS => Ins::I64GtS,
        I64Op::GtU => Ins::I64GtU,
        I64Op::LeS => Ins::I64LeS,
        I64Op::LeU => Ins::I64LeU,
        I64Op::GeS => Ins::I64GeS,
        I64Op::GeU => Ins::I64GeU,
        I64Op::Add => Ins::I64Add,
        I64Op::Sub => Ins::I64Sub,
        I64Op::Mul => Ins::I64Mul,
    }
}

pub open spec fn i64_bits_ins(op: I64Bits) -> Ins {
    match op {
        I64Bits::DivS => Ins::I64DivS,
        I64Bits::DivU => Ins::I64DivU,
        I64Bits::RemS => Ins::I64RemS,
        I64Bits::RemU => Ins::I64RemU,
        I64Bits::Or => Ins::I64Or,
        I64Bits::Shl => Ins::I64Shl,
        I64Bits::ShrS => Ins::I64ShrS,
        I64Bits::ShrU => Ins::I64ShrU,
    }
}

pub open spec fn float_ins(op: FloatOp) -> Ins {
    match op {
        FloatOp::Eq => Ins::F64Eq,
        FloatOp::Ne => Ins::F64Ne,
        FloatOp::Lt => Ins::F64Lt,
        FloatOp::Le => Ins::F64Le,
        FloatOp::Gt => Ins::F64Gt,
        FloatOp::Ge => Ins::F64Ge,
        FloatOp::Abs => Ins::F64Abs,
        FloatOp::Neg => Ins::F64Neg,
        FloatOp::Trunc => Ins::F64Trunc,
        FloatOp::Add => Ins::F64Add,
        FloatOp::Sub => Ins::F64Sub,
        FloatOp::Mul => Ins::F64Mul,
        FloatOp::Div => Ins::F64Div,
    }
}

pub open spec fn convert_ins(op: Convert) -> Ins {
    match op {
        Convert::I32WrapI64 => Ins::I32WrapI64,
        Convert::I64ExtendI32S => Ins::I64ExtendI32S,
        Convert::I64ExtendI32U => Ins::I64ExtendI32U,
        Convert::F64ConvertI64S => Ins::F64ConvertI64S,
        Convert::F64ConvertI64U => Ins::F64ConvertI64U,
        Convert::F64ReinterpretI64 => Ins::F64ReinterpretI64,
        Convert::I64ReinterpretF64 => Ins::I64ReinterpretF64,
        Convert::I64TruncSatF64S => Ins::I64TruncSatF64S,
        Convert::I64TruncF64S => Ins::I64TruncF64S,
        Convert::I64TruncF64U => Ins::I64TruncF64U,
        Convert::F64ConvertI32S => Ins::F64ConvertI32S,
        Convert::F64ConvertI32U => Ins::F64ConvertI32U,
    }
}

pub open spec fn single_ins(op: Single) -> Ins {
    match op {
        Single::F32ConvertI64S => Ins::F32ConvertI64S,
        Single::F32ConvertI64U => Ins::F32ConvertI64U,
        Single::F32DemoteF64 => Ins::F32DemoteF64,
        Single::F64PromoteF32 => Ins::F64PromoteF32,
        Single::F32ReinterpretI32 => Ins::F32ReinterpretI32,
        Single::F32Neg => Ins::F32Neg,
    }
}

/// `wasm_encoder::Function::new`: a function holding no instructions yet,
/// declaring `locals` (each a count and a value type) in order. The encoder
/// writes the number of declarations as a `u32` and asserts that it fits, so
/// the list is at most `u32::MAX` long.
#[verifier::external_body]
fn new_function(locals: &Vec<(u32, ValTy)>) -> (f: wasm_encoder::Function)
    requires
        locals@.len() <= u32::MAX,
    ensures
        emitted(f) == Seq::<Ins>::empty(),
        declared_locals(f) == locals@,
        function_bytes(f) == body_encoding(locals@, Seq::<Ins>::empty()),
{
    let vt = |t: ValTy| match t {
        ValTy::I32 => ValType::I32,
        ValTy::I64 => ValType::I64,
        ValTy::F32 => ValType::F32,
        ValTy::F64 => ValType::F64,
    };
    let decls: Vec<(u32, ValType)> = locals.iter().map(|&(count, t)| (count, vt(t))).collect();
    wasm_encoder::Function::new(decls)
}

/// `Function::instruction` with `unreachable`, `else`, `end`, `return` or
/// `drop`: appends that instruction.
#[verifier::external_body]
fn emit_plain(f: &mut wasm_encoder::Function, op: Plain)
    ensures
        emitted(*final(f)) == emitted(*old(f)).push(plain_ins(op)),
        declared_locals(*final(f)) == declared_locals(*old(f)),
        function_bytes(*old(f)) == body_encoding(declared_locals(*old(f)), emitted(*old(f)))
            ==> function_bytes(*final(f)) == body_encoding(declared_locals(*final(f)), emitted(*final(f))),
{
    f.instruction(&match op {
        Plain::Unreachable => Instruction::Unreachable,
        Plain::Else => Instruction::Else,
        Plain::End => Instruction::End,
        Plain::Return => Instruction::Return,
        Plain::Drop => Instruction::Drop,
    });
}

/// `Function::instruction` with `block`, `loop` or `if` of block type `ty`
/// (no result, or one result of the given value type): appends it.
#[verifier::external_body]
fn emit_structured(f: &mut wasm_encoder::Function, op: Structured, ty: BlockTy)
    ensures
        emitted(*final(f)) == emitted(*old(f)).push(structured_ins(op, ty)),
        declared_locals(*final(f)) == declared_locals(*old(f)),
        function_bytes(*old(f)) == body_encoding(declared_locals(*old(f)), emitted(*old(f)))
            ==> function_bytes(*final(f)) == body_encoding(declared_locals(*final(f)), emitted(*final(f))),
{
    let bt = match ty {
        BlockTy::Empty => BlockType::Empty,
        BlockTy::Result(ValTy::I32) => BlockType::Result(ValType::I32),
        BlockTy::Result(ValTy::I64) => BlockType::Result(ValType::I64),
        BlockTy::Result(ValTy::F32) => BlockType::Result(ValType::F32),
        BlockTy::Result(ValTy::F64) => BlockType::Result(ValType::F64),
    };
    f.instruction(&match op {
        Structured::Block => Instruction::Block(bt),
        Structured::Loop => Instruction::Loop(bt),
        Structured::If => Instruction::If(bt),
    });
}

/// `Function::instruction` with `br` or `br_if` to `depth`: appends it.
#[verifier::external_body]
fn emit_branch(f: &mut wasm_encoder::Function, op: Branch, depth: u32)
    ensures
        emitted(*final(f)) == emitted(*old(f)).push(branch_ins(op, depth)),
        declared_locals(*final(f)) == declared_locals(*old(f)),
        function_bytes(*old(f)) == body_encoding(declared_locals(*old(f)), emitted(*old(f)))
            ==> function_bytes(*final(f)) == body_encoding(declared_locals(*final(f)), emitted(*final(f))),
{
    f.instruction(&match op {
        Branch::Br => Instruction::Br(depth),
        Branch::BrIf => Instruction::BrIf(depth),
    });
}

/// `Function::instruction` with `br_table` over `targets` and `default`:
/// appends it.
#[verifier::external_body]
fn emit_br_table(f: &mut wasm_encoder::Function, targets: &Vec<u32>, default: u32)
    requires
        targets@.len() <= u32::MAX,
        forall|i: int| 0 <= i < targets@.len() ==> targets@[i] == i,
    ensures
        emitted(*final(f)) == emitted(*old(f)).push(Ins::BrTable { targets: targets@.len() as u32, default }),
        declared_locals(*final(f)) == declared_locals(*old(f)),
        function_bytes(*old(f)) == body_encoding(declared_locals(*old(f)), emitted(*old(f)))
            ==> function_bytes(*final(f)) == body_encoding(declared_locals(*final(f)), emitted(*final(f))),
{
    f.instruction(&Instruction::BrTable(std::borrow::Cow::Borrowed(targets.as_slice()), default));
}

/// `Function::instruction` with `call function`: appends it.
#[verifier::external_body]
fn emit_call(f: &mut wasm_encoder::Function, function: u32)
    ensures
        emitted(*final(f)) == emitted(*old(f)).push(Ins::Call(function)),
        declared_locals(*final(f)) == declared_locals(*old(f)),
        function_bytes(*old(f)) == body_encoding(declared_locals(*old(f)), emitted(*old(f)))
            ==> function_bytes(*final(f)) == body_encoding(declared_locals(*final(f)), emitted(*final(f))),
{
    f.instruction(&Instruction::Call(function));
}

/// `Function::instruction` with `call_indirect` through table `table_index`
/// at type `type_index`: appends it.
#[verifier::external_body]
fn emit_call_indirect(f: &mut wasm_encoder::Function, type_index: u32, table_index: u32)
    ensures
        emitted(*final(f)) == emitted(*old(f)).push(Ins::CallIndirect { type_index, table_index }),
        declared_locals(*final(f)) == declared_locals(*old(f)),
        function_bytes(*old(f)) == body_encoding(declared_locals(*old(f)), emitted(*old(f)))
            ==> function_bytes(*final(f)) == body_encoding(declared_locals(*final(f)), emitted(*final(f))),
{
    f.instruction(&Instruction::CallIndirect { type_index, table_index });
}

/// `Function::instruction` with a local or global access at `index`.
#[verifier::external_body]
fn emit_variable(f: &mut wasm_encoder::Function, op: Variable, index: u32)
    ensures
        emitted(*final(f)) == emitted(*old(f)).push(variable_ins(op, index)),
        declared_locals(*final(f)) == declared_locals(*old(f)),
        function_bytes(*old(f)) == body_encoding(declared_locals(*old(f)), emitted(*old(f)))
            ==> function_bytes(*final(f)) == body_encoding(declared_locals(*final(f)), emitted(*final(f))),
{
    f.instruction(&match op {
        Variable::LocalGet => Instruction::LocalGet(index),
        Variable::LocalSet => Instruction::LocalSet(index),
        Variable::LocalTee => Instruction::LocalTee(index),
        Variable::GlobalGet => Instruction::GlobalGet(index),
        Variable::GlobalSet => Instruction::GlobalSet(index),
    });
}

/// `Function::instruction` with a load at memory immediate `arg`.
#[verifier::external_body]
fn emit_load(f: &mut wasm_encoder::Function, op: Load, arg: MemArg)
    ensures
        emitted(*final(f)) == emitted(*old(f)).push(load_ins(op, arg)),
        declared_locals(*final(f)) == declared_locals(*old(f)),
        function_bytes(*old(f)) == body_encoding(declared_locals(*old(f)), emitted(*old(f)))
            ==> function_bytes(*final(f)) == body_encoding(declared_locals(*final(f)), emitted(*final(f))),
{
    let target = MemArgTarget::Memory(arg.memory_index);
    let a = WasmMemArg { offset: arg.offset, align: arg.align, target, ordering: None };
    f.instruction(&match op {
        Load::I32 => Instruction::I32Load(a), Load::I64 => Instruction::I64Load(a),
        Load::F32 => Instruction::F32Load(a), Load::F64 => Instruction::F64Load(a),
        Load::I32U8 => Instruction::I32Load8U(a), Load::I32S8 => Instruction::I32Load8S(a),
        Load::I32S16 => Instruction::I32Load16S(a), Load::I32U16 => Instruction::I32Load16U(a),
    });
}

/// `Function::instruction` with a store at memory immediate `arg`.
#[verifier::external_body]
fn emit_store(f: &mut wasm_encoder::Function, op: Store, arg: MemArg)
    ensures
        emitted(*final(f)) == emitted(*old(f)).push(store_ins(op, arg)),
        declared_locals(*final(f)) == declared_locals(*old(f)),
        function_bytes(*old(f)) == body_encoding(declared_locals(*old(f)), emitted(*old(f)))
            ==> function_bytes(*final(f)) == body_encoding(declared_locals(*final(f)), emitted(*final(f))),
{
    let target = MemArgTarget::Memory(arg.memory_index);
    let a = WasmMemArg { offset: arg.offset, align: arg.align, target, ordering: None };
    f.instruction(&match op {
        Store::I32 => Instruction::I32Store(a), Store::I64 => Instruction::I64Store(a),
        Store::F32 => Instruction::F32Store(a), Store::F64 => Instruction::F64Store(a),
        Store::I32Low8 => Instruction::I32Store8(a), Store::I32Low16 => Instruction::I32Store16(a),
    });
}

/// `Function::instruction` with `memory.size`, `memory.grow` or
/// `memory.fill` on memory `index`.
#[verifier::external_body]
fn emit_memory(f: &mut wasm_encoder::Function, op: Memory, index: u32)
    ensures
        emitted(*final(f)) == emitted(*old(f)).push(memory_ins(op, index)),
        declared_locals(*final(f)) == declared_locals(*old(f)),
        function_bytes(*old(f)) == body_encoding(declared_locals(*old(f)), emitted(*old(f)))
            ==> function_bytes(*final(f)) == body_encoding(declared_locals(*final(f)), emitted(*final(f))),
{
    f.instruction(&match op {
        Memory::Size => Instruction::MemorySize(index),
        Memory::Grow => Instruction::MemoryGrow(index),
        Memory::Fill => Instruction::MemoryFill(index),
    });
}

/// `Function::instruction` with `memory.copy` from `src_mem` to `dst_mem`.
#[verifier::external_body]
fn emit_memory_copy(f: &mut wasm_encoder::Function, src_mem: u32, dst_mem: u32)
    ensures
        emitted(*final(f)) == emitted(*old(f)).push(Ins::MemoryCopy { src_mem, dst_mem }),
        declared_locals(*final(f)) == declared_locals(*old(f)),
        function_bytes(*old(f)) == body_encoding(declared_locals(*old(f)), emitted(*old(f)))
            ==> function_bytes(*final(f)) == body_encoding(declared_locals(*final(f)), emitted(*final(f))),
{
    f.instruction(&Instruction::MemoryCopy { src_mem, dst_mem });
}

/// `Function::instruction` with `i32.const value`.
#[verifier::external_body]
fn emit_i32_const(f: &mut wasm_encoder::Function, value: i32)
    ensures
        emitted(*final(f)) == emitted(*old(f)).push(Ins::I32Const(value)),
        declared_locals(*final(f)) == declared_locals(*old(f)),
        function_bytes(*old(f)) == body_encoding(declared_locals(*old(f)), emitted(*old(f)))
            ==> function_bytes(*final(f)) == body_encoding(declared_locals(*final(f)), emitted(*final(f))),
{
    f.instruction(&Instruction::I32Const(value));
}

/// `Function::instruction` with `i64.const value`.
#[verifier::external_body]
fn emit_i64_const(f: &mut wasm_encoder::Function, value: i64)
    ensures
        emitted(*final(f)) == emitted(*old(f)).push(Ins::I64Const(value)),
        declared_locals(*final(f)) == declared_locals(*old(f)),
        function_bytes(*old(f)) == body_encoding(declared_locals(*old(f)), emitted(*old(f)))
            ==> function_bytes(*final(f)) == body_encoding(declared_locals(*final(f)), emitted(*final(f))),
{
    f.instruction(&Instruction::I64Const(value));
}

/// `Function::instruction` with `f64.const` of IEEE-754 bit pattern `bits`.
#[verifier::external_body]
fn emit_f64_const(f: &mut wasm_encoder::Function, bits: u64)
    ensures
        emitted(*final(f)) == emitted(*old(f)).push(Ins::F64Const(bits)),
        declared_locals(*final(f)) == declared_locals(*old(f)),
        function_bytes(*old(f)) == body_encoding(declared_locals(*old(f)), emitted(*old(f)))
            ==> function_bytes(*final(f)) == body_encoding(declared_locals(*final(f)), emitted(*final(f))),
{
    f.instruction(&Instruction::F64Const(Ieee64::new(bits)));
}

/// `Function::instruction` with an i32 test, comparison or arithmetic op.
#[verifier::external_body]
fn emit_i32(f: &mut wasm_encoder::Function, op: I32Op)
    ensures
        emitted(*final(f)) == emitted(*old(f)).push(i32_ins(op)),
        declared_locals(*final(f)) == declared_locals(*old(f)),
        function_bytes(*old(f)) == body_encoding(declared_locals(*old(f)), emitted(*old(f)))
            ==> function_bytes(*final(f)) == body_encoding(declared_locals(*final(f)), emitted(*final(f))),
{
    f.instruction(&match op {
        I32Op::Eqz => Instruction::I32Eqz, I32Op::Eq => Instruction::I32Eq,
        I32Op::Ne => Instruction::I32Ne, I32Op::LtS => Instruction::I32LtS,
        I32Op::LtU => Instruction::I32LtU, I32Op::GtS => Instruction::I32GtS,
        I32Op::GtU => Instruction::I32GtU, I32Op::LeS => Instruction::I32LeS,
        I32Op::LeU => Instruction::I32LeU, I32Op::GeS => Instruction::I32GeS,
        I32Op::GeU => Instruction::I32GeU, I32Op::Add => Instruction::I32Add,
        I32Op::Sub => Instruction::I32Sub, I32Op::Mul => Instruction::I32Mul,
    });
}

/// `Function::instruction` with an i32 division or bitwise op.
#[verifier::external_body]
fn emit_i32_bits(f: &mut wasm_encoder::Function, op: I32Bits)
    ensures
        emitted(*final(f)) == emitted(*old(f)).push(i32_bits_ins(op)),
        declared_locals(*final(f)) == declared_locals(*old(f)),
        function_bytes(*old(f)) == body_encoding(declared_locals(*old(f)), emitted(*old(f)))
            ==> function_bytes(*final(f)) == body_encoding(declared_locals(*final(f)), emitted(*final(f))),
{
    f.instruction(&match op {
        I32Bits::DivS => Instruction::I32DivS, I32Bits::DivU => Instruction::I32DivU,
        I32Bits::RemS => Instruction::I32RemS, I32Bits::And => Instruction::I32And,
        I32Bits::Or => Instruction::I32Or, I32Bits::Shl => Instruction::I32Shl,
        I32Bits::ShrU => Instruction::I32ShrU,
    });
}

/// `Function::instruction` with an i64 test, comparison or arithmetic op.
#[verifier::external_body]
fn emit_i64(f: &mut wasm_encoder::Function, op: I64Op)
    ensures
        emitted(*final(f)) == emitted(*old(f)).push(i64_ins(op)),
        declared_locals(*final(f)) == declared_locals(*old(f)),
        function_bytes(*old(f)) == body_encoding(declared_locals(*old(f)), emitted(*old(f)))
            ==> function_bytes(*final(f)) == body_encoding(declared_locals(*final(f)), emitted(*final(f))),
{
    f.instruction(&match op {
        I64Op::Eqz => Instruction::I64Eqz, I64Op::Eq => Instruction::I64Eq,
        I64Op::Ne => Instruction::I64Ne,
        I64Op::LtS => Instruction::I64LtS, I64Op::LtU => Instruction::I64LtU,
        I64Op::GtS => Instruction::I64GtS, I64Op::GtU => Instruction::I64GtU,
        I64Op::LeS => Instruction::I64LeS, I64Op::LeU => Instruction::I64LeU,
        I64Op::GeS => Instruction::I64GeS, I64Op::GeU => Instruction::I64GeU,
        I64Op::Add => Instruction::I64Add,
        I64Op::Sub => Instruction::I64Sub, I64Op::Mul => Instruction::I64Mul,
    });
}

/// `Function::instruction` with an i64 division, remainder or bitwise op.
#[verifier::external_body]
fn emit_i64_bits(f: &mut wasm_encoder::Function, op: I64Bits)
    ensures
        emitted(*final(f)) == emitted(*old(f)).push(i64_bits_ins(op)),
        declared_locals(*final(f)) == declared_locals(*old(f)),
        function_bytes(*old(f)) == body_encoding(declared_locals(*old(f)), emitted(*old(f)))
            ==> function_bytes(*final(f)) == body_encoding(declared_locals(*final(f)), emitted(*final(f))),
{
    f.instruction(&match op {
        I64Bits::DivS => Instruction::I64DivS, I64Bits::DivU => Instruction::I64DivU,
        I64Bits::RemS => Instruction::I64RemS, I64Bits::RemU => Instruction::I64RemU,
        I64Bits::Or => Instruction::I64Or,
        I64Bits::Shl => Instruction::I64Shl, I64Bits::ShrS => Instruction::I64ShrS,
        I64Bits::ShrU => Instruction::I64ShrU,
    });
}

/// `Function::instruction` with an f64 comparison or arithmetic op.
#[verifier::external_body]
fn emit_float(f: &mut wasm_encoder::Function, op: FloatOp)
    ensures
        emitted(*final(f)) == emitted(*old(f)).push(float_ins(op)),
        declared_locals(*final(f)) == declared_locals(*old(f)),
        function_bytes(*old(f)) == body_encoding(declared_locals(*old(f)), emitted(*old(f)))
            ==> function_bytes(*final(f)) == body_encoding(declared_locals(*final(f)), emitted(*final(f))),
{
    f.instruction(&match op {
        FloatOp::Eq => Instruction::F64Eq, FloatOp::Ne => Instruction::F64Ne,
        FloatOp::Lt => Instruction::F64Lt, FloatOp::Le => Instruction::F64Le,
        FloatOp::Gt => Instruction::F64Gt, FloatOp::Ge => Instruction::F64Ge,
        FloatOp::Abs => Instruction::F64Abs, FloatOp::Neg => Instruction::F64Neg,
        FloatOp::Trunc => Instruction::F64Trunc,
        FloatOp::Add => Instruction::F64Add,
        FloatOp::Sub => Instruction::F64Sub, FloatOp::Mul => Instruction::F64Mul,
        FloatOp::Div => Instruction::F64Div,
    });
}

/// `Function::instruction` with a numeric conversion.
#[verifier::external_body]
fn emit_convert(f: &mut wasm_encoder::Function, op: Convert)
    ensures
        emitted(*final(f)) == emitted(*old(f)).push(convert_ins(op)),
        declared_locals(*final(f)) == declared_locals(*old(f)),
        function_bytes(*old(f)) == body_encoding(declared_locals(*old(f)), emitted(*old(f)))
            ==> function_bytes(*final(f)) == body_encoding(declared_locals(*final(f)), emitted(*final(f))),
{
    f.instruction(&match op {
        Convert::I32WrapI64 => Instruction::I32WrapI64,
        Convert::I64ExtendI32S => Instruction::I64ExtendI32S,
        Convert::I64ExtendI32U => Instruction::I64ExtendI32U,
        Convert::F64ConvertI64S => Instruction::F64ConvertI64S,
        Convert::F64ConvertI64U => Instruction::F64ConvertI64U,
        Convert::F64ReinterpretI64 => Instruction::F64ReinterpretI64,
        Convert::I64ReinterpretF64 => Instruction::I64ReinterpretF64,
        Convert::I64TruncSatF64S => Instruction::I64TruncSatF64S,
        Convert::I64TruncF64S => Instruction::I64TruncF64S,
        Convert::I64TruncF64U => Instruction::I64TruncF64U,
        Convert::F64ConvertI32S => Instruction::F64ConvertI32S,
        Convert::F64ConvertI32U => Instruction::F64ConvertI32U,
    });
}

/// `Function::instruction` with a conversion that produces or takes an `f32`.
#[verifier::external_body]
fn emit_single(f: &mut wasm_encoder::Function, op: Single)
    ensures
        emitted(*final(f)) == emitted(*old(f)).push(single_ins(op)),
        declared_locals(*final(f)) == declared_locals(*old(f)),
        function_bytes(*old(f)) == body_encoding(declared_locals(*old(f)), emitted(*old(f)))
            ==> function_bytes(*final(f)) == body_encoding(declared_locals(*final(f)), emitted(*final(f))),
{
    f.instruction(&match op {
        Single::F32ConvertI64S => Instruction::F32ConvertI64S,
        Single::F32ConvertI64U => Instruction::F32ConvertI64U,
        Single::F32DemoteF64 => Instruction::F32DemoteF64,
        Single::F64PromoteF32 => Instruction::F64PromoteF32,
        Single::F32ReinterpretI32 => Instruction::F32ReinterpretI32,
        Single::F32Neg => Instruction::F32Neg,
    });
}

/// `Function::instruction` with `f32.const` of IEEE-754 bit pattern `bits`.
#[verifier::external_body]
fn emit_f32_const(f: &mut wasm_encoder::Function, bits: u32)
    ensures
        emitted(*final(f)) == emitted(*old(f)).push(Ins::F32Const(bits)),
        declared_locals(*final(f)) == declared_locals(*old(f)),
        function_bytes(*old(f)) == body_encoding(declared_locals(*old(f)), emitted(*old(f)))
            ==> function_bytes(*final(f)) == body_encoding(declared_locals(*final(f)), emitted(*final(f))),
{
    f.instruction(&Instruction::F32Const(Ieee32::new(bits)));
}

/// Appends `br_table` over the depths `0, 1, …, targets − 1` and `default`.
fn emit_table_branch(f: &mut wasm_encoder::Function, targets: u32, default: u32)
    ensures
        emitted(*final(f)) == emitted(*old(f)).push(Ins::BrTable { targets, default }),
        declared_locals(*final(f)) == declared_locals(*old(f)),
        function_bytes(*old(f)) == body_encoding(declared_locals(*old(f)), emitted(*old(f)))
            ==> function_bytes(*final(f)) == body_encoding(declared_locals(*final(f)), emitted(*final(f))),
{
    let mut table: Vec<u32> = Vec::new();
    let mut i: u32 = 0;
    while i < targets
        invariant
            i <= targets,
            table@.len() == i,
            forall|k: int| 0 <= k < table@.len() ==> table@[k] == k,
        decreases targets - i,
    {
        table.push(i);
        i = i + 1;
    }
    emit_br_table(f, &table, default);
}

/// Appends `ins` to `f`.
#[verifier::rlimit(40)]
pub fn emit(f: &mut wasm_encoder::Function, ins: Ins)
    ensures
        emitted(*final(f)) == emitted(*old(f)).push(ins),
        declared_locals(*final(f)) == declared_locals(*old(f)),
        function_bytes(*old(f)) == body_encoding(declared_locals(*old(f)), emitted(*old(f)))
            ==> function_bytes(*final(f)) == body_encoding(declared_locals(*final(f)), emitted(*final(f))),
{
    match ins {
        Ins::Unreachable => emit_plain(f, Plain::Unreachable),
        Ins::Block(ty) => emit_structured(f, Structured::Block, ty),
        Ins::Loop(ty) => emit_structured(f, Structured::Loop, ty),
        Ins::If(ty) => emit_structured(f, Structured::If, ty),
        Ins::Else => emit_plain(f, Plain::Else),
        Ins::End => emit_plain(f, Plain::End),
        Ins::Br(d) => emit_branch(f, Branch::Br, d),
        Ins::BrIf(d) => emit_branch(f, Branch::BrIf, d),
        Ins::BrTable { targets, default } => emit_table_branch(f, targets, default),
        Ins::Return => emit_plain(f, Plain::Return),
        Ins::Call(i) => emit_call(f, i),
        Ins::CallIndirect { type_index, table_index } => emit_call_indirect(f, type_index, table_index),
        Ins::Drop => emit_plain(f, Plain::Drop),
        Ins::LocalGet(i) => emit_variable(f, Variable::LocalGet, i),
        Ins::LocalSet(i) => emit_variable(f, Variable::LocalSet, i),
        Ins::LocalTee(i) => emit_variable(f, Variable::LocalTee, i),
        Ins::GlobalGet(i) => emit_variable(f, Variable::GlobalGet, i),
        Ins::GlobalSet(i) => emit_variable(f, Variable::GlobalSet, i),
        Ins::I32Load(a) => emit_load(f, Load::I32, a),
        Ins::I64Load(a) => emit_load(f, Load::I64, a),
        Ins::F32Load(a) => emit_load(f, Load::F32, a),
        Ins::F64Load(a) => emit_load(f, Load::F64, a),
        Ins::I32Load8U(a) => emit_load(f, Load::I32U8, a),
        Ins::I32Load8S(a) => emit_load(f, Load::I32S8, a),
        Ins::I32Load16U(a) => emit_load(f, Load::I32U16, a),
        Ins::I32Load16S(a) => emit_load(f, Load::I32S16, a),
        Ins::I32Store(a) => emit_store(f, Store::I32, a),
        Ins::I64Store(a) => emit_store(f, Store::I64, a),
        Ins::F32Store(a) => emit_store(f, Store::F32, a),
        Ins::F64Store(a) => emit_store(f, Store::F64, a),
        Ins::I32Store8(a) => emit_store(f, Store::I32Low8, a),
        Ins::I32Store16(a) => emit_store(f, Store::I32Low16, a),
        Ins::MemorySize(i) => emit_memory(f, Memory::Size, i),
        Ins::MemoryGrow(i) => emit_memory(f, Memory::Grow, i),
        Ins::MemoryCopy { src_mem, dst_mem } => emit_memory_copy(f, src_mem, dst_mem),
        Ins::MemoryFill(i) => emit_memory(f, Memory::Fill, i),
        Ins::I32Const(v) => emit_i32_const(f, v),
        Ins::I64Const(v) => emit_i64_const(f, v),
        Ins::F32Const(bits) => emit_f32_const(f, bits),
        Ins::F64Const(bits) => emit_f64_const(f, bits),
        Ins::I32Eqz => emit_i32(f, I32Op::Eqz),
        Ins::I32Eq => emit_i32(f, I32Op::Eq),
        Ins::I32Ne => emit_i32(f, I32Op::Ne),
        Ins::I32LtS => emit_i32(f, I32Op::LtS),
        Ins::I32LtU => emit_i32(f, I32Op::LtU),
        Ins::I32GtS => emit_i32(f, I32Op::GtS),
        Ins::I32GtU => emit_i32(f, I32Op::GtU),
        Ins::I32LeS => emit_i32(f, I32Op::LeS),
        Ins::I32LeU => emit_i32(f, I32Op::LeU),
        Ins::I32GeS => emit_i32(f, I32Op::GeS),
        Ins::I32GeU => emit_i32(f, I32Op::GeU),
        Ins::I32Add => emit_i32(f, I32Op::Add),
        Ins::I32Sub => emit_i32(f, I32Op::Sub),
        Ins::I32Mul => emit_i32(f, I32Op::Mul),
        Ins::I32DivS => emit_i32_bits(f, I32Bits::DivS),
        Ins::I32DivU => emit_i32_bits(f, I32Bits::DivU),
        Ins::I32RemS => emit_i32_bits(f, I32Bits::RemS),
        Ins::I32And => emit_i32_bits(f, I32Bits::And),
        Ins::I32Or => emit_i32_bits(f, I32Bits::Or),
        Ins::I32Shl => emit_i32_bits(f, I32Bits::Shl),
        Ins::I32ShrU => emit_i32_bits(f, I32Bits::ShrU),
        Ins::I64Eqz => emit_i64(f, I64Op::Eqz),
        Ins::I64Eq => emit_i64(f, I64Op::Eq),
        Ins::I64Ne => emit_i64(f, I64Op::Ne),
        Ins::I64LtS => emit_i64(f, I64Op::LtS),
        Ins::I64LtU => emit_i64(f, I64Op::LtU),
        Ins::I64GtS => emit_i64(f, I64Op::GtS),
        Ins::I64GtU => emit_i64(f, I64Op::GtU),
        Ins::I64LeS => emit_i64(f, I64Op::LeS),
        Ins::I64LeU => emit_i64(f, I64Op::LeU),
        Ins::I64GeS => emit_i64(f, I64Op::GeS),
        Ins::I64GeU => emit_i64(f, I64Op::GeU),
        Ins::I64Add => emit_i64(f, I64Op::Add),
        Ins::I64Sub => emit_i64(f, I64Op::Sub),
        Ins::I64Mul => emit_i64(f, I64Op::Mul),
        Ins::I64DivS => emit_i64_bits(f, I64Bits::DivS),
        Ins::I64DivU => emit_i64_bits(f, I64Bits::DivU),
        Ins::I64RemS => emit_i64_bits(f, I64Bits::RemS),
        Ins::I64RemU => emit_i64_bits(f, I64Bits::RemU),
        Ins::I64Or => emit_i64_bits(f, I64Bits::Or),
        Ins::I64Shl => emit_i64_bits(f, I64Bits::Shl),
        Ins::I64ShrS => emit_i64_bits(f, I64Bits::ShrS),
        Ins::I64ShrU => emit_i64_bits(f, I64Bits::ShrU),
        Ins::F64Eq => emit_float(f, FloatOp::Eq),
        Ins::F64Ne => emit_float(f, FloatOp::Ne),
        Ins::F64Lt => emit_float(f, FloatOp::Lt),
        Ins::F64Le => emit_float(f, FloatOp::Le),
        Ins::F64Gt => emit_float(f, FloatOp::Gt),
        Ins::F64Ge => emit_float(f, FloatOp::Ge),
        Ins::F64Abs => emit_float(f, FloatOp::Abs),
        Ins::F64Neg => emit_float(f, FloatOp::Neg),
        Ins::F64Trunc => emit_float(f, FloatOp::Trunc),
        Ins::F64Add => emit_float(f, FloatOp::Add),
        Ins::F64Sub => emit_float(f, FloatOp::Sub),
        Ins::F64Mul => emit_float(f, FloatOp::Mul),
        Ins::F64Div => emit_float(f, FloatOp::Div),
        Ins::I32WrapI64 => emit_convert(f, Convert::I32WrapI64),
        Ins::I64ExtendI32S => emit_convert(f, Convert::I64ExtendI32S),
        Ins::I64ExtendI32U => emit_convert(f, Convert::I64ExtendI32U),
        Ins::F64ConvertI64S => emit_convert(f, Convert::F64ConvertI64S),
        Ins::F64ConvertI64U => emit_convert(f, Convert::F64ConvertI64U),
        Ins::F64ReinterpretI64 => emit_convert(f, Convert::F64ReinterpretI64),
        Ins::I64ReinterpretF64 => emit_convert(f, Convert::I64ReinterpretF64),
        Ins::I64TruncSatF64S => emit_convert(f, Convert::I64TruncSatF64S),
        Ins::I64TruncF64S => emit_convert(f, Convert::I64TruncF64S),
        Ins::I64TruncF64U => emit_convert(f, Convert::I64TruncF64U),
        Ins::F64ConvertI32S => emit_convert(f, Convert::F64ConvertI32S),
        Ins::F64ConvertI32U => emit_convert(f, Convert::F64ConvertI32U),
        Ins::F32ConvertI64S => emit_single(f, Single::F32ConvertI64S),
        Ins::F32ConvertI64U => emit_single(f, Single::F32ConvertI64U),
        Ins::F32DemoteF64 => emit_single(f, Single::F32DemoteF64),
        Ins::F64PromoteF32 => emit_single(f, Single::F64PromoteF32),
        Ins::F32ReinterpretI32 => emit_single(f, Single::F32ReinterpretI32),
        Ins::F32Neg => emit_single(f, Single::F32Neg),
    }
}

/// The `wasm_encoder::Function` for `body`: its locals, then its code.
pub fn encode(body: &Body) -> (f: wasm_encoder::Function)
    requires
        body.locals@.len() <= u32::MAX,
    ensures
        declared_locals(f) == body.locals@,
        emitted(f) == body.code@,
        function_bytes(f) == body_encoding(body.locals@, body.code@),
{
    let mut f = new_function(&body.locals);
    let n = body.code.len();
    let mut i: usize = 0;
    while i < n
        invariant
            n == body.code@.len(),
            i <= n,
            declared_locals(f) == body.locals@,
            emitted(f) == body.code@.take(i as int),
            faithful(f),
        decreases n - i,
    {
        emit(&mut f, body.code[i]);
        assert(body.code@.take(i as int + 1) =~= body.code@.take(i as int).push(body.code@[i as int]));
        i = i + 1;
    }
    assert(body.code@.take(n as int) =~= body.code@);
    f
}

/// The `wasm_encoder::Function` of each body, in order.
pub fn encode_all(bodies: &Vec<Body>) -> (fs: Vec<wasm_encoder::Function>)
    requires
        forall|i: int| 0 <= i < bodies@.len() ==> (#[trigger] bodies@[i]).locals@.len() <= u32::MAX,
    ensures
        fs@.len() == bodies@.len(),
        forall|i: int| 0 <= i < bodies@.len() ==> {
            &&& #[trigger] emitted(fs@[i]) == bodies@[i].code@
            &&& declared_locals(fs@[i]) == bodies@[i].locals@
        },
{
    let mut fs: Vec<wasm_encoder::Function> = Vec::new();
    let n = bodies.len();
    let mut i: usize = 0;
    while i < n
        invariant
            n == bodies@.len(),
            i <= n,
            fs@.len() == i,
            forall|i: int| 0 <= i < bodies@.len() ==> (#[trigger] bodies@[i]).locals@.len() <= u32::MAX,
            forall|j: int| 0 <= j < i ==> {
                &&& #[trigger] emitted(fs@[j]) == bodies@[j].code@
                &&& declared_locals(fs@[j]) == bodies@[j].locals@
            },
        decreases n - i,
    {
        let f = encode(&bodies[i]);
        fs.push(f);
        i = i + 1;
    }
    fs
}

} // verus!
