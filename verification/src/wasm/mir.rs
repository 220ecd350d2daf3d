//! What the wasm lowering reads of a MIR function body: its instructions,
//! block terminators, the runtime builtins it calls, and the layouts of the
//! aggregates, enums, results, optionals and containers they touch.
use vstd::prelude::*;
use crate::wasm::program::{SymbolId, TypeId};
use crate::wasm::select::{BinaryOp, NumericKind};

verus! {

/// An SSA value of a MIR function.
#[derive(Clone, Copy, Debug, PartialEq, Eq, Structural)]
pub struct ValueId(pub u32);

/// A local slot of a MIR function (parameters first).
#[derive(Clone, Copy, Debug, PartialEq, Eq, Structural)]
pub struct LocalId(pub usize);

/// A basic block of a MIR function, by position.
#[derive(Clone, Copy, Debug, PartialEq, Eq, Structural)]
pub struct BlockId(pub usize);

/// A unary operator of the source language.
#[derive(Clone, Copy, Debug, PartialEq, Eq, Structural)]
pub enum UnaryOp {
    Negate,
    Not,
    Positive,
}

/// A runtime builtin that a `RuntimeCall` invokes.
#[derive(Clone, Debug)]
pub enum BuiltinFunction {
    Print,
    Out,
    ListNew,
    ListLen,
    ListIsEmpty,
    ListPush,
    ListAt,
    ListAtUnchecked,
    ListSet,
    ListPop,
    ListClear,
    ListCapacity,
    ListReserve,
    ListTruncate,
    ListSwap,
    ListReverse,
    ListShrinkToFit,
    ListFirst,
    ListLast,
    ListInsert,
    ListRemove,
    ListExtend,
    ListSlice,
    ListContains,
    ListFindIndex,
    ListJoin,
    BytesNew,
    BytesLen,
    BytesIsEmpty,
    BytesAt,
    BytesByteAt,
    BytesSet,
    BytesClone,
    BytesToStr,
    BytesCapacity,
    BytesReserve,
    BytesFirst,
    BytesLast,
    BytesSlice,
    BytesPush,
    BytesExtend,
    BytesTruncate,
    BytesResize,
    BytesFind,
    BytesStartsWith,
    BytesEndsWith,
    BytesCompare,
    BytesClear,
    BytesToHex,
    BytesToList,
    BytesFromList,
    BytesReadInt { width: u8, big_endian: bool, signed: bool },
    BytesWriteInt { width: u8, big_endian: bool },
    StringByteLen,
    StringCharLen,
    StringIsEmpty,
    StringToBytes,
    StringEquals,
    StringCompare,
    StringContains,
    StringStartsWith,
    StringEndsWith,
    StringFind,
    StringRfind,
    StringSubstring,
    StringRepeat,
    StringStripPrefix,
    StringStripSuffix,
    StringTrim,
    StringTrimStart,
    StringTrimEnd,
    StringToLower,
    StringToUpper,
    StringToI64,
    StringToF64,
    StringCharAt,
    StringChars,
    StringPadLeft,
    StringPadRight,
    StringSplit,
    StringSplitWhitespace,
    StringLines,
    StringReplace,
    MapNew,
    MapLen,
    MapIsEmpty,
    MapCapacity,
    MapReserve,
    MapSet,
    MapGet,
    MapGetOr,
    MapContainsKey,
    MapRemove,
    MapClear,
    MapKeys,
    MapValues,
    FloatToInt,
    IntToFloat,
    NumericCast { from: NumericKind, to: NumericKind },
    NumericToStr,
    BoolToStr,
    ArrayLen,
    ArrayAt,
    ArrayAtUnchecked,
    ArraySet,
    ArrayFirst,
    ArrayLast,
    ArrayFill,
    ArrayToList,
    ArrayContains,
    /// Any builtin the wasm backend does not lower, with its debug rendering.
    Other { text: String },
}

/// One MIR instruction, with the operands the lowering reads.
#[derive(Clone, Debug)]
#[allow(inconsistent_fields)]
pub enum Instruction {
    ConstInt { value: ValueId, literal: i64 },
    ConstBool { value: ValueId, literal: bool },
    /// A float constant: the IEEE-754 bits of the literal, and of the literal
    /// rounded to single precision (used when the type is four bytes wide).
    ConstFloat { value: ValueId, bits: u64, single_bits: u32, ty: Option<TypeId> },
    ConstString { value: ValueId, literal: String },
    ConstNull { value: ValueId, ty: Option<TypeId> },
    Copy { value: ValueId, local: LocalId },
    Move { value: ValueId, local: LocalId },
    Borrow { value: ValueId, local: LocalId },
    Store { local: LocalId, value: ValueId },
    Binary { operand_type: Option<TypeId>, value: ValueId, op: BinaryOp, left: ValueId, right: ValueId },
    Unary { value: ValueId, op: UnaryOp, operand: ValueId },
    Call { value: Option<ValueId>, result_type: Option<TypeId>, target: SymbolId, arguments: Vec<ValueId> },
    CallIndirect {
        value: Option<ValueId>,
        result_type: Option<TypeId>,
        callable_ty: Option<TypeId>,
        callee: ValueId,
        arguments: Vec<ValueId>,
    },
    RuntimeCall {
        value: Option<ValueId>,
        result_type: Option<TypeId>,
        function: BuiltinFunction,
        arguments: Vec<ValueId>,
    },
    AwaitFuture { value: ValueId, handle: ValueId, result_type: TypeId },
    Spawn { value: ValueId, callable: SymbolId, result_type: TypeId },
    StartFuture { value: Option<ValueId>, result_type: Option<TypeId>, target: SymbolId, arguments: Vec<ValueId> },
    PollFuture { value: Option<ValueId>, ready: ValueId, frame: LocalId, result_type: TypeId },
    PollChannelRecv { value: ValueId, present: ValueId, ready: ValueId },
    FrameState { value: ValueId, frame: LocalId },
    SetFrameState { frame: LocalId, state: u32 },
    SetFrameChild { frame: LocalId, value: ValueId },
    SpillValue { slot: usize, value: ValueId },
    ReloadValue { value: ValueId, slot: usize },
    MakeFunction { value: ValueId, symbol: SymbolId },
    Allocate { value: ValueId, ty: TypeId },
    LoadRaw { value: ValueId, pointer: ValueId, offset: i64, ty: TypeId },
    StoreRaw { pointer: ValueId, offset: i64, value: ValueId, ty: TypeId },
    ConcatString { value: ValueId, left: ValueId, right: ValueId },
    FormatValue { value: ValueId, operand: ValueId, ty: TypeId, unsigned: bool },
    Retain { value: ValueId, ty: TypeId },
    Release { value: ValueId, ty: TypeId },
    Drop { local: LocalId },
    TypeRetain { value: ValueId },
    TypeRelease { value: ValueId },
    MakeUnique { value: ValueId, operand: ValueId, ty: TypeId },
    ResultPayload { value: ValueId, source: ValueId, ok: bool },
    ResultState { result: ValueId, value: ValueId, ok: bool },
    ConstructResult { value: ValueId, ty: TypeId, ok: bool, payload: ValueId },
    OptionalWrap { value: ValueId, operand: ValueId, ty: TypeId, inner: TypeId },
    OptionalUnwrap { value: ValueId, operand: ValueId, inner: TypeId },
    OptionalIsPresent { value: ValueId, operand: ValueId, inner: TypeId },
    OptionalFromValue { value: ValueId, present: ValueId, payload: ValueId, ty: TypeId, inner: TypeId },
    ConstructArray { value: ValueId, ty: TypeId, elements: Vec<ValueId> },
    Construct { value: ValueId, ty: TypeId, fields: Vec<(String, ValueId)> },
    Field { value: ValueId, base: ValueId, name: String },
    FieldStore { base: LocalId, name: String, value: ValueId },
    BorrowField { value: ValueId, base: LocalId, name: String },
    CopyAggregate { value: ValueId, source: ValueId, ty: TypeId },
    EnumTag { result: ValueId, value: ValueId, ty: TypeId },
    ConstructEnum { value: ValueId, ty: TypeId, variant_index: usize, payload: Vec<ValueId> },
    EnumPayload { value: ValueId, source: ValueId, ty: TypeId, variant_index: usize, field_index: usize },
    IteratorInit { iterator: ValueId, iterable: ValueId, length: Option<u64>, stride: Option<u64> },
    IteratorNext { has_value: ValueId, value: ValueId, index: ValueId, iterator: ValueId, element_type: TypeId },
    ConstructVariadicBuffer { value: ValueId, element: TypeId, elements: Vec<ValueId> },
    VariadicAt { value: ValueId, data: ValueId, index: ValueId, element: TypeId },
    /// A closure construction, which the wasm backend does not lower; `text`
    /// is its debug rendering.
    MakeClosure { value: ValueId, text: String },
    /// An interface construction, which the wasm backend does not lower.
    ConstructInterface { value: ValueId, ty: TypeId, text: String },
    /// Any other instruction the wasm backend does not lower.
    Other { text: String },
}

/// How a basic block ends.
#[derive(Clone, Copy, Debug)]
pub enum Terminator {
    Jump(BlockId),
    Branch { condition: ValueId, then_block: BlockId, else_block: BlockId },
    Return(Option<ValueId>),
    Unreachable,
    PollReturn(i32),
}

/// A basic block: straight-line instructions and a terminator.
#[derive(Clone, Debug)]
pub struct BasicBlock {
    pub instructions: Vec<Instruction>,
    pub terminator: Terminator,
}

/// A named field of an aggregate or enum variant, at a byte offset.
#[derive(Clone, Debug)]
pub struct FieldLayout {
    pub name: String,
    pub offset: u64,
    pub ty: TypeId,
}

/// The fields of one enum variant.
#[derive(Clone, Debug)]
pub struct VariantLayout {
    pub fields: Vec<FieldLayout>,
}

/// Where an enum stores its tag and each variant's payload.
#[derive(Clone, Debug)]
pub struct EnumLayout {
    pub tag_offset: u64,
    pub tag_size: u64,
    pub variants: Vec<VariantLayout>,
}

/// Where a `result[ok, err]` stores its tag and payloads.
#[derive(Clone, Copy, Debug)]
pub struct ResultLayout {
    pub tag_offset: u64,
    pub ok_offset: u64,
    pub err_offset: u64,
    pub ok: TypeId,
    pub err: TypeId,
}

/// What the layout table records of one type besides its size and
/// representation: whether it is stored by reference as an aggregate,
/// whether it is unsigned, and its shape when it is a container, array,
/// optional, result, struct or enum.
#[derive(Clone, Debug)]
pub struct TypeShape {
    pub aggregate: bool,
    pub unsigned: bool,
    pub list_element: Option<TypeId>,
    pub map_entry: Option<(TypeId, TypeId)>,
    pub array: Option<(TypeId, u64)>,
    pub optional_inner: Option<TypeId>,
    pub result: Option<ResultLayout>,
    pub fields: Option<Vec<FieldLayout>>,
    pub enum_layout: Option<EnumLayout>,
}

impl TypeShape {
    /// The shape of a scalar type: no structure, signed.
    pub fn plain() -> (r: TypeShape)
        ensures
            !r.aggregate,
            !r.unsigned,
            r.list_element is None,
            r.map_entry is None,
            r.array is None,
            r.optional_inner is None,
            r.result is None,
            r.fields is None,
            r.enum_layout is None,
    {
        TypeShape {
            aggregate: false,
            unsigned: false,
            list_element: None,
            map_entry: None,
            array: None,
            optional_inner: None,
            result: None,
            fields: None,
            enum_layout: None,
        }
    }
}

/// A parameter or completion slot of an async frame.
#[derive(Clone, Copy, Debug)]
pub struct FrameSlot {
    pub offset: u64,
    pub ty: TypeId,
}

/// The frame an async function's state machine keeps its state in.
#[derive(Clone, Debug)]
pub struct FrameLayout {
    pub size: u64,
    pub parameters: Vec<FrameSlot>,
    pub completion: Option<FrameSlot>,
}

} // verus!
