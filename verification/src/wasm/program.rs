//! What the wasm backend reads of a MIR program.
//!
//! The backend needs, of each MIR function, its symbol, its signature shape,
//! the symbols its instructions reference (calls, started futures, function
//! values, closures and spawns, in instruction order) and its string literals
//! (in instruction order); of each extern, its symbol, link name and
//! signature; and the program's type layouts.
use vstd::prelude::*;
use crate::wasm::mir::{BasicBlock, FrameLayout, TypeShape};

verus! {

/// A program symbol.
#[derive(Clone, Copy, Debug, PartialEq, Eq, Structural)]
pub struct SymbolId(pub u32);

/// A semantic type, as an index into the layout table.
#[derive(Clone, Copy, Debug, PartialEq, Eq, Structural)]
pub struct TypeId(pub usize);

/// How values of a type are represented.
#[derive(Clone, Copy, Debug, PartialEq, Eq, Structural)]
pub enum ValueRepr {
    Integer,
    Float,
    Pointer,
    Void,
}

/// How the runtime manages values of a type.
#[derive(Clone, Copy, Debug, PartialEq, Eq, Structural)]
pub enum OwnershipKind {
    /// Values the runtime does not manage: scalars and inline aggregates.
    Unmanaged,
    RcString,
    RcBytes,
    RcList,
    RcMap,
    RcChannel,
    RcVutcon,
    RcClosure,
    Resource,
    Future,
    Interface,
    OpaqueManaged,
}

/// The layout of one type: its representation, size and alignment in
/// bytes, and how the runtime manages its values.
#[derive(Clone, Copy, Debug, PartialEq, Eq, Structural)]
pub struct TypeLayout {
    pub repr: ValueRepr,
    pub size: u64,
    pub alignment: u64,
    pub ownership: OwnershipKind,
}

/// Type layouts of a program and the target pointer size in bytes; `shapes`
/// holds, position by position, what is known of each type's structure.
pub struct LayoutTable {
    pub types: Vec<TypeLayout>,
    pub shapes: Vec<TypeShape>,
    pub pointer_size: u64,
}

/// What the backend reads of one MIR function.
pub struct MirFunction {
    pub symbol: SymbolId,
    /// A state-machine poll entry `(frame, out) -> i32`.
    pub is_poll: bool,
    /// The frame-pointer parameter of an async body, if any.
    pub frame_param: Option<u32>,
    /// The output-pointer parameter of a poll entry, if any.
    pub out_param: Option<u32>,
    pub parameter_count: usize,
    /// The type of each local (parameters first), when known.
    pub locals: Vec<Option<TypeId>>,
    pub return_type: Option<TypeId>,
    /// The size of the async frame recorded for this function, if any.
    pub frame_size: Option<u32>,
    /// Symbols referenced by calls, started futures, function values,
    /// closures and spawns, in instruction order.
    pub references: Vec<SymbolId>,
    /// String literals, in instruction order.
    pub literals: Vec<String>,
    /// The body's basic blocks, and the position of the entry block.
    pub blocks: Vec<BasicBlock>,
    pub entry: usize,
}

/// An `extern "C"` function of a program.
pub struct ExternalFunction {
    pub symbol: SymbolId,
    pub link_name: String,
    pub parameters: Vec<TypeId>,
    pub return_type: Option<TypeId>,
}

/// The signature of an indirectly callable type: parameters and result.
pub struct Callable {
    pub ty: TypeId,
    pub params: Vec<TypeId>,
    pub result: TypeId,
}

/// What the backend reads of a MIR program.
pub struct Program {
    pub functions: Vec<MirFunction>,
    pub external_functions: Vec<ExternalFunction>,
    pub layouts: LayoutTable,
    /// Indirectly callable signatures, in layout order.
    pub callables: Vec<Callable>,
    /// The state-machine frame of each async function.
    pub frames: Vec<(SymbolId, FrameLayout)>,
}

} // verus!
