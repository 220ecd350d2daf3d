//! Instruction selection for MIR values: how a value of a given wasm type is
//! loaded, stored, widened, coerced and converted, which runtime helper
//! manages it, and where each MIR local lives.
use vstd::prelude::*;
use vstd::string::StringExecFns;
use crate::wasm::backend::CodegenError;
use crate::wasm::builder::{step, Builder, Frame};
use crate::wasm::model::{BlockTy, Ins, MemArg, ValTy};
use crate::wasm::program::{LayoutTable, MirFunction, OwnershipKind, TypeId, ValueRepr};
use crate::wasm::rc;
use crate::wasm::rt_index::Runtime;

verus! {

/// `b` continues `a` with the instructions `s`, with the same parameters,
/// locals and open constructs.
pub open spec fn appended(a: Builder, b: Builder, s: Seq<Ins>) -> bool {
    &&& b.wf()
    &&& b.params() == a.params()
    &&& b.locals() == a.locals()
    &&& b.frames() == a.frames()
    &&& b.code() == a.code() + s
}

/// `a` can take straight-line code: it is well formed and inside the
/// function.
pub open spec fn open_for_code(a: Builder) -> bool {
    a.wf() && a.frames().len() > 0
}

proof fn lemma_appended_push(a: Builder, b: Builder, s: Seq<Ins>, c: Builder, ins: Ins)
    requires
        appended(a, b, s),
        c.wf(),
        c.params() == b.params(),
        c.locals() == b.locals(),
        c.frames() == b.frames(),
        c.code() == b.code().push(ins),
    ensures
        appended(a, c, s.push(ins)),
{
    assert(c.code() =~= a.code() + s.push(ins));
}

/// A memory immediate for `offset`, with no alignment assumption; a
/// negative offset becomes 0.
pub open spec fn spec_memarg(offset: i64) -> MemArg {
    MemArg { offset: if offset >= 0 { offset as u64 } else { 0 }, align: 0, memory_index: 0 }
}

/// A memory immediate for `offset`, with no alignment assumption; a
/// negative offset becomes 0.
pub fn memarg(offset: i64) -> (r: MemArg)
    ensures
        r == spec_memarg(offset),
{
    MemArg { offset: if offset >= 0 { offset as u64 } else { 0 }, align: 0, memory_index: 0 }
}

/// The store of a value of type `ty` at `offset`.
pub open spec fn spec_mem_store(ty: ValTy, offset: i32) -> Ins {
    let arg = spec_memarg(offset as i64);
    match ty {
        ValTy::I64 => Ins::I64Store(arg),
        ValTy::F32 => Ins::F32Store(arg),
        ValTy::F64 => Ins::F64Store(arg),
        ValTy::I32 => Ins::I32Store(arg),
    }
}

/// The load of a value of type `ty` from `offset`.
pub open spec fn spec_mem_load(ty: ValTy, offset: i32) -> Ins {
    let arg = spec_memarg(offset as i64);
    match ty {
        ValTy::I64 => Ins::I64Load(arg),
        ValTy::F32 => Ins::F32Load(arg),
        ValTy::F64 => Ins::F64Load(arg),
        ValTy::I32 => Ins::I32Load(arg),
    }
}

/// Appends the store of a value of type `ty` at `offset`.
pub fn mem_store(code: &mut Builder, ty: ValTy, offset: i32)
    requires
        open_for_code(*old(code)),
    ensures
        appended(*old(code), *final(code), seq![spec_mem_store(ty, offset)]),
{
    let arg = memarg(offset as i64);
    match ty {
        ValTy::I64 => code.push(Ins::I64Store(arg)),
        ValTy::F32 => code.push(Ins::F32Store(arg)),
        ValTy::F64 => code.push(Ins::F64Store(arg)),
        ValTy::I32 => code.push(Ins::I32Store(arg)),
    }
    assert(code.code() =~= old(code).code() + seq![spec_mem_store(ty, offset)]);
}

/// Appends the load of a value of type `ty` from `offset`.
pub fn mem_load(code: &mut Builder, ty: ValTy, offset: i32)
    requires
        open_for_code(*old(code)),
    ensures
        appended(*old(code), *final(code), seq![spec_mem_load(ty, offset)]),
{
    let arg = memarg(offset as i64);
    match ty {
        ValTy::I64 => code.push(Ins::I64Load(arg)),
        ValTy::F32 => code.push(Ins::F32Load(arg)),
        ValTy::F64 => code.push(Ins::F64Load(arg)),
        ValTy::I32 => code.push(Ins::I32Load(arg)),
    }
    assert(code.code() =~= old(code).code() + seq![spec_mem_load(ty, offset)]);
}

/// The zero of type `ty`.
pub open spec fn spec_default_value(ty: ValTy) -> Ins {
    match ty {
        ValTy::I32 => Ins::I32Const(0),
        ValTy::F32 => Ins::F32Const(0),
        ValTy::F64 => Ins::F64Const(0),
        ValTy::I64 => Ins::I64Const(0),
    }
}

/// Appends the zero of type `ty`.
pub fn default_value(code: &mut Builder, ty: ValTy)
    requires
        open_for_code(*old(code)),
    ensures
        appended(*old(code), *final(code), seq![spec_default_value(ty)]),
{
    match ty {
        ValTy::I32 => code.push(Ins::I32Const(0)),
        ValTy::F32 => code.push(Ins::F32Const(0)),
        ValTy::F64 => code.push(Ins::F64Const(0)),
        ValTy::I64 => code.push(Ins::I64Const(0)),
    }
    assert(code.code() =~= old(code).code() + seq![spec_default_value(ty)]);
}

/// The code that turns a value of type `from` into the 64-bit slot that
/// generic containers store: integers are zero-extended, floats keep their
/// bits (an `f32` first becomes an `f64`).
pub open spec fn widen_code(from: ValTy) -> Seq<Ins> {
    match from {
        ValTy::I32 => seq![Ins::I64ExtendI32U],
        ValTy::F32 => seq![Ins::F64PromoteF32, Ins::I64ReinterpretF64],
        ValTy::F64 => seq![Ins::I64ReinterpretF64],
        ValTy::I64 => Seq::empty(),
    }
}

/// Appends the code that turns a value of type `from` into a 64-bit slot.
pub fn widen_to_slot(code: &mut Builder, from: ValTy)
    requires
        open_for_code(*old(code)),
    ensures
        appended(*old(code), *final(code), widen_code(from)),
{
    match from {
        ValTy::I32 => {
            code.push(Ins::I64ExtendI32U);
        },
        ValTy::F32 => {
            code.push(Ins::F64PromoteF32);
            code.push(Ins::I64ReinterpretF64);
        },
        ValTy::F64 => {
            code.push(Ins::I64ReinterpretF64);
        },
        ValTy::I64 => {},
    }
    proof {
        assert(code.code() =~= old(code).code() + widen_code(from));
    }
}

/// The implicit numeric coercion from a value of type `from` (when known)
/// to type `to`.
pub open spec fn coerce_code(from: Option<ValTy>, to: ValTy) -> Seq<Ins> {
    match (from, to) {
        (Some(ValTy::I64), ValTy::I32) => seq![Ins::I32WrapI64],
        (Some(ValTy::I32), ValTy::I64) => seq![Ins::I64ExtendI32U],
        (Some(ValTy::F64), ValTy::F32) => seq![Ins::F32DemoteF64],
        (Some(ValTy::F32), ValTy::F64) => seq![Ins::F64PromoteF32],
        (Some(ValTy::I64), ValTy::F64) => seq![Ins::F64ConvertI64S],
        (Some(ValTy::I32), ValTy::F64) => seq![Ins::F64ConvertI32S],
        _ => Seq::empty(),
    }
}

/// Appends an implicit numeric coercion between wasm value types.
pub fn coerce(code: &mut Builder, from: Option<ValTy>, to: ValTy)
    requires
        open_for_code(*old(code)),
    ensures
        appended(*old(code), *final(code), coerce_code(from, to)),
{
    match (from, to) {
        (Some(ValTy::I64), ValTy::I32) => code.push(Ins::I32WrapI64),
        (Some(ValTy::I32), ValTy::I64) => code.push(Ins::I64ExtendI32U),
        (Some(ValTy::F64), ValTy::F32) => code.push(Ins::F32DemoteF64),
        (Some(ValTy::F32), ValTy::F64) => code.push(Ins::F64PromoteF32),
        (Some(ValTy::I64), ValTy::F64) => code.push(Ins::F64ConvertI64S),
        (Some(ValTy::I32), ValTy::F64) => code.push(Ins::F64ConvertI32S),
        _ => {},
    }
    proof {
        assert(code.code() =~= old(code).code() + coerce_code(from, to));
    }
}

/// Appends `local.get local` and widens the value, of type `vty`, to a
/// 64-bit slot.
pub fn push_as_i64(code: &mut Builder, local: u32, vty: ValTy)
    requires
        open_for_code(*old(code)),
        local < old(code).nlocals(),
    ensures
        appended(*old(code), *final(code), seq![Ins::LocalGet(local)] + widen_code(vty)),
{
    code.push(Ins::LocalGet(local));
    let ghost mid = *code;
    widen_to_slot(code, vty);
    proof {
        assert(code.code() =~= old(code).code() + (seq![Ins::LocalGet(local)] + widen_code(vty)));
    }
}

/// The code that stores an `i32` result into a value of type `vty`.
pub open spec fn from_i32_code(vty: ValTy) -> Seq<Ins> {
    match vty {
        ValTy::I64 => seq![Ins::I64ExtendI32U],
        ValTy::F64 => seq![Ins::F64ConvertI32U],
        _ => Seq::empty(),
    }
}

/// The code that stores a 64-bit slot into a value of type `vty`.
pub open spec fn from_i64_code(vty: ValTy) -> Seq<Ins> {
    match vty {
        ValTy::I32 => seq![Ins::I32WrapI64],
        ValTy::F32 => seq![Ins::I32WrapI64, Ins::F32ReinterpretI32],
        ValTy::F64 => seq![Ins::F64ReinterpretI64],
        ValTy::I64 => Seq::empty(),
    }
}

/// `local.set dest`, when the value has a local.
pub open spec fn store_code(dest: Option<u32>) -> Seq<Ins> {
    match dest {
        Some(index) => seq![Ins::LocalSet(index)],
        None => Seq::empty(),
    }
}

/// The local, if any, is one the body can name.
pub open spec fn local_fits(dest: Option<u32>, nlocals: nat) -> bool {
    match dest {
        Some(index) => index < nlocals,
        None => true,
    }
}

/// Appends the conversion of an `i32` result to type `vty` and stores it
/// into `dest`, when the value has a local.
pub fn set_from_i32(code: &mut Builder, vty: ValTy, dest: Option<u32>)
    requires
        open_for_code(*old(code)),
        local_fits(dest, old(code).nlocals()),
    ensures
        appended(*old(code), *final(code), from_i32_code(vty) + store_code(dest)),
{
    match vty {
        ValTy::I64 => code.push(Ins::I64ExtendI32U),
        ValTy::F64 => code.push(Ins::F64ConvertI32U),
        _ => {},
    }
    if let Some(index) = dest {
        code.push(Ins::LocalSet(index));
    }
    proof {
        assert(code.code() =~= old(code).code() + (from_i32_code(vty) + store_code(dest)));
    }
}

/// Appends the conversion of a 64-bit slot to type `vty` and stores it
/// into `dest`, when the value has a local.
pub fn set_from_i64(code: &mut Builder, vty: ValTy, dest: Option<u32>)
    requires
        open_for_code(*old(code)),
        local_fits(dest, old(code).nlocals()),
    ensures
        appended(*old(code), *final(code), from_i64_code(vty) + store_code(dest)),
{
    match vty {
        ValTy::I32 => {
            code.push(Ins::I32WrapI64);
        },
        ValTy::F32 => {
            code.push(Ins::I32WrapI64);
            code.push(Ins::F32ReinterpretI32);
        },
        ValTy::F64 => {
            code.push(Ins::F64ReinterpretI64);
        },
        ValTy::I64 => {},
    }
    if let Some(index) = dest {
        code.push(Ins::LocalSet(index));
    }
    proof {
        assert(code.code() =~= old(code).code() + (from_i64_code(vty) + store_code(dest)));
    }
}

/// The runtime helper that retains a value with ownership `ownership`, if
/// the runtime counts its references.
pub open spec fn spec_retain_call(rt: Runtime, ownership: OwnershipKind) -> Option<u32> {
    match ownership {
        OwnershipKind::RcString => Some(rt.str_retain),
        OwnershipKind::RcBytes => Some(rt.bytes_retain),
        OwnershipKind::RcList => Some(rt.list_retain),
        OwnershipKind::RcMap => Some(rt.map_retain),
        _ => None,
    }
}

/// The runtime helper that releases a value with ownership `ownership`, if
/// the runtime counts its references.
pub open spec fn spec_release_call(rt: Runtime, ownership: OwnershipKind) -> Option<u32> {
    match ownership {
        OwnershipKind::RcString => Some(rt.str_release),
        OwnershipKind::RcBytes => Some(rt.bytes_release),
        OwnershipKind::RcList => Some(rt.list_release),
        OwnershipKind::RcMap => Some(rt.map_release),
        _ => None,
    }
}

/// The runtime helper that retains a value with ownership `ownership`.
pub fn retain_call(rt: &Runtime, ownership: OwnershipKind) -> (r: Option<u32>)
    ensures
        r == spec_retain_call(*rt, ownership),
{
    match ownership {
        OwnershipKind::RcString => Some(rt.str_retain),
        OwnershipKind::RcBytes => Some(rt.bytes_retain),
        OwnershipKind::RcList => Some(rt.list_retain),
        OwnershipKind::RcMap => Some(rt.map_retain),
        _ => None,
    }
}

/// The runtime helper that releases a value with ownership `ownership`.
pub fn release_call(rt: &Runtime, ownership: OwnershipKind) -> (r: Option<u32>)
    ensures
        r == spec_release_call(*rt, ownership),
{
    match ownership {
        OwnershipKind::RcString => Some(rt.str_release),
        OwnershipKind::RcBytes => Some(rt.bytes_release),
        OwnershipKind::RcList => Some(rt.list_release),
        OwnershipKind::RcMap => Some(rt.map_release),
        _ => None,
    }
}

/// Values of the type at `ty` are handles to runtime-managed objects.
pub open spec fn spec_is_managed_handle(layouts: &LayoutTable, ty: TypeId) -> bool {
    layouts.types@[ty.0 as int].ownership != OwnershipKind::Unmanaged
}

/// Whether values of the type at `ty` are handles to runtime-managed objects.
pub fn is_managed_handle(layouts: &LayoutTable, ty: TypeId) -> (r: bool)
    requires
        ty.0 < layouts.types@.len(),
    ensures
        r == spec_is_managed_handle(layouts, ty),
{
    match layouts.types[ty.0].ownership {
        OwnershipKind::RcString | OwnershipKind::RcBytes | OwnershipKind::RcList | OwnershipKind::RcMap
        | OwnershipKind::RcChannel | OwnershipKind::RcVutcon | OwnershipKind::Resource
        | OwnershipKind::Future | OwnershipKind::Interface | OwnershipKind::OpaqueManaged
        | OwnershipKind::RcClosure => true,
        OwnershipKind::Unmanaged => false,
    }
}

/// The element kind code a container of the type at `ty` records.
pub open spec fn spec_element_kind(layouts: &LayoutTable, ty: TypeId) -> i32 {
    let info = layouts.types@[ty.0 as int];
    if info.repr == ValueRepr::Float {
        rc::KIND_FLOAT
    } else {
        match info.ownership {
            OwnershipKind::RcString => rc::KIND_STRING,
            OwnershipKind::RcBytes => rc::KIND_BYTES,
            OwnershipKind::RcList => rc::KIND_LIST,
            OwnershipKind::RcMap => rc::KIND_MAP,
            _ => rc::KIND_NONE,
        }
    }
}

/// The element kind code a container of the type at `ty` records.
pub fn element_kind(layouts: &LayoutTable, ty: TypeId) -> (r: i32)
    requires
        ty.0 < layouts.types@.len(),
    ensures
        r == spec_element_kind(layouts, ty),
{
    let info = layouts.types[ty.0];
    if info.repr == ValueRepr::Float {
        return rc::KIND_FLOAT;
    }
    match info.ownership {
        OwnershipKind::RcString => rc::KIND_STRING,
        OwnershipKind::RcBytes => rc::KIND_BYTES,
        OwnershipKind::RcList => rc::KIND_LIST,
        OwnershipKind::RcMap => rc::KIND_MAP,
        _ => rc::KIND_NONE,
    }
}

/// The alignment of the type at `ty`, at least 1.
pub open spec fn alignment_of(layouts: &LayoutTable, ty: TypeId) -> int {
    if layouts.types@[ty.0 as int].alignment >= 1 { layouts.types@[ty.0 as int].alignment as int } else { 1 }
}

/// The offset of an optional's payload: the pointer-sized presence word
/// rounded up to a multiple of the payload's alignment.
pub open spec fn spec_optional_payload_offset(layouts: &LayoutTable, inner: TypeId) -> int {
    let align = alignment_of(layouts, inner);
    let p = layouts.pointer_size as int;
    let words = p / align + (if p % align == 0 { 0int } else { 1int });
    words * align
}

/// The offset of an optional's payload of the type at `inner`.
pub fn optional_payload_offset(layouts: &LayoutTable, inner: TypeId) -> (r: u64)
    requires
        inner.0 < layouts.types@.len(),
        layouts.pointer_size + alignment_of(layouts, inner) <= u64::MAX,
    ensures
        r == spec_optional_payload_offset(layouts, inner),
{
    let a = layouts.types[inner.0].alignment;
    let align: u64 = if a >= 1 { a } else { 1 };
    let p = layouts.pointer_size;
    let words: u64 = p / align + if p % align == 0 { 0 } else { 1 };
    assert(words * align <= p + align) by (nonlinear_arith)
        requires
            align >= 1,
            words == p / align + (if p % align == 0 { 0int } else { 1int }),
    {
        assert(p == (p / align) * align + p % align);
        assert(p % align < align);
        assert((p / align + 1) * align == (p / align) * align + align);
    }
    words * align
}

/// The load of a value of the type at `ty` from `offset`: sub-word
/// integers are sign-extended.
pub open spec fn spec_load_instruction(layouts: &LayoutTable, ty: TypeId, offset: i64) -> Ins {
    let info = layouts.types@[ty.0 as int];
    let arg = spec_memarg(offset);
    match info.repr {
        ValueRepr::Float => if info.size == 4 { Ins::F32Load(arg) } else { Ins::F64Load(arg) },
        ValueRepr::Void => Ins::I32Load(arg),
        _ => if info.size == 1 {
            Ins::I32Load8S(arg)
        } else if info.size == 2 {
            Ins::I32Load16S(arg)
        } else if info.size == 4 {
            Ins::I32Load(arg)
        } else {
            Ins::I64Load(arg)
        },
    }
}

/// The store of a value of the type at `ty` at `offset`.
pub open spec fn spec_store_instruction(layouts: &LayoutTable, ty: TypeId, offset: i64) -> Ins {
    let info = layouts.types@[ty.0 as int];
    let arg = spec_memarg(offset);
    match info.repr {
        ValueRepr::Float => if info.size == 4 { Ins::F32Store(arg) } else { Ins::F64Store(arg) },
        ValueRepr::Void => Ins::I32Store(arg),
        _ => if info.size == 1 {
            Ins::I32Store8(arg)
        } else if info.size == 2 {
            Ins::I32Store16(arg)
        } else if info.size == 4 {
            Ins::I32Store(arg)
        } else {
            Ins::I64Store(arg)
        },
    }
}

/// The load of a value of the type at `ty` from `offset`.
pub fn load_instruction(layouts: &LayoutTable, ty: TypeId, offset: i64) -> (r: Ins)
    requires
        ty.0 < layouts.types@.len(),
    ensures
        r == spec_load_instruction(layouts, ty, offset),
{
    let info = layouts.types[ty.0];
    let arg = memarg(offset);
    match info.repr {
        ValueRepr::Float => if info.size == 4 { Ins::F32Load(arg) } else { Ins::F64Load(arg) },
        ValueRepr::Void => Ins::I32Load(arg),
        _ => if info.size == 1 {
            Ins::I32Load8S(arg)
        } else if info.size == 2 {
            Ins::I32Load16S(arg)
        } else if info.size == 4 {
            Ins::I32Load(arg)
        } else {
            Ins::I64Load(arg)
        },
    }
}

/// The store of a value of the type at `ty` at `offset`.
pub fn store_instruction(layouts: &LayoutTable, ty: TypeId, offset: i64) -> (r: Ins)
    requires
        ty.0 < layouts.types@.len(),
    ensures
        r == spec_store_instruction(layouts, ty, offset),
{
    let info = layouts.types[ty.0];
    let arg = memarg(offset);
    match info.repr {
        ValueRepr::Float => if info.size == 4 { Ins::F32Store(arg) } else { Ins::F64Store(arg) },
        ValueRepr::Void => Ins::I32Store(arg),
        _ => if info.size == 1 {
            Ins::I32Store8(arg)
        } else if info.size == 2 {
            Ins::I32Store16(arg)
        } else if info.size == 4 {
            Ins::I32Store(arg)
        } else {
            Ins::I64Store(arg)
        },
    }
}

/// A binary operator of the source language.
#[derive(Clone, Copy, Debug, PartialEq, Eq, Structural)]
pub enum BinaryOp {
    Add,
    Subtract,
    Multiply,
    Divide,
    Modulo,
    Equal,
    NotEqual,
    Less,
    LessEqual,
    Greater,
    GreaterEqual,
    And,
    Or,
}

/// `op` compares its operands.
pub open spec fn is_comparison(op: BinaryOp) -> bool {
    match op {
        BinaryOp::Equal | BinaryOp::NotEqual | BinaryOp::Less | BinaryOp::LessEqual | BinaryOp::Greater
        | BinaryOp::GreaterEqual => true,
        _ => false,
    }
}

/// The instruction for `op` on operands of type `ty` (unsigned integers
/// when `unsigned`), if the backend supports it.
pub open spec fn binary_ins(op: BinaryOp, ty: ValTy, unsigned: bool) -> Option<Ins> {
    match ty {
        ValTy::I64 => match op {
            BinaryOp::Add => Some(Ins::I64Add),
            BinaryOp::Subtract => Some(Ins::I64Sub),
            BinaryOp::Multiply => Some(Ins::I64Mul),
            BinaryOp::Divide => Some(if unsigned { Ins::I64DivU } else { Ins::I64DivS }),
            BinaryOp::Modulo => Some(if unsigned { Ins::I64RemU } else { Ins::I64RemS }),
            BinaryOp::Equal => Some(Ins::I64Eq),
            BinaryOp::NotEqual => Some(Ins::I64Ne),
            BinaryOp::Less => Some(if unsigned { Ins::I64LtU } else { Ins::I64LtS }),
            BinaryOp::LessEqual => Some(if unsigned { Ins::I64LeU } else { Ins::I64LeS }),
            BinaryOp::Greater => Some(if unsigned { Ins::I64GtU } else { Ins::I64GtS }),
            BinaryOp::GreaterEqual => Some(if unsigned { Ins::I64GeU } else { Ins::I64GeS }),
            _ => None,
        },
        ValTy::I32 => match op {
            BinaryOp::Add => Some(Ins::I32Add),
            BinaryOp::Subtract => Some(Ins::I32Sub),
            BinaryOp::Multiply => Some(Ins::I32Mul),
            BinaryOp::Divide => Some(Ins::I32DivS),
            BinaryOp::Modulo => Some(Ins::I32RemS),
            BinaryOp::And => Some(Ins::I32And),
            BinaryOp::Or => Some(Ins::I32Or),
            BinaryOp::Equal => Some(Ins::I32Eq),
            BinaryOp::NotEqual => Some(Ins::I32Ne),
            BinaryOp::Less => Some(Ins::I32LtS),
            BinaryOp::LessEqual => Some(Ins::I32LeS),
            BinaryOp::Greater => Some(Ins::I32GtS),
            BinaryOp::GreaterEqual => Some(Ins::I32GeS),
        },
        ValTy::F64 => match op {
            BinaryOp::Add => Some(Ins::F64Add),
            BinaryOp::Subtract => Some(Ins::F64Sub),
            BinaryOp::Multiply => Some(Ins::F64Mul),
            BinaryOp::Divide => Some(Ins::F64Div),
            BinaryOp::Equal => Some(Ins::F64Eq),
            BinaryOp::NotEqual => Some(Ins::F64Ne),
            BinaryOp::Less => Some(Ins::F64Lt),
            BinaryOp::LessEqual => Some(Ins::F64Le),
            BinaryOp::Greater => Some(Ins::F64Gt),
            BinaryOp::GreaterEqual => Some(Ins::F64Ge),
            _ => None,
        },
        ValTy::F32 => None,
    }
}

/// The name of `op` in diagnostics.
pub open spec fn op_name(op: BinaryOp) -> Seq<char> {
    match op {
        BinaryOp::Add => "Add"@,
        BinaryOp::Subtract => "Subtract"@,
        BinaryOp::Multiply => "Multiply"@,
        BinaryOp::Divide => "Divide"@,
        BinaryOp::Modulo => "Modulo"@,
        BinaryOp::Equal => "Equal"@,
        BinaryOp::NotEqual => "NotEqual"@,
        BinaryOp::Less => "Less"@,
        BinaryOp::LessEqual => "LessEqual"@,
        BinaryOp::Greater => "Greater"@,
        BinaryOp::GreaterEqual => "GreaterEqual"@,
        BinaryOp::And => "And"@,
        BinaryOp::Or => "Or"@,
    }
}

/// The name of a value type in diagnostics.
pub open spec fn valtype_label(ty: ValTy) -> Seq<char> {
    match ty {
        ValTy::I32 => "I32"@,
        ValTy::I64 => "I64"@,
        ValTy::F32 => "F32"@,
        ValTy::F64 => "F64"@,
    }
}

fn op_text(op: BinaryOp) -> (r: &'static str)
    ensures
        r@ == op_name(op),
{
    match op {
        BinaryOp::Add => "Add",
        BinaryOp::Subtract => "Subtract",
        BinaryOp::Multiply => "Multiply",
        BinaryOp::Divide => "Divide",
        BinaryOp::Modulo => "Modulo",
        BinaryOp::Equal => "Equal",
        BinaryOp::NotEqual => "NotEqual",
        BinaryOp::Less => "Less",
        BinaryOp::LessEqual => "LessEqual",
        BinaryOp::Greater => "Greater",
        BinaryOp::GreaterEqual => "GreaterEqual",
        BinaryOp::And => "And",
        BinaryOp::Or => "Or",
    }
}

fn type_text(ty: ValTy) -> (r: &'static str)
    ensures
        r@ == valtype_label(ty),
{
    match ty {
        ValTy::I32 => "I32",
        ValTy::I64 => "I64",
        ValTy::F32 => "F32",
        ValTy::F64 => "F64",
    }
}

/// The instruction for `op` on operands of type `ty` and whether it is a
/// comparison; an operator the backend does not support on `ty` is an error.
pub fn binary_instruction(op: BinaryOp, ty: ValTy, unsigned: bool) -> (r: Result<(Ins, bool), CodegenError>)
    ensures
        r is Ok <==> binary_ins(op, ty, unsigned) is Some,
        r matches Ok((ins, comparison)) ==> binary_ins(op, ty, unsigned) == Some(ins) && comparison == is_comparison(op),
        r matches Err(e) ==> e == CodegenError::Backend(e->Backend_0) && e->Backend_0@
            == "wasm backend: unsupported binary op "@ + op_name(op) + " on "@ + valtype_label(ty),
{
    let comparison = match op {
        BinaryOp::Equal | BinaryOp::NotEqual | BinaryOp::Less | BinaryOp::LessEqual | BinaryOp::Greater
        | BinaryOp::GreaterEqual => true,
        _ => false,
    };
    let selected = match ty {
        ValTy::I64 => match op {
            BinaryOp::Add => Some(Ins::I64Add),
            BinaryOp::Subtract => Some(Ins::I64Sub),
            BinaryOp::Multiply => Some(Ins::I64Mul),
            BinaryOp::Divide => Some(if unsigned { Ins::I64DivU } else { Ins::I64DivS }),
            BinaryOp::Modulo => Some(if unsigned { Ins::I64RemU } else { Ins::I64RemS }),
            BinaryOp::Equal => Some(Ins::I64Eq),
            BinaryOp::NotEqual => Some(Ins::I64Ne),
            BinaryOp::Less => Some(if unsigned { Ins::I64LtU } else { Ins::I64LtS }),
            BinaryOp::LessEqual => Some(if unsigned { Ins::I64LeU } else { Ins::I64LeS }),
            BinaryOp::Greater => Some(if unsigned { Ins::I64GtU } else { Ins::I64GtS }),
            BinaryOp::GreaterEqual => Some(if unsigned { Ins::I64GeU } else { Ins::I64GeS }),
            _ => None,
        },
        ValTy::I32 => match op {
            BinaryOp::Add => Some(Ins::I32Add),
            BinaryOp::Subtract => Some(Ins::I32Sub),
            BinaryOp::Multiply => Some(Ins::I32Mul),
            BinaryOp::Divide => Some(Ins::I32DivS),
            BinaryOp::Modulo => Some(Ins::I32RemS),
            BinaryOp::And => Some(Ins::I32And),
            BinaryOp::Or => Some(Ins::I32Or),
            BinaryOp::Equal => Some(Ins::I32Eq),
            BinaryOp::NotEqual => Some(Ins::I32Ne),
            BinaryOp::Less => Some(Ins::I32LtS),
            BinaryOp::LessEqual => Some(Ins::I32LeS),
            BinaryOp::Greater => Some(Ins::I32GtS),
            BinaryOp::GreaterEqual => Some(Ins::I32GeS),
        },
        ValTy::F64 => match op {
            BinaryOp::Add => Some(Ins::F64Add),
            BinaryOp::Subtract => Some(Ins::F64Sub),
            BinaryOp::Multiply => Some(Ins::F64Mul),
            BinaryOp::Divide => Some(Ins::F64Div),
            BinaryOp::Equal => Some(Ins::F64Eq),
            BinaryOp::NotEqual => Some(Ins::F64Ne),
            BinaryOp::Less => Some(Ins::F64Lt),
            BinaryOp::LessEqual => Some(Ins::F64Le),
            BinaryOp::Greater => Some(Ins::F64Gt),
            BinaryOp::GreaterEqual => Some(Ins::F64Ge),
            _ => None,
        },
        ValTy::F32 => None,
    };
    match selected {
        Some(ins) => Ok((ins, comparison)),
        None => {
            let mut message = String::new();
            message.append("wasm backend: unsupported binary op ");
            message.append(op_text(op));
            message.append(" on ");
            message.append(type_text(ty));
            Err(CodegenError::Backend(message))
        },
    }
}

/// A numeric type of the source language.
#[derive(Clone, Copy, Debug, PartialEq, Eq, Structural)]
pub enum NumericKind {
    I8,
    I16,
    I32,
    I64,
    /// The pointer-sized signed integer.
    ISize,
    U8,
    U16,
    U32,
    U64,
    /// The pointer-sized unsigned integer.
    USize,
    F32,
    F64,
}

/// The width of `kind` in bits; 0 for the pointer-sized integers.
pub open spec fn spec_bits(kind: NumericKind) -> u32 {
    match kind {
        NumericKind::I8 | NumericKind::U8 => 8,
        NumericKind::I16 | NumericKind::U16 => 16,
        NumericKind::I32 | NumericKind::U32 | NumericKind::F32 => 32,
        NumericKind::I64 | NumericKind::U64 | NumericKind::F64 => 64,
        NumericKind::ISize | NumericKind::USize => 0,
    }
}

/// `kind` is an unsigned integer type.
pub open spec fn spec_is_unsigned(kind: NumericKind) -> bool {
    match kind {
        NumericKind::U8 | NumericKind::U16 | NumericKind::U32 | NumericKind::U64 | NumericKind::USize => true,
        _ => false,
    }
}

/// `kind` is a floating-point type.
pub open spec fn spec_is_float(kind: NumericKind) -> bool {
    kind == NumericKind::F32 || kind == NumericKind::F64
}

impl NumericKind {
    /// The width in bits; 0 for the pointer-sized integers.
    pub fn bits(self) -> (r: u32)
        ensures
            r == spec_bits(self),
    {
        match self {
            NumericKind::I8 | NumericKind::U8 => 8,
            NumericKind::I16 | NumericKind::U16 => 16,
            NumericKind::I32 | NumericKind::U32 | NumericKind::F32 => 32,
            NumericKind::I64 | NumericKind::U64 | NumericKind::F64 => 64,
            NumericKind::ISize | NumericKind::USize => 0,
        }
    }

    /// Whether this is an unsigned integer type.
    pub fn is_unsigned(self) -> (r: bool)
        ensures
            r == spec_is_unsigned(self),
    {
        match self {
            NumericKind::U8 | NumericKind::U16 | NumericKind::U32 | NumericKind::U64 | NumericKind::USize => true,
            _ => false,
        }
    }

    /// Whether this is a floating-point type.
    pub fn is_float(self) -> (r: bool)
        ensures
            r == spec_is_float(self),
    {
        self == NumericKind::F32 || self == NumericKind::F64
    }
}

/// The width of a conversion's target `to`: its own width, or the pointer
/// width for the pointer-sized integers.
pub open spec fn target_bits(to: NumericKind, pointer_bits: u32) -> u32 {
    if spec_bits(to) == 0 { pointer_bits } else { spec_bits(to) }
}

/// The IEEE-754 double bit pattern of `2^n`: `+inf` past the largest
/// finite power.
pub open spec fn pow2_bits(n: int) -> u64 {
    if n >= 1024 { 0x7FF0_0000_0000_0000 } else { ((n + 1023) as u64) << 52 }
}

/// The sign bit of a double.
pub open spec fn negated(bits: u64) -> u64 {
    bits | 0x8000_0000_0000_0000
}

/// The exponent a width stands for; a width beyond `i32` counts as 64.
pub open spec fn width_exponent(bits: u32) -> int {
    if bits <= i32::MAX { bits as int } else { 64 }
}

/// The bit patterns of the inclusive lower and exclusive upper bound of a
/// float to integer conversion into `to`: `[0, 2^bits)` for unsigned and
/// `[-2^(bits-1), 2^(bits-1))` for signed targets.
pub open spec fn spec_float_int_range(to: NumericKind, pointer_bits: u32) -> (u64, u64) {
    let e = width_exponent(target_bits(to, pointer_bits));
    if spec_is_unsigned(to) {
        (0, pow2_bits(e))
    } else {
        (negated(pow2_bits(e - 1)), pow2_bits(e - 1))
    }
}

fn pow2_double(n: i64) -> (r: u64)
    requires
        -1 <= n,
    ensures
        r == pow2_bits(n as int),
{
    if n >= 1024 {
        0x7FF0_0000_0000_0000
    } else {
        ((n + 1023) as u64) << 52
    }
}

/// The bit patterns of the bounds of a float to integer conversion into
/// `to`, the pointer width being `pointer_bits`.
pub fn float_int_range(to: NumericKind, pointer_bits: u32) -> (r: (u64, u64))
    ensures
        r == spec_float_int_range(to, pointer_bits),
{
    let bits = if to.bits() == 0 { pointer_bits } else { to.bits() };
    let e: i64 = if bits <= 0x7fff_ffff { bits as i64 } else { 64 };
    if to.is_unsigned() {
        (0, pow2_double(e))
    } else {
        let half = pow2_double(e - 1);
        (half | 0x8000_0000_0000_0000, half)
    }
}

/// `local.get source`, widened to `i64` when the source is an `i32`.
pub open spec fn wide_code(source: u32, source_ty: ValTy, unsigned: bool) -> Seq<Ins> {
    seq![Ins::LocalGet(source)] + if source_ty == ValTy::I32 {
        if unsigned { seq![Ins::I64ExtendI32U] } else { seq![Ins::I64ExtendI32S] }
    } else {
        Seq::empty()
    }
}

/// `local.get source`, promoted to `f64` when the source is an `f32`.
pub open spec fn double_code(source: u32, source_ty: ValTy) -> Seq<Ins> {
    seq![Ins::LocalGet(source)] + if source_ty == ValTy::F32 { seq![Ins::F64PromoteF32] } else { Seq::empty() }
}

/// `i32.wrap_i64` when the destination is an `i32`.
pub open spec fn narrow_code(dest_ty: ValTy) -> Seq<Ins> {
    if dest_ty == ValTy::I32 { seq![Ins::I32WrapI64] } else { Seq::empty() }
}

/// The range test of an integer to integer conversion, given the widened
/// source `w` (already pushed once before it).
#[verifier::opaque]
pub open spec fn int_range_check(from: NumericKind, to: NumericKind, bits: u32, w: Seq<Ins>) -> Seq<Ins> {
    if bits >= 64 {
        if spec_is_unsigned(to) != spec_is_unsigned(from) {
            seq![Ins::I64Const(0), Ins::I64GeS]
        } else {
            seq![Ins::I64Const(1)]
        }
    } else if spec_is_unsigned(to) {
        w + seq![Ins::I64Const(0), Ins::I64GeS] + w + seq![Ins::I64Const(1i64 << bits), Ins::I64LtS, Ins::I32And]
    } else if spec_is_unsigned(from) {
        w + seq![Ins::I64Const(0), Ins::I64GeS] + w
            + seq![Ins::I64Const(1i64 << (bits - 1) as u32), Ins::I64LtS, Ins::I32And]
    } else {
        w + seq![Ins::I64Const((-(1i64 << (bits - 1) as u32)) as i64), Ins::I64GeS] + w
            + seq![Ins::I64Const(1i64 << (bits - 1) as u32), Ins::I64LtS, Ins::I32And]
    }
}

/// An integer to integer conversion: the value when it fits the target,
/// else a trap.
pub open spec fn int_cast_code(from: NumericKind, to: NumericKind, bits: u32, source: u32, source_ty: ValTy, dest_ty: ValTy) -> Seq<Ins> {
    let w = wide_code(source, source_ty, spec_is_unsigned(from));
    w + int_range_check(from, to, bits, w) + seq![Ins::If(BlockTy::Result(dest_ty))] + w + narrow_code(dest_ty)
        + seq![Ins::Else, Ins::Unreachable, Ins::End]
}

/// An integer to float conversion.
pub open spec fn int_float_code(from: NumericKind, to: NumericKind, source: u32, source_ty: ValTy) -> Seq<Ins> {
    let convert = if to == NumericKind::F32 {
        if spec_is_unsigned(from) { Ins::F32ConvertI64U } else { Ins::F32ConvertI64S }
    } else if spec_is_unsigned(from) {
        Ins::F64ConvertI64U
    } else {
        Ins::F64ConvertI64S
    };
    wide_code(source, source_ty, spec_is_unsigned(from)) + seq![convert]
}

/// The test that a double source is finite and that its truncation lies in
/// `[min, max)`.
pub open spec fn float_check_code(min: u64, max: u64, source: u32, source_ty: ValTy) -> Seq<Ins> {
    let d = double_code(source, source_ty);
    d + seq![Ins::F64Abs, Ins::F64Const(0x7FF0_0000_0000_0000), Ins::F64Lt] + d
        + seq![Ins::F64Trunc, Ins::F64Const(min), Ins::F64Ge, Ins::I32And] + d
        + seq![Ins::F64Trunc, Ins::F64Const(max), Ins::F64Lt, Ins::I32And]
}

/// A float to integer conversion: the truncated value when the source is
/// finite and its truncation lies in `[min, max)`, else a trap.
pub open spec fn float_int_code(to: NumericKind, min: u64, max: u64, source: u32, source_ty: ValTy, dest_ty: ValTy) -> Seq<Ins> {
    float_check_code(min, max, source, source_ty) + seq![Ins::If(BlockTy::Result(dest_ty))]
        + double_code(source, source_ty)
        + seq![if spec_is_unsigned(to) { Ins::I64TruncF64U } else { Ins::I64TruncF64S }] + narrow_code(dest_ty)
        + seq![Ins::Else, Ins::Unreachable, Ins::End]
}

/// A float to float conversion.
pub open spec fn float_float_code(to: NumericKind, source: u32, source_ty: ValTy) -> Seq<Ins> {
    seq![Ins::LocalGet(source)] + if source_ty == ValTy::F32 && to != NumericKind::F32 {
        seq![Ins::F64PromoteF32]
    } else if source_ty != ValTy::F32 && to == NumericKind::F32 {
        seq![Ins::F32DemoteF64]
    } else {
        Seq::empty()
    }
}

/// The code of an explicit numeric conversion with checked semantics:
/// integer narrowing and sign changes are range-checked and trap, float to
/// integer rejects NaN, infinities and out-of-range values; nothing wraps
/// silently. The result is stored into `dest` when the value has a local.
pub open spec fn numeric_cast_code(
    from: NumericKind,
    to: NumericKind,
    pointer_bits: u32,
    source: u32,
    source_ty: ValTy,
    dest_ty: ValTy,
    dest: Option<u32>,
) -> Seq<Ins> {
    (if !spec_is_float(from) && !spec_is_float(to) {
        int_cast_code(from, to, target_bits(to, pointer_bits), source, source_ty, dest_ty)
    } else if !spec_is_float(from) && spec_is_float(to) {
        int_float_code(from, to, source, source_ty)
    } else if spec_is_float(from) && !spec_is_float(to) {
        float_int_code(to, spec_float_int_range(to, pointer_bits).0, spec_float_int_range(to, pointer_bits).1, source, source_ty, dest_ty)
    } else {
        float_float_code(to, source, source_ty)
    }) + store_code(dest)
}

/// `b` continues `a` with the instructions `s`, with the same parameters
/// and locals.
pub open spec fn extended(a: Builder, b: Builder, s: Seq<Ins>) -> bool {
    &&& b.wf()
    &&& b.params() == a.params()
    &&& b.locals() == a.locals()
    &&& b.code() == a.code() + s
}

fn push_tracked(code: &mut Builder, ins: Ins, Ghost(start): Ghost<Builder>, Ghost(acc): Ghost<Seq<Ins>>)
    requires
        extended(start, *old(code), acc),
        step(old(code).frames(), ins, old(code).nlocals()) is Some,
    ensures
        extended(start, *final(code), acc.push(ins)),
        final(code).frames() == step(old(code).frames(), ins, old(code).nlocals())->0,
        final(code).nlocals() == old(code).nlocals(),
{
    code.push(ins);
    assert(code.code() =~= start.code() + acc.push(ins));
}

fn push_wide(code: &mut Builder, source: u32, source_ty: ValTy, unsigned: bool, Ghost(start): Ghost<Builder>, Ghost(acc): Ghost<Seq<Ins>>)
    requires
        extended(start, *old(code), acc),
        old(code).frames().len() > 0,
        source < old(code).nlocals(),
    ensures
        extended(start, *final(code), acc + wide_code(source, source_ty, unsigned)),
        final(code).frames() == old(code).frames(),
        final(code).nlocals() == old(code).nlocals(),
{
    push_tracked(code, Ins::LocalGet(source), Ghost(start), Ghost(acc));
    if source_ty == ValTy::I32 {
        if unsigned {
            push_tracked(code, Ins::I64ExtendI32U, Ghost(start), Ghost(acc.push(Ins::LocalGet(source))));
        } else {
            push_tracked(code, Ins::I64ExtendI32S, Ghost(start), Ghost(acc.push(Ins::LocalGet(source))));
        }
    }
    assert(code.code() =~= start.code() + (acc + wide_code(source, source_ty, unsigned)));
}

fn push_double(code: &mut Builder, source: u32, source_ty: ValTy, Ghost(start): Ghost<Builder>, Ghost(acc): Ghost<Seq<Ins>>)
    requires
        extended(start, *old(code), acc),
        old(code).frames().len() > 0,
        source < old(code).nlocals(),
    ensures
        extended(start, *final(code), acc + double_code(source, source_ty)),
        final(code).frames() == old(code).frames(),
        final(code).nlocals() == old(code).nlocals(),
{
    push_tracked(code, Ins::LocalGet(source), Ghost(start), Ghost(acc));
    if source_ty == ValTy::F32 {
        push_tracked(code, Ins::F64PromoteF32, Ghost(start), Ghost(acc.push(Ins::LocalGet(source))));
    }
    assert(code.code() =~= start.code() + (acc + double_code(source, source_ty)));
}

#[verifier::rlimit(60)]
#[verifier::spinoff_prover]
fn push_range_check(code: &mut Builder, from: NumericKind, to: NumericKind, to_bits: u32, source: u32, source_ty: ValTy, Ghost(start): Ghost<Builder>, Ghost(acc): Ghost<Seq<Ins>>)
    requires
        extended(start, *old(code), acc),
        old(code).frames().len() > 0,
        source < old(code).nlocals(),
        !spec_is_unsigned(to) && to_bits < 64 ==> to_bits > 0,
    ensures
        extended(start, *final(code), acc + int_range_check(from, to, to_bits, wide_code(source, source_ty, spec_is_unsigned(from)))),
        final(code).frames() == old(code).frames(),
        final(code).nlocals() == old(code).nlocals(),
{
    let unsigned = from.is_unsigned();
    let ghost w = wide_code(source, source_ty, unsigned);
    let ghost mut a = acc;
    proof {
        reveal(int_range_check);
    }
    if to_bits >= 64 {
        if to.is_unsigned() != from.is_unsigned() {
            push_tracked(code, Ins::I64Const(0), Ghost(start), Ghost(a));
            proof { a = a.push(Ins::I64Const(0)); }
            push_tracked(code, Ins::I64GeS, Ghost(start), Ghost(a));
            proof { a = a.push(Ins::I64GeS); }
        } else {
            push_tracked(code, Ins::I64Const(1), Ghost(start), Ghost(a));
            proof { a = a.push(Ins::I64Const(1)); }
        }
    } else {
        let (low, high) = if to.is_unsigned() {
            (0i64, 1i64 << to_bits)
        } else {
            let sh: u32 = to_bits - 1;
            assert(0 < (1i64 << sh) <= 0x4000_0000_0000_0000i64) by (bit_vector)
                requires
                    sh <= 62u32,
            ;
            let half: i64 = 1i64 << sh;
            if unsigned { (0i64, half) } else { (-half, half) }
        };
        push_wide(code, source, source_ty, unsigned, Ghost(start), Ghost(a));
        proof { a = a + w; }
        push_tracked(code, Ins::I64Const(low), Ghost(start), Ghost(a));
        proof { a = a.push(Ins::I64Const(low)); }
        push_tracked(code, Ins::I64GeS, Ghost(start), Ghost(a));
        proof { a = a.push(Ins::I64GeS); }
        push_wide(code, source, source_ty, unsigned, Ghost(start), Ghost(a));
        proof { a = a + w; }
        push_tracked(code, Ins::I64Const(high), Ghost(start), Ghost(a));
        proof { a = a.push(Ins::I64Const(high)); }
        push_tracked(code, Ins::I64LtS, Ghost(start), Ghost(a));
        proof { a = a.push(Ins::I64LtS); }
        push_tracked(code, Ins::I32And, Ghost(start), Ghost(a));
        proof { a = a.push(Ins::I32And); }
    }
    assert(a =~= acc + int_range_check(from, to, to_bits, w));
}

/// Appends `if (result dest_ty) <value> [i32.wrap_i64] else unreachable end`,
/// where `<value>` is `value` (already tracked as appended).
#[verifier::rlimit(60)]
#[verifier::spinoff_prover]
fn push_checked_tail(code: &mut Builder, dest_ty: ValTy, Ghost(start): Ghost<Builder>, Ghost(acc): Ghost<Seq<Ins>>)
    requires
        extended(start, *old(code), acc),
        old(code).frames().len() > 0,
        old(code).frames().last() == Frame::If,
    ensures
        extended(start, *final(code), acc + narrow_code(dest_ty) + seq![Ins::Else, Ins::Unreachable, Ins::End]),
        final(code).frames() == old(code).frames().drop_last(),
        final(code).nlocals() == old(code).nlocals(),
{
    let ghost mut a = acc;
    if dest_ty == ValTy::I32 {
        push_tracked(code, Ins::I32WrapI64, Ghost(start), Ghost(a));
        proof { a = a.push(Ins::I32WrapI64); }
    }
    push_tracked(code, Ins::Else, Ghost(start), Ghost(a));
    proof { a = a.push(Ins::Else); }
    push_tracked(code, Ins::Unreachable, Ghost(start), Ghost(a));
    proof { a = a.push(Ins::Unreachable); }
    push_tracked(code, Ins::End, Ghost(start), Ghost(a));
    proof { a = a.push(Ins::End); }
    assert(a =~= acc + narrow_code(dest_ty) + seq![Ins::Else, Ins::Unreachable, Ins::End]);
}

#[verifier::rlimit(60)]
#[verifier::spinoff_prover]
fn cast_int_int(code: &mut Builder, from: NumericKind, to: NumericKind, to_bits: u32, source: u32, source_ty: ValTy, dest_ty: ValTy)
    requires
        open_for_code(*old(code)),
        source < old(code).nlocals(),
        !spec_is_unsigned(to) && to_bits < 64 ==> to_bits > 0,
    ensures
        appended(*old(code), *final(code), int_cast_code(from, to, to_bits, source, source_ty, dest_ty)),
{
    let ghost start = *code;
    let ghost frames = code.frames();
    let ghost e: Seq<Ins> = Seq::empty();
    assert(code.code() =~= start.code() + e);
    let unsigned = from.is_unsigned();
    let ghost w = wide_code(source, source_ty, unsigned);
    push_wide(code, source, source_ty, unsigned, Ghost(start), Ghost(e));
    let ghost a1 = e + w;
    push_range_check(code, from, to, to_bits, source, source_ty, Ghost(start), Ghost(a1));
    let ghost a2 = a1 + int_range_check(from, to, to_bits, w);
    push_tracked(code, Ins::If(BlockTy::Result(dest_ty)), Ghost(start), Ghost(a2));
    let ghost a3 = a2.push(Ins::If(BlockTy::Result(dest_ty)));
    push_wide(code, source, source_ty, unsigned, Ghost(start), Ghost(a3));
    let ghost a4 = a3 + w;
    push_checked_tail(code, dest_ty, Ghost(start), Ghost(a4));
    assert(code.frames() =~= frames);
    assert(a4 + narrow_code(dest_ty) + seq![Ins::Else, Ins::Unreachable, Ins::End]
        =~= int_cast_code(from, to, to_bits, source, source_ty, dest_ty));
}

fn cast_int_float(code: &mut Builder, from: NumericKind, to: NumericKind, source: u32, source_ty: ValTy)
    requires
        open_for_code(*old(code)),
        source < old(code).nlocals(),
    ensures
        appended(*old(code), *final(code), int_float_code(from, to, source, source_ty)),
{
    let ghost start = *code;
    let ghost acc: Seq<Ins> = Seq::empty();
    assert(code.code() =~= start.code() + acc);
    let unsigned = from.is_unsigned();
    push_wide(code, source, source_ty, unsigned, Ghost(start), Ghost(acc));
    let convert = if to == NumericKind::F32 {
        if unsigned { Ins::F32ConvertI64U } else { Ins::F32ConvertI64S }
    } else if unsigned {
        Ins::F64ConvertI64U
    } else {
        Ins::F64ConvertI64S
    };
    push_tracked(code, convert, Ghost(start), Ghost(acc + wide_code(source, source_ty, unsigned)));
    assert((acc + wide_code(source, source_ty, unsigned)).push(convert) =~= int_float_code(from, to, source, source_ty));
}

#[verifier::rlimit(60)]
#[verifier::spinoff_prover]
fn push_float_check(code: &mut Builder, min: u64, max: u64, source: u32, source_ty: ValTy, Ghost(start): Ghost<Builder>, Ghost(acc): Ghost<Seq<Ins>>)
    requires
        extended(start, *old(code), acc),
        old(code).frames().len() > 0,
        source < old(code).nlocals(),
    ensures
        extended(start, *final(code), acc + float_check_code(min, max, source, source_ty)),
        final(code).frames() == old(code).frames(),
        final(code).nlocals() == old(code).nlocals(),
{
    let ghost d = double_code(source, source_ty);
    let ghost mut a = acc;
    push_double(code, source, source_ty, Ghost(start), Ghost(a));
    proof { a = a + d; }
    push_tracked(code, Ins::F64Abs, Ghost(start), Ghost(a));
    proof { a = a.push(Ins::F64Abs); }
    push_tracked(code, Ins::F64Const(0x7FF0_0000_0000_0000), Ghost(start), Ghost(a));
    proof { a = a.push(Ins::F64Const(0x7FF0_0000_0000_0000)); }
    push_tracked(code, Ins::F64Lt, Ghost(start), Ghost(a));
    proof { a = a.push(Ins::F64Lt); }
    push_double(code, source, source_ty, Ghost(start), Ghost(a));
    proof { a = a + d; }
    push_tracked(code, Ins::F64Trunc, Ghost(start), Ghost(a));
    proof { a = a.push(Ins::F64Trunc); }
    push_tracked(code, Ins::F64Const(min), Ghost(start), Ghost(a));
    proof { a = a.push(Ins::F64Const(min)); }
    push_tracked(code, Ins::F64Ge, Ghost(start), Ghost(a));
    proof { a = a.push(Ins::F64Ge); }
    push_tracked(code, Ins::I32And, Ghost(start), Ghost(a));
    proof { a = a.push(Ins::I32And); }
    push_double(code, source, source_ty, Ghost(start), Ghost(a));
    proof { a = a + d; }
    push_tracked(code, Ins::F64Trunc, Ghost(start), Ghost(a));
    proof { a = a.push(Ins::F64Trunc); }
    push_tracked(code, Ins::F64Const(max), Ghost(start), Ghost(a));
    proof { a = a.push(Ins::F64Const(max)); }
    push_tracked(code, Ins::F64Lt, Ghost(start), Ghost(a));
    proof { a = a.push(Ins::F64Lt); }
    push_tracked(code, Ins::I32And, Ghost(start), Ghost(a));
    proof { a = a.push(Ins::I32And); }
    assert(a =~= acc + float_check_code(min, max, source, source_ty));
}

#[verifier::rlimit(60)]
#[verifier::spinoff_prover]
fn cast_float_int(code: &mut Builder, to: NumericKind, min: u64, max: u64, source: u32, source_ty: ValTy, dest_ty: ValTy)
    requires
        open_for_code(*old(code)),
        source < old(code).nlocals(),
    ensures
        appended(*old(code), *final(code), float_int_code(to, min, max, source, source_ty, dest_ty)),
{
    let ghost start = *code;
    let ghost frames = code.frames();
    let ghost e: Seq<Ins> = Seq::empty();
    assert(code.code() =~= start.code() + e);
    let ghost d = double_code(source, source_ty);
    push_float_check(code, min, max, source, source_ty, Ghost(start), Ghost(e));
    let ghost a1 = e + float_check_code(min, max, source, source_ty);
    push_tracked(code, Ins::If(BlockTy::Result(dest_ty)), Ghost(start), Ghost(a1));
    let ghost a2 = a1.push(Ins::If(BlockTy::Result(dest_ty)));
    push_double(code, source, source_ty, Ghost(start), Ghost(a2));
    let ghost a3 = a2 + d;
    let truncate = if to.is_unsigned() { Ins::I64TruncF64U } else { Ins::I64TruncF64S };
    push_tracked(code, truncate, Ghost(start), Ghost(a3));
    let ghost a4 = a3.push(truncate);
    push_checked_tail(code, dest_ty, Ghost(start), Ghost(a4));
    assert(code.frames() =~= frames);
    assert(a4 + narrow_code(dest_ty) + seq![Ins::Else, Ins::Unreachable, Ins::End]
        =~= float_int_code(to, min, max, source, source_ty, dest_ty));
}

fn cast_float_float(code: &mut Builder, to: NumericKind, source: u32, source_ty: ValTy)
    requires
        open_for_code(*old(code)),
        source < old(code).nlocals(),
    ensures
        appended(*old(code), *final(code), float_float_code(to, source, source_ty)),
{
    code.push(Ins::LocalGet(source));
    if source_ty == ValTy::F32 && to != NumericKind::F32 {
        code.push(Ins::F64PromoteF32);
    } else if source_ty != ValTy::F32 && to == NumericKind::F32 {
        code.push(Ins::F32DemoteF64);
    }
    assert(code.code() =~= old(code).code() + float_float_code(to, source, source_ty));
}

/// The conversion is defined: a signed narrowing target below 64 bits has
/// at least one bit.
pub open spec fn cast_defined(from: NumericKind, to: NumericKind, pointer_bits: u32) -> bool {
    (!spec_is_float(from) && !spec_is_float(to) && !spec_is_unsigned(to) && target_bits(to, pointer_bits) < 64)
        ==> target_bits(to, pointer_bits) > 0
}

/// Appends an explicit numeric conversion from `from` to `to` of the value in
/// local `source` (of wasm type `source_ty`) to a value of wasm type
/// `dest_ty`, stored into `dest` when the value has a local.
pub fn emit_numeric_cast(
    code: &mut Builder,
    from: NumericKind,
    to: NumericKind,
    pointer_bits: u32,
    source: u32,
    source_ty: ValTy,
    dest_ty: ValTy,
    dest: Option<u32>,
)
    requires
        open_for_code(*old(code)),
        source < old(code).nlocals(),
        local_fits(dest, old(code).nlocals()),
        cast_defined(from, to, pointer_bits),
    ensures
        appended(*old(code), *final(code), numeric_cast_code(from, to, pointer_bits, source, source_ty, dest_ty, dest)),
{
    let ghost start = *code;
    let to_bits = if to.bits() == 0 { pointer_bits } else { to.bits() };
    if !from.is_float() && !to.is_float() {
        cast_int_int(code, from, to, to_bits, source, source_ty, dest_ty);
    } else if !from.is_float() && to.is_float() {
        cast_int_float(code, from, to, source, source_ty);
    } else if from.is_float() && !to.is_float() {
        let (min, max) = float_int_range(to, pointer_bits);
        cast_float_int(code, to, min, max, source, source_ty, dest_ty);
    } else {
        cast_float_float(code, to, source, source_ty);
    }
    let ghost mid = *code;
    if let Some(index) = dest {
        code.push(Ins::LocalSet(index));
    }
    assert(code.code() =~= start.code() + numeric_cast_code(from, to, pointer_bits, source, source_ty, dest_ty, dest));
}

/// The MIR local at `i` is an ordinary local: neither the frame or output
/// pointer nor a declared parameter.
pub open spec fn ordinary_local(function: &MirFunction, i: int) -> bool {
    &&& function.frame_param != Some(i as u32)
    &&& function.out_param != Some(i as u32)
    &&& i >= function.parameter_count
}

/// The number of ordinary locals before position `i`.
pub open spec fn ordinary_before(function: &MirFunction, i: int) -> nat
    decreases i,
{
    if i <= 0 {
        0
    } else {
        ordinary_before(function, i - 1) + if ordinary_local(function, i - 1) { 1nat } else { 0nat }
    }
}

/// The number of wasm parameters of `function`: the frame pointer (and, for
/// a poll entry, the output pointer) of a frame-based async body, else its
/// declared parameters.
pub open spec fn wasm_params(function: &MirFunction) -> int {
    if function.frame_param is Some {
        (if function.out_param is Some { 1int } else { 0int }) + 1
    } else {
        function.parameter_count as int
    }
}

/// The wasm local of the MIR local at `i`: the frame pointer is local 0, the
/// output pointer local 1, declared parameters keep their position, and the
/// ordinary locals follow the wasm parameters in order.
pub open spec fn local_slot(function: &MirFunction, i: int) -> int {
    if function.frame_param == Some(i as u32) {
        0
    } else if function.out_param == Some(i as u32) {
        1
    } else if i < function.parameter_count {
        i
    } else {
        wasm_params(function) + ordinary_before(function, i)
    }
}

/// Maps MIR locals to wasm locals.
pub struct LocalMap {
    /// The wasm local of each MIR local, by position.
    pub map: Vec<u32>,
    /// The wasm local index where value temporaries begin.
    pub base: u32,
}

impl LocalMap {
    /// The wasm local of each MIR local.
    pub open spec fn slots(&self) -> Seq<u32> {
        self.map@
    }

    /// The mapping of `function`'s locals; value temporaries begin after the
    /// wasm parameters and the ordinary locals.
    pub fn new(function: &MirFunction) -> (m: LocalMap)
        requires
            function.locals@.len() + function.parameter_count + 2 <= u32::MAX,
        ensures
            m.slots().len() == function.locals@.len(),
            forall|i: int| 0 <= i < m.slots().len() ==> #[trigger] m.slots()[i] == local_slot(function, i),
            m.base == wasm_params(function) + ordinary_before(function, function.locals@.len() as int),
    {
        let param_count: usize = if function.frame_param.is_some() {
            (if function.out_param.is_some() { 1 } else { 0 }) + 1
        } else {
            function.parameter_count
        };
        let n = function.locals.len();
        let mut map: Vec<u32> = Vec::new();
        let mut next: u32 = param_count as u32;
        let mut index: usize = 0;
        while index < n
            invariant
                n == function.locals@.len(),
                n + function.parameter_count + 2 <= u32::MAX,
                param_count == wasm_params(function),
                index <= n,
                map@.len() == index,
                next == wasm_params(function) + ordinary_before(function, index as int),
                ordinary_before(function, index as int) <= index,
                forall|i: int| 0 <= i < index ==> #[trigger] map@[i] == local_slot(function, i),
            decreases n - index,
        {
            let slot: u32 = if function.frame_param == Some(index as u32) {
                0
            } else if function.out_param == Some(index as u32) {
                1
            } else if index < function.parameter_count {
                index as u32
            } else {
                let s = next;
                next = next + 1;
                s
            };
            map.push(slot);
            index = index + 1;
        }
        LocalMap { map, base: next }
    }

    /// The wasm local of the MIR local at `local`.
    pub fn get(&self, local: usize) -> (r: u32)
        requires
            local < self.slots().len(),
        ensures
            r == self.slots()[local as int],
    {
        self.map[local]
    }
}

} // verus!
