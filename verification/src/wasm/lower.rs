//! MIR → wasm function body lowering (scalar + minimal managed subset).
//!
//! Control flow is lowered with a switch-dispatch loop, which maps arbitrary
//! reducible CFGs onto wasm's structured control flow. Every lowering step
//! only appends code: the body stays well formed, its open constructs are
//! the same after each instruction as before, and every local it names is
//! one the body declares.
use vstd::prelude::*;
use crate::text::str_eq;
use crate::wasm::asyncrt::AsyncRt;
use crate::wasm::backend::CodegenError;
use crate::wasm::builder::{Body, Builder};
use crate::wasm::layout::{known, valtype};
use crate::wasm::mir::{
    BasicBlock, BuiltinFunction, EnumLayout, FieldLayout, FrameLayout, Instruction, LocalId, Terminator, TypeShape,
    UnaryOp, ValueId,
};
use crate::wasm::model::{BlockTy, Ins, ValTy};
use crate::wasm::program::{Callable, LayoutTable, MirFunction, OwnershipKind, SymbolId, TypeId, ValueRepr};
use crate::wasm::rc;
use crate::wasm::rt_index::Runtime;
use crate::wasm::select::{
    coerce_code, widen_code, spec_element_kind, from_i32_code, from_i64_code, store_code, is_comparison, spec_default_value, spec_optional_payload_offset, spec_is_managed_handle, spec_retain_call, spec_release_call, spec_load_instruction, spec_store_instruction, spec_mem_load, spec_memarg, local_slot, ordinary_before, ordinary_local, wasm_params,
    binary_instruction, coerce, is_managed_handle, load_instruction, memarg, open_for_code, store_instruction,
    alignment_of, binary_ins, cast_defined, default_value, element_kind, emit_numeric_cast, mem_load, push_as_i64,
    set_from_i32, set_from_i64, widen_to_slot, mem_store, spec_mem_store, optional_payload_offset, release_call, retain_call, BinaryOp,
    LocalMap, op_name, valtype_label, numeric_cast_code,
};
use crate::wasm::layout::spec_valtype;
use crate::text::{decimal, push_decimal};

verus! {

/// Scratch address in linear memory for a poll result (scalars, pointers).
pub const POLL_SCRATCH: i32 = 32;

/// Shared lowering context for a program: the layout table, the function
/// index of each symbol, the data address of each string literal, the wasm
/// parameter types of each direct callee, the type index and signature of
/// each callable type, the runtime and async helper indices, each async function's frame
/// and poll entry, and where an async frame keeps its state and child.
pub struct LowerCtx<'a> {
    pub layouts: &'a LayoutTable,
    pub symbols: &'a Vec<(SymbolId, u32)>,
    pub strings: &'a Vec<(String, u32)>,
    pub callee_params: &'a Vec<(SymbolId, Vec<ValTy>)>,
    pub callable_types: &'a Vec<(TypeId, u32)>,
    pub callables: &'a Vec<Callable>,
    pub rt: &'a Runtime,
    pub frames: &'a Vec<(SymbolId, FrameLayout)>,
    pub poll_thunks: &'a Vec<(SymbolId, u32)>,
    pub async_rt: &'a AsyncRt,
    pub frame_state_offset: u64,
    pub frame_child_offset: u64,
}

/// Every type that the shape of `t` names is in the layout table.
pub open spec fn shape_closed(layouts: &LayoutTable, s: TypeShape) -> bool {
    &&& (s.list_element matches Some(e) ==> known(layouts, e))
    &&& (s.map_entry matches Some((k, v)) ==> known(layouts, k) && known(layouts, v))
    &&& (s.array matches Some((e, _)) ==> known(layouts, e))
    &&& (s.optional_inner matches Some(i) ==> known(layouts, i))
    &&& (s.result matches Some(r) ==> known(layouts, r.ok) && known(layouts, r.err))
    &&& (s.fields matches Some(fs) ==> forall|i: int| 0 <= i < fs@.len() ==> known(layouts, #[trigger] fs@[i].ty))
    &&& (s.enum_layout matches Some(e) ==> forall|v: int, i: int|
        0 <= v < e.variants@.len() && 0 <= i < e.variants@[v].fields@.len()
            ==> known(layouts, #[trigger] e.variants@[v].fields@[i].ty))
}

/// The layout table has one shape per type, and every shape names only
/// types of the table.
pub open spec fn layouts_wf(layouts: &LayoutTable) -> bool {
    &&& layouts.shapes@.len() == layouts.types@.len()
    &&& forall|t: int| 0 <= t < layouts.shapes@.len() ==> shape_closed(layouts, #[trigger] layouts.shapes@[t])
}

/// The shape of the type at `ty`.
pub open spec fn shape(layouts: &LayoutTable, ty: TypeId) -> TypeShape {
    layouts.shapes@[ty.0 as int]
}

impl<'a> LowerCtx<'a> {
    /// The layout table is well formed and every frame slot's type is in it.
    pub open spec fn wf(&self) -> bool {
        &&& layouts_wf(self.layouts)
        &&& callables_known(self.layouts, self.callables@)
        &&& forall|i: int| 0 <= i < self.frames@.len() ==> {
            let layout = #[trigger] self.frames@[i].1;
            &&& (layout.completion matches Some(c) ==> known(self.layouts, c.ty))
        }
    }
}

/// Every parameter type of every callable signature is in the layout table.
#[verifier::opaque]
pub open spec fn callables_known(layouts: &LayoutTable, callables: Seq<Callable>) -> bool {
    forall|c: int, i: int| 0 <= c < callables.len() && 0 <= i < callables[c].params@.len()
        ==> known(layouts, #[trigger] callables[c].params@[i])
}

/// Some entry of `entries` is keyed by `key`.
pub open spec fn keyed<V>(entries: Seq<(SymbolId, V)>, key: SymbolId) -> bool {
    exists|i: int| 0 <= i < entries.len() && (#[trigger] entries[i]).0 == key
}

/// `i` is the position of the first entry keyed by `key`.
pub open spec fn first_keyed_at<V>(entries: Seq<(SymbolId, V)>, key: SymbolId, i: int) -> bool {
    &&& 0 <= i < entries.len()
    &&& entries[i].0 == key
    &&& forall|j: int| 0 <= j < i ==> (#[trigger] entries[j]).0 != key
}

/// The value of the first entry keyed by `key` (meaningful when there is
/// one).
pub open spec fn symbol_value(entries: Seq<(SymbolId, u32)>, key: SymbolId) -> u32 {
    entries[choose|i: int| first_keyed_at(entries, key, i)].1
}

/// The first entry keyed by `key` is the only position that is the first.
proof fn lemma_first_keyed<V>(entries: Seq<(SymbolId, V)>, key: SymbolId, i: int)
    requires
        first_keyed_at(entries, key, i),
    ensures
        (choose|k: int| first_keyed_at(entries, key, k)) == i,
{
    let c = choose|k: int| first_keyed_at(entries, key, k);
    assert(first_keyed_at(entries, key, c));
    if c < i {
        assert(entries[c].0 != key);
    } else if c > i {
        assert(entries[i].0 != key);
    }
}

/// The position of the first entry keyed by `key`, if any.
pub fn find_symbol<V>(entries: &Vec<(SymbolId, V)>, key: SymbolId) -> (r: Option<usize>)
    ensures
        r is Some <==> keyed(entries@, key),
        r matches Some(i) ==> first_keyed_at(entries@, key, i as int),
{
    let mut i: usize = 0;
    while i < entries.len()
        invariant
            i <= entries@.len(),
            forall|j: int| 0 <= j < i ==> (#[trigger] entries@[j]).0 != key,
        decreases entries@.len() - i,
    {
        if entries[i].0 == key {
            return Some(i);
        }
        i = i + 1;
    }
    None
}

/// The value of the first entry keyed by `key`, if any.
pub fn symbol_index(entries: &Vec<(SymbolId, u32)>, key: SymbolId) -> (r: Option<u32>)
    ensures
        r is Some <==> keyed(entries@, key),
        r matches Some(v) ==> v == symbol_value(entries@, key),
{
    match find_symbol(entries, key) {
        Some(i) => {
            proof {
                lemma_first_keyed(entries@, key, i as int);
            }
            Some(entries[i].1)
        },
        None => None,
    }
}

/// Some callable-type entry is keyed by `key`.
pub open spec fn type_keyed(entries: Seq<(TypeId, u32)>, key: TypeId) -> bool {
    exists|i: int| 0 <= i < entries.len() && (#[trigger] entries[i]).0 == key
}

/// `i` is the position of the first callable-type entry keyed by `key`.
pub open spec fn first_type_at(entries: Seq<(TypeId, u32)>, key: TypeId, i: int) -> bool {
    &&& 0 <= i < entries.len()
    &&& entries[i].0 == key
    &&& forall|j: int| 0 <= j < i ==> (#[trigger] entries[j]).0 != key
}

/// The type index of the first entry for the callable type `key`
/// (meaningful when there is one).
pub open spec fn type_value(entries: Seq<(TypeId, u32)>, key: TypeId) -> u32 {
    entries[choose|i: int| first_type_at(entries, key, i)].1
}

/// The first entry for `key` is the only position that is the first.
proof fn lemma_first_type(entries: Seq<(TypeId, u32)>, key: TypeId, i: int)
    requires
        first_type_at(entries, key, i),
    ensures
        (choose|k: int| first_type_at(entries, key, k)) == i,
{
    let c = choose|k: int| first_type_at(entries, key, k);
    assert(first_type_at(entries, key, c));
    if c < i {
        assert(entries[c].0 != key);
    } else if c > i {
        assert(entries[i].0 != key);
    }
}

/// The type index recorded for the callable type `key`, if any.
pub fn callable_type_index(entries: &Vec<(TypeId, u32)>, key: TypeId) -> (r: Option<u32>)
    ensures
        r is Some <==> type_keyed(entries@, key),
        r matches Some(x) ==> x == type_value(entries@, key),
{
    let mut i: usize = 0;
    while i < entries.len()
        invariant
            i <= entries@.len(),
            forall|j: int| 0 <= j < i ==> (#[trigger] entries@[j]).0 != key,
        decreases entries@.len() - i,
    {
        if entries[i].0 == key {
            proof {
                lemma_first_type(entries@, key, i as int);
            }
            return Some(entries[i].1);
        }
        i = i + 1;
    }
    None
}

/// Some string entry holds the text `literal`.
pub open spec fn has_string(entries: Seq<(String, u32)>, literal: Seq<char>) -> bool {
    exists|i: int| 0 <= i < entries.len() && (#[trigger] entries[i]).0@ == literal
}

/// `i` is the position of the first string entry holding `literal`.
pub open spec fn first_string_at(entries: Seq<(String, u32)>, literal: Seq<char>, i: int) -> bool {
    &&& 0 <= i < entries.len()
    &&& entries[i].0@ == literal
    &&& forall|j: int| 0 <= j < i ==> (#[trigger] entries[j]).0@ != literal
}

/// The address of the first string entry holding `literal` (meaningful when
/// there is one).
pub open spec fn string_value(entries: Seq<(String, u32)>, literal: Seq<char>) -> u32 {
    entries[choose|i: int| first_string_at(entries, literal, i)].1
}

/// The data address recorded for the string literal `literal`, if any.
pub fn string_address(entries: &Vec<(String, u32)>, literal: &str) -> (r: Option<u32>)
    ensures
        r is Some <==> has_string(entries@, literal@),
        r matches Some(a) ==> a == string_value(entries@, literal@),
{
    let mut i: usize = 0;
    while i < entries.len()
        invariant
            i <= entries@.len(),
            forall|j: int| 0 <= j < i ==> (#[trigger] entries@[j]).0@ != literal@,
        decreases entries@.len() - i,
    {
        if str_eq(entries[i].0.as_str(), literal) {
            proof {
                let c = choose|k: int| first_string_at(entries@, literal@, k);
                assert(first_string_at(entries@, literal@, i as int));
                assert(first_string_at(entries@, literal@, c));
                if c < i as int {
                    assert(entries@[c].0@ != literal@);
                } else if c > i as int {
                    assert(entries@[i as int].0@ != literal@);
                }
            }
            return Some(entries[i].1);
        }
        i = i + 1;
    }
    None
}

/// The wasm local, wasm type and MIR type of one SSA value.
#[derive(Clone, Copy, Debug)]
pub struct ValueSlot {
    pub value: ValueId,
    pub local: u32,
    pub ty: ValTy,
    pub mir: Option<TypeId>,
}

/// The locals of a body's values, and the MIR local each borrowed value
/// reads through.
pub struct Values {
    pub slots: Vec<ValueSlot>,
    pub borrows: Vec<(ValueId, LocalId)>,
}

impl Values {
    /// `v` has a wasm local.
    pub open spec fn has(&self, v: ValueId) -> bool {
        exists|i: int| 0 <= i < self.slots@.len() && (#[trigger] self.slots@[i]).value == v
    }

    /// `v` is read through a borrowed MIR local.
    pub open spec fn borrowed(&self, v: ValueId) -> bool {
        exists|i: int| 0 <= i < self.borrows@.len() && (#[trigger] self.borrows@[i]).0 == v
    }

    /// No value has two slots.
    pub open spec fn unique(&self) -> bool {
        forall|i: int, j: int| 0 <= i < j < self.slots@.len()
            ==> (#[trigger] self.slots@[i]).value != (#[trigger] self.slots@[j]).value
    }

    /// No value has two slots, and every slot's local is below `nlocals`.
    pub open spec fn locals_below(&self, nlocals: nat) -> bool {
        &&& self.unique()
        &&& forall|i: int| 0 <= i < self.slots@.len() ==> (#[trigger] self.slots@[i]).local < nlocals
    }

    /// Every recorded MIR type is in `layouts`.
    pub open spec fn types_known(&self, layouts: &LayoutTable) -> bool {
        forall|i: int| 0 <= i < self.slots@.len()
            ==> ((#[trigger] self.slots@[i]).mir matches Some(t) ==> known(layouts, t))
    }

    /// The slots fit a body with `nlocals` wasm locals and `nmir` MIR locals
    /// whose types are in `layouts`: every borrowed local is one of the MIR
    /// locals and every recorded MIR type is in the table.
    pub open spec fn fits(&self, nlocals: nat, nmir: nat, layouts: &LayoutTable) -> bool {
        &&& self.locals_below(nlocals)
        &&& self.types_known(layouts)
        &&& self.borrows_below(nmir)
    }

    /// Every borrowed local is one of `nmir` MIR locals.
    pub open spec fn borrows_below(&self, nmir: nat) -> bool {
        forall|i: int| 0 <= i < self.borrows@.len() ==> (#[trigger] self.borrows@[i]).1.0 < nmir
    }

    /// The slot of `v` (meaningful when it has one).
    pub open spec fn slot(&self, v: ValueId) -> ValueSlot {
        self.slots@[choose|i: int| 0 <= i < self.slots@.len() && (#[trigger] self.slots@[i]).value == v]
    }

    /// `i` is the first borrow entry of `v`.
    pub open spec fn first_borrow_at(&self, v: ValueId, i: int) -> bool {
        &&& 0 <= i < self.borrows@.len()
        &&& self.borrows@[i].0 == v
        &&& forall|j: int| 0 <= j < i ==> (#[trigger] self.borrows@[j]).0 != v
    }

    /// The MIR local that `v` borrows (meaningful when it is a borrow).
    pub open spec fn borrow_local(&self, v: ValueId) -> LocalId {
        self.borrows@[choose|i: int| self.first_borrow_at(v, i)].1
    }

    /// The wasm local that `v` is read from: the borrowed MIR local's, else
    /// its own slot's, else 0.
    pub open spec fn read_local(&self, map: &LocalMap, v: ValueId) -> u32 {
        if self.borrowed(v) {
            map.slots()[self.borrow_local(v).0 as int]
        } else if self.has(v) {
            self.slot(v).local
        } else {
            0
        }
    }

    /// Every slot of `v` is `v`'s slot, when no value has two slots.
    pub proof fn lemma_slot_unique(&self, v: ValueId)
        requires
            self.unique(),
        ensures
            forall|i: int| 0 <= i < self.slots@.len() && (#[trigger] self.slots@[i]).value == v
                ==> self.slots@[i] == self.slot(v),
    {
        assert forall|i: int| 0 <= i < self.slots@.len() && (#[trigger] self.slots@[i]).value == v
            implies self.slots@[i] == self.slot(v) by {
            let j = choose|j: int| 0 <= j < self.slots@.len() && (#[trigger] self.slots@[j]).value == v;
            if i != j {
                if i < j {
                    assert(self.slots@[i].value != self.slots@[j].value);
                } else {
                    assert(self.slots@[j].value != self.slots@[i].value);
                }
            }
        }
    }

    /// The wasm type of `v`: that of its slot, `i64` when it has none.
    pub open spec fn vty_of(&self, v: ValueId) -> ValTy {
        if self.has(v) { self.slot(v).ty } else { ValTy::I64 }
    }

    /// The wasm type of `v`'s slot, if it has one.
    pub open spec fn type_of(&self, v: ValueId) -> Option<ValTy> {
        if self.has(v) { Some(self.slot(v).ty) } else { None }
    }

    /// The MIR type recorded for `v`, if any.
    pub open spec fn mir_of(&self, v: ValueId) -> Option<TypeId> {
        if self.has(v) { self.slot(v).mir } else { None }
    }

    /// The position of `v`'s slot, if it has one.
    pub fn find(&self, v: ValueId) -> (r: Option<usize>)
        ensures
            r is Some <==> self.has(v),
            r matches Some(i) ==> i < self.slots@.len() && self.slots@[i as int].value == v,
    {
        let mut i: usize = 0;
        while i < self.slots.len()
            invariant
                i <= self.slots@.len(),
                forall|j: int| 0 <= j < i ==> (#[trigger] self.slots@[j]).value != v,
            decreases self.slots@.len() - i,
        {
            if self.slots[i].value == v {
                return Some(i);
            }
            i = i + 1;
        }
        None
    }

    /// The wasm type of `v`, if it has a slot.
    pub fn value_type(&self, v: ValueId) -> (r: Option<ValTy>)
        ensures
            r is Some <==> self.has(v),
            self.unique() ==> r == self.type_of(v),
    {
        match self.find(v) {
            Some(i) => {
                proof {
                    if self.unique() {
                        self.lemma_slot_unique(v);
                    }
                }
                Some(self.slots[i].ty)
            },
            None => None,
        }
    }

    /// The wasm type of `v`, `i64` when it has no slot.
    pub fn vty(&self, v: ValueId) -> (r: ValTy)
        ensures
            self.unique() ==> r == self.vty_of(v),
    {
        match self.value_type(v) {
            Some(t) => t,
            None => ValTy::I64,
        }
    }

    /// The MIR type of `v`, if recorded.
    pub fn mir_type(&self, v: ValueId) -> (r: Option<TypeId>)
        requires
            self.unique(),
        ensures
            r == self.mir_of(v),
    {
        match self.find(v) {
            Some(i) => {
                proof {
                    let j = choose|j: int| 0 <= j < self.slots@.len() && (#[trigger] self.slots@[j]).value == v;
                    assert(j == i as int);
                }
                self.slots[i].mir
            },
            None => None,
        }
    }

    /// The wasm local of `v`, if it has a slot.
    pub fn local(&self, v: ValueId) -> (r: Option<u32>)
        ensures
            r is Some <==> self.has(v),
            r matches Some(l) ==> exists|i: int| 0 <= i < self.slots@.len()
                && (#[trigger] self.slots@[i]).value == v && self.slots@[i].local == l,
    {
        match self.find(v) {
            Some(i) => Some(self.slots[i].local),
            None => None,
        }
    }

    /// The MIR local that `v` borrows, if it is a borrow.
    pub fn borrow_of(&self, v: ValueId) -> (r: Option<LocalId>)
        ensures
            r is Some <==> self.borrowed(v),
            r matches Some(l) ==> exists|i: int| 0 <= i < self.borrows@.len()
                && (#[trigger] self.borrows@[i]).0 == v && self.borrows@[i].1 == l,
            r matches Some(l) ==> l == self.borrow_local(v),
    {
        let mut i: usize = 0;
        while i < self.borrows.len()
            invariant
                i <= self.borrows@.len(),
                forall|j: int| 0 <= j < i ==> (#[trigger] self.borrows@[j]).0 != v,
            decreases self.borrows@.len() - i,
        {
            if self.borrows[i].0 == v {
                proof {
                    let c = choose|k: int| self.first_borrow_at(v, k);
                    assert(self.first_borrow_at(v, i as int));
                    assert(self.first_borrow_at(v, c));
                    if c < i as int {
                        assert(self.borrows@[c].0 != v);
                    } else if c > i as int {
                        assert(self.borrows@[i as int].0 != v);
                    }
                }
                return Some(self.borrows[i].1);
            }
            i = i + 1;
        }
        None
    }
}

/// `b` continues `a`: still well formed, with the same parameters, locals
/// and open constructs, and `a`'s code as a prefix of its own.
pub open spec fn continues(a: Builder, b: Builder) -> bool {
    &&& b.wf()
    &&& b.params() == a.params()
    &&& b.locals() == a.locals()
    &&& b.frames() == a.frames()
    &&& a.code().len() <= b.code().len()
    &&& forall|i: int| 0 <= i < a.code().len() ==> #[trigger] b.code()[i] == a.code()[i]
}

/// Every wasm local that `map` assigns is below `nlocals`.
pub open spec fn map_fits(map: &LocalMap, nlocals: nat) -> bool {
    forall|i: int| 0 <= i < map.slots().len() ==> #[trigger] map.slots()[i] < nlocals
}

/// What every lowering step needs: code can be appended to `f`; the value
/// slots, the local map and `scratch` name locals of `f`; the local map
/// covers the body's locals; and the context is well formed.
pub open spec fn env(
    ctx: &LowerCtx,
    body: &MirFunction,
    map: &LocalMap,
    vals: &Values,
    scratch: u32,
    f: Builder,
) -> bool {
    &&& open_for_code(f)
    &&& ctx.wf()
    &&& vals.fits(f.nlocals(), map.slots().len(), ctx.layouts)
    &&& map_fits(map, f.nlocals())
    &&& map.slots().len() == body.locals@.len()
    &&& scratch < f.nlocals()
    &&& forall|i: int| 0 <= i < body.locals@.len()
        ==> (#[trigger] body.locals@[i] matches Some(t) ==> known(ctx.layouts, t))
}

/// Pushes `ins`, which names no local, branch depth or construct.
fn emit(f: &mut Builder, ins: Ins)
    requires
        open_for_code(*old(f)),
        !(ins is Block || ins is Loop || ins is If || ins is Else || ins is End || ins is Br
            || ins is BrIf || ins is BrTable || ins is LocalGet || ins is LocalSet || ins is LocalTee),
    ensures
        continues(*old(f), *final(f)),
        final(f).code() == old(f).code().push(ins),
{
    f.push(ins);
}

/// Pushes `local.get` of the value `v`.
fn get(f: &mut Builder, vals: &Values, v: ValueId)
    requires
        open_for_code(*old(f)),
        vals.has(v),
        vals.locals_below(old(f).nlocals()),
    ensures
        continues(*old(f), *final(f)),
        final(f).code() == old(f).code().push(Ins::LocalGet(vals.slot(v).local)),
{
    let l = vals.local(v).unwrap();
    proof {
        vals.lemma_slot_unique(v);
    }
    f.push(Ins::LocalGet(l));
}

/// The code that stores the top of the stack into `v`'s local: `local.set`
/// when it has one, nothing otherwise.
#[verifier::opaque]
pub open spec fn set_code(vals: &Values, v: ValueId) -> Seq<Ins> {
    if vals.has(v) {
        seq![Ins::LocalSet(vals.slot(v).local)]
    } else {
        Seq::empty()
    }
}

/// Pushes `local.set` of the value `v` when it has a local.
fn set(f: &mut Builder, vals: &Values, v: ValueId)
    requires
        open_for_code(*old(f)),
        vals.locals_below(old(f).nlocals()),
    ensures
        continues(*old(f), *final(f)),
        final(f).code() == old(f).code() + set_code(vals, v),
{
    reveal(set_code);
    match vals.local(v) {
        Some(l) => {
            proof {
                vals.lemma_slot_unique(v);
            }
            f.push(Ins::LocalSet(l));
            assert(f.code() =~= old(f).code() + set_code(vals, v));
        },
        None => {
            assert(f.code() =~= old(f).code() + set_code(vals, v));
        },
    }
}

/// `t`, when present, is in the layout table.
pub open spec fn opt_known(layouts: &LayoutTable, t: Option<TypeId>) -> bool {
    t matches Some(ty) ==> known(layouts, ty)
}

/// The wasm type binary operands are converted to: that of the operand
/// type, `i64` when it is unknown.
pub open spec fn operand_valtype(layouts: &LayoutTable, t: Option<TypeId>) -> ValTy {
    match t {
        Some(ty) => spec_valtype(layouts, ty),
        None => ValTy::I64,
    }
}

/// Whether binary operands of type `t` compare and divide as unsigned.
pub open spec fn operand_unsigned(layouts: &LayoutTable, t: Option<TypeId>) -> bool {
    match t {
        Some(ty) => layouts.shapes@[ty.0 as int].unsigned,
        None => false,
    }
}

/// The error text for a string literal that has no data address.
fn unregistered_literal_text(literal: &str) -> (r: String)
    ensures
        r@ == "wasm backend: unregistered string literal `"@ + literal@ + "`"@,
{
    let mut message = String::new();
    message.append("wasm backend: unregistered string literal `");
    message.append(literal);
    message.append("`");
    message
}

/// Pushes `local.get` of the MIR local `local`.
fn get_local(f: &mut Builder, map: &LocalMap, local: LocalId)
    requires
        open_for_code(*old(f)),
        local.0 < map.slots().len(),
        map_fits(map, old(f).nlocals()),
    ensures
        continues(*old(f), *final(f)),
        final(f).code() == old(f).code().push(Ins::LocalGet(map.slots()[local.0 as int])),
{
    let l = map.get(local.0);
    f.push(Ins::LocalGet(l));
}

/// Pushes a constant of the type of a stored value of `ty` at offset `offset`.
fn emit_store(f: &mut Builder, layouts: &LayoutTable, ty: TypeId, offset: i64)
    requires
        open_for_code(*old(f)),
        known(layouts, ty),
    ensures
        continues(*old(f), *final(f)),
        final(f).code() == old(f).code().push(spec_store_instruction(layouts, ty, offset)),
{
    let ins = store_instruction(layouts, ty, offset);
    f.push(ins);
}

/// Pushes the load of a value of `ty` from offset `offset`.
fn emit_load(f: &mut Builder, layouts: &LayoutTable, ty: TypeId, offset: i64)
    requires
        open_for_code(*old(f)),
        known(layouts, ty),
    ensures
        continues(*old(f), *final(f)),
        final(f).code() == old(f).code().push(spec_load_instruction(layouts, ty, offset)),
{
    let ins = load_instruction(layouts, ty, offset);
    f.push(ins);
}

/// Pushes the conversion of the value on the stack, of wasm type `from`
/// when known, to `to`.
fn emit_coerce(f: &mut Builder, from: Option<ValTy>, to: ValTy)
    requires
        open_for_code(*old(f)),
    ensures
        continues(*old(f), *final(f)),
        final(f).code() == old(f).code() + coerce_code(from, to),
{
    coerce(f, from, to);
}

/// `ConstFloat`: a single-precision constant when the type is four bytes
/// wide, else a double.
fn lower_const_float(f: &mut Builder, ctx: &LowerCtx, vals: &Values, value: ValueId, bits: u64, single_bits: u32, ty: Option<TypeId>)
    requires
        open_for_code(*old(f)),
        vals.locals_below(old(f).nlocals()),
        opt_known(ctx.layouts, ty),
    ensures
        continues(*old(f), *final(f)),
        final(f).code() == old(f).code() + const_float_code(ctx, vals, value, bits, single_bits, ty),
{
    let single = match ty {
        Some(t) => ctx.layouts.types[t.0].size == 4,
        None => false,
    };
    if single {
        emit(f, Ins::F32Const(single_bits));
    } else {
        emit(f, Ins::F64Const(bits));
    }
    set(f, vals, value);
    assert(f.code() =~= old(f).code() + const_float_code(ctx, vals, value, bits, single_bits, ty));
}

/// The code of `ConstFloat`: a single-precision constant when the type is
/// four bytes wide, else a double; then the value stored.
pub open spec fn const_float_code(ctx: &LowerCtx, vals: &Values, value: ValueId, bits: u64, single_bits: u32, ty: Option<TypeId>) -> Seq<Ins> {
    let single = ty matches Some(t) && ctx.layouts.types@[t.0 as int].size == 4;
    seq![if single { Ins::F32Const(single_bits) } else { Ins::F64Const(bits) }] + set_code(vals, value)
}

/// The code of `PollFuture`: the frame's awaited child polled into the
/// poll scratch area, the readiness stored, and the result loaded from the
/// scratch area when there is a value for it.
pub open spec fn poll_future_code(
    ctx: &LowerCtx,
    map: &LocalMap,
    vals: &Values,
    value: Option<ValueId>,
    ready: ValueId,
    frame: LocalId,
    result_type: TypeId,
) -> Seq<Ins> {
    seq![
        Ins::LocalGet(map.slots()[frame.0 as int]),
        Ins::I32Const(ctx.frame_child_offset as i32),
        Ins::I32Add,
        Ins::I32Const(POLL_SCRATCH),
        Ins::Call(ctx.async_rt.await_child),
        Ins::LocalSet(vals.slot(ready).local),
    ] + match value {
        Some(v) => seq![Ins::I32Const(POLL_SCRATCH), spec_mem_load(spec_valtype(ctx.layouts, result_type), 0)]
            + set_code(vals, v),
        None => Seq::empty(),
    }
}

/// The code of `Drop`: the local's release helper called on it when it is
/// not null; nothing for an untyped local or one the runtime does not count.
pub open spec fn drop_code(ctx: &LowerCtx, body: &MirFunction, map: &LocalMap, local: LocalId) -> Seq<Ins> {
    match body.locals@[local.0 as int] {
        Some(t) => match spec_release_call(*ctx.rt, ctx.layouts.types@[t.0 as int].ownership) {
            Some(target) => {
                let l = map.slots()[local.0 as int];
                seq![Ins::LocalGet(l), Ins::If(BlockTy::Empty), Ins::LocalGet(l), Ins::Call(target), Ins::End]
            },
            None => Seq::empty(),
        },
        None => Seq::empty(),
    }
}

/// The code of `MakeUnique`: a list or byte buffer made unique by the
/// runtime when it is not null (null stays 0); any other value unchanged.
pub open spec fn make_unique_code(ctx: &LowerCtx, vals: &Values, value: ValueId, operand: ValueId, ty: TypeId) -> Seq<Ins> {
    let get = Ins::LocalGet(vals.slot(operand).local);
    let target = match ctx.layouts.types@[ty.0 as int].ownership {
        OwnershipKind::RcList => Some(ctx.rt.list_make_unique),
        OwnershipKind::RcBytes => Some(ctx.rt.bytes_make_unique),
        _ => None,
    };
    (match target {
        Some(t) => seq![
            get,
            Ins::If(BlockTy::Result(ValTy::I32)),
            get,
            Ins::Call(t),
            Ins::Else,
            Ins::I32Const(0),
            Ins::End,
        ],
        None => seq![get],
    }) + set_code(vals, value)
}

/// The code of `ResultState`: whether the result's tag word (pointer
/// sized) is that of `Ok` (0) or of `Err` (1).
pub open spec fn result_state_code(ctx: &LowerCtx, vals: &Values, result: ValueId, value: ValueId, ok: bool) -> Seq<Ins> {
    seq![Ins::LocalGet(vals.slot(value).local)] + (if ctx.layouts.pointer_size == 4 {
        seq![Ins::I32Load(spec_memarg(0)), Ins::I32Const(if ok { 0 } else { 1 }), Ins::I32Eq]
    } else {
        seq![Ins::I64Load(spec_memarg(0)), Ins::I64Const(if ok { 0 } else { 1 }), Ins::I64Eq]
    }) + set_code(vals, result)
}

/// The code that stores a result's tag (0 for `Ok`, 1 for `Err`, pointer
/// sized) at `tag_offset` in the block at `scratch`.
pub open spec fn result_tag_code(ctx: &LowerCtx, scratch: u32, tag_offset: u64, ok: bool) -> Seq<Ins> {
    seq![Ins::LocalGet(scratch)] + if ctx.layouts.pointer_size == 4 {
        seq![Ins::I32Const(if ok { 0 } else { 1 }), Ins::I32Store(spec_memarg(tag_offset as i64))]
    } else {
        seq![Ins::I64Const(if ok { 0 } else { 1 }), Ins::I64Store(spec_memarg(tag_offset as i64))]
    }
}

/// The code of `ConstructResult`: a block of the result type's size with
/// the tag and, unless it has no size, the payload stored at its offset;
/// its address is the value.
pub open spec fn construct_result_code(
    ctx: &LowerCtx,
    vals: &Values,
    scratch: u32,
    value: ValueId,
    ty: TypeId,
    ok: bool,
    payload: ValueId,
) -> Seq<Ins> {
    let size = spec_size_at_least_one(ctx.layouts, ty);
    let alloc = seq![Ins::I32Const(size as i32), Ins::Call(ctx.rt.alloc), Ins::LocalTee(scratch)];
    let fill = match ctx.layouts.shapes@[ty.0 as int].result {
        Some(result) => {
            let offset = if ok { result.ok_offset } else { result.err_offset };
            let payload_ty = if ok { result.ok } else { result.err };
            result_tag_code(ctx, scratch, result.tag_offset, ok) + if ctx.layouts.shapes@[payload_ty.0 as int].aggregate
                || ctx.layouts.types@[payload_ty.0 as int].size != 0 {
                seq![Ins::LocalGet(scratch), Ins::I32Const(offset as i32), Ins::I32Add]
                    + store_into_code(ctx, vals, payload, payload_ty)
            } else {
                Seq::empty()
            }
        },
        None => Seq::empty(),
    };
    alloc + fill + seq![Ins::LocalGet(scratch)] + set_code(vals, value)
}

/// The code of `ConstNull`: for an optional whose payload is not a managed
/// handle, a block of its size with a zero presence word; otherwise a null
/// pointer.
pub open spec fn const_null_code(ctx: &LowerCtx, vals: &Values, scratch: u32, value: ValueId, ty: Option<TypeId>) -> Seq<Ins> {
    let tagged = match ty {
        Some(t) => match ctx.layouts.shapes@[t.0 as int].optional_inner {
            Some(inner) => !spec_is_managed_handle(ctx.layouts, inner),
            None => false,
        },
        None => false,
    };
    (if tagged {
        let size = spec_size_at_least_one(ctx.layouts, ty->0);
        seq![
            Ins::I32Const(size as i32),
            Ins::Call(ctx.rt.alloc),
            Ins::LocalTee(scratch),
            Ins::LocalGet(scratch),
            Ins::I64Const(0),
            Ins::I64Store(spec_memarg(0)),
        ]
    } else {
        seq![Ins::I32Const(0)]
    }) + set_code(vals, value)
}

/// The code of `OptionalWrap`: a managed handle is its own optional; any
/// other payload goes into a fresh block of the optional's size, with a
/// presence word of 1 and the payload copied (an aggregate) or stored at
/// the payload offset.
pub open spec fn optional_wrap_code(
    ctx: &LowerCtx,
    vals: &Values,
    scratch: u32,
    value: ValueId,
    operand: ValueId,
    opt_ty: TypeId,
    inner: TypeId,
) -> Seq<Ins> {
    let get = Ins::LocalGet(vals.slot(operand).local);
    (if spec_is_managed_handle(ctx.layouts, inner) {
        seq![get]
    } else {
        let size = spec_size_at_least_one(ctx.layouts, opt_ty);
        let offset = spec_optional_payload_offset(ctx.layouts, inner);
        seq![
            Ins::I32Const(size as i32),
            Ins::Call(ctx.rt.alloc),
            Ins::LocalTee(scratch),
            Ins::LocalGet(scratch),
            Ins::I64Const(1),
            Ins::I64Store(spec_memarg(0)),
            Ins::LocalGet(scratch),
            Ins::I32Const(offset as i32),
            Ins::I32Add,
            get,
        ] + (if ctx.layouts.shapes@[inner.0 as int].aggregate {
            seq![Ins::I32Const(ctx.layouts.types@[inner.0 as int].size as i32), Ins::MemoryCopy { src_mem: 0, dst_mem: 0 }]
        } else {
            seq![spec_store_instruction(ctx.layouts, inner, 0)]
        }) + seq![Ins::LocalGet(scratch)]
    }) + set_code(vals, value)
}

/// The code of `OptionalUnwrap`: a managed handle is its own payload; any
/// other payload is read at the payload offset (its address, for an
/// aggregate).
pub open spec fn optional_unwrap_code(ctx: &LowerCtx, vals: &Values, value: ValueId, operand: ValueId, inner: TypeId) -> Seq<Ins> {
    let get = Ins::LocalGet(vals.slot(operand).local);
    (if spec_is_managed_handle(ctx.layouts, inner) {
        seq![get]
    } else {
        seq![get, Ins::I32Const(spec_optional_payload_offset(ctx.layouts, inner) as i32), Ins::I32Add]
            + load_unless_aggregate_code(ctx, inner)
    }) + set_code(vals, value)
}

/// The code of `OptionalIsPresent`: a managed handle is present when not
/// null; any other optional when its presence word is not 0.
pub open spec fn optional_is_present_code(ctx: &LowerCtx, vals: &Values, value: ValueId, operand: ValueId, inner: TypeId) -> Seq<Ins> {
    seq![Ins::LocalGet(vals.slot(operand).local)] + (if spec_is_managed_handle(ctx.layouts, inner) {
        seq![Ins::I32Const(0), Ins::I32Ne]
    } else {
        seq![Ins::I64Load(spec_memarg(0)), Ins::I64Const(0), Ins::I64Ne]
    }) + set_code(vals, value)
}

/// The code of `OptionalFromValue`: for a managed handle, the payload's
/// handle when present and null otherwise; for any other payload, a fresh
/// block of the optional's size holding the payload (copied or stored at
/// the payload offset) and the presence flag as its first word.
pub open spec fn optional_from_value_code(
    ctx: &LowerCtx,
    vals: &Values,
    scratch: u32,
    value: ValueId,
    present: ValueId,
    payload: ValueId,
    opt_ty: TypeId,
    inner: TypeId,
) -> Seq<Ins> {
    let get_present = Ins::LocalGet(vals.slot(present).local);
    let get_payload = Ins::LocalGet(vals.slot(payload).local);
    (if spec_is_managed_handle(ctx.layouts, inner) {
        seq![
            get_present,
            Ins::If(BlockTy::Result(ValTy::I32)),
            get_payload,
            Ins::I32Load(spec_memarg(0)),
            Ins::Else,
            Ins::I32Const(0),
            Ins::End,
        ]
    } else {
        let size = spec_size_at_least_one(ctx.layouts, opt_ty);
        let offset = spec_optional_payload_offset(ctx.layouts, inner);
        let at_payload = seq![Ins::LocalGet(scratch), Ins::I32Const(offset as i32), Ins::I32Add, get_payload];
        seq![
            Ins::I32Const(size as i32),
            Ins::Call(ctx.rt.alloc),
            Ins::LocalTee(scratch),
            Ins::LocalGet(scratch),
            Ins::I64Const(0),
            Ins::I64Store(spec_memarg(0)),
        ] + (if ctx.layouts.shapes@[inner.0 as int].aggregate {
            at_payload + seq![
                Ins::I32Const(ctx.layouts.types@[inner.0 as int].size as i32),
                Ins::MemoryCopy { src_mem: 0, dst_mem: 0 },
            ]
        } else if ctx.layouts.types@[inner.0 as int].size != 0 {
            at_payload + seq![spec_load_instruction(ctx.layouts, inner, 0), spec_store_instruction(ctx.layouts, inner, 0)]
        } else {
            Seq::empty()
        }) + seq![
            Ins::LocalGet(scratch),
            get_present,
            Ins::I64ExtendI32U,
            Ins::I64Store(spec_memarg(0)),
            Ins::LocalGet(scratch),
        ]
    }) + set_code(vals, value)
}

/// The tag offset and size of an enum type: its layout's, or offset 0 and
/// eight bytes when it has none.
pub open spec fn enum_tag_layout(ctx: &LowerCtx, ty: TypeId) -> (u64, u64) {
    if ty.0 < ctx.layouts.shapes@.len() {
        match ctx.layouts.shapes@[ty.0 as int].enum_layout {
            Some(layout) => (layout.tag_offset, layout.tag_size),
            None => (0, 8),
        }
    } else {
        (0, 8)
    }
}

/// The code of `EnumTag`: the tag loaded by its size (1, 2, 4 or 8 bytes)
/// and widened to `i64`.
pub open spec fn enum_tag_code(ctx: &LowerCtx, vals: &Values, result: ValueId, value: ValueId, ty: TypeId) -> Seq<Ins> {
    let (tag, tag_size) = enum_tag_layout(ctx, ty);
    let arg = spec_memarg(tag as i64);
    let load = if tag_size == 1 {
        Ins::I32Load8U(arg)
    } else if tag_size == 2 {
        Ins::I32Load16U(arg)
    } else if tag_size == 4 {
        Ins::I32Load(arg)
    } else {
        Ins::I64Load(arg)
    };
    seq![Ins::LocalGet(vals.slot(value).local), load] + (if tag_size < 8 { seq![Ins::I64ExtendI32U] } else { Seq::empty() })
        + set_code(vals, result)
}

/// The code of `CopyAggregate`: a fresh block of the type's size with the
/// source's bytes copied in.
pub open spec fn copy_aggregate_code(ctx: &LowerCtx, vals: &Values, scratch: u32, value: ValueId, source: ValueId, ty: TypeId) -> Seq<Ins> {
    let size = spec_size_at_least_one(ctx.layouts, ty);
    seq![
        Ins::I32Const(size as i32),
        Ins::Call(ctx.rt.alloc),
        Ins::LocalTee(scratch),
        Ins::LocalGet(scratch),
        Ins::LocalGet(vals.slot(source).local),
        Ins::I32Const(size as i32),
        Ins::MemoryCopy { src_mem: 0, dst_mem: 0 },
        Ins::LocalGet(scratch),
    ] + set_code(vals, value)
}

/// `i` is the first field named `name`.
pub open spec fn first_field_at(fields: Seq<FieldLayout>, name: Seq<char>, i: int) -> bool {
    &&& 0 <= i < fields.len()
    &&& fields[i].name@ == name
    &&& forall|j: int| 0 <= j < i ==> (#[trigger] fields[j]).name@ != name
}

/// The position of the first field named `name` (meaningful when there is
/// one).
pub open spec fn first_field(fields: Seq<FieldLayout>, name: Seq<char>) -> int {
    choose|i: int| first_field_at(fields, name, i)
}

/// The offset and type of the first field named `name` of type `t`.
pub open spec fn spec_field_of(layouts: &LayoutTable, t: Option<TypeId>, name: Seq<char>) -> (u64, TypeId) {
    let fs = fields_at(layouts, t)->0@;
    let i = first_field(fs, name);
    (fs[i].offset, fs[i].ty)
}

/// The code that stores each element of an array at its index times the
/// stride, from the block at `scratch`.
pub open spec fn element_stores(
    ctx: &LowerCtx,
    vals: &Values,
    scratch: u32,
    elements: Seq<ValueId>,
    elem: TypeId,
    stride: u64,
) -> Seq<Ins>
    decreases elements.len(),
{
    if elements.len() == 0 {
        Seq::empty()
    } else {
        let i = elements.len() - 1;
        let offset: u64 = if i * stride <= u64::MAX { (i * stride) as u64 } else { u64::MAX };
        element_stores(ctx, vals, scratch, elements.drop_last(), elem, stride)
            + seq![Ins::LocalGet(scratch), Ins::I32Const(offset as i32), Ins::I32Add]
            + store_into_code(ctx, vals, elements[i], elem)
    }
}

/// The code of `ConstructArray`: a block of the array's size with each
/// element stored at its place (nothing when the type is no array).
pub open spec fn construct_array_code(
    ctx: &LowerCtx,
    vals: &Values,
    scratch: u32,
    value: ValueId,
    ty: TypeId,
    elements: Seq<ValueId>,
) -> Seq<Ins> {
    let size = spec_size_at_least_one(ctx.layouts, ty);
    seq![Ins::I32Const(size as i32), Ins::Call(ctx.rt.alloc), Ins::LocalTee(scratch)]
        + (match ctx.layouts.shapes@[ty.0 as int].array {
        Some((elem, _)) => element_stores(ctx, vals, scratch, elements, elem, ctx.layouts.types@[elem.0 as int].size),
        None => Seq::empty(),
    }) + seq![Ins::LocalGet(scratch)] + set_code(vals, value)
}

/// The code that stores each named field value at its field's offset, from
/// the block at `scratch`; a name the type lacks stores nothing.
pub open spec fn field_stores(
    ctx: &LowerCtx,
    vals: &Values,
    scratch: u32,
    ty: TypeId,
    fields: Seq<(String, ValueId)>,
) -> Seq<Ins>
    decreases fields.len(),
{
    if fields.len() == 0 {
        Seq::empty()
    } else {
        let (name, v) = fields.last();
        field_stores(ctx, vals, scratch, ty, fields.drop_last()) + if fields_at(ctx.layouts, Some(ty)) matches Some(fs)
            && has_field(fs@, name@) {
            let (offset, field_ty) = spec_field_of(ctx.layouts, Some(ty), name@);
            seq![Ins::LocalGet(scratch), Ins::I32Const(offset as i32), Ins::I32Add]
                + store_into_code(ctx, vals, v, field_ty)
        } else {
            Seq::empty()
        }
    }
}

/// The code of `Construct`: a block of the type's size with each field
/// stored at its offset.
pub open spec fn construct_code(
    ctx: &LowerCtx,
    vals: &Values,
    scratch: u32,
    value: ValueId,
    ty: TypeId,
    fields: Seq<(String, ValueId)>,
) -> Seq<Ins> {
    let size = spec_size_at_least_one(ctx.layouts, ty);
    seq![Ins::I32Const(size as i32), Ins::Call(ctx.rt.alloc), Ins::LocalTee(scratch)]
        + field_stores(ctx, vals, scratch, ty, fields) + seq![Ins::LocalGet(scratch)] + set_code(vals, value)
}

/// The code that stores the first `k` payload values at their variant
/// fields' offsets, from the block at `scratch`.
pub open spec fn payload_stores(
    ctx: &LowerCtx,
    vals: &Values,
    scratch: u32,
    fields: Seq<FieldLayout>,
    payload: Seq<ValueId>,
    k: int,
) -> Seq<Ins>
    decreases k,
{
    if k <= 0 {
        Seq::empty()
    } else {
        payload_stores(ctx, vals, scratch, fields, payload, k - 1)
            + seq![Ins::LocalGet(scratch), Ins::I32Const(fields[k - 1].offset as i32), Ins::I32Add]
            + store_into_code(ctx, vals, payload[k - 1], fields[k - 1].ty)
    }
}

/// The code that stores an enum's tag, by the tag's size, at its offset in
/// the block at `scratch`.
pub open spec fn enum_tag_store(scratch: u32, tag_offset: u64, tag_size: u64, variant_index: usize) -> Seq<Ins> {
    let arg = spec_memarg(tag_offset as i64);
    seq![Ins::LocalGet(scratch)] + if tag_size == 1 {
        seq![Ins::I32Const(variant_index as i32), Ins::I32Store8(arg)]
    } else if tag_size == 2 {
        seq![Ins::I32Const(variant_index as i32), Ins::I32Store16(arg)]
    } else if tag_size == 4 {
        seq![Ins::I32Const(variant_index as i32), Ins::I32Store(arg)]
    } else {
        seq![Ins::I64Const(variant_index as i64), Ins::I64Store(arg)]
    }
}

/// The code of `ConstructEnum`: a block of the enum's size with the
/// variant's tag and as many payload values as both the variant has fields
/// and the payload has values, each at its field's offset.
pub open spec fn construct_enum_code(
    ctx: &LowerCtx,
    vals: &Values,
    scratch: u32,
    value: ValueId,
    ty: TypeId,
    variant_index: usize,
    payload: Seq<ValueId>,
) -> Seq<Ins> {
    let size = spec_size_at_least_one(ctx.layouts, ty);
    seq![Ins::I32Const(size as i32), Ins::Call(ctx.rt.alloc), Ins::LocalTee(scratch)]
        + (match ctx.layouts.shapes@[ty.0 as int].enum_layout {
        Some(layout) => enum_tag_store(scratch, layout.tag_offset, layout.tag_size, variant_index)
            + if variant_index < layout.variants@.len() {
            let fields = layout.variants@[variant_index as int].fields@;
            let n = if fields.len() <= payload.len() { fields.len() } else { payload.len() };
            payload_stores(ctx, vals, scratch, fields, payload, n as int)
        } else {
            Seq::empty()
        },
        None => Seq::empty(),
    }) + seq![Ins::LocalGet(scratch)] + set_code(vals, value)
}

/// The code of `IteratorInit`: a 24-byte iterator block holding the data
/// address (a list's buffer, else the value), the current index 0, the
/// length (given, a list's length, an array's, or 0) and the stride (given,
/// or 8).
pub open spec fn iterator_init_code(
    ctx: &LowerCtx,
    vals: &Values,
    scratch: u32,
    iterator: ValueId,
    iterable: ValueId,
    length: Option<u64>,
    stride: Option<u64>,
) -> Seq<Ins> {
    let stride_i32: i32 = match stride {
        Some(s) => s as i32,
        None => 8,
    };
    let (is_list, array) = match vals.mir_of(iterable) {
        Some(t) => (ctx.layouts.shapes@[t.0 as int].list_element is Some, ctx.layouts.shapes@[t.0 as int].array),
        None => (false, None),
    };
    let get = Ins::LocalGet(vals.slot(iterable).local);
    let length_code = match length {
        Some(n) => seq![Ins::I32Const(n as i32)],
        None => if is_list {
            seq![get, Ins::I32Load(spec_memarg(0))]
        } else {
            match array {
                Some((_, len)) => seq![Ins::I32Const(len as i32)],
                None => seq![Ins::I32Const(0)],
            }
        },
    };
    seq![Ins::I32Const(24), Ins::Call(ctx.rt.alloc), Ins::LocalSet(scratch), Ins::LocalGet(scratch), get]
        + (if is_list { seq![Ins::I32Load(spec_memarg(12))] } else { Seq::empty() })
        + seq![
        Ins::I32Store(spec_memarg(0)),
        Ins::LocalGet(scratch),
        Ins::I32Const(0),
        Ins::I32Store(spec_memarg(4)),
        Ins::LocalGet(scratch),
    ] + length_code + seq![
        Ins::I32Store(spec_memarg(8)),
        Ins::LocalGet(scratch),
        Ins::I32Const(stride_i32),
        Ins::I32Store(spec_memarg(12)),
        Ins::LocalGet(scratch),
    ] + set_code(vals, iterator)
}

/// The code of `IteratorNext` when the iterator has an element: the
/// presence flag 1, the index, the element at data + index times stride
/// (loaded unless it is a managed handle or an aggregate), and the index
/// advanced.
pub open spec fn iterator_present_code(
    ctx: &LowerCtx,
    vals: &Values,
    scratch: u32,
    has_value: ValueId,
    element_value: ValueId,
    index: ValueId,
    iterator: ValueId,
    element_type: TypeId,
) -> Seq<Ins> {
    let it = Ins::LocalGet(vals.slot(iterator).local);
    let load = if !spec_is_managed_handle(ctx.layouts, element_type) && !ctx.layouts.shapes@[element_type.0 as int].aggregate {
        seq![spec_load_instruction(ctx.layouts, element_type, 0)]
    } else {
        Seq::empty()
    };
    let t1 = seq![Ins::I32Const(1)] + set_code(vals, has_value);
    let t2 = t1 + seq![it, Ins::I32Load(spec_memarg(4)), Ins::I64ExtendI32U] + set_code(vals, index);
    let t3 = t2 + (seq![
        it,
        Ins::I32Load(spec_memarg(0)),
        Ins::LocalGet(scratch),
        it,
        Ins::I32Load(spec_memarg(12)),
        Ins::I32Mul,
        Ins::I32Add,
    ] + load) + set_code(vals, element_value);
    t3 + seq![it, it, Ins::I32Load(spec_memarg(4)), Ins::I32Const(1), Ins::I32Add, Ins::I32Store(spec_memarg(4))]
}

/// The code of `IteratorNext` when the iterator is exhausted: flag 0,
/// index 0 and the element type's default value.
pub open spec fn iterator_absent_code(
    ctx: &LowerCtx,
    vals: &Values,
    has_value: ValueId,
    element_value: ValueId,
    index: ValueId,
    element_type: TypeId,
) -> Seq<Ins> {
    let t1 = seq![Ins::I32Const(0)] + set_code(vals, has_value);
    let t2 = t1 + seq![Ins::I64Const(0)] + set_code(vals, index);
    t2 + seq![spec_default_value(spec_valtype(ctx.layouts, element_type))] + set_code(vals, element_value)
}

/// The code of `IteratorNext`: whether the current index is below the
/// length decides between the present and the exhausted case.
pub open spec fn iterator_next_code(
    ctx: &LowerCtx,
    vals: &Values,
    scratch: u32,
    has_value: ValueId,
    element_value: ValueId,
    index: ValueId,
    iterator: ValueId,
    element_type: TypeId,
) -> Seq<Ins> {
    let it = Ins::LocalGet(vals.slot(iterator).local);
    seq![
        it,
        Ins::I32Load(spec_memarg(4)),
        Ins::LocalSet(scratch),
        Ins::LocalGet(scratch),
        it,
        Ins::I32Load(spec_memarg(8)),
        Ins::I32LtU,
        Ins::If(BlockTy::Empty),
    ] + iterator_present_code(ctx, vals, scratch, has_value, element_value, index, iterator, element_type)
        + seq![Ins::Else] + iterator_absent_code(ctx, vals, has_value, element_value, index, element_type) + seq![Ins::End]
}

/// The code that stores each element of a variadic buffer at its index
/// times the element size, from the block at `scratch`: an aggregate copied,
/// anything else converted and stored.
pub open spec fn variadic_stores(
    ctx: &LowerCtx,
    vals: &Values,
    scratch: u32,
    element: TypeId,
    elements: Seq<ValueId>,
) -> Seq<Ins>
    decreases elements.len(),
{
    if elements.len() == 0 {
        Seq::empty()
    } else {
        let i = elements.len() - 1;
        let stride = spec_size_at_least_one(ctx.layouts, element);
        let offset: u64 = if i * stride <= u64::MAX { (i * stride) as u64 } else { u64::MAX };
        let v = elements[i];
        variadic_stores(ctx, vals, scratch, element, elements.drop_last())
            + seq![Ins::LocalGet(scratch), Ins::I32Const(offset as i32), Ins::I32Add, Ins::LocalGet(vals.slot(v).local)]
            + if ctx.layouts.shapes@[element.0 as int].aggregate {
            seq![Ins::I32Const(stride as i32), Ins::MemoryCopy { src_mem: 0, dst_mem: 0 }]
        } else {
            coerce_code(vals.type_of(v), spec_valtype(ctx.layouts, element)) + seq![spec_store_instruction(ctx.layouts, element, 0)]
        }
    }
}

/// The code of `ConstructVariadicBuffer`: a block of the elements' total
/// size (at least 1) with each element stored in turn.
pub open spec fn variadic_buffer_code(
    ctx: &LowerCtx,
    vals: &Values,
    scratch: u32,
    value: ValueId,
    element: TypeId,
    elements: Seq<ValueId>,
) -> Seq<Ins> {
    let stride = spec_size_at_least_one(ctx.layouts, element);
    let total: u64 = if stride * elements.len() <= u64::MAX { (stride * elements.len()) as u64 } else { u64::MAX };
    let size: u64 = if total >= 1 { total } else { 1 };
    seq![Ins::I32Const(size as i32), Ins::Call(ctx.rt.alloc), Ins::LocalSet(scratch)]
        + variadic_stores(ctx, vals, scratch, element, elements) + seq![Ins::LocalGet(scratch)] + set_code(vals, value)
}

/// The code of `VariadicAt`: the element at data + index times the element
/// size, loaded unless it is an aggregate.
pub open spec fn variadic_at_code(ctx: &LowerCtx, vals: &Values, value: ValueId, data: ValueId, index: ValueId, element: TypeId) -> Seq<Ins> {
    let stride = spec_size_at_least_one(ctx.layouts, element);
    seq![
        Ins::LocalGet(vals.slot(data).local),
        Ins::LocalGet(vals.slot(index).local),
        Ins::I32WrapI64,
        Ins::I32Const(stride as i32),
        Ins::I32Mul,
        Ins::I32Add,
    ] + load_unless_aggregate_code(ctx, element) + set_code(vals, value)
}

/// The local of `v`, if it has one.
pub open spec fn local_opt(vals: &Values, v: ValueId) -> Option<u32> {
    if vals.has(v) { Some(vals.slot(v).local) } else { None }
}

/// The code that stores the top of the stack into the value, if any.
pub open spec fn set_opt_code(vals: &Values, value: Option<ValueId>) -> Seq<Ins> {
    match value {
        Some(v) => set_code(vals, v),
        None => Seq::empty(),
    }
}

/// The code that stores an `i32` result into the value, if any, converted
/// to the value's type.
pub open spec fn set_opt_i32_code(vals: &Values, value: Option<ValueId>) -> Seq<Ins> {
    match value {
        Some(v) => from_i32_code(vals.vty_of(v)) + store_code(local_opt(vals, v)),
        None => Seq::empty(),
    }
}

/// The code that stores an `i64` slot result into the value, if any,
/// converted to the value's type.
pub open spec fn set_opt_i64_code(vals: &Values, value: Option<ValueId>) -> Seq<Ins> {
    match value {
        Some(v) => from_i64_code(vals.vty_of(v)) + store_code(local_opt(vals, v)),
        None => Seq::empty(),
    }
}

/// The code that reads argument `k`.
pub open spec fn arg_code(map: &LocalMap, vals: &Values, args: Seq<ValueId>, k: int) -> Seq<Ins> {
    seq![Ins::LocalGet(vals.read_local(map, args[k]))]
}

/// The code that reads argument `k` widened to a 64-bit slot.
pub open spec fn arg_i64_code(map: &LocalMap, vals: &Values, args: Seq<ValueId>, k: int) -> Seq<Ins> {
    seq![Ins::LocalGet(vals.read_local(map, args[k]))] + widen_code(vals.vty_of(args[k]))
}

/// The code of a map's `keys` or `values`: a new list of the element kind,
/// sized by the map's length, then a loop that pushes each entry's key
/// (offset 0) or value (offset 8) from the 16-byte entries.
pub open spec fn map_entries_code(
    ctx: &LowerCtx,
    map: &LocalMap,
    vals: &Values,
    scratch: u32,
    value_id: ValueId,
    keys: bool,
    args: Seq<ValueId>,
) -> Seq<Ins> {
    let element = match vals.mir_of(args[0]) {
        Some(t) => match ctx.layouts.shapes@[t.0 as int].map_entry {
            Some((key, val)) => Some(if keys { key } else { val }),
            None => None,
        },
        None => None,
    };
    let kind = match element {
        Some(e) => spec_element_kind(ctx.layouts, e),
        None => rc::KIND_NONE,
    };
    let entry_offset: i64 = if keys { 0 } else { 8 };
    let m = Ins::LocalGet(vals.read_local(map, args[0]));
    seq![Ins::I32Const(kind), m, Ins::Call(ctx.rt.map_len), Ins::Call(ctx.rt.list_new)] + set_code(vals, value_id)
        + seq![
        Ins::I32Const(0),
        Ins::LocalSet(scratch),
        Ins::Block(BlockTy::Empty),
        Ins::Loop(BlockTy::Empty),
        Ins::LocalGet(scratch),
        m,
        Ins::Call(ctx.rt.map_len),
        Ins::I32GeU,
        Ins::BrIf(1),
        Ins::LocalGet(vals.read_local(map, value_id)),
        m,
        Ins::I32Load(spec_memarg(12)),
        Ins::LocalGet(scratch),
        Ins::I32Const(16),
        Ins::I32Mul,
        Ins::I32Add,
        Ins::I64Load(spec_memarg(entry_offset)),
        Ins::Call(ctx.rt.list_push),
        Ins::LocalGet(scratch),
        Ins::I32Const(1),
        Ins::I32Add,
        Ins::LocalSet(scratch),
        Ins::Br(0),
        Ins::End,
        Ins::End,
    ]
}

/// The code of a map builtin: its arguments (maps and counts read as they
/// are, keys and values widened to 64-bit slots), the runtime's map helper,
/// and the result converted into the value; `keys` and `values` build a
/// list in a loop.
pub open spec fn map_call_code(
    ctx: &LowerCtx,
    map: &LocalMap,
    vals: &Values,
    scratch: u32,
    value: Option<ValueId>,
    function: BuiltinFunction,
    args: Seq<ValueId>,
) -> Seq<Ins> {
    let a0 = arg_code(map, vals, args, 0);
    match function {
        BuiltinFunction::MapNew => seq![Ins::Call(ctx.rt.map_new)] + set_opt_code(vals, value),
        BuiltinFunction::MapLen => a0 + seq![Ins::Call(ctx.rt.map_len)] + set_opt_i32_code(vals, value),
        BuiltinFunction::MapSet => a0 + arg_i64_code(map, vals, args, 1) + arg_i64_code(map, vals, args, 2)
            + seq![Ins::Call(ctx.rt.map_set)],
        BuiltinFunction::MapGet => a0 + arg_i64_code(map, vals, args, 1) + seq![Ins::Call(ctx.rt.map_get)]
            + set_opt_i64_code(vals, value),
        BuiltinFunction::MapGetOr => a0 + arg_i64_code(map, vals, args, 1) + seq![Ins::Call(ctx.rt.map_get)]
            + set_opt_i64_code(vals, value),
        BuiltinFunction::MapContainsKey => a0 + arg_i64_code(map, vals, args, 1) + seq![Ins::Call(ctx.rt.map_contains)]
            + set_opt_i32_code(vals, value),
        BuiltinFunction::MapRemove => a0 + arg_i64_code(map, vals, args, 1) + seq![Ins::Call(ctx.rt.map_remove)]
            + set_opt_i64_code(vals, value),
        BuiltinFunction::MapClear => a0 + seq![Ins::Call(ctx.rt.map_clear)],
        BuiltinFunction::MapIsEmpty => a0 + seq![Ins::Call(ctx.rt.map_len), Ins::I32Eqz] + set_opt_code(vals, value),
        BuiltinFunction::MapCapacity => a0 + seq![Ins::Call(ctx.rt.map_capacity)] + set_opt_i32_code(vals, value),
        BuiltinFunction::MapReserve => a0 + arg_code(map, vals, args, 1) + seq![Ins::I32WrapI64, Ins::Call(ctx.rt.map_reserve)],
        BuiltinFunction::MapKeys => match value {
            Some(v) => map_entries_code(ctx, map, vals, scratch, v, true, args),
            None => Seq::empty(),
        },
        BuiltinFunction::MapValues => match value {
            Some(v) => map_entries_code(ctx, map, vals, scratch, v, false, args),
            None => Seq::empty(),
        },
        _ => Seq::empty(),
    }
}

/// The code of a string builtin: its arguments, the runtime's string
/// helper (two for `trim`), and the result stored into the value.
pub open spec fn string_call_code(
    ctx: &LowerCtx,
    map: &LocalMap,
    vals: &Values,
    scratch: u32,
    value: Option<ValueId>,
    result_type: Option<TypeId>,
    function: BuiltinFunction,
    args: Seq<ValueId>,
) -> Seq<Ins> {
    match function {
        BuiltinFunction::StringEquals => arg_code(map, vals, args, 0) + arg_code(map, vals, args, 1) + seq![Ins::Call(ctx.rt.str_eq)] + set_opt_code(vals, value),
        BuiltinFunction::StringCompare => arg_code(map, vals, args, 0) + arg_code(map, vals, args, 1) + seq![Ins::Call(ctx.rt.str_cmp)] + set_opt_code(vals, value),
        BuiltinFunction::StringContains => arg_code(map, vals, args, 0) + arg_code(map, vals, args, 1) + seq![Ins::Call(ctx.rt.str_contains)] + set_opt_code(vals, value),
        BuiltinFunction::StringStartsWith => arg_code(map, vals, args, 0) + arg_code(map, vals, args, 1) + seq![Ins::Call(ctx.rt.str_starts)] + set_opt_code(vals, value),
        BuiltinFunction::StringEndsWith => arg_code(map, vals, args, 0) + arg_code(map, vals, args, 1) + seq![Ins::Call(ctx.rt.str_ends)] + set_opt_code(vals, value),
        BuiltinFunction::StringFind => arg_code(map, vals, args, 0) + arg_code(map, vals, args, 1) + seq![Ins::Call(ctx.rt.str_find)] + set_opt_code(vals, value),
        BuiltinFunction::StringRfind => arg_code(map, vals, args, 0) + arg_code(map, vals, args, 1) + seq![Ins::Call(ctx.rt.str_rfind)] + set_opt_code(vals, value),
        BuiltinFunction::StringSubstring => arg_code(map, vals, args, 0) + arg_code(map, vals, args, 1) + seq![Ins::I32WrapI64] + arg_code(map, vals, args, 2) + seq![Ins::I32WrapI64] + seq![Ins::Call(ctx.rt.str_substring)] + set_opt_code(vals, value),
        BuiltinFunction::StringRepeat => arg_code(map, vals, args, 0) + arg_code(map, vals, args, 1) + seq![Ins::I32WrapI64] + seq![Ins::Call(ctx.rt.str_repeat)] + set_opt_code(vals, value),
        BuiltinFunction::StringStripPrefix => arg_code(map, vals, args, 0) + arg_code(map, vals, args, 1) + seq![Ins::Call(ctx.rt.str_strip_prefix)] + set_opt_code(vals, value),
        BuiltinFunction::StringStripSuffix => arg_code(map, vals, args, 0) + arg_code(map, vals, args, 1) + seq![Ins::Call(ctx.rt.str_strip_suffix)] + set_opt_code(vals, value),
        BuiltinFunction::StringTrim => arg_code(map, vals, args, 0) + seq![Ins::Call(ctx.rt.str_trim_start)] + seq![Ins::Call(ctx.rt.str_trim_end)] + set_opt_code(vals, value),
        BuiltinFunction::StringTrimStart => arg_code(map, vals, args, 0) + seq![Ins::Call(ctx.rt.str_trim_start)] + set_opt_code(vals, value),
        BuiltinFunction::StringTrimEnd => arg_code(map, vals, args, 0) + seq![Ins::Call(ctx.rt.str_trim_end)] + set_opt_code(vals, value),
        BuiltinFunction::StringToLower => arg_code(map, vals, args, 0) + seq![Ins::Call(ctx.rt.str_lower)] + set_opt_code(vals, value),
        BuiltinFunction::StringToUpper => arg_code(map, vals, args, 0) + seq![Ins::Call(ctx.rt.str_upper)] + set_opt_code(vals, value),
        BuiltinFunction::StringToI64 => arg_code(map, vals, args, 0) + seq![Ins::Call(ctx.rt.str_to_i64)] + set_opt_code(vals, value),
        BuiltinFunction::StringToF64 => arg_code(map, vals, args, 0) + seq![Ins::Call(ctx.rt.str_to_f64)] + set_opt_code(vals, value),
        BuiltinFunction::StringCharAt => arg_code(map, vals, args, 0) + arg_code(map, vals, args, 1) + seq![Ins::Call(ctx.rt.so_char_at)] + set_opt_code(vals, value),
        BuiltinFunction::StringChars => arg_code(map, vals, args, 0) + seq![Ins::Call(ctx.rt.so_chars)] + set_opt_code(vals, value),
        BuiltinFunction::StringPadLeft => arg_code(map, vals, args, 0) + arg_code(map, vals, args, 1) + arg_code(map, vals, args, 2) + seq![Ins::Call(ctx.rt.so_pad_left)] + set_opt_code(vals, value),
        BuiltinFunction::StringPadRight => arg_code(map, vals, args, 0) + arg_code(map, vals, args, 1) + arg_code(map, vals, args, 2) + seq![Ins::Call(ctx.rt.so_pad_right)] + set_opt_code(vals, value),
        BuiltinFunction::StringSplit => arg_code(map, vals, args, 0) + arg_code(map, vals, args, 1) + seq![Ins::Call(ctx.rt.so_split)] + set_opt_code(vals, value),
        BuiltinFunction::StringSplitWhitespace => arg_code(map, vals, args, 0) + seq![Ins::Call(ctx.rt.so_split_ws)] + set_opt_code(vals, value),
        BuiltinFunction::StringLines => arg_code(map, vals, args, 0) + seq![Ins::Call(ctx.rt.so_lines)] + set_opt_code(vals, value),
        BuiltinFunction::StringReplace => arg_code(map, vals, args, 0) + arg_code(map, vals, args, 1) + arg_code(map, vals, args, 2) + seq![Ins::Call(ctx.rt.so_replace)] + set_opt_code(vals, value),
        _ => Seq::empty(),
    }
}

/// A width in bytes as an `i32` immediate.
pub open spec fn width_i32(width: u8) -> i32 {
    width as i32
}

/// The flags of a byte-buffer integer read: 1 for big-endian, plus 2 for
/// signed.
pub open spec fn read_int_flags(big_endian: bool, signed: bool) -> i32 {
    ((if big_endian { 1int } else { 0int }) + (if signed { 2int } else { 0int })) as i32
}

/// The code of `bytes.to_str()`: when the result type is a `result` whose
/// ok payload has a size, a fresh result block tagged `Ok` holding the
/// runtime's string made from the bytes; nothing otherwise (the runtime
/// does not check UTF-8, so the result is always `Ok`).
pub open spec fn bytes_to_str_code(
    ctx: &LowerCtx,
    map: &LocalMap,
    vals: &Values,
    scratch: u32,
    result_type: Option<TypeId>,
    args: Seq<ValueId>,
) -> Seq<Ins> {
    match result_type {
        Some(t) => match ctx.layouts.shapes@[t.0 as int].result {
            Some(r) => if ctx.layouts.types@[r.ok.0 as int].size != 0 {
                seq![
                    Ins::I32Const(spec_size_at_least_one(ctx.layouts, t) as i32),
                    Ins::Call(ctx.rt.alloc),
                    Ins::LocalSet(scratch),
                ] + result_tag_code(ctx, scratch, r.tag_offset, true)
                    + seq![Ins::LocalGet(scratch), Ins::I32Const(r.ok_offset as i32), Ins::I32Add]
                    + arg_code(map, vals, args, 0)
                    + seq![Ins::Call(ctx.rt.bytes_to_str), Ins::I32Store(spec_memarg(0)), Ins::LocalGet(scratch)]
            } else {
                Seq::empty()
            },
            None => Seq::empty(),
        },
        None => Seq::empty(),
    }
}

/// The code of a list builtin (and `print`/`out`): its arguments, read or
/// widened to slots, the runtime's list helper, and the result converted
/// into the value.
pub open spec fn list_call_code(
    ctx: &LowerCtx,
    map: &LocalMap,
    vals: &Values,
    scratch: u32,
    value: Option<ValueId>,
    result_type: Option<TypeId>,
    function: BuiltinFunction,
    args: Seq<ValueId>,
) -> Seq<Ins> {
    match function {
        BuiltinFunction::Print => arg_code(map, vals, args, 0) + seq![Ins::Call(ctx.rt.print)],
        BuiltinFunction::Out => arg_code(map, vals, args, 0) + seq![Ins::Call(ctx.rt.out)],
        BuiltinFunction::ListNew => seq![Ins::I32Const(match result_type {
            Some(t) => match ctx.layouts.shapes@[t.0 as int].list_element {
                Some(elem) => spec_element_kind(ctx.layouts, elem),
                None => rc::KIND_NONE,
            },
            None => rc::KIND_NONE,
        })] + (if args.len() > 4 { arg_code(map, vals, args, 4) + seq![Ins::I32WrapI64] } else { seq![Ins::I32Const(0)] })
            + seq![Ins::Call(ctx.rt.list_new)] + set_opt_code(vals, value),
        BuiltinFunction::ListLen => arg_code(map, vals, args, 0) + seq![Ins::Call(ctx.rt.list_len)] + set_opt_i32_code(vals, value),
        BuiltinFunction::ListIsEmpty => arg_code(map, vals, args, 0) + seq![Ins::Call(ctx.rt.list_len), Ins::I32Eqz] + set_opt_i32_code(vals, value),
        BuiltinFunction::ListPush => arg_code(map, vals, args, 0) + arg_i64_code(map, vals, args, 1) + seq![Ins::Call(ctx.rt.list_push)],
        BuiltinFunction::ListAt => arg_code(map, vals, args, 0) + arg_code(map, vals, args, 1) + seq![Ins::I32WrapI64] + seq![Ins::Call(ctx.rt.list_at)] + set_opt_i64_code(vals, value),
        BuiltinFunction::ListAtUnchecked => arg_code(map, vals, args, 0) + arg_code(map, vals, args, 1) + seq![Ins::I32WrapI64] + seq![Ins::Call(ctx.rt.list_at)] + set_opt_i64_code(vals, value),
        BuiltinFunction::ListSet => arg_code(map, vals, args, 0) + arg_code(map, vals, args, 1) + seq![Ins::I32WrapI64] + arg_i64_code(map, vals, args, 2) + seq![Ins::Call(ctx.rt.list_set)],
        BuiltinFunction::ListPop => arg_code(map, vals, args, 0) + seq![Ins::Call(ctx.rt.list_pop)] + set_opt_i64_code(vals, value),
        BuiltinFunction::ListClear => arg_code(map, vals, args, 0) + seq![Ins::Call(ctx.rt.list_clear)],
        BuiltinFunction::ListCapacity => arg_code(map, vals, args, 0) + seq![Ins::Call(ctx.rt.ls_capacity)] + set_opt_i32_code(vals, value),
        BuiltinFunction::ListReserve => arg_code(map, vals, args, 0) + arg_code(map, vals, args, 1) + seq![Ins::I32WrapI64] + seq![Ins::Call(ctx.rt.ls_reserve)],
        BuiltinFunction::ListTruncate => arg_code(map, vals, args, 0) + arg_code(map, vals, args, 1) + seq![Ins::I32WrapI64] + seq![Ins::Call(ctx.rt.ls_truncate)],
        BuiltinFunction::ListSwap => arg_code(map, vals, args, 0) + arg_code(map, vals, args, 1) + seq![Ins::I32WrapI64] + arg_code(map, vals, args, 2) + seq![Ins::I32WrapI64] + seq![Ins::Call(ctx.rt.ls_swap)],
        BuiltinFunction::ListReverse => arg_code(map, vals, args, 0) + seq![Ins::Call(ctx.rt.ls_reverse)],
        BuiltinFunction::ListShrinkToFit => arg_code(map, vals, args, 0) + seq![Ins::Call(ctx.rt.ls_shrink)],
        BuiltinFunction::ListFirst => arg_code(map, vals, args, 0) + seq![Ins::Call(ctx.rt.ls_first)] + set_opt_i64_code(vals, value),
        BuiltinFunction::ListLast => arg_code(map, vals, args, 0) + seq![Ins::Call(ctx.rt.ls_last)] + set_opt_i64_code(vals, value),
        BuiltinFunction::ListInsert => arg_code(map, vals, args, 0) + arg_code(map, vals, args, 1) + seq![Ins::I32WrapI64] + arg_i64_code(map, vals, args, 2) + seq![Ins::Call(ctx.rt.ls_insert)],
        BuiltinFunction::ListRemove => arg_code(map, vals, args, 0) + arg_code(map, vals, args, 1) + seq![Ins::I32WrapI64] + seq![Ins::Call(ctx.rt.ls_remove)] + set_opt_i64_code(vals, value),
        BuiltinFunction::ListExtend => arg_code(map, vals, args, 0) + arg_code(map, vals, args, 1) + seq![Ins::Call(ctx.rt.ls_extend)],
        BuiltinFunction::ListSlice => arg_code(map, vals, args, 0) + arg_code(map, vals, args, 1) + seq![Ins::I32WrapI64] + arg_code(map, vals, args, 2) + seq![Ins::I32WrapI64] + seq![Ins::Call(ctx.rt.ls_slice)] + set_opt_code(vals, value),
        BuiltinFunction::ListContains => arg_code(map, vals, args, 0) + arg_i64_code(map, vals, args, 1) + seq![Ins::Call(ctx.rt.ls_contains)] + set_opt_code(vals, value),
        BuiltinFunction::ListFindIndex => arg_code(map, vals, args, 0) + arg_i64_code(map, vals, args, 1) + seq![Ins::Call(ctx.rt.ls_find)] + set_opt_i64_code(vals, value),
        BuiltinFunction::ListJoin => arg_code(map, vals, args, 0) + arg_code(map, vals, args, 1) + seq![Ins::Call(ctx.rt.ls_join)] + set_opt_code(vals, value),
        _ => Seq::empty(),
    }
}

/// The code of a byte-buffer builtin: its arguments, converted as the
/// helper takes them, the runtime's byte helper, and the result converted
/// into the value.
pub open spec fn bytes_call_code(
    ctx: &LowerCtx,
    map: &LocalMap,
    vals: &Values,
    scratch: u32,
    value: Option<ValueId>,
    result_type: Option<TypeId>,
    function: BuiltinFunction,
    args: Seq<ValueId>,
) -> Seq<Ins> {
    match function {
        BuiltinFunction::BytesNew => seq![Ins::I32Const(0)] + seq![Ins::Call(ctx.rt.bytes_new)] + set_opt_code(vals, value),
        BuiltinFunction::BytesLen => arg_code(map, vals, args, 0) + seq![Ins::Call(ctx.rt.bytes_len)] + set_opt_i32_code(vals, value),
        BuiltinFunction::StringByteLen => arg_code(map, vals, args, 0) + seq![Ins::Call(ctx.rt.bytes_len)] + set_opt_i32_code(vals, value),
        BuiltinFunction::StringCharLen => arg_code(map, vals, args, 0) + seq![Ins::Call(ctx.rt.bytes_len)] + set_opt_i32_code(vals, value),
        BuiltinFunction::StringIsEmpty => arg_code(map, vals, args, 0) + seq![Ins::Call(ctx.rt.bytes_len), Ins::I32Eqz] + set_opt_i32_code(vals, value),
        BuiltinFunction::BytesAt => arg_code(map, vals, args, 0) + arg_code(map, vals, args, 1) + seq![Ins::I32WrapI64] + seq![Ins::Call(ctx.rt.bytes_at)] + set_opt_i32_code(vals, value),
        BuiltinFunction::BytesSet => arg_code(map, vals, args, 0) + arg_code(map, vals, args, 1) + seq![Ins::I32WrapI64] + arg_code(map, vals, args, 2) + seq![Ins::I32WrapI64] + seq![Ins::Call(ctx.rt.bytes_set)],
        BuiltinFunction::StringToBytes => arg_code(map, vals, args, 0) + seq![Ins::Call(ctx.rt.bytes_from_str)] + set_opt_code(vals, value),
        BuiltinFunction::BytesClone => arg_code(map, vals, args, 0) + seq![Ins::Call(ctx.rt.bytes_from_str)] + set_opt_code(vals, value),
        BuiltinFunction::BytesToStr => bytes_to_str_code(ctx, map, vals, scratch, result_type, args) + set_opt_code(vals, value),
        BuiltinFunction::BytesIsEmpty => arg_code(map, vals, args, 0) + seq![Ins::Call(ctx.rt.bytes_len)] + seq![Ins::I32Eqz] + set_opt_code(vals, value),
        BuiltinFunction::BytesCapacity => arg_code(map, vals, args, 0) + seq![Ins::Call(ctx.rt.bt_capacity)] + set_opt_i32_code(vals, value),
        BuiltinFunction::BytesReserve => arg_code(map, vals, args, 0) + arg_code(map, vals, args, 1) + seq![Ins::I32WrapI64] + seq![Ins::Call(ctx.rt.bt_reserve)],
        BuiltinFunction::BytesFirst => arg_code(map, vals, args, 0) + seq![Ins::Call(ctx.rt.bt_first)] + set_opt_i32_code(vals, value),
        BuiltinFunction::BytesLast => arg_code(map, vals, args, 0) + seq![Ins::Call(ctx.rt.bt_last)] + set_opt_i32_code(vals, value),
        BuiltinFunction::BytesSlice => arg_code(map, vals, args, 0) + arg_code(map, vals, args, 1) + seq![Ins::I32WrapI64] + arg_code(map, vals, args, 2) + seq![Ins::I32WrapI64] + seq![Ins::Call(ctx.rt.bt_slice)] + set_opt_code(vals, value),
        BuiltinFunction::BytesByteAt => arg_code(map, vals, args, 0) + arg_code(map, vals, args, 1) + seq![Ins::I32WrapI64] + seq![Ins::Call(ctx.rt.bytes_at)] + set_opt_i32_code(vals, value),
        BuiltinFunction::BytesPush => arg_code(map, vals, args, 0) + arg_code(map, vals, args, 1)
            + (if vals.vty_of(args[1]) == ValTy::I64 { seq![Ins::I32WrapI64] } else { Seq::empty() })
            + seq![Ins::Call(ctx.rt.bt_push)],
        BuiltinFunction::BytesExtend => arg_code(map, vals, args, 0) + arg_code(map, vals, args, 1) + seq![Ins::Call(ctx.rt.bt_extend)],
        BuiltinFunction::BytesTruncate => arg_code(map, vals, args, 0) + arg_code(map, vals, args, 1) + seq![Ins::I32WrapI64] + seq![Ins::Call(ctx.rt.bt_truncate)],
        BuiltinFunction::BytesResize => arg_code(map, vals, args, 0) + arg_code(map, vals, args, 1) + seq![Ins::I32WrapI64]
            + arg_code(map, vals, args, 2)
            + (if vals.vty_of(args[2]) == ValTy::I64 { seq![Ins::I32WrapI64] } else { Seq::empty() })
            + seq![Ins::Call(ctx.rt.bt_resize)],
        BuiltinFunction::BytesFind => arg_code(map, vals, args, 0) + arg_code(map, vals, args, 1) + seq![Ins::Call(ctx.rt.bt_find)] + set_opt_code(vals, value),
        BuiltinFunction::BytesStartsWith => arg_code(map, vals, args, 0) + arg_code(map, vals, args, 1) + seq![Ins::Call(ctx.rt.bt_starts)] + set_opt_code(vals, value),
        BuiltinFunction::BytesEndsWith => arg_code(map, vals, args, 0) + arg_code(map, vals, args, 1) + seq![Ins::Call(ctx.rt.bt_ends)] + set_opt_code(vals, value),
        BuiltinFunction::BytesCompare => arg_code(map, vals, args, 0) + arg_code(map, vals, args, 1) + seq![Ins::Call(ctx.rt.bt_cmp)] + set_opt_code(vals, value),
        BuiltinFunction::BytesClear => arg_code(map, vals, args, 0) + seq![Ins::Call(ctx.rt.bt_clear)],
        BuiltinFunction::BytesToHex => arg_code(map, vals, args, 0) + seq![Ins::Call(ctx.rt.bt_to_hex)] + set_opt_code(vals, value),
        BuiltinFunction::BytesToList => arg_code(map, vals, args, 0) + seq![Ins::Call(ctx.rt.bt_to_list)] + set_opt_code(vals, value),
        BuiltinFunction::BytesFromList => arg_code(map, vals, args, 0) + seq![Ins::Call(ctx.rt.bt_from_list)] + set_opt_code(vals, value),
        BuiltinFunction::BytesReadInt { width, big_endian, signed } => arg_code(map, vals, args, 0) + arg_code(map, vals, args, 1)
            + seq![
            Ins::I32WrapI64,
            Ins::I32Const(width_i32(width)),
            Ins::I32Const(read_int_flags(big_endian, signed)),
            Ins::Call(ctx.rt.bt_read_int),
        ] + set_opt_code(vals, value),
        BuiltinFunction::BytesWriteInt { width, big_endian } => arg_code(map, vals, args, 0) + arg_code(map, vals, args, 1) + seq![Ins::I32WrapI64] + seq![Ins::I32Const(width_i32(width))] + arg_i64_code(map, vals, args, 2) + seq![Ins::I32Const(if big_endian { 1 } else { 0 })] + seq![Ins::Call(ctx.rt.bt_write_int)],
        _ => Seq::empty(),
    }
}

/// The code of `ConstString`: the literal's data address, the runtime call
/// that makes a string of it, then the value stored.
pub open spec fn const_string_code(ctx: &LowerCtx, vals: &Values, value: ValueId, literal: Seq<char>) -> Seq<Ins> {
    seq![Ins::I32Const(string_value(ctx.strings@, literal) as i32), Ins::Call(ctx.rt.str_from_static)]
        + set_code(vals, value)
}

/// `ConstString`: the static string at the literal's data address.
fn lower_const_string(f: &mut Builder, ctx: &LowerCtx, vals: &Values, value: ValueId, literal: &String) -> (r: Result<(), CodegenError>)
    requires
        open_for_code(*old(f)),
        vals.locals_below(old(f).nlocals()),
    ensures
        continues(*old(f), *final(f)),
        r is Ok <==> has_string(ctx.strings@, literal@),
        r is Ok ==> final(f).code() == old(f).code() + const_string_code(ctx, vals, value, literal@),
        r matches Err(e) ==> e is Backend,
        r matches Err(CodegenError::Backend(m)) ==> m@ == "wasm backend: unregistered string literal `"@ + literal@ + "`"@,
        r is Err ==> final(f).code() == old(f).code(),
{
    match string_address(ctx.strings, literal.as_str()) {
        Some(address) => {
            emit(f, Ins::I32Const(address as i32));
            emit(f, Ins::Call(ctx.rt.str_from_static));
            set(f, vals, value);
            assert(f.code() =~= old(f).code() + const_string_code(ctx, vals, value, literal@));
            Ok(())
        },
        None => Err(CodegenError::Backend(unregistered_literal_text(literal.as_str()))),
    }
}

/// The code of `Borrow`: an aggregate or managed handle local is already an
/// address and is read as is; any other local is copied into a fresh heap
/// slot of its type's size (8 bytes when untyped) whose address is the
/// value.
pub open spec fn borrow_code(
    ctx: &LowerCtx,
    body: &MirFunction,
    map: &LocalMap,
    vals: &Values,
    scratch: u32,
    value: ValueId,
    local: LocalId,
) -> Seq<Ins> {
    let ty = body.locals@[local.0 as int];
    let read = Ins::LocalGet(map.slots()[local.0 as int]);
    let by_ref = ty matches Some(t) && (ctx.layouts.shapes@[t.0 as int].aggregate || spec_is_managed_handle(ctx.layouts, t));
    let address = if by_ref {
        seq![read]
    } else {
        let size: u64 = match ty {
            Some(t) => ctx.layouts.types@[t.0 as int].size,
            None => 8,
        };
        let store = match ty {
            Some(t) => spec_store_instruction(ctx.layouts, t, 0),
            None => Ins::I64Store(spec_memarg(0)),
        };
        seq![
            Ins::I32Const(size as i32),
            Ins::Call(ctx.rt.alloc),
            Ins::LocalTee(scratch),
            read,
            store,
            Ins::LocalGet(scratch),
        ]
    };
    address + set_code(vals, value)
}

/// The code of `Store`: the value, converted to the local's wasm type
/// (`i32` when untyped), into the local.
pub open spec fn store_code_of(
    ctx: &LowerCtx,
    body: &MirFunction,
    map: &LocalMap,
    vals: &Values,
    local: LocalId,
    value: ValueId,
) -> Seq<Ins> {
    let to = match body.locals@[local.0 as int] {
        Some(t) => spec_valtype(ctx.layouts, t),
        None => ValTy::I32,
    };
    seq![Ins::LocalGet(vals.slot(value).local)] + coerce_code(vals.type_of(value), to)
        + seq![Ins::LocalSet(map.slots()[local.0 as int])]
}

/// `Borrow`: by-reference values (aggregates and managed handles) already
/// hold the address of their storage; other values are copied into a fresh
/// heap slot.
fn lower_borrow(f: &mut Builder, ctx: &LowerCtx, body: &MirFunction, map: &LocalMap, vals: &Values, scratch: u32, value: ValueId, local: LocalId)
    requires
        env(ctx, body, map, vals, scratch, *old(f)),
        local.0 < body.locals@.len(),
    ensures
        continues(*old(f), *final(f)),
        final(f).code() == old(f).code() + borrow_code(ctx, body, map, vals, scratch, value, local),
{
    let ty = body.locals[local.0];
    let by_ref = match ty {
        Some(t) => ctx.layouts.shapes[t.0].aggregate || is_managed_handle(ctx.layouts, t),
        None => false,
    };
    if by_ref {
        get_local(f, map, local);
    } else {
        let size: u64 = match ty {
            Some(t) => ctx.layouts.types[t.0].size,
            None => 8,
        };
        emit(f, Ins::I32Const(size as i32));
        emit(f, Ins::Call(ctx.rt.alloc));
        f.push(Ins::LocalTee(scratch));
        get_local(f, map, local);
        match ty {
            Some(t) => emit_store(f, ctx.layouts, t, 0),
            None => emit(f, Ins::I64Store(memarg(0))),
        }
        f.push(Ins::LocalGet(scratch));
    }
    set(f, vals, value);
    assert(f.code() =~= old(f).code() + borrow_code(ctx, body, map, vals, scratch, value, local));
}

/// `Store`: the value, converted to the local's wasm type, into the local.
fn lower_store(f: &mut Builder, ctx: &LowerCtx, body: &MirFunction, map: &LocalMap, vals: &Values, scratch: u32, local: LocalId, value: ValueId)
    requires
        env(ctx, body, map, vals, scratch, *old(f)),
        local.0 < body.locals@.len(),
        vals.has(value),
    ensures
        continues(*old(f), *final(f)),
        final(f).code() == old(f).code() + store_code_of(ctx, body, map, vals, local, value),
{
    get(f, vals, value);
    let to = match body.locals[local.0] {
        Some(t) => valtype(ctx.layouts, t),
        None => ValTy::I32,
    };
    emit_coerce(f, vals.value_type(value), to);
    let l = map.get(local.0);
    f.push(Ins::LocalSet(l));
    assert(f.code() =~= old(f).code() + store_code_of(ctx, body, map, vals, local, value));
}

/// `Binary`: both operands converted to the operand type, then the
/// operator's instruction; fails for an operator the type does not have.
#[verifier::rlimit(40)]
fn lower_binary(f: &mut Builder, ctx: &LowerCtx, vals: &Values, operand_type: Option<TypeId>, value: ValueId, op: BinaryOp, left: ValueId, right: ValueId) -> (r: Result<(), CodegenError>)
    requires
        open_for_code(*old(f)),
        vals.locals_below(old(f).nlocals()),
        ctx.wf(),
        opt_known(ctx.layouts, operand_type),
        vals.has(left),
        vals.has(right),
    ensures
        continues(*old(f), *final(f)),
        r is Ok <==> binary_ins(op, operand_valtype(ctx.layouts, operand_type), operand_unsigned(ctx.layouts, operand_type)) is Some,
        r is Ok ==> final(f).code() == old(f).code() + binary_code(
            vals,
            operand_valtype(ctx.layouts, operand_type),
            binary_ins(op, operand_valtype(ctx.layouts, operand_type), operand_unsigned(ctx.layouts, operand_type)).unwrap(),
            value,
            left,
            right,
        ),
        r matches Err(e) ==> e is Backend,
        r matches Err(CodegenError::Backend(m)) ==> m@ == "wasm backend: unsupported binary op "@ + op_name(op) + " on "@
            + valtype_label(operand_valtype(ctx.layouts, operand_type)),
        r is Err ==> final(f).code() == old(f).code(),
{
    let operand = match operand_type {
        Some(t) => valtype(ctx.layouts, t),
        None => ValTy::I64,
    };
    let unsigned = match operand_type {
        Some(t) => ctx.layouts.shapes[t.0].unsigned,
        None => false,
    };
    let selected = binary_instruction(op, operand, unsigned);
    match selected {
        Ok((ins, _)) => {
            let ghost start = f.code();
            get(f, vals, left);
            emit_coerce(f, vals.value_type(left), operand);
            get(f, vals, right);
            emit_coerce(f, vals.value_type(right), operand);
            f.push(ins);
            set(f, vals, value);
            assert(f.code() =~= start + binary_code(vals, operand, ins, value, left, right));
            Ok(())
        },
        Err(e) => Err(e),
    }
}

/// The code of `Binary`: each operand read and converted to the operand
/// type `ty`, then the operator's instruction `ins`, then the result stored.
pub open spec fn binary_code(vals: &Values, ty: ValTy, ins: Ins, value: ValueId, left: ValueId, right: ValueId) -> Seq<Ins> {
    seq![Ins::LocalGet(vals.slot(left).local)] + coerce_code(vals.type_of(left), ty)
        + seq![Ins::LocalGet(vals.slot(right).local)] + coerce_code(vals.type_of(right), ty)
        + seq![ins] + set_code(vals, value)
}

/// The code of `Unary`: the operand, negated as its type negates (floats by
/// their negation, integers by subtraction from 0), logically inverted, or
/// unchanged; then the result stored.
pub open spec fn unary_code(vals: &Values, value: ValueId, op: UnaryOp, operand: ValueId) -> Seq<Ins> {
    let get = Ins::LocalGet(vals.slot(operand).local);
    let computed = match op {
        UnaryOp::Negate => match vals.vty_of(operand) {
            ValTy::F64 => seq![get, Ins::F64Neg],
            ValTy::F32 => seq![get, Ins::F32Neg],
            _ => seq![Ins::I64Const(0), get, Ins::I64Sub],
        },
        UnaryOp::Not => seq![get, Ins::I32Eqz],
        UnaryOp::Positive => seq![get],
    };
    computed + set_code(vals, value)
}

/// `Unary`: negation, logical not, or the operand itself.
fn lower_unary(f: &mut Builder, vals: &Values, value: ValueId, op: UnaryOp, operand: ValueId)
    requires
        open_for_code(*old(f)),
        vals.locals_below(old(f).nlocals()),
        vals.has(operand),
    ensures
        continues(*old(f), *final(f)),
        final(f).code() == old(f).code() + unary_code(vals, value, op, operand),
{
    match op {
        UnaryOp::Negate => {
            match vals.vty(operand) {
                ValTy::F64 => {
                    get(f, vals, operand);
                    emit(f, Ins::F64Neg);
                },
                ValTy::F32 => {
                    get(f, vals, operand);
                    emit(f, Ins::F32Neg);
                },
                _ => {
                    emit(f, Ins::I64Const(0));
                    get(f, vals, operand);
                    emit(f, Ins::I64Sub);
                },
            }
        },
        UnaryOp::Not => {
            get(f, vals, operand);
            emit(f, Ins::I32Eqz);
        },
        UnaryOp::Positive => get(f, vals, operand),
    }
    set(f, vals, value);
    assert(f.code() =~= old(f).code() + unary_code(vals, value, op, operand));
}

/// `all` values of `vs` have locals.
pub open spec fn has_all(vals: &Values, vs: Seq<ValueId>) -> bool {
    forall|i: int| 0 <= i < vs.len() ==> vals.has(#[trigger] vs[i])
}

/// The text `prefix`, the symbol's debug rendering `SymbolId(n)`, then `suffix`.
fn symbol_text(prefix: &str, symbol: SymbolId, suffix: &str) -> (r: String)
    ensures
        r@ == prefix@ + "SymbolId("@ + decimal(symbol.0 as nat) + ")"@ + suffix@,
{
    let mut message = String::new();
    message.append(prefix);
    message.append("SymbolId(");
    push_decimal(&mut message, symbol.0 as u64);
    message.append(")");
    message.append(suffix);
    message
}

/// The text `prefix`, the symbol's number, then `suffix`.
fn symbol_number_text(prefix: &str, symbol: SymbolId, suffix: &str) -> (r: String)
    ensures
        r@ == prefix@ + decimal(symbol.0 as nat) + suffix@,
{
    let mut message = String::new();
    message.append(prefix);
    push_decimal(&mut message, symbol.0 as u64);
    message.append(suffix);
    message
}

/// Pushes each argument, converted to the callee's parameter type where the
/// callee's parameters are known.
/// The parameter types `params` points at, if any.
pub open spec fn params_view(params: Option<&Vec<ValTy>>) -> Option<Seq<ValTy>> {
    match params {
        Some(ps) => Some(ps@),
        None => None,
    }
}

/// The code that pushes `args`: each value read and, where a parameter type
/// is known for its position, converted to it.
pub open spec fn args_code(vals: &Values, args: Seq<ValueId>, params: Option<Seq<ValTy>>) -> Seq<Ins>
    decreases args.len(),
{
    if args.len() == 0 {
        Seq::empty()
    } else {
        let k = args.len() - 1;
        let v = args[k];
        let conversion = match params {
            Some(ps) => if k < ps.len() { coerce_code(vals.type_of(v), ps[k]) } else { Seq::empty() },
            None => Seq::empty(),
        };
        args_code(vals, args.drop_last(), params) + seq![Ins::LocalGet(vals.slot(v).local)] + conversion
    }
}

fn push_arguments(f: &mut Builder, vals: &Values, arguments: &Vec<ValueId>, params: Option<&Vec<ValTy>>)
    requires
        open_for_code(*old(f)),
        vals.locals_below(old(f).nlocals()),
        has_all(vals, arguments@),
    ensures
        continues(*old(f), *final(f)),
        final(f).code() == old(f).code() + args_code(vals, arguments@, params_view(params)),
{
    let mut position: usize = 0;
    while position < arguments.len()
        invariant
            continues(*old(f), *f),
            open_for_code(*f),
            vals.locals_below(f.nlocals()),
            has_all(vals, arguments@),
            position <= arguments@.len(),
            f.code() == old(f).code() + args_code(vals, arguments@.take(position as int), params_view(params)),
        decreases arguments@.len() - position,
    {
        let ghost before = f.code();
        let argument = arguments[position];
        get(f, vals, argument);
        match params {
            Some(ps) => {
                if position < ps.len() {
                    emit_coerce(f, vals.value_type(argument), ps[position]);
                }
            },
            None => {},
        }
        proof {
            let next = arguments@.take(position as int + 1);
            assert(next.drop_last() =~= arguments@.take(position as int));
            assert(next[position as int] == argument);
            assert(f.code() =~= old(f).code() + args_code(vals, next, params_view(params)));
        }
        position = position + 1;
    }
    proof {
        assert(arguments@.take(position as int) =~= arguments@);
    }
}

/// The wasm parameter types of the first entry for `target`, if any.
pub open spec fn callee_params_of(ctx: &LowerCtx, target: SymbolId) -> Option<Seq<ValTy>> {
    if keyed(ctx.callee_params@, target) {
        Some(ctx.callee_params@[choose|i: int| first_keyed_at(ctx.callee_params@, target, i)].1@)
    } else {
        None
    }
}

/// The wasm parameter types recorded for `target`, if any.
fn callee_params<'a>(ctx: &'a LowerCtx, target: SymbolId) -> (r: Option<&'a Vec<ValTy>>)
    ensures
        params_view(r) == callee_params_of(ctx, target),
{
    match find_symbol(ctx.callee_params, target) {
        Some(i) => {
            proof {
                lemma_first_keyed(ctx.callee_params@, target, i as int);
            }
            Some(&ctx.callee_params[i].1)
        },
        None => None,
    }
}

/// The code of `Call`: the arguments converted to the callee's parameter
/// types, the call, then the result stored, or dropped when its type is
/// `void`.
pub open spec fn call_code(
    ctx: &LowerCtx,
    vals: &Values,
    value: Option<ValueId>,
    result_type: Option<TypeId>,
    target: SymbolId,
    arguments: Seq<ValueId>,
) -> Seq<Ins> {
    let result = match (value, result_type) {
        (Some(v), Some(t)) => if ctx.layouts.types@[t.0 as int].repr == ValueRepr::Void {
            seq![Ins::Drop]
        } else {
            set_code(vals, v)
        },
        _ => Seq::empty(),
    };
    args_code(vals, arguments, callee_params_of(ctx, target)) + seq![Ins::Call(symbol_value(ctx.symbols@, target))]
        + result
}

/// `Call`: the arguments, converted to the callee's parameter types, then a
/// direct call; a `void` result is dropped. Fails for an unknown callee.
fn lower_call(f: &mut Builder, ctx: &LowerCtx, vals: &Values, value: Option<ValueId>, result_type: Option<TypeId>, target: SymbolId, arguments: &Vec<ValueId>) -> (r: Result<(), CodegenError>)
    requires
        open_for_code(*old(f)),
        vals.locals_below(old(f).nlocals()),
        opt_known(ctx.layouts, result_type),
        has_all(vals, arguments@),
    ensures
        continues(*old(f), *final(f)),
        r is Ok <==> keyed(ctx.symbols@, target),
        r is Ok ==> final(f).code() == old(f).code() + call_code(ctx, vals, value, result_type, target, arguments@),
        r matches Err(e) ==> e is Backend,
        r matches Err(CodegenError::Backend(m)) ==> m@ == "wasm: unknown function "@ + "SymbolId("@ + decimal(target.0 as nat)
            + ")"@ + ""@,
        r is Err ==> final(f).code() == old(f).code(),
{
    let index = match symbol_index(ctx.symbols, target) {
        Some(i) => i,
        None => {
            return Err(CodegenError::Backend(symbol_text("wasm: unknown function ", target, "")));
        },
    };
    push_arguments(f, vals, arguments, callee_params(ctx, target));
    emit(f, Ins::Call(index));
    match (value, result_type) {
        (Some(v), Some(t)) => {
            if ctx.layouts.types[t.0].repr == ValueRepr::Void {
                emit(f, Ins::Drop);
            } else {
                set(f, vals, v);
            }
        },
        _ => {},
    }
    assert(f.code() =~= old(f).code() + call_code(ctx, vals, value, result_type, target, arguments@));
    Ok(())
}

/// `c` is the first callable of type `t`.
pub open spec fn first_callable_at(callables: Seq<Callable>, t: TypeId, c: int) -> bool {
    &&& 0 <= c < callables.len()
    &&& callables[c].ty == t
    &&& forall|j: int| 0 <= j < c ==> (#[trigger] callables[j]).ty != t
}

/// The parameter types of the first callable of type `t`, if the program
/// has one.
pub open spec fn callable_params_of(ctx: &LowerCtx, t: TypeId) -> Option<Seq<TypeId>> {
    if exists|c: int| first_callable_at(ctx.callables@, t, c) {
        Some(ctx.callables@[choose|c: int| first_callable_at(ctx.callables@, t, c)].params@)
    } else {
        None
    }
}

/// The wasm types of the parameters of the callable type `t`, if the
/// program has it.
pub open spec fn indirect_params(ctx: &LowerCtx, t: TypeId) -> Option<Seq<ValTy>> {
    match callable_params_of(ctx, t) {
        Some(ps) => Some(ps.map_values(|x: TypeId| spec_valtype(ctx.layouts, x))),
        None => None,
    }
}

/// The code of `CallIndirect` through the callable type `t`: the arguments,
/// converted to its parameter types, then the callee and an indirect call
/// through table 0 with its type index; the result stored if there is one.
pub open spec fn call_indirect_code(ctx: &LowerCtx, vals: &Values, value: Option<ValueId>, t: TypeId, callee: ValueId, arguments: Seq<ValueId>) -> Seq<Ins> {
    args_code(vals, arguments, indirect_params(ctx, t)) + seq![
        Ins::LocalGet(vals.slot(callee).local),
        Ins::CallIndirect { type_index: type_value(ctx.callable_types@, t), table_index: 0 },
    ] + match value {
        Some(v) => set_code(vals, v),
        None => Seq::empty(),
    }
}

/// The first callable of type `t` is the only position that is the first.
proof fn lemma_first_callable(callables: Seq<Callable>, t: TypeId, c: int)
    requires
        first_callable_at(callables, t, c),
    ensures
        (choose|k: int| first_callable_at(callables, t, k)) == c,
{
    let k = choose|k: int| first_callable_at(callables, t, k);
    assert(first_callable_at(callables, t, k));
    if k < c {
        assert(callables[k].ty != t);
    } else if k > c {
        assert(callables[c].ty != t);
    }
}

/// The parameter types of the callable type `t`, if the program has it.
fn callable_params<'a>(ctx: &'a LowerCtx, t: TypeId) -> (r: Option<&'a Vec<TypeId>>)
    requires
        ctx.wf(),
    ensures
        r matches Some(ps) ==> forall|i: int| 0 <= i < ps@.len() ==> known(ctx.layouts, #[trigger] ps@[i]),
        match r {
            Some(ps) => exists|c: int| first_callable_at(ctx.callables@, t, c) && ps@ == ctx.callables@[c].params@,
            None => forall|c: int| 0 <= c < ctx.callables@.len() ==> (#[trigger] ctx.callables@[c]).ty != t,
        },
{
    let mut c: usize = 0;
    while c < ctx.callables.len()
        invariant
            c <= ctx.callables@.len(),
            ctx.wf(),
            forall|j: int| 0 <= j < c ==> (#[trigger] ctx.callables@[j]).ty != t,
        decreases ctx.callables@.len() - c,
    {
        if ctx.callables[c].ty == t {
            assert(first_callable_at(ctx.callables@, t, c as int));
            proof {
                reveal(callables_known);
                assert forall|i: int| 0 <= i < ctx.callables@[c as int].params@.len() implies known(
                    ctx.layouts,
                    ctx.callables@[c as int].params@[i],
                ) by {}
            }
            return Some(&ctx.callables[c].params);
        }
        c = c + 1;
    }
    None
}

/// `CallIndirect`: the arguments, converted to the callable's parameter
/// types, then the callee and an indirect call through table 0. Fails when
/// the callable type has no type index.
fn lower_call_indirect(f: &mut Builder, ctx: &LowerCtx, vals: &Values, value: Option<ValueId>, callable_ty: Option<TypeId>, callee: ValueId, arguments: &Vec<ValueId>) -> (r: Result<(), CodegenError>)
    requires
        open_for_code(*old(f)),
        vals.locals_below(old(f).nlocals()),
        ctx.wf(),
        opt_known(ctx.layouts, callable_ty),
        vals.has(callee),
        has_all(vals, arguments@),
    ensures
        continues(*old(f), *final(f)),
        r is Ok <==> (callable_ty matches Some(t) && type_keyed(ctx.callable_types@, t)),
        r is Ok ==> final(f).code() == old(f).code() + call_indirect_code(ctx, vals, value, callable_ty->0, callee, arguments@),
        r matches Err(e) ==> e is Backend,
        r matches Err(CodegenError::Backend(m)) ==> m@ == "wasm backend: unknown callable type"@,
        r is Err ==> final(f).code() == old(f).code(),
{
    let t = match callable_ty {
        Some(t) => t,
        None => {
            return Err(CodegenError::Backend(String::from_str("wasm backend: unknown callable type")));
        },
    };
    let type_index = match callable_type_index(ctx.callable_types, t) {
        Some(i) => i,
        None => {
            return Err(CodegenError::Backend(String::from_str("wasm backend: unknown callable type")));
        },
    };
    let params = callable_params(ctx, t);
    let ghost wanted = indirect_params(ctx, t);
    proof {
        match params {
            Some(ps) => {
                let c = choose|c: int| first_callable_at(ctx.callables@, t, c) && ps@ == ctx.callables@[c].params@;
                lemma_first_callable(ctx.callables@, t, c);
            },
            None => {
                assert(!exists|c: int| first_callable_at(ctx.callables@, t, c));
            },
        }
    }
    let mut position: usize = 0;
    while position < arguments.len()
        invariant
            continues(*old(f), *f),
            open_for_code(*f),
            vals.locals_below(f.nlocals()),
            has_all(vals, arguments@),
            position <= arguments@.len(),
            ctx.wf(),
            params matches Some(ps) ==> forall|i: int| 0 <= i < ps@.len() ==> known(ctx.layouts, #[trigger] ps@[i]),
            wanted == indirect_params(ctx, t),
            params matches Some(ps) ==> wanted == Some(ps@.map_values(|x: TypeId| spec_valtype(ctx.layouts, x))),
            params is None ==> wanted is None,
            f.code() == old(f).code() + args_code(vals, arguments@.take(position as int), wanted),
        decreases arguments@.len() - position,
    {
        let argument = arguments[position];
        get(f, vals, argument);
        match params {
            Some(ps) => {
                if position < ps.len() {
                    let to = valtype(ctx.layouts, ps[position]);
                    emit_coerce(f, vals.value_type(argument), to);
                }
            },
            None => {},
        }
        proof {
            let next = arguments@.take(position as int + 1);
            assert(next.drop_last() =~= arguments@.take(position as int));
            assert(next[position as int] == argument);
            assert(f.code() =~= old(f).code() + args_code(vals, next, wanted));
        }
        position = position + 1;
    }
    proof {
        assert(arguments@.take(position as int) =~= arguments@);
    }
    let ghost before = f.code();
    get(f, vals, callee);
    emit(f, Ins::CallIndirect { type_index, table_index: 0 });
    match value {
        Some(v) => set(f, vals, v),
        None => {},
    }
    assert(f.code() =~= old(f).code() + call_indirect_code(ctx, vals, value, t, callee, arguments@));
    Ok(())
}

/// `AwaitFuture`: drive the future to completion into the poll scratch
/// area, then load its result.
fn lower_await(f: &mut Builder, ctx: &LowerCtx, vals: &Values, value: ValueId, handle: ValueId, result_type: TypeId)
    requires
        open_for_code(*old(f)),
        vals.locals_below(old(f).nlocals()),
        known(ctx.layouts, result_type),
        vals.has(handle),
    ensures
        continues(*old(f), *final(f)),
        final(f).code() == old(f).code() + await_code(ctx, vals, value, handle, result_type),
{
    get(f, vals, handle);
    emit(f, Ins::I32Const(POLL_SCRATCH));
    emit(f, Ins::Call(ctx.async_rt.future_await));
    emit(f, Ins::Drop);
    emit(f, Ins::I32Const(POLL_SCRATCH));
    let ty = valtype(ctx.layouts, result_type);
    mem_load(f, ty, 0);
    set(f, vals, value);
    assert(f.code() =~= old(f).code() + await_code(ctx, vals, value, handle, result_type));
}

/// `Spawn`: run the callable to completion when it is a known function.
fn lower_spawn(f: &mut Builder, ctx: &LowerCtx, vals: &Values, value: ValueId, callable: SymbolId)
    requires
        open_for_code(*old(f)),
        vals.locals_below(old(f).nlocals()),
    ensures
        continues(*old(f), *final(f)),
        final(f).code() == old(f).code() + spawn_code(ctx, vals, value, callable),
{
    match symbol_index(ctx.symbols, callable) {
        Some(index) => {
            emit(f, Ins::Call(index));
            emit(f, Ins::Drop);
        },
        None => {},
    }
    set(f, vals, value);
    assert(f.code() =~= old(f).code() + spawn_code(ctx, vals, value, callable));
}

/// The byte size a started future's completion slot reports, as
/// `completion_size` computes it.
pub open spec fn spec_completion_size(layouts: &LayoutTable, layout: &FrameLayout) -> i32 {
    match layout.completion {
        Some(slot) => if layouts.shapes@[slot.ty.0 as int].aggregate || spec_is_managed_handle(layouts, slot.ty) {
            4
        } else if layouts.types@[slot.ty.0 as int].size <= 0x7fff_ffff {
            layouts.types@[slot.ty.0 as int].size as i32
        } else {
            0
        },
        None => 0,
    }
}

/// The byte size a started future's completion slot reports: 4 for a
/// by-reference result, the result's size when it fits an `i32`, else 0.
fn completion_size(ctx: &LowerCtx, layout: &FrameLayout) -> (r: i32)
    requires
        ctx.wf(),
        layout.completion matches Some(c) ==> known(ctx.layouts, c.ty),
    ensures
        r == spec_completion_size(ctx.layouts, layout),
{
    match layout.completion {
        Some(slot) => {
            if ctx.layouts.shapes[slot.ty.0].aggregate || is_managed_handle(ctx.layouts, slot.ty) {
                4
            } else {
                let size = ctx.layouts.types[slot.ty.0].size;
                if size <= 0x7fff_ffff { size as i32 } else { 0 }
            }
        },
        None => 0,
    }
}

/// `StartFuture`: allocate the callee's frame, store the arguments into its
/// parameter slots, and create a future handle over its poll entry. Fails
/// when the callee has no frame layout or no poll entry.
/// The frame layout of the first frame entry for `target` (meaningful
/// when there is one).
pub open spec fn frame_of(ctx: &LowerCtx, target: SymbolId) -> FrameLayout {
    ctx.frames@[choose|i: int| first_keyed_at(ctx.frames@, target, i)].1
}

/// The stores of the first `n` arguments into their frame slots, through
/// the frame address in `scratch`.
pub open spec fn parameter_stores(vals: &Values, scratch: u32, arguments: Seq<ValueId>, slots: Seq<crate::wasm::mir::FrameSlot>, n: nat) -> Seq<Ins>
    decreases n,
{
    if n == 0 {
        Seq::empty()
    } else {
        let v = arguments[n - 1];
        let ty = match vals.type_of(v) {
            Some(t) => t,
            None => ValTy::I32,
        };
        parameter_stores(vals, scratch, arguments, slots, (n - 1) as nat) + seq![
            Ins::LocalGet(scratch),
            Ins::LocalGet(vals.slot(v).local),
            spec_mem_store(ty, slots[n - 1].offset as i32),
        ]
    }
}

/// The code of `StartFuture`: a fresh frame of the target's size in
/// `scratch`, each argument stored into its parameter slot, then a future
/// handle of the target's poll entry over that frame; the handle stored, or
/// dropped when there is no result.
pub open spec fn start_future_code(ctx: &LowerCtx, vals: &Values, scratch: u32, value: Option<ValueId>, target: SymbolId, arguments: Seq<ValueId>) -> Seq<Ins> {
    let layout = frame_of(ctx, target);
    let n = if arguments.len() < layout.parameters@.len() { arguments.len() } else { layout.parameters@.len() };
    seq![Ins::I32Const(layout.size as i32), Ins::Call(ctx.async_rt.frame_alloc), Ins::LocalSet(scratch)]
        + parameter_stores(vals, scratch, arguments, layout.parameters@, n)
        + seq![
            Ins::I32Const(symbol_value(ctx.poll_thunks@, target) as i32),
            Ins::I32Const(0),
            Ins::LocalGet(scratch),
            Ins::I32Const(spec_completion_size(ctx.layouts, &layout)),
            Ins::Call(ctx.async_rt.handle_new),
        ] + match value {
            Some(v) => set_code(vals, v),
            None => seq![Ins::Drop],
        }
}

fn lower_start_future(f: &mut Builder, ctx: &LowerCtx, vals: &Values, scratch: u32, value: Option<ValueId>, target: SymbolId, arguments: &Vec<ValueId>) -> (r: Result<(), CodegenError>)
    requires
        open_for_code(*old(f)),
        vals.locals_below(old(f).nlocals()),
        scratch < old(f).nlocals(),
        ctx.wf(),
        has_all(vals, arguments@),
    ensures
        continues(*old(f), *final(f)),
        r is Ok <==> keyed(ctx.frames@, target) && keyed(ctx.poll_thunks@, target),
        r is Ok ==> final(f).code() == old(f).code() + start_future_code(ctx, vals, scratch, value, target, arguments@),
        r matches Err(e) ==> e is Backend,
        r matches Err(CodegenError::Backend(m)) ==> m@ == "wasm: async fn "@ + decimal(target.0 as nat) + (if keyed(
            ctx.frames@,
            target,
        ) {
            " has no poll entry"@
        } else {
            " has no frame layout"@
        }),
        r is Err ==> final(f).code() == old(f).code(),
{
    let at = match find_symbol(ctx.frames, target) {
        Some(i) => i,
        None => {
            return Err(CodegenError::Backend(symbol_number_text("wasm: async fn ", target, " has no frame layout")));
        },
    };
    let poll_fn = match symbol_index(ctx.poll_thunks, target) {
        Some(p) => p,
        None => {
            return Err(CodegenError::Backend(symbol_number_text("wasm: async fn ", target, " has no poll entry")));
        },
    };
    let layout = &ctx.frames[at].1;
    proof {
        lemma_first_keyed(ctx.frames@, target, at as int);
        assert(*layout == frame_of(ctx, target));
    }
    emit(f, Ins::I32Const(layout.size as i32));
    emit(f, Ins::Call(ctx.async_rt.frame_alloc));
    f.push(Ins::LocalSet(scratch));
    let ghost head = f.code();
    assert(head == old(f).code() + seq![Ins::I32Const(layout.size as i32), Ins::Call(ctx.async_rt.frame_alloc), Ins::LocalSet(scratch)]);
    let mut k: usize = 0;
    while k < arguments.len() && k < layout.parameters.len()
        invariant
            continues(*old(f), *f),
            open_for_code(*f),
            vals.locals_below(f.nlocals()),
            has_all(vals, arguments@),
            scratch < f.nlocals(),
            k <= arguments@.len(),
            k <= layout.parameters@.len(),
            f.code() == head + parameter_stores(vals, scratch, arguments@, layout.parameters@, k as nat),
        decreases arguments@.len() - k,
    {
        let argument = arguments[k];
        f.push(Ins::LocalGet(scratch));
        get(f, vals, argument);
        let ty = match vals.value_type(argument) {
            Some(t) => t,
            None => ValTy::I32,
        };
        mem_store(f, ty, layout.parameters[k].offset as i32);
        proof {
            assert(vals.has(argument));
            assert(f.code() =~= head + parameter_stores(vals, scratch, arguments@, layout.parameters@, (k + 1) as nat));
        }
        k = k + 1;
    }
    let ghost stores = f.code();
    assert(ctx.frames@[at as int].1 == *layout);
    let result_size = completion_size(ctx, layout);
    emit(f, Ins::I32Const(poll_fn as i32));
    emit(f, Ins::I32Const(0));
    f.push(Ins::LocalGet(scratch));
    emit(f, Ins::I32Const(result_size));
    emit(f, Ins::Call(ctx.async_rt.handle_new));
    match value {
        Some(v) => set(f, vals, v),
        None => emit(f, Ins::Drop),
    }
    assert(f.code() =~= old(f).code() + start_future_code(ctx, vals, scratch, value, target, arguments@));
    Ok(())
}

/// `MakeFunction`: the function's table index (0 when unknown).
fn lower_make_function(f: &mut Builder, ctx: &LowerCtx, vals: &Values, value: ValueId, symbol: SymbolId)
    requires
        open_for_code(*old(f)),
        vals.locals_below(old(f).nlocals()),
    ensures
        continues(*old(f), *final(f)),
        final(f).code() == old(f).code() + make_function_code(ctx, vals, value, symbol),
{
    let index = match symbol_index(ctx.symbols, symbol) {
        Some(i) => i,
        None => 0,
    };
    emit(f, Ins::I32Const(index as i32));
    set(f, vals, value);
    assert(f.code() =~= old(f).code() + make_function_code(ctx, vals, value, symbol));
}

/// The wasm local of the body's frame parameter.
fn frame_local(map: &LocalMap, body: &MirFunction) -> (r: u32)
    requires
        body.frame_param matches Some(p) && (p as int) < map.slots().len(),
    ensures
        r == map.slots()[body.frame_param->0 as int],
{
    let p = body.frame_param.unwrap();
    map.get(p as usize)
}

/// `PollFuture`: poll the frame's awaited child into the poll scratch area,
/// record readiness, and load the result when there is one.
fn lower_poll_future(f: &mut Builder, ctx: &LowerCtx, map: &LocalMap, vals: &Values, value: Option<ValueId>, ready: ValueId, frame: LocalId, result_type: TypeId)
    requires
        open_for_code(*old(f)),
        vals.locals_below(old(f).nlocals()),
        map_fits(map, old(f).nlocals()),
        frame.0 < map.slots().len(),
        known(ctx.layouts, result_type),
        vals.has(ready),
    ensures
        continues(*old(f), *final(f)),
        final(f).code() == old(f).code() + poll_future_code(ctx, map, vals, value, ready, frame, result_type),
{
    get_local(f, map, frame);
    emit(f, Ins::I32Const(ctx.frame_child_offset as i32));
    emit(f, Ins::I32Add);
    emit(f, Ins::I32Const(POLL_SCRATCH));
    emit(f, Ins::Call(ctx.async_rt.await_child));
    let l = vals.local(ready).unwrap();
    f.push(Ins::LocalSet(l));
    match value {
        Some(v) => {
            emit(f, Ins::I32Const(POLL_SCRATCH));
            let ty = valtype(ctx.layouts, result_type);
            mem_load(f, ty, 0);
            set(f, vals, v);
        },
        None => {},
    }
    assert(f.code() =~= old(f).code() + poll_future_code(ctx, map, vals, value, ready, frame, result_type));
}

/// `FrameState`: the frame's state word, widened to `i64`.
fn lower_frame_state(f: &mut Builder, ctx: &LowerCtx, map: &LocalMap, vals: &Values, value: ValueId, frame: LocalId)
    requires
        open_for_code(*old(f)),
        vals.locals_below(old(f).nlocals()),
        map_fits(map, old(f).nlocals()),
        frame.0 < map.slots().len(),
    ensures
        continues(*old(f), *final(f)),
        final(f).code() == old(f).code() + frame_state_code(ctx, map, vals, value, frame),
{
    get_local(f, map, frame);
    emit(f, Ins::I32Load(memarg(ctx.frame_state_offset as i64)));
    emit(f, Ins::I64ExtendI32U);
    set(f, vals, value);
    assert(f.code() =~= old(f).code() + frame_state_code(ctx, map, vals, value, frame));
}

/// `SetFrameState`: store `state` into the frame's state word.
fn lower_set_frame_state(f: &mut Builder, ctx: &LowerCtx, map: &LocalMap, frame: LocalId, state: u32)
    requires
        open_for_code(*old(f)),
        map_fits(map, old(f).nlocals()),
        frame.0 < map.slots().len(),
    ensures
        continues(*old(f), *final(f)),
        final(f).code() == old(f).code() + seq![
            Ins::LocalGet(map.slots()[frame.0 as int]),
            Ins::I32Const(state as i32),
            Ins::I32Store(spec_memarg(ctx.frame_state_offset as i64)),
        ],
{
    get_local(f, map, frame);
    emit(f, Ins::I32Const(state as i32));
    emit(f, Ins::I32Store(memarg(ctx.frame_state_offset as i64)));
    assert(f.code() =~= old(f).code() + seq![
        Ins::LocalGet(map.slots()[frame.0 as int]),
        Ins::I32Const(state as i32),
        Ins::I32Store(spec_memarg(ctx.frame_state_offset as i64)),
    ]);
}

/// `SetFrameChild`: store the awaited child's handle into the frame.
fn lower_set_frame_child(f: &mut Builder, ctx: &LowerCtx, map: &LocalMap, vals: &Values, frame: LocalId, value: ValueId)
    requires
        open_for_code(*old(f)),
        vals.locals_below(old(f).nlocals()),
        map_fits(map, old(f).nlocals()),
        frame.0 < map.slots().len(),
        vals.has(value),
    ensures
        continues(*old(f), *final(f)),
        final(f).code() == old(f).code() + seq![
            Ins::LocalGet(map.slots()[frame.0 as int]),
            Ins::LocalGet(vals.slot(value).local),
            Ins::I32Store(spec_memarg(ctx.frame_child_offset as i64)),
        ],
{
    get_local(f, map, frame);
    get(f, vals, value);
    emit(f, Ins::I32Store(memarg(ctx.frame_child_offset as i64)));
    assert(f.code() =~= old(f).code() + seq![
        Ins::LocalGet(map.slots()[frame.0 as int]),
        Ins::LocalGet(vals.slot(value).local),
        Ins::I32Store(spec_memarg(ctx.frame_child_offset as i64)),
    ]);
}

/// `SpillValue`: store the value into its frame slot.
fn lower_spill(f: &mut Builder, body: &MirFunction, map: &LocalMap, vals: &Values, slot: usize, value: ValueId)
    requires
        open_for_code(*old(f)),
        vals.locals_below(old(f).nlocals()),
        map_fits(map, old(f).nlocals()),
        body.frame_param matches Some(p) && (p as int) < map.slots().len(),
        vals.has(value),
    ensures
        continues(*old(f), *final(f)),
        final(f).code() == old(f).code() + seq![
            Ins::LocalGet(map.slots()[body.frame_param->0 as int]),
            Ins::LocalGet(vals.slot(value).local),
            spec_mem_store(vals.vty_of(value), slot as i32),
        ],
{
    let l = frame_local(map, body);
    f.push(Ins::LocalGet(l));
    get(f, vals, value);
    let ty = vals.vty(value);
    mem_store(f, ty, slot as i32);
    assert(f.code() =~= old(f).code() + seq![
        Ins::LocalGet(map.slots()[body.frame_param->0 as int]),
        Ins::LocalGet(vals.slot(value).local),
        spec_mem_store(vals.vty_of(value), slot as i32),
    ]);
}

/// `ReloadValue`: load the value back from its frame slot.
fn lower_reload(f: &mut Builder, body: &MirFunction, map: &LocalMap, vals: &Values, value: ValueId, slot: usize)
    requires
        open_for_code(*old(f)),
        vals.locals_below(old(f).nlocals()),
        map_fits(map, old(f).nlocals()),
        body.frame_param matches Some(p) && (p as int) < map.slots().len(),
    ensures
        continues(*old(f), *final(f)),
        final(f).code() == old(f).code() + reload_code(body, map, vals, value, slot),
{
    let l = frame_local(map, body);
    f.push(Ins::LocalGet(l));
    let ty = vals.vty(value);
    mem_load(f, ty, slot as i32);
    set(f, vals, value);
    assert(f.code() =~= old(f).code() + reload_code(body, map, vals, value, slot));
}

/// The byte size of the type at `ty`, at least 1, as `size_at_least_one`
/// computes it.
pub open spec fn spec_size_at_least_one(layouts: &LayoutTable, ty: TypeId) -> u64 {
    let size = layouts.types@[ty.0 as int].size;
    if size >= 1 { size } else { 1 }
}

/// The byte size of the type at `ty`, at least 1.
fn size_at_least_one(layouts: &LayoutTable, ty: TypeId) -> (r: u64)
    requires
        known(layouts, ty),
    ensures
        r == spec_size_at_least_one(layouts, ty),
{
    let size = layouts.types[ty.0].size;
    if size >= 1 { size } else { 1 }
}

/// Pushes a heap allocation of `size` bytes whose address is left in
/// `scratch` and on the stack.
fn alloc_to_scratch(f: &mut Builder, ctx: &LowerCtx, scratch: u32, size: u64)
    requires
        open_for_code(*old(f)),
        scratch < old(f).nlocals(),
    ensures
        continues(*old(f), *final(f)),
        final(f).code() == old(f).code() + seq![Ins::I32Const(size as i32), Ins::Call(ctx.rt.alloc), Ins::LocalTee(scratch)],
{
    emit(f, Ins::I32Const(size as i32));
    emit(f, Ins::Call(ctx.rt.alloc));
    f.push(Ins::LocalTee(scratch));
    assert(f.code() =~= old(f).code() + seq![Ins::I32Const(size as i32), Ins::Call(ctx.rt.alloc), Ins::LocalTee(scratch)]);
}

/// Pushes `address + offset` into `scratch`'s allocation: `scratch`, the
/// offset, and an add.
fn scratch_plus(f: &mut Builder, scratch: u32, offset: u64)
    requires
        open_for_code(*old(f)),
        scratch < old(f).nlocals(),
    ensures
        continues(*old(f), *final(f)),
        final(f).code() == old(f).code() + seq![Ins::LocalGet(scratch), Ins::I32Const(offset as i32), Ins::I32Add],
{
    f.push(Ins::LocalGet(scratch));
    emit(f, Ins::I32Const(offset as i32));
    emit(f, Ins::I32Add);
    assert(f.code() =~= old(f).code() + seq![Ins::LocalGet(scratch), Ins::I32Const(offset as i32), Ins::I32Add]);
}

/// Copies the value `v` of type `ty` to the address on the stack: a memory
/// copy for an aggregate, else a store after converting to `ty`'s wasm type.
fn store_into(f: &mut Builder, ctx: &LowerCtx, vals: &Values, v: ValueId, ty: TypeId)
    requires
        open_for_code(*old(f)),
        vals.locals_below(old(f).nlocals()),
        ctx.wf(),
        known(ctx.layouts, ty),
        vals.has(v),
    ensures
        continues(*old(f), *final(f)),
        final(f).code() == old(f).code() + store_into_code(ctx, vals, v, ty),
{
    get(f, vals, v);
    if ctx.layouts.shapes[ty.0].aggregate {
        emit(f, Ins::I32Const(ctx.layouts.types[ty.0].size as i32));
        emit(f, Ins::MemoryCopy { src_mem: 0, dst_mem: 0 });
    } else {
        let to = valtype(ctx.layouts, ty);
        emit_coerce(f, vals.value_type(v), to);
        emit_store(f, ctx.layouts, ty, 0);
    }
    assert(f.code() =~= old(f).code() + store_into_code(ctx, vals, v, ty));
}

/// The code that stores `v` of type `ty` at the address on the stack: an
/// aggregate is copied byte for byte, anything else converted and stored.
pub open spec fn store_into_code(ctx: &LowerCtx, vals: &Values, v: ValueId, ty: TypeId) -> Seq<Ins> {
    seq![Ins::LocalGet(vals.slot(v).local)] + if ctx.layouts.shapes@[ty.0 as int].aggregate {
        seq![Ins::I32Const(ctx.layouts.types@[ty.0 as int].size as i32), Ins::MemoryCopy { src_mem: 0, dst_mem: 0 }]
    } else {
        coerce_code(vals.type_of(v), spec_valtype(ctx.layouts, ty)) + seq![spec_store_instruction(ctx.layouts, ty, 0)]
    }
}

/// Loads a value of type `ty` from the address on the stack unless it is an
/// aggregate (which stays an address) or has size 0.
fn load_unless_aggregate(f: &mut Builder, ctx: &LowerCtx, ty: TypeId)
    requires
        open_for_code(*old(f)),
        ctx.wf(),
        known(ctx.layouts, ty),
    ensures
        continues(*old(f), *final(f)),
        final(f).code() == old(f).code() + load_unless_aggregate_code(ctx, ty),
{
    if !ctx.layouts.shapes[ty.0].aggregate && ctx.layouts.types[ty.0].size != 0 {
        emit_load(f, ctx.layouts, ty, 0);
    }
    assert(f.code() =~= old(f).code() + load_unless_aggregate_code(ctx, ty));
}

/// A load of `ty` from the address on the stack, unless `ty` is an
/// aggregate (the address is the value) or has no size.
pub open spec fn load_unless_aggregate_code(ctx: &LowerCtx, ty: TypeId) -> Seq<Ins> {
    if !ctx.layouts.shapes@[ty.0 as int].aggregate && ctx.layouts.types@[ty.0 as int].size != 0 {
        seq![spec_load_instruction(ctx.layouts, ty, 0)]
    } else {
        Seq::empty()
    }
}

/// `Allocate`: a heap block of the type's size.
fn lower_allocate(f: &mut Builder, ctx: &LowerCtx, vals: &Values, value: ValueId, ty: TypeId)
    requires
        open_for_code(*old(f)),
        vals.locals_below(old(f).nlocals()),
        known(ctx.layouts, ty),
    ensures
        continues(*old(f), *final(f)),
        final(f).code() == old(f).code() + allocate_code(ctx, vals, value, ty),
{
    emit(f, Ins::I32Const(ctx.layouts.types[ty.0].size as i32));
    emit(f, Ins::Call(ctx.rt.alloc));
    set(f, vals, value);
    assert(f.code() =~= old(f).code() + allocate_code(ctx, vals, value, ty));
}

/// `LoadRaw`: a load of `ty` at `offset` from the pointer.
fn lower_load_raw(f: &mut Builder, ctx: &LowerCtx, vals: &Values, value: ValueId, pointer: ValueId, offset: i64, ty: TypeId)
    requires
        open_for_code(*old(f)),
        vals.locals_below(old(f).nlocals()),
        known(ctx.layouts, ty),
        vals.has(pointer),
    ensures
        continues(*old(f), *final(f)),
        final(f).code() == old(f).code() + load_raw_code(ctx, vals, value, pointer, offset, ty),
{
    get(f, vals, pointer);
    emit_load(f, ctx.layouts, ty, offset);
    set(f, vals, value);
    assert(f.code() =~= old(f).code() + load_raw_code(ctx, vals, value, pointer, offset, ty));
}

/// `StoreRaw`: the value, converted to `ty`, stored at `offset` from the
/// pointer.
fn lower_store_raw(f: &mut Builder, ctx: &LowerCtx, vals: &Values, pointer: ValueId, offset: i64, value: ValueId, ty: TypeId)
    requires
        open_for_code(*old(f)),
        vals.locals_below(old(f).nlocals()),
        known(ctx.layouts, ty),
        vals.has(pointer),
        vals.has(value),
    ensures
        continues(*old(f), *final(f)),
        final(f).code() == old(f).code() + store_raw_code(ctx, vals, pointer, offset, value, ty),
{
    get(f, vals, pointer);
    get(f, vals, value);
    let to = valtype(ctx.layouts, ty);
    emit_coerce(f, vals.value_type(value), to);
    emit_store(f, ctx.layouts, ty, offset);
    assert(f.code() =~= old(f).code() + store_raw_code(ctx, vals, pointer, offset, value, ty));
}

/// `ConcatString`: the runtime's string concatenation.
fn lower_concat(f: &mut Builder, ctx: &LowerCtx, vals: &Values, value: ValueId, left: ValueId, right: ValueId)
    requires
        open_for_code(*old(f)),
        vals.locals_below(old(f).nlocals()),
        vals.has(left),
        vals.has(right),
    ensures
        continues(*old(f), *final(f)),
        final(f).code() == old(f).code() + concat_code(ctx, vals, value, left, right),
{
    get(f, vals, left);
    get(f, vals, right);
    emit(f, Ins::Call(ctx.rt.concat));
    set(f, vals, value);
    assert(f.code() =~= old(f).code() + concat_code(ctx, vals, value, left, right));
}

/// `FormatValue`: floats (promoted to `f64`) through the float formatter,
/// everything else (widened to `i64`) through the integer formatter.
fn lower_format_value(f: &mut Builder, ctx: &LowerCtx, vals: &Values, value: ValueId, operand: ValueId, ty: TypeId, unsigned: bool)
    requires
        open_for_code(*old(f)),
        vals.locals_below(old(f).nlocals()),
        known(ctx.layouts, ty),
        vals.has(operand),
    ensures
        continues(*old(f), *final(f)),
        final(f).code() == old(f).code() + format_code(ctx, vals, value, operand, ty, unsigned),
{
    if ctx.layouts.types[ty.0].repr == ValueRepr::Float {
        get(f, vals, operand);
        if vals.value_type(operand) == Some(ValTy::F32) {
            emit(f, Ins::F64PromoteF32);
        }
        emit(f, Ins::Call(ctx.rt.fmt_f64));
    } else {
        get(f, vals, operand);
        if vals.vty(operand) == ValTy::I32 {
            if unsigned {
                emit(f, Ins::I64ExtendI32U);
            } else {
                emit(f, Ins::I64ExtendI32S);
            }
        }
        emit(f, Ins::Call(ctx.rt.format));
    }
    set(f, vals, value);
    assert(f.code() =~= old(f).code() + format_code(ctx, vals, value, operand, ty, unsigned));
}

/// Calls `target` on the value when it is not null.
fn call_if_present(f: &mut Builder, target: u32, local: u32)
    requires
        open_for_code(*old(f)),
        local < old(f).nlocals(),
    ensures
        continues(*old(f), *final(f)),
        final(f).code() == old(f).code() + seq![
            Ins::LocalGet(local),
            Ins::If(BlockTy::Empty),
            Ins::LocalGet(local),
            Ins::Call(target),
            Ins::End,
        ],
{
    f.push(Ins::LocalGet(local));
    f.push(Ins::If(BlockTy::Empty));
    f.push(Ins::LocalGet(local));
    f.push(Ins::Call(target));
    f.push(Ins::End);
    assert(f.frames() =~= old(f).frames());
    assert(f.code() =~= old(f).code() + seq![
        Ins::LocalGet(local),
        Ins::If(BlockTy::Empty),
        Ins::LocalGet(local),
        Ins::Call(target),
        Ins::End,
    ]);
}

/// `Retain` / `Release`: the type's retain or release helper on the value
/// when it is not null; nothing for types the runtime does not count.
fn lower_retain_release(f: &mut Builder, ctx: &LowerCtx, vals: &Values, value: ValueId, ty: TypeId, retain: bool)
    requires
        open_for_code(*old(f)),
        vals.locals_below(old(f).nlocals()),
        known(ctx.layouts, ty),
        vals.has(value),
    ensures
        continues(*old(f), *final(f)),
        final(f).code() == old(f).code() + retain_release_code(ctx, vals, value, ty, retain),
{
    let ownership = ctx.layouts.types[ty.0].ownership;
    let target = if retain { retain_call(ctx.rt, ownership) } else { release_call(ctx.rt, ownership) };
    match target {
        Some(t) => {
            let l = vals.local(value).unwrap();
            proof {
                vals.lemma_slot_unique(value);
            }
            call_if_present(f, t, l);
        },
        None => {
            assert(f.code() =~= old(f).code() + retain_release_code(ctx, vals, value, ty, retain));
        },
    }
}

/// `Drop`: the local's release helper when it is not null.
fn lower_drop(f: &mut Builder, ctx: &LowerCtx, body: &MirFunction, map: &LocalMap, vals: &Values, scratch: u32, local: LocalId)
    requires
        env(ctx, body, map, vals, scratch, *old(f)),
        local.0 < body.locals@.len(),
    ensures
        continues(*old(f), *final(f)),
        final(f).code() == old(f).code() + drop_code(ctx, body, map, local),
{
    match body.locals[local.0] {
        Some(t) => {
            match release_call(ctx.rt, ctx.layouts.types[t.0].ownership) {
                Some(target) => {
                    let l = map.get(local.0);
                    call_if_present(f, target, l);
                },
                None => {},
            }
        },
        None => {},
    }
    assert(f.code() =~= old(f).code() + drop_code(ctx, body, map, local));
}

/// `MakeUnique`: a unique copy of a shared list or bytes value (null stays
/// null); other values are used as they are.
fn lower_make_unique(f: &mut Builder, ctx: &LowerCtx, vals: &Values, value: ValueId, operand: ValueId, ty: TypeId)
    requires
        open_for_code(*old(f)),
        vals.locals_below(old(f).nlocals()),
        known(ctx.layouts, ty),
        vals.has(operand),
    ensures
        continues(*old(f), *final(f)),
        final(f).code() == old(f).code() + make_unique_code(ctx, vals, value, operand, ty),
{
    let target = match ctx.layouts.types[ty.0].ownership {
        OwnershipKind::RcList => Some(ctx.rt.list_make_unique),
        OwnershipKind::RcBytes => Some(ctx.rt.bytes_make_unique),
        _ => None,
    };
    match target {
        Some(t) => {
            get(f, vals, operand);
            f.push(Ins::If(BlockTy::Result(ValTy::I32)));
            get(f, vals, operand);
            f.push(Ins::Call(t));
            f.push(Ins::Else);
            f.push(Ins::I32Const(0));
            f.push(Ins::End);
            assert(f.frames() =~= old(f).frames());
        },
        None => get(f, vals, operand),
    }
    set(f, vals, value);
    assert(f.code() =~= old(f).code() + make_unique_code(ctx, vals, value, operand, ty));
}

/// The result layout of the MIR type recorded for `v`, if any.
pub open spec fn value_result(ctx: &LowerCtx, vals: &Values, v: ValueId) -> Option<crate::wasm::mir::ResultLayout> {
    match vals.mir_of(v) {
        Some(t) => if t.0 < ctx.layouts.shapes@.len() { ctx.layouts.shapes@[t.0 as int].result } else { None },
        None => None,
    }
}

/// The result layout recorded for the MIR type of `v`, if any.
fn result_of_value(ctx: &LowerCtx, vals: &Values, v: ValueId) -> (r: Option<crate::wasm::mir::ResultLayout>)
    requires
        ctx.wf(),
        vals.unique(),
        vals.types_known(ctx.layouts),
    ensures
        r == value_result(ctx, vals, v),
        r matches Some(l) ==> known(ctx.layouts, l.ok) && known(ctx.layouts, l.err),
{
    match vals.mir_type(v) {
        Some(t) => {
            if t.0 < ctx.layouts.shapes.len() {
                let r = ctx.layouts.shapes[t.0].result;
                proof {
                    assert(shape_closed(ctx.layouts, ctx.layouts.shapes@[t.0 as int]));
                }
                r
            } else {
                None
            }
        },
        None => None,
    }
}

/// `ResultPayload`: the address of the ok or err payload of the result,
/// loaded unless it is an aggregate. Fails when the source's MIR type has
/// no result layout.
/// The code that reads the `ok` (or error) payload of the result at
/// `source`: its address, loaded unless it is an aggregate, into the value.
pub open spec fn result_payload_code(ctx: &LowerCtx, vals: &Values, value: ValueId, source: ValueId, ok: bool) -> Seq<Ins> {
    let l = value_result(ctx, vals, source)->0;
    let (offset, payload_ty) = if ok { (l.ok_offset, l.ok) } else { (l.err_offset, l.err) };
    seq![Ins::LocalGet(vals.slot(source).local), Ins::I32Const(offset as i32), Ins::I32Add]
        + load_unless_aggregate_code(ctx, payload_ty) + set_code(vals, value)
}

fn lower_result_payload(f: &mut Builder, ctx: &LowerCtx, vals: &Values, value: ValueId, source: ValueId, ok: bool) -> (r: Result<(), CodegenError>)
    requires
        open_for_code(*old(f)),
        vals.locals_below(old(f).nlocals()),
        vals.types_known(ctx.layouts),
        ctx.wf(),
        vals.has(source),
    ensures
        continues(*old(f), *final(f)),
        r is Ok <==> value_result(ctx, vals, source) is Some,
        r is Ok ==> final(f).code() == old(f).code() + result_payload_code(ctx, vals, value, source, ok),
        r matches Err(e) ==> e is Backend,
        r matches Err(CodegenError::Backend(m)) ==> m@ == "wasm backend: result payload without a known result type"@,
        r is Err ==> final(f).code() == old(f).code(),
{
    match result_of_value(ctx, vals, source) {
        Some(result) => {
            let (offset, payload_ty) = if ok { (result.ok_offset, result.ok) } else { (result.err_offset, result.err) };
            let ghost start = f.code();
            get(f, vals, source);
            emit(f, Ins::I32Const(offset as i32));
            emit(f, Ins::I32Add);
            load_unless_aggregate(f, ctx, payload_ty);
            set(f, vals, value);
            assert(f.code() =~= start + result_payload_code(ctx, vals, value, source, ok));
            Ok(())
        },
        None => Err(CodegenError::Backend(String::from_str("wasm backend: result payload without a known result type"))),
    }
}

/// `ResultState`: whether the result's tag word is the ok (0) or err (1)
/// tag, read at pointer width.
fn lower_result_state(f: &mut Builder, ctx: &LowerCtx, vals: &Values, result: ValueId, value: ValueId, ok: bool)
    requires
        open_for_code(*old(f)),
        vals.locals_below(old(f).nlocals()),
        vals.has(value),
    ensures
        continues(*old(f), *final(f)),
        final(f).code() == old(f).code() + result_state_code(ctx, vals, result, value, ok),
{
    get(f, vals, value);
    if ctx.layouts.pointer_size == 4 {
        emit(f, Ins::I32Load(memarg(0)));
        emit(f, Ins::I32Const(if ok { 0 } else { 1 }));
        emit(f, Ins::I32Eq);
    } else {
        emit(f, Ins::I64Load(memarg(0)));
        emit(f, Ins::I64Const(if ok { 0 } else { 1 }));
        emit(f, Ins::I64Eq);
    }
    set(f, vals, result);
    assert(f.code() =~= old(f).code() + result_state_code(ctx, vals, result, value, ok));
}

/// Stores the result tag for `ok` (0 for ok, 1 for err) at `tag_offset` of
/// the allocation in `scratch`, at pointer width.
fn store_result_tag(f: &mut Builder, ctx: &LowerCtx, scratch: u32, tag_offset: u64, ok: bool)
    requires
        open_for_code(*old(f)),
        scratch < old(f).nlocals(),
    ensures
        continues(*old(f), *final(f)),
        final(f).code() == old(f).code() + result_tag_code(ctx, scratch, tag_offset, ok),
{
    f.push(Ins::LocalGet(scratch));
    if ctx.layouts.pointer_size == 4 {
        emit(f, Ins::I32Const(if ok { 0 } else { 1 }));
        emit(f, Ins::I32Store(memarg(tag_offset as i64)));
    } else {
        emit(f, Ins::I64Const(if ok { 0 } else { 1 }));
        emit(f, Ins::I64Store(memarg(tag_offset as i64)));
    }
    assert(f.code() =~= old(f).code() + result_tag_code(ctx, scratch, tag_offset, ok));
}

/// `ConstructResult`: a fresh result block with its tag and, unless empty,
/// its payload.
#[verifier::spinoff_prover]
#[verifier::rlimit(80)]
fn lower_construct_result(f: &mut Builder, ctx: &LowerCtx, vals: &Values, scratch: u32, value: ValueId, ty: TypeId, ok: bool, payload: ValueId)
    requires
        open_for_code(*old(f)),
        vals.locals_below(old(f).nlocals()),
        scratch < old(f).nlocals(),
        ctx.wf(),
        known(ctx.layouts, ty),
        vals.has(payload),
    ensures
        continues(*old(f), *final(f)),
        final(f).code() == old(f).code() + construct_result_code(ctx, vals, scratch, value, ty, ok, payload),
{
    let size = size_at_least_one(ctx.layouts, ty);
    alloc_to_scratch(f, ctx, scratch, size);
    proof {
        assert(shape_closed(ctx.layouts, ctx.layouts.shapes@[ty.0 as int]));
    }
    match ctx.layouts.shapes[ty.0].result {
        Some(result) => {
            let (offset, payload_ty) = if ok { (result.ok_offset, result.ok) } else { (result.err_offset, result.err) };
            store_result_tag(f, ctx, scratch, result.tag_offset, ok);
            if ctx.layouts.shapes[payload_ty.0].aggregate || ctx.layouts.types[payload_ty.0].size != 0 {
                scratch_plus(f, scratch, offset);
                store_into(f, ctx, vals, payload, payload_ty);
            }
        },
        None => {},
    }
    f.push(Ins::LocalGet(scratch));
    set(f, vals, value);
    assert(f.code() =~= old(f).code() + construct_result_code(ctx, vals, scratch, value, ty, ok, payload));
}

/// `ConstNull`: a fresh optional block with a clear presence word when the
/// optional's payload is stored inline, else a null handle.
fn lower_const_null(f: &mut Builder, ctx: &LowerCtx, vals: &Values, scratch: u32, value: ValueId, ty: Option<TypeId>)
    requires
        open_for_code(*old(f)),
        vals.locals_below(old(f).nlocals()),
        scratch < old(f).nlocals(),
        ctx.wf(),
        opt_known(ctx.layouts, ty),
    ensures
        continues(*old(f), *final(f)),
        final(f).code() == old(f).code() + const_null_code(ctx, vals, scratch, value, ty),
{
    let tagged = match ty {
        Some(t) => {
            proof {
                assert(shape_closed(ctx.layouts, ctx.layouts.shapes@[t.0 as int]));
            }
            match ctx.layouts.shapes[t.0].optional_inner {
                Some(inner) => !is_managed_handle(ctx.layouts, inner),
                None => false,
            }
        },
        None => false,
    };
    if tagged {
        let opt_ty = ty.unwrap();
        let size = size_at_least_one(ctx.layouts, opt_ty);
        alloc_to_scratch(f, ctx, scratch, size);
        f.push(Ins::LocalGet(scratch));
        emit(f, Ins::I64Const(0));
        emit(f, Ins::I64Store(memarg(0)));
    } else {
        emit(f, Ins::I32Const(0));
    }
    set(f, vals, value);
    assert(f.code() =~= old(f).code() + const_null_code(ctx, vals, scratch, value, ty));
}

/// Optionals of `inner` hold their payload after a presence word; the
/// offset arithmetic stays within `u64`.
pub open spec fn payload_offset_fits(layouts: &LayoutTable, inner: TypeId) -> bool {
    layouts.pointer_size + alignment_of(layouts, inner) <= u64::MAX
}

/// `OptionalWrap`: a managed handle is its own optional; anything else is
/// copied into a fresh block after a set presence word.
fn lower_optional_wrap(f: &mut Builder, ctx: &LowerCtx, vals: &Values, scratch: u32, value: ValueId, operand: ValueId, opt_ty: TypeId, inner: TypeId)
    requires
        open_for_code(*old(f)),
        vals.locals_below(old(f).nlocals()),
        scratch < old(f).nlocals(),
        ctx.wf(),
        known(ctx.layouts, opt_ty),
        known(ctx.layouts, inner),
        payload_offset_fits(ctx.layouts, inner),
        vals.has(operand),
    ensures
        continues(*old(f), *final(f)),
        final(f).code() == old(f).code() + optional_wrap_code(ctx, vals, scratch, value, operand, opt_ty, inner),
{
    if is_managed_handle(ctx.layouts, inner) {
        get(f, vals, operand);
    } else {
        let size = size_at_least_one(ctx.layouts, opt_ty);
        let payload_offset = optional_payload_offset(ctx.layouts, inner);
        alloc_to_scratch(f, ctx, scratch, size);
        f.push(Ins::LocalGet(scratch));
        emit(f, Ins::I64Const(1));
        emit(f, Ins::I64Store(memarg(0)));
        scratch_plus(f, scratch, payload_offset);
        get(f, vals, operand);
        if ctx.layouts.shapes[inner.0].aggregate {
            emit(f, Ins::I32Const(ctx.layouts.types[inner.0].size as i32));
            emit(f, Ins::MemoryCopy { src_mem: 0, dst_mem: 0 });
        } else {
            emit_store(f, ctx.layouts, inner, 0);
        }
        f.push(Ins::LocalGet(scratch));
    }
    set(f, vals, value);
    assert(f.code() =~= old(f).code() + optional_wrap_code(ctx, vals, scratch, value, operand, opt_ty, inner));
}

/// `OptionalUnwrap`: a managed handle is its own payload; otherwise the
/// payload's address, loaded unless it is an aggregate.
fn lower_optional_unwrap(f: &mut Builder, ctx: &LowerCtx, vals: &Values, value: ValueId, operand: ValueId, inner: TypeId)
    requires
        open_for_code(*old(f)),
        vals.locals_below(old(f).nlocals()),
        ctx.wf(),
        known(ctx.layouts, inner),
        payload_offset_fits(ctx.layouts, inner),
        vals.has(operand),
    ensures
        continues(*old(f), *final(f)),
        final(f).code() == old(f).code() + optional_unwrap_code(ctx, vals, value, operand, inner),
{
    if is_managed_handle(ctx.layouts, inner) {
        get(f, vals, operand);
    } else {
        let payload_offset = optional_payload_offset(ctx.layouts, inner);
        get(f, vals, operand);
        emit(f, Ins::I32Const(payload_offset as i32));
        emit(f, Ins::I32Add);
        load_unless_aggregate(f, ctx, inner);
    }
    set(f, vals, value);
    assert(f.code() =~= old(f).code() + optional_unwrap_code(ctx, vals, value, operand, inner));
}

/// `OptionalIsPresent`: a non-null handle, or a set presence word.
fn lower_optional_is_present(f: &mut Builder, ctx: &LowerCtx, vals: &Values, value: ValueId, operand: ValueId, inner: TypeId)
    requires
        open_for_code(*old(f)),
        vals.locals_below(old(f).nlocals()),
        known(ctx.layouts, inner),
        vals.has(operand),
    ensures
        continues(*old(f), *final(f)),
        final(f).code() == old(f).code() + optional_is_present_code(ctx, vals, value, operand, inner),
{
    get(f, vals, operand);
    if is_managed_handle(ctx.layouts, inner) {
        emit(f, Ins::I32Const(0));
        emit(f, Ins::I32Ne);
    } else {
        emit(f, Ins::I64Load(memarg(0)));
        emit(f, Ins::I64Const(0));
        emit(f, Ins::I64Ne);
    }
    set(f, vals, value);
    assert(f.code() =~= old(f).code() + optional_is_present_code(ctx, vals, value, operand, inner));
}

/// `OptionalFromValue`: an optional built from a presence flag and the
/// address of a payload.
fn lower_optional_from_value(f: &mut Builder, ctx: &LowerCtx, vals: &Values, scratch: u32, value: ValueId, present: ValueId, payload: ValueId, opt_ty: TypeId, inner: TypeId)
    requires
        open_for_code(*old(f)),
        vals.locals_below(old(f).nlocals()),
        scratch < old(f).nlocals(),
        ctx.wf(),
        known(ctx.layouts, opt_ty),
        known(ctx.layouts, inner),
        payload_offset_fits(ctx.layouts, inner),
        vals.has(present),
        vals.has(payload),
    ensures
        continues(*old(f), *final(f)),
        final(f).code() == old(f).code() + optional_from_value_code(ctx, vals, scratch, value, present, payload, opt_ty, inner),
{
    if is_managed_handle(ctx.layouts, inner) {
        get(f, vals, present);
        f.push(Ins::If(BlockTy::Result(ValTy::I32)));
        get(f, vals, payload);
        f.push(Ins::I32Load(memarg(0)));
        f.push(Ins::Else);
        f.push(Ins::I32Const(0));
        f.push(Ins::End);
        assert(f.frames() =~= old(f).frames());
    } else {
        let size = size_at_least_one(ctx.layouts, opt_ty);
        let payload_offset = optional_payload_offset(ctx.layouts, inner);
        alloc_to_scratch(f, ctx, scratch, size);
        f.push(Ins::LocalGet(scratch));
        emit(f, Ins::I64Const(0));
        emit(f, Ins::I64Store(memarg(0)));
        if ctx.layouts.shapes[inner.0].aggregate {
            scratch_plus(f, scratch, payload_offset);
            get(f, vals, payload);
            emit(f, Ins::I32Const(ctx.layouts.types[inner.0].size as i32));
            emit(f, Ins::MemoryCopy { src_mem: 0, dst_mem: 0 });
        } else if ctx.layouts.types[inner.0].size != 0 {
            scratch_plus(f, scratch, payload_offset);
            get(f, vals, payload);
            emit_load(f, ctx.layouts, inner, 0);
            emit_store(f, ctx.layouts, inner, 0);
        }
        f.push(Ins::LocalGet(scratch));
        get(f, vals, present);
        emit(f, Ins::I64ExtendI32U);
        emit(f, Ins::I64Store(memarg(0)));
        f.push(Ins::LocalGet(scratch));
    }
    set(f, vals, value);
    assert(f.code() =~= old(f).code() + optional_from_value_code(ctx, vals, scratch, value, present, payload, opt_ty, inner));
}

/// `a * b`, or `u64::MAX` when that overflows.
fn saturating_mul(a: u64, b: u64) -> (r: u64)
    ensures
        r == if a * b <= u64::MAX { a * b } else { u64::MAX as int },
{
    match a.checked_mul(b) {
        Some(p) => p,
        None => u64::MAX,
    }
}

/// Some field of `fields` is named `name`.
pub open spec fn has_field(fields: Seq<FieldLayout>, name: Seq<char>) -> bool {
    exists|i: int| 0 <= i < fields.len() && (#[trigger] fields[i]).name@ == name
}

/// The position of the first field named `name`, if any.
fn find_field(fields: &Vec<FieldLayout>, name: &str) -> (r: Option<usize>)
    ensures
        r is Some <==> has_field(fields@, name@),
        r matches Some(i) ==> i < fields@.len() && i == first_field(fields@, name@),
{
    let mut i: usize = 0;
    while i < fields.len()
        invariant
            i <= fields@.len(),
            forall|j: int| 0 <= j < i ==> (#[trigger] fields@[j]).name@ != name@,
        decreases fields@.len() - i,
    {
        if str_eq(fields[i].name.as_str(), name) {
            proof {
                let c = first_field(fields@, name@);
                assert(first_field_at(fields@, name@, i as int));
                assert(first_field_at(fields@, name@, c));
                if c < i as int {
                    assert(fields@[c].name@ != name@);
                } else if c > i as int {
                    assert(fields@[i as int].name@ != name@);
                }
            }
            return Some(i);
        }
        i = i + 1;
    }
    None
}

/// The field layouts of the type at `t`, when it is in the table and has them.
pub open spec fn fields_at(layouts: &LayoutTable, t: Option<TypeId>) -> Option<Vec<FieldLayout>> {
    match t {
        Some(ty) => if ty.0 < layouts.shapes@.len() { layouts.shapes@[ty.0 as int].fields } else { None },
        None => None,
    }
}

/// The MIR type of the local `local`, when it is one of the body's locals.
pub open spec fn local_type(body: &MirFunction, local: LocalId) -> Option<TypeId> {
    if local.0 < body.locals@.len() { body.locals@[local.0 as int] } else { None }
}

/// The field of `t` named `name`, as (offset, type).
fn field_of(ctx: &LowerCtx, t: Option<TypeId>, name: &str) -> (r: Option<(u64, TypeId)>)
    requires
        ctx.wf(),
    ensures
        r is Some <==> (fields_at(ctx.layouts, t) matches Some(fs) && has_field(fs@, name@)),
        r matches Some((_, ft)) ==> known(ctx.layouts, ft),
        r matches Some(p) ==> p == spec_field_of(ctx.layouts, t, name@),
{
    match t {
        Some(ty) => {
            if ty.0 < ctx.layouts.shapes.len() {
                proof {
                    assert(shape_closed(ctx.layouts, ctx.layouts.shapes@[ty.0 as int]));
                }
                match &ctx.layouts.shapes[ty.0].fields {
                    Some(fs) => match find_field(fs, name) {
                        Some(i) => Some((fs[i].offset, fs[i].ty)),
                        None => None,
                    },
                    None => None,
                }
            } else {
                None
            }
        },
        None => None,
    }
}

/// The error text for a field that the base type does not have.
fn unknown_field_text(name: &str) -> (r: String)
    ensures
        r@ == "wasm backend: unknown field `"@ + name@ + "`"@,
{
    let mut message = String::new();
    message.append("wasm backend: unknown field `");
    message.append(name);
    message.append("`");
    message
}

/// `ConstructArray`: a fresh block with each element stored at its stride.
fn lower_construct_array(f: &mut Builder, ctx: &LowerCtx, vals: &Values, scratch: u32, value: ValueId, ty: TypeId, elements: &Vec<ValueId>)
    requires
        open_for_code(*old(f)),
        vals.locals_below(old(f).nlocals()),
        scratch < old(f).nlocals(),
        ctx.wf(),
        known(ctx.layouts, ty),
        has_all(vals, elements@),
    ensures
        continues(*old(f), *final(f)),
        final(f).code() == old(f).code() + construct_array_code(ctx, vals, scratch, value, ty, elements@),
{
    let size = size_at_least_one(ctx.layouts, ty);
    alloc_to_scratch(f, ctx, scratch, size);
    proof {
        assert(shape_closed(ctx.layouts, ctx.layouts.shapes@[ty.0 as int]));
    }
    match ctx.layouts.shapes[ty.0].array {
        Some((elem, _)) => {
            let stride = ctx.layouts.types[elem.0].size;
            let ghost start = f.code();
            let mut index: usize = 0;
            while index < elements.len()
                invariant
                    continues(*old(f), *f),
                    open_for_code(*f),
                    vals.locals_below(f.nlocals()),
                    scratch < f.nlocals(),
                    ctx.wf(),
                    known(ctx.layouts, elem),
                    has_all(vals, elements@),
                    stride == ctx.layouts.types@[elem.0 as int].size,
                    index <= elements@.len(),
                    f.code() == start + element_stores(ctx, vals, scratch, elements@.take(index as int), elem, stride),
                decreases elements@.len() - index,
            {
                let offset = saturating_mul(index as u64, stride);
                scratch_plus(f, scratch, offset);
                store_into(f, ctx, vals, elements[index], elem);
                proof {
                    assert(elements@.take(index as int + 1).drop_last() =~= elements@.take(index as int));
                    assert(f.code() =~= start + element_stores(ctx, vals, scratch, elements@.take(index as int + 1), elem, stride));
                }
                index = index + 1;
            }
            assert(elements@.take(index as int) =~= elements@);
        },
        None => {},
    }
    f.push(Ins::LocalGet(scratch));
    set(f, vals, value);
    assert(f.code() =~= old(f).code() + construct_array_code(ctx, vals, scratch, value, ty, elements@));
}

/// `Construct`: a fresh block with each named field stored at its offset;
/// fields the layout does not name are skipped.
fn lower_construct(f: &mut Builder, ctx: &LowerCtx, vals: &Values, scratch: u32, value: ValueId, ty: TypeId, fields: &Vec<(String, ValueId)>)
    requires
        open_for_code(*old(f)),
        vals.locals_below(old(f).nlocals()),
        scratch < old(f).nlocals(),
        ctx.wf(),
        known(ctx.layouts, ty),
        forall|i: int| 0 <= i < fields@.len() ==> vals.has(#[trigger] fields@[i].1),
    ensures
        continues(*old(f), *final(f)),
        final(f).code() == old(f).code() + construct_code(ctx, vals, scratch, value, ty, fields@),
{
    let size = size_at_least_one(ctx.layouts, ty);
    alloc_to_scratch(f, ctx, scratch, size);
    let ghost start = f.code();
    let mut index: usize = 0;
    while index < fields.len()
        invariant
            continues(*old(f), *f),
            open_for_code(*f),
            vals.locals_below(f.nlocals()),
            scratch < f.nlocals(),
            ctx.wf(),
            known(ctx.layouts, ty),
            forall|i: int| 0 <= i < fields@.len() ==> vals.has(#[trigger] fields@[i].1),
            index <= fields@.len(),
            f.code() == start + field_stores(ctx, vals, scratch, ty, fields@.take(index as int)),
        decreases fields@.len() - index,
    {
        let (name, field_value) = (&fields[index].0, fields[index].1);
        proof {
            assert(fields@.take(index as int + 1).drop_last() =~= fields@.take(index as int));
            assert(fields@.take(index as int + 1).last() == fields@[index as int]);
        }
        match field_of(ctx, Some(ty), name.as_str()) {
            Some((offset, field_ty)) => {
                scratch_plus(f, scratch, offset);
                store_into(f, ctx, vals, field_value, field_ty);
            },
            None => {},
        }
        assert(f.code() =~= start + field_stores(ctx, vals, scratch, ty, fields@.take(index as int + 1)));
        index = index + 1;
    }
    assert(fields@.take(index as int) =~= fields@);
    f.push(Ins::LocalGet(scratch));
    set(f, vals, value);
    assert(f.code() =~= old(f).code() + construct_code(ctx, vals, scratch, value, ty, fields@));
}

/// `Field`: the address of the named field of the base aggregate, loaded
/// unless it is itself an aggregate. Fails for a field the base's MIR type
/// does not have.
/// The code that reads field `name` of the aggregate at `base`: its address,
/// loaded unless the field is an aggregate, into the value.
pub open spec fn field_code(ctx: &LowerCtx, vals: &Values, value: ValueId, base: ValueId, name: Seq<char>) -> Seq<Ins> {
    let (offset, field_ty) = spec_field_of(ctx.layouts, vals.mir_of(base), name);
    seq![Ins::LocalGet(vals.slot(base).local), Ins::I32Const(offset as i32), Ins::I32Add]
        + load_unless_aggregate_code(ctx, field_ty) + set_code(vals, value)
}

/// The code that stores `value` into field `name` of the aggregate in the
/// MIR local `base`.
pub open spec fn field_store_code(ctx: &LowerCtx, body: &MirFunction, map: &LocalMap, vals: &Values, base: LocalId, name: Seq<char>, value: ValueId) -> Seq<Ins> {
    let (offset, field_ty) = spec_field_of(ctx.layouts, local_type(body, base), name);
    seq![Ins::LocalGet(map.slots()[base.0 as int]), Ins::I32Const(offset as i32), Ins::I32Add]
        + store_into_code(ctx, vals, value, field_ty)
}

/// The code that takes the address of field `name` of the aggregate in the
/// MIR local `base` into the value.
pub open spec fn borrow_field_code(ctx: &LowerCtx, body: &MirFunction, map: &LocalMap, vals: &Values, value: ValueId, base: LocalId, name: Seq<char>) -> Seq<Ins> {
    let (offset, _) = spec_field_of(ctx.layouts, local_type(body, base), name);
    seq![Ins::LocalGet(map.slots()[base.0 as int]), Ins::I32Const(offset as i32), Ins::I32Add] + set_code(vals, value)
}

fn lower_field(f: &mut Builder, ctx: &LowerCtx, vals: &Values, value: ValueId, base: ValueId, name: &String) -> (r: Result<(), CodegenError>)
    requires
        open_for_code(*old(f)),
        vals.locals_below(old(f).nlocals()),
        ctx.wf(),
        vals.has(base),
    ensures
        continues(*old(f), *final(f)),
        r is Ok <==> (fields_at(ctx.layouts, vals.mir_of(base)) matches Some(fs) && has_field(fs@, name@)),
        r is Ok ==> final(f).code() == old(f).code() + field_code(ctx, vals, value, base, name@),
        r matches Err(e) ==> e is Backend,
        r matches Err(CodegenError::Backend(m)) ==> m@ == "wasm backend: unknown field `"@ + name@ + "`"@,
        r is Err ==> final(f).code() == old(f).code(),
{
    let base_ty = vals.mir_type(base);
    match field_of(ctx, base_ty, name.as_str()) {
        Some((offset, field_ty)) => {
            let ghost start = f.code();
            get(f, vals, base);
            emit(f, Ins::I32Const(offset as i32));
            emit(f, Ins::I32Add);
            load_unless_aggregate(f, ctx, field_ty);
            set(f, vals, value);
            assert(f.code() =~= start + field_code(ctx, vals, value, base, name@));
            Ok(())
        },
        None => Err(CodegenError::Backend(unknown_field_text(name.as_str()))),
    }
}

/// `FieldStore`: the value stored into the named field of the aggregate in
/// a local. Fails for a field the local's type does not have.
fn lower_field_store(f: &mut Builder, ctx: &LowerCtx, body: &MirFunction, map: &LocalMap, vals: &Values, scratch: u32, base: LocalId, name: &String, value: ValueId) -> (r: Result<(), CodegenError>)
    requires
        env(ctx, body, map, vals, scratch, *old(f)),
        base.0 < body.locals@.len(),
        vals.has(value),
    ensures
        continues(*old(f), *final(f)),
        r is Ok <==> (fields_at(ctx.layouts, local_type(body, base)) matches Some(fs) && has_field(fs@, name@)),
        r is Ok ==> final(f).code() == old(f).code() + field_store_code(ctx, body, map, vals, base, name@, value),
        r matches Err(e) ==> e is Backend,
        r matches Err(CodegenError::Backend(m)) ==> m@ == "wasm backend: unknown field `"@ + name@ + "`"@,
        r is Err ==> final(f).code() == old(f).code(),
{
    match field_of(ctx, body.locals[base.0], name.as_str()) {
        Some((offset, field_ty)) => {
            let ghost start = f.code();
            get_local(f, map, base);
            emit(f, Ins::I32Const(offset as i32));
            emit(f, Ins::I32Add);
            store_into(f, ctx, vals, value, field_ty);
            assert(f.code() =~= start + field_store_code(ctx, body, map, vals, base, name@, value));
            Ok(())
        },
        None => Err(CodegenError::Backend(unknown_field_text(name.as_str()))),
    }
}

/// `BorrowField`: the address of the named field of the aggregate in a
/// local. Fails for a field the local's type does not have.
fn lower_borrow_field(f: &mut Builder, ctx: &LowerCtx, body: &MirFunction, map: &LocalMap, vals: &Values, scratch: u32, value: ValueId, base: LocalId, name: &String) -> (r: Result<(), CodegenError>)
    requires
        env(ctx, body, map, vals, scratch, *old(f)),
        base.0 < body.locals@.len(),
    ensures
        continues(*old(f), *final(f)),
        r is Ok <==> (fields_at(ctx.layouts, local_type(body, base)) matches Some(fs) && has_field(fs@, name@)),
        r is Ok ==> final(f).code() == old(f).code() + borrow_field_code(ctx, body, map, vals, value, base, name@),
        r matches Err(e) ==> e is Backend,
        r matches Err(CodegenError::Backend(m)) ==> m@ == "wasm backend: unknown field `"@ + name@ + "`"@,
        r is Err ==> final(f).code() == old(f).code(),
{
    match field_of(ctx, body.locals[base.0], name.as_str()) {
        Some((offset, _)) => {
            let ghost start = f.code();
            get_local(f, map, base);
            emit(f, Ins::I32Const(offset as i32));
            emit(f, Ins::I32Add);
            set(f, vals, value);
            assert(f.code() =~= start + borrow_field_code(ctx, body, map, vals, value, base, name@));
            Ok(())
        },
        None => Err(CodegenError::Backend(unknown_field_text(name.as_str()))),
    }
}

/// `CopyAggregate`: a fresh block holding a byte copy of the source.
fn lower_copy_aggregate(f: &mut Builder, ctx: &LowerCtx, vals: &Values, scratch: u32, value: ValueId, source: ValueId, ty: TypeId)
    requires
        open_for_code(*old(f)),
        vals.locals_below(old(f).nlocals()),
        scratch < old(f).nlocals(),
        known(ctx.layouts, ty),
        vals.has(source),
    ensures
        continues(*old(f), *final(f)),
        final(f).code() == old(f).code() + copy_aggregate_code(ctx, vals, scratch, value, source, ty),
{
    let size = size_at_least_one(ctx.layouts, ty);
    alloc_to_scratch(f, ctx, scratch, size);
    f.push(Ins::LocalGet(scratch));
    get(f, vals, source);
    emit(f, Ins::I32Const(size as i32));
    emit(f, Ins::MemoryCopy { src_mem: 0, dst_mem: 0 });
    f.push(Ins::LocalGet(scratch));
    set(f, vals, value);
    assert(f.code() =~= old(f).code() + copy_aggregate_code(ctx, vals, scratch, value, source, ty));
}

/// The enum layout of the type at `ty`, when it is in the table and has one.
pub open spec fn enum_at(layouts: &LayoutTable, ty: TypeId) -> Option<EnumLayout> {
    if ty.0 < layouts.shapes@.len() { layouts.shapes@[ty.0 as int].enum_layout } else { None }
}

/// `EnumTag`: the tag read at its width (8 bytes when the layout is
/// unknown), widened to `i64`.
fn lower_enum_tag(f: &mut Builder, ctx: &LowerCtx, vals: &Values, result: ValueId, value: ValueId, ty: TypeId)
    requires
        open_for_code(*old(f)),
        vals.locals_below(old(f).nlocals()),
        vals.has(value),
    ensures
        continues(*old(f), *final(f)),
        final(f).code() == old(f).code() + enum_tag_code(ctx, vals, result, value, ty),
{
    let (tag, tag_size): (u64, u64) = if ty.0 < ctx.layouts.shapes.len() {
        match &ctx.layouts.shapes[ty.0].enum_layout {
            Some(layout) => (layout.tag_offset, layout.tag_size),
            None => (0, 8),
        }
    } else {
        (0, 8)
    };
    get(f, vals, value);
    let arg = memarg(tag as i64);
    if tag_size == 1 {
        emit(f, Ins::I32Load8U(arg));
    } else if tag_size == 2 {
        emit(f, Ins::I32Load16U(arg));
    } else if tag_size == 4 {
        emit(f, Ins::I32Load(arg));
    } else {
        emit(f, Ins::I64Load(arg));
    }
    if tag_size < 8 {
        emit(f, Ins::I64ExtendI32U);
    }
    set(f, vals, result);
    assert(f.code() =~= old(f).code() + enum_tag_code(ctx, vals, result, value, ty));
}

/// `ConstructEnum`: a fresh block with the variant's tag and payload fields.
fn lower_construct_enum(f: &mut Builder, ctx: &LowerCtx, vals: &Values, scratch: u32, value: ValueId, ty: TypeId, variant_index: usize, payload: &Vec<ValueId>)
    requires
        open_for_code(*old(f)),
        vals.locals_below(old(f).nlocals()),
        scratch < old(f).nlocals(),
        ctx.wf(),
        known(ctx.layouts, ty),
        has_all(vals, payload@),
    ensures
        continues(*old(f), *final(f)),
        final(f).code() == old(f).code() + construct_enum_code(ctx, vals, scratch, value, ty, variant_index, payload@),
{
    let size = size_at_least_one(ctx.layouts, ty);
    alloc_to_scratch(f, ctx, scratch, size);
    proof {
        assert(shape_closed(ctx.layouts, ctx.layouts.shapes@[ty.0 as int]));
    }
    match &ctx.layouts.shapes[ty.0].enum_layout {
        Some(layout) => {
            f.push(Ins::LocalGet(scratch));
            let arg = memarg(layout.tag_offset as i64);
            if layout.tag_size == 1 {
                emit(f, Ins::I32Const(variant_index as i32));
                emit(f, Ins::I32Store8(arg));
            } else if layout.tag_size == 2 {
                emit(f, Ins::I32Const(variant_index as i32));
                emit(f, Ins::I32Store16(arg));
            } else if layout.tag_size == 4 {
                emit(f, Ins::I32Const(variant_index as i32));
                emit(f, Ins::I32Store(arg));
            } else {
                emit(f, Ins::I64Const(variant_index as i64));
                emit(f, Ins::I64Store(arg));
            }
            if variant_index < layout.variants.len() {
                let fields = &layout.variants[variant_index].fields;
                let ghost start = f.code();
                let ghost n = if fields@.len() <= payload@.len() { fields@.len() } else { payload@.len() };
                let mut k: usize = 0;
                while k < fields.len() && k < payload.len()
                    invariant
                        continues(*old(f), *f),
                        open_for_code(*f),
                        vals.locals_below(f.nlocals()),
                        scratch < f.nlocals(),
                        ctx.wf(),
                        has_all(vals, payload@),
                        forall|i: int| 0 <= i < fields@.len() ==> known(ctx.layouts, #[trigger] fields@[i].ty),
                        k <= n,
                        n == if fields@.len() <= payload@.len() { fields@.len() } else { payload@.len() },
                        f.code() == start + payload_stores(ctx, vals, scratch, fields@, payload@, k as int),
                    decreases fields@.len() - k,
                {
                    scratch_plus(f, scratch, fields[k].offset);
                    store_into(f, ctx, vals, payload[k], fields[k].ty);
                    assert(f.code() =~= start + payload_stores(ctx, vals, scratch, fields@, payload@, k as int + 1));
                    k = k + 1;
                }
            }
        },
        None => {},
    }
    f.push(Ins::LocalGet(scratch));
    set(f, vals, value);
    assert(f.code() =~= old(f).code() + construct_enum_code(ctx, vals, scratch, value, ty, variant_index, payload@));
}

/// The payload field `field_index` of variant `variant_index` of the enum
/// at `ty` exists.
pub open spec fn has_enum_field(layouts: &LayoutTable, ty: TypeId, variant_index: usize, field_index: usize) -> bool {
    enum_at(layouts, ty) matches Some(e) && variant_index < e.variants@.len()
        && field_index < e.variants@[variant_index as int].fields@.len()
}

/// `EnumPayload`: the address of one payload field, loaded unless it is an
/// aggregate. Fails when the enum has no such variant field.
/// The code that reads field `field_index` of variant `variant_index` of the
/// enum at `source`: its address, loaded unless it is an aggregate, into the
/// value.
pub open spec fn enum_payload_code(ctx: &LowerCtx, vals: &Values, value: ValueId, source: ValueId, ty: TypeId, variant_index: usize, field_index: usize) -> Seq<Ins> {
    let field = enum_at(ctx.layouts, ty)->0.variants@[variant_index as int].fields@[field_index as int];
    seq![Ins::LocalGet(vals.slot(source).local), Ins::I32Const(field.offset as i32), Ins::I32Add]
        + load_unless_aggregate_code(ctx, field.ty) + set_code(vals, value)
}

fn lower_enum_payload(f: &mut Builder, ctx: &LowerCtx, vals: &Values, value: ValueId, source: ValueId, ty: TypeId, variant_index: usize, field_index: usize) -> (r: Result<(), CodegenError>)
    requires
        open_for_code(*old(f)),
        vals.locals_below(old(f).nlocals()),
        ctx.wf(),
        vals.has(source),
    ensures
        continues(*old(f), *final(f)),
        r is Ok <==> has_enum_field(ctx.layouts, ty, variant_index, field_index),
        r is Ok ==> final(f).code() == old(f).code() + enum_payload_code(ctx, vals, value, source, ty, variant_index, field_index),
        r matches Err(e) ==> e is Backend,
        r matches Err(CodegenError::Backend(m)) ==> m@ == "wasm backend: unknown enum payload"@,
        r is Err ==> final(f).code() == old(f).code(),
{
    if ty.0 < ctx.layouts.shapes.len() {
        proof {
            assert(shape_closed(ctx.layouts, ctx.layouts.shapes@[ty.0 as int]));
        }
        match &ctx.layouts.shapes[ty.0].enum_layout {
            Some(layout) => {
                if variant_index < layout.variants.len() && field_index < layout.variants[variant_index].fields.len() {
                    let field = &layout.variants[variant_index].fields[field_index];
                    let ghost start = f.code();
                    get(f, vals, source);
                    emit(f, Ins::I32Const(field.offset as i32));
                    emit(f, Ins::I32Add);
                    load_unless_aggregate(f, ctx, field.ty);
                    set(f, vals, value);
                    assert(f.code() =~= start + enum_payload_code(ctx, vals, value, source, ty, variant_index, field_index));
                    return Ok(());
                }
            },
            None => {},
        }
    }
    Err(CodegenError::Backend(String::from_str("wasm backend: unknown enum payload")))
}

/// `IteratorInit`: a 24-byte iterator record of data address, current
/// position 0, length and stride. A list iterates its element buffer; the
/// length is the instruction's, else the list's or array's, else 0.
#[verifier::spinoff_prover]
#[verifier::rlimit(80)]
fn lower_iterator_init(f: &mut Builder, ctx: &LowerCtx, vals: &Values, scratch: u32, iterator: ValueId, iterable: ValueId, length: Option<u64>, stride: Option<u64>)
    requires
        open_for_code(*old(f)),
        vals.locals_below(old(f).nlocals()),
        vals.types_known(ctx.layouts),
        scratch < old(f).nlocals(),
        ctx.wf(),
        vals.has(iterable),
    ensures
        continues(*old(f), *final(f)),
        final(f).code() == old(f).code() + iterator_init_code(ctx, vals, scratch, iterator, iterable, length, stride),
{
    let stride_value: i32 = match stride {
        Some(s) => s as i32,
        None => 8,
    };
    let iterable_ty = vals.mir_type(iterable);
    let (is_list, array) = match iterable_ty {
        Some(t) => (ctx.layouts.shapes[t.0].list_element.is_some(), ctx.layouts.shapes[t.0].array),
        None => (false, None),
    };
    emit(f, Ins::I32Const(24));
    emit(f, Ins::Call(ctx.rt.alloc));
    f.push(Ins::LocalSet(scratch));
    // data
    f.push(Ins::LocalGet(scratch));
    get(f, vals, iterable);
    if is_list {
        emit(f, Ins::I32Load(memarg(12)));
    }
    emit(f, Ins::I32Store(memarg(0)));
    // current = 0
    f.push(Ins::LocalGet(scratch));
    emit(f, Ins::I32Const(0));
    emit(f, Ins::I32Store(memarg(4)));
    // length
    f.push(Ins::LocalGet(scratch));
    match length {
        Some(n) => emit(f, Ins::I32Const(n as i32)),
        None => {
            if is_list {
                get(f, vals, iterable);
                emit(f, Ins::I32Load(memarg(0)));
            } else {
                match array {
                    Some((_, len)) => emit(f, Ins::I32Const(len as i32)),
                    None => emit(f, Ins::I32Const(0)),
                }
            }
        },
    }
    emit(f, Ins::I32Store(memarg(8)));
    // stride
    f.push(Ins::LocalGet(scratch));
    emit(f, Ins::I32Const(stride_value));
    emit(f, Ins::I32Store(memarg(12)));
    f.push(Ins::LocalGet(scratch));
    set(f, vals, iterator);
    assert(f.code() =~= old(f).code() + iterator_init_code(ctx, vals, scratch, iterator, iterable, length, stride));
}

/// `IteratorNext`: when the position is below the length, yields the
/// element at it (loaded unless it is a handle or aggregate) with its index
/// and advances; otherwise clears the flag, index and element.
/// The present case of `IteratorNext`, inside the `if`.
#[verifier::spinoff_prover]
#[verifier::rlimit(100)]
fn iterator_present(f: &mut Builder, ctx: &LowerCtx, vals: &Values, scratch: u32, has_value: ValueId, element_value: ValueId, index: ValueId, iterator: ValueId, element_type: TypeId)
    requires
        open_for_code(*old(f)),
        vals.locals_below(old(f).nlocals()),
        scratch < old(f).nlocals(),
        ctx.wf(),
        known(ctx.layouts, element_type),
        vals.has(iterator),
    ensures
        continues(*old(f), *final(f)),
        final(f).frames() == old(f).frames(),
        final(f).code() == old(f).code() + iterator_present_code(ctx, vals, scratch, has_value, element_value, index, iterator, element_type),
{
    let ghost c0 = f.code();
    let ghost it = Ins::LocalGet(vals.slot(iterator).local);
    emit(f, Ins::I32Const(1));
    set(f, vals, has_value);
    let ghost t1 = seq![Ins::I32Const(1)] + set_code(vals, has_value);
    assert(f.code() =~= c0 + t1);
    let ghost c1 = f.code();
    get(f, vals, iterator);
    emit(f, Ins::I32Load(memarg(4)));
    emit(f, Ins::I64ExtendI32U);
    set(f, vals, index);
    let ghost t2 = t1 + seq![it, Ins::I32Load(spec_memarg(4)), Ins::I64ExtendI32U] + set_code(vals, index);
    assert(f.code() =~= c0 + t2);
    get(f, vals, iterator);
    emit(f, Ins::I32Load(memarg(0)));
    f.push(Ins::LocalGet(scratch));
    get(f, vals, iterator);
    emit(f, Ins::I32Load(memarg(12)));
    emit(f, Ins::I32Mul);
    emit(f, Ins::I32Add);
    if !is_managed_handle(ctx.layouts, element_type) && !ctx.layouts.shapes[element_type.0].aggregate {
        emit_load(f, ctx.layouts, element_type, 0);
    }
    set(f, vals, element_value);
    let ghost load = if !spec_is_managed_handle(ctx.layouts, element_type) && !ctx.layouts.shapes@[element_type.0 as int].aggregate {
        seq![spec_load_instruction(ctx.layouts, element_type, 0)]
    } else {
        Seq::empty()
    };
    let ghost t3 = t2 + (seq![
        it,
        Ins::I32Load(spec_memarg(0)),
        Ins::LocalGet(scratch),
        it,
        Ins::I32Load(spec_memarg(12)),
        Ins::I32Mul,
        Ins::I32Add,
    ] + load) + set_code(vals, element_value);
    assert(f.code() =~= c0 + t3);
    get(f, vals, iterator);
    get(f, vals, iterator);
    emit(f, Ins::I32Load(memarg(4)));
    emit(f, Ins::I32Const(1));
    emit(f, Ins::I32Add);
    emit(f, Ins::I32Store(memarg(4)));
    assert(f.code() =~= old(f).code() + iterator_present_code(ctx, vals, scratch, has_value, element_value, index, iterator, element_type));
}

/// The exhausted case of `IteratorNext`, inside the `else`.
fn iterator_absent(f: &mut Builder, ctx: &LowerCtx, vals: &Values, has_value: ValueId, element_value: ValueId, index: ValueId, element_type: TypeId)
    requires
        open_for_code(*old(f)),
        vals.locals_below(old(f).nlocals()),
        ctx.wf(),
        known(ctx.layouts, element_type),
    ensures
        continues(*old(f), *final(f)),
        final(f).frames() == old(f).frames(),
        final(f).code() == old(f).code() + iterator_absent_code(ctx, vals, has_value, element_value, index, element_type),
{
    let ghost c0 = f.code();
    emit(f, Ins::I32Const(0));
    set(f, vals, has_value);
    let ghost t1 = seq![Ins::I32Const(0)] + set_code(vals, has_value);
    assert(f.code() =~= c0 + t1);
    emit(f, Ins::I64Const(0));
    set(f, vals, index);
    let ghost t2 = t1 + seq![Ins::I64Const(0)] + set_code(vals, index);
    assert(f.code() =~= c0 + t2);
    let ty = valtype(ctx.layouts, element_type);
    default_value(f, ty);
    set(f, vals, element_value);
    assert(f.code() =~= old(f).code() + iterator_absent_code(ctx, vals, has_value, element_value, index, element_type));
}

#[verifier::spinoff_prover]
fn lower_iterator_next(f: &mut Builder, ctx: &LowerCtx, vals: &Values, scratch: u32, has_value: ValueId, element_value: ValueId, index: ValueId, iterator: ValueId, element_type: TypeId)
    requires
        open_for_code(*old(f)),
        vals.locals_below(old(f).nlocals()),
        scratch < old(f).nlocals(),
        ctx.wf(),
        known(ctx.layouts, element_type),
        vals.has(iterator),
    ensures
        continues(*old(f), *final(f)),
        final(f).code() == old(f).code() + iterator_next_code(ctx, vals, scratch, has_value, element_value, index, iterator, element_type),
{
    let ghost it = Ins::LocalGet(vals.slot(iterator).local);
    get(f, vals, iterator);
    emit(f, Ins::I32Load(memarg(4)));
    f.push(Ins::LocalSet(scratch));
    f.push(Ins::LocalGet(scratch));
    get(f, vals, iterator);
    emit(f, Ins::I32Load(memarg(8)));
    emit(f, Ins::I32LtU);
    f.push(Ins::If(BlockTy::Empty));
    let ghost head = seq![
        it,
        Ins::I32Load(spec_memarg(4)),
        Ins::LocalSet(scratch),
        Ins::LocalGet(scratch),
        it,
        Ins::I32Load(spec_memarg(8)),
        Ins::I32LtU,
        Ins::If(BlockTy::Empty),
    ];
    assert(f.code() =~= old(f).code() + head);
    let ghost c1 = f.code();
    iterator_present(f, ctx, vals, scratch, has_value, element_value, index, iterator, element_type);
    let ghost c2 = f.code();
    f.push(Ins::Else);
    iterator_absent(f, ctx, vals, has_value, element_value, index, element_type);
    let ghost c3 = f.code();
    f.push(Ins::End);
    assert(f.frames() =~= old(f).frames());
    assert(f.code() =~= old(f).code() + iterator_next_code(ctx, vals, scratch, has_value, element_value, index, iterator, element_type));
}

/// `ConstructVariadicBuffer`: a fresh buffer with each element at its
/// stride (the element size, at least 1).
fn lower_variadic_buffer(f: &mut Builder, ctx: &LowerCtx, vals: &Values, scratch: u32, value: ValueId, element: TypeId, elements: &Vec<ValueId>)
    requires
        open_for_code(*old(f)),
        vals.locals_below(old(f).nlocals()),
        scratch < old(f).nlocals(),
        ctx.wf(),
        known(ctx.layouts, element),
        has_all(vals, elements@),
    ensures
        continues(*old(f), *final(f)),
        final(f).code() == old(f).code() + variadic_buffer_code(ctx, vals, scratch, value, element, elements@),
{
    let stride = size_at_least_one(ctx.layouts, element);
    let total = saturating_mul(stride, elements.len() as u64);
    let size: u64 = if total >= 1 { total } else { 1 };
    emit(f, Ins::I32Const(size as i32));
    emit(f, Ins::Call(ctx.rt.alloc));
    f.push(Ins::LocalSet(scratch));
    let ghost start = f.code();
    let mut index: usize = 0;
    while index < elements.len()
        invariant
            continues(*old(f), *f),
            open_for_code(*f),
            vals.locals_below(f.nlocals()),
            scratch < f.nlocals(),
            ctx.wf(),
            known(ctx.layouts, element),
            has_all(vals, elements@),
            stride == spec_size_at_least_one(ctx.layouts, element),
            index <= elements@.len(),
            f.code() == start + variadic_stores(ctx, vals, scratch, element, elements@.take(index as int)),
        decreases elements@.len() - index,
    {
        proof {
            assert(elements@.take(index as int + 1).drop_last() =~= elements@.take(index as int));
        }
        let offset = saturating_mul(index as u64, stride);
        scratch_plus(f, scratch, offset);
        let element_value = elements[index];
        get(f, vals, element_value);
        if ctx.layouts.shapes[element.0].aggregate {
            emit(f, Ins::I32Const(stride as i32));
            emit(f, Ins::MemoryCopy { src_mem: 0, dst_mem: 0 });
        } else {
            let to = valtype(ctx.layouts, element);
            emit_coerce(f, vals.value_type(element_value), to);
            emit_store(f, ctx.layouts, element, 0);
        }
        assert(f.code() =~= start + variadic_stores(ctx, vals, scratch, element, elements@.take(index as int + 1)));
        index = index + 1;
    }
    assert(elements@.take(index as int) =~= elements@);
    f.push(Ins::LocalGet(scratch));
    set(f, vals, value);
    assert(f.code() =~= old(f).code() + variadic_buffer_code(ctx, vals, scratch, value, element, elements@));
}

/// `VariadicAt`: the address of element `index` of the buffer, loaded
/// unless it is an aggregate.
fn lower_variadic_at(f: &mut Builder, ctx: &LowerCtx, vals: &Values, value: ValueId, data: ValueId, index: ValueId, element: TypeId)
    requires
        open_for_code(*old(f)),
        vals.locals_below(old(f).nlocals()),
        ctx.wf(),
        known(ctx.layouts, element),
        vals.has(data),
        vals.has(index),
    ensures
        continues(*old(f), *final(f)),
        final(f).code() == old(f).code() + variadic_at_code(ctx, vals, value, data, index, element),
{
    let stride = size_at_least_one(ctx.layouts, element);
    get(f, vals, data);
    get(f, vals, index);
    emit(f, Ins::I32WrapI64);
    emit(f, Ins::I32Const(stride as i32));
    emit(f, Ins::I32Mul);
    emit(f, Ins::I32Add);
    load_unless_aggregate(f, ctx, element);
    set(f, vals, value);
    assert(f.code() =~= old(f).code() + variadic_at_code(ctx, vals, value, data, index, element));
}

/// `v` can be read: it is a borrow, or it has a local.
pub open spec fn readable(vals: &Values, v: ValueId) -> bool {
    vals.borrowed(v) || vals.has(v)
}

/// The array shape (element type and length) of `v`'s MIR type, if any.
pub open spec fn spec_array_of(ctx: &LowerCtx, vals: &Values, v: ValueId) -> Option<(TypeId, u64)> {
    match vals.mir_of(v) {
        Some(t) => if t.0 < ctx.layouts.shapes@.len() { ctx.layouts.shapes@[t.0 as int].array } else { None },
        None => None,
    }
}

/// The target's pointer width in bits, as the numeric casts see it.
pub open spec fn spec_pointer_bits(layouts: &LayoutTable) -> u32 {
    if layouts.pointer_size <= u32::MAX {
        ((layouts.pointer_size % 0x2000_0000) * 8) as u32
    } else {
        64
    }
}

/// A runtime call can be lowered without a panic: it has the arguments its
/// builtin reads, every argument can be read, its result (if any) has a
/// local, and a numeric cast is between kinds the target can express.
pub open spec fn runtime_ready_with(
    layouts: &LayoutTable,
    has: spec_fn(ValueId) -> bool,
    can_read: spec_fn(ValueId) -> bool,
    value: Option<ValueId>,
    b: BuiltinFunction,
    arguments: Seq<ValueId>,
) -> bool {
    &&& arguments.len() >= builtin_arity(b)
    &&& forall|i: int| 0 <= i < arguments.len() ==> can_read(#[trigger] arguments[i])
    &&& (value matches Some(v) ==> has(v))
    &&& (b matches BuiltinFunction::NumericCast { from, to } ==> cast_defined(from, to, spec_pointer_bits(layouts)))
}

/// A runtime call can be lowered without a panic with the value table `vals`.
pub open spec fn runtime_ready(ctx: &LowerCtx, vals: &Values, value: Option<ValueId>, b: BuiltinFunction, arguments: Seq<ValueId>) -> bool {
    runtime_ready_with(ctx.layouts, |v: ValueId| vals.has(v), |v: ValueId| readable(vals, v), value, b, arguments)
}

/// A runtime call lowers: `bool` formatting needs the `true` and `false`
/// literals, array indexing needs the array's shape, and the builtin must be
/// one the backend lowers.
pub open spec fn runtime_lowers(ctx: &LowerCtx, vals: &Values, b: BuiltinFunction, arguments: Seq<ValueId>) -> bool {
    match b {
        BuiltinFunction::BoolToStr => has_string(ctx.strings@, "true"@) && has_string(ctx.strings@, "false"@),
        BuiltinFunction::ArrayAt | BuiltinFunction::ArrayAtUnchecked => spec_array_of(ctx, vals, arguments[0]) is Some,
        BuiltinFunction::Other { .. } => false,
        _ => true,
    }
}

/// The message a failing call of builtin `b` reports: a missing `true` or
/// `false` literal, an array without a known element type, or a builtin
/// that is not lowered.
pub open spec fn runtime_error(ctx: &LowerCtx, b: BuiltinFunction) -> Seq<char> {
    match b {
        BuiltinFunction::BoolToStr => if !has_string(ctx.strings@, "true"@) {
            "wasm backend: missing `true` literal"@
        } else {
            "wasm backend: missing `false` literal"@
        },
        BuiltinFunction::ArrayAt | BuiltinFunction::ArrayAtUnchecked => "wasm backend: array element"@,
        BuiltinFunction::Other { text } => "wasm backend: unsupported runtime call "@ + text@,
        _ => Seq::empty(),
    }
}

/// Pushes `local.get` of `v`: through its borrowed MIR local, else its own.
fn get_arg(f: &mut Builder, map: &LocalMap, vals: &Values, v: ValueId)
    requires
        open_for_code(*old(f)),
        readable(vals, v),
        vals.locals_below(old(f).nlocals()),
        vals.borrows_below(map.slots().len()),
        map_fits(map, old(f).nlocals()),
    ensures
        continues(*old(f), *final(f)),
        final(f).code() == old(f).code().push(Ins::LocalGet(vals.read_local(map, v))),
{
    match vals.borrow_of(v) {
        Some(l) => {
            let local = map.get(l.0);
            f.push(Ins::LocalGet(local));
        },
        None => get(f, vals, v),
    }
}

/// Pushes `local.get` of argument `k`.
fn arg(f: &mut Builder, map: &LocalMap, vals: &Values, arguments: &Vec<ValueId>, k: usize)
    requires
        open_for_code(*old(f)),
        k < arguments@.len(),
        readable(vals, arguments@[k as int]),
        vals.locals_below(old(f).nlocals()),
        vals.borrows_below(map.slots().len()),
        map_fits(map, old(f).nlocals()),
    ensures
        continues(*old(f), *final(f)),
        final(f).code() == old(f).code().push(Ins::LocalGet(vals.read_local(map, arguments@[k as int]))),
{
    get_arg(f, map, vals, arguments[k]);
}

/// The local argument `v` is read from: its borrowed MIR local's, else its
/// own, else local 0.
fn source_local(f: &Builder, map: &LocalMap, vals: &Values, v: ValueId) -> (r: u32)
    requires
        f.nlocals() > 0,
        vals.locals_below(f.nlocals()),
        vals.borrows_below(map.slots().len()),
        map_fits(map, f.nlocals()),
    ensures
        r < f.nlocals(),
        r == vals.read_local(map, v),
{
    proof {
        if vals.has(v) {
            vals.lemma_slot_unique(v);
        }
    }
    match vals.borrow_of(v) {
        Some(l) => map.get(l.0),
        None => match vals.local(v) {
            Some(local) => local,
            None => 0,
        },
    }
}

/// Pushes argument `k` widened to an `i64` slot.
fn arg_as_i64(f: &mut Builder, map: &LocalMap, vals: &Values, arguments: &Vec<ValueId>, k: usize)
    requires
        open_for_code(*old(f)),
        k < arguments@.len(),
        readable(vals, arguments@[k as int]),
        vals.locals_below(old(f).nlocals()),
        vals.borrows_below(map.slots().len()),
        map_fits(map, old(f).nlocals()),
    ensures
        continues(*old(f), *final(f)),
        final(f).code() == old(f).code() + seq![Ins::LocalGet(vals.read_local(map, arguments@[k as int]))]
            + widen_code(vals.vty_of(arguments@[k as int])),
{
    let v = arguments[k];
    proof {
        if vals.has(v) {
            vals.lemma_slot_unique(v);
        }
    }
    let local = match vals.borrow_of(v) {
        Some(l) => map.get(l.0),
        None => vals.local(v).unwrap(),
    };
    push_as_i64(f, local, vals.vty(v));
}

/// Stores the top of the stack into the result, if the call has one with a
/// local.
fn set_opt(f: &mut Builder, vals: &Values, value: Option<ValueId>)
    requires
        open_for_code(*old(f)),
        vals.locals_below(old(f).nlocals()),
    ensures
        continues(*old(f), *final(f)),
        final(f).code() == old(f).code() + set_opt_code(vals, value),
{
    match value {
        Some(v) => set(f, vals, v),
        None => {},
    }
    assert(f.code() =~= old(f).code() + set_opt_code(vals, value));
}

/// Stores an `i32` result, converted to the result's wasm type.
fn set_opt_i32(f: &mut Builder, vals: &Values, value: Option<ValueId>)
    requires
        open_for_code(*old(f)),
        vals.locals_below(old(f).nlocals()),
    ensures
        continues(*old(f), *final(f)),
        final(f).code() == old(f).code() + set_opt_i32_code(vals, value),
{
    match value {
        Some(v) => {
            proof {
                if vals.has(v) {
                    vals.lemma_slot_unique(v);
                }
            }
            set_from_i32(f, vals.vty(v), vals.local(v));
        },
        None => {},
    }
    assert(f.code() =~= old(f).code() + set_opt_i32_code(vals, value));
}

/// Stores an `i64` result, converted to the result's wasm type.
fn set_opt_i64(f: &mut Builder, vals: &Values, value: Option<ValueId>)
    requires
        open_for_code(*old(f)),
        vals.locals_below(old(f).nlocals()),
    ensures
        continues(*old(f), *final(f)),
        final(f).code() == old(f).code() + set_opt_i64_code(vals, value),
{
    match value {
        Some(v) => {
            proof {
                if vals.has(v) {
                    vals.lemma_slot_unique(v);
                }
            }
            set_from_i64(f, vals.vty(v), vals.local(v));
        },
        None => {},
    }
    assert(f.code() =~= old(f).code() + set_opt_i64_code(vals, value));
}

/// The array shape of `v`'s MIR type, if any.
fn array_of(ctx: &LowerCtx, vals: &Values, v: ValueId) -> (r: Option<(TypeId, u64)>)
    requires
        ctx.wf(),
        vals.unique(),
        vals.types_known(ctx.layouts),
    ensures
        r == spec_array_of(ctx, vals, v),
        r matches Some((e, _)) ==> known(ctx.layouts, e),
{
    match vals.mir_type(v) {
        Some(t) => {
            proof {
                assert(shape_closed(ctx.layouts, ctx.layouts.shapes@[t.0 as int]));
            }
            ctx.layouts.shapes[t.0].array
        },
        None => None,
    }
}

/// The low 32 bits of `x`, as a signed constant.
fn low_i32(x: u64) -> (r: i32)
    ensures
        r == x as i32,
{
    x as i32
}

/// The byte `x` as an `i32` constant.
fn byte_i32(x: u8) -> (r: i32)
    ensures
        r == x as i32,
{
    x as i32
}

/// The target's pointer width in bits, as the numeric casts see it.
fn pointer_bits(layouts: &LayoutTable) -> (r: u32)
    ensures
        r == spec_pointer_bits(layouts),
{
    if layouts.pointer_size <= 0xffff_ffff {
        ((layouts.pointer_size % 0x2000_0000) * 8) as u32
    } else {
        64
    }
}

/// How many arguments a call of builtin `b` reads by position.
pub open spec fn builtin_arity(b: BuiltinFunction) -> nat {
    match b {
        BuiltinFunction::BytesNew | BuiltinFunction::ListNew | BuiltinFunction::MapNew => 0,
        BuiltinFunction::ArrayFirst | BuiltinFunction::ArrayLast | BuiltinFunction::ArrayLen | BuiltinFunction::ArrayToList | BuiltinFunction::BoolToStr | BuiltinFunction::BytesCapacity | BuiltinFunction::BytesClear | BuiltinFunction::BytesClone | BuiltinFunction::BytesFirst | BuiltinFunction::BytesFromList | BuiltinFunction::BytesIsEmpty | BuiltinFunction::BytesLast | BuiltinFunction::BytesLen | BuiltinFunction::BytesToHex | BuiltinFunction::BytesToList | BuiltinFunction::BytesToStr | BuiltinFunction::FloatToInt | BuiltinFunction::IntToFloat | BuiltinFunction::ListCapacity | BuiltinFunction::ListClear | BuiltinFunction::ListFirst | BuiltinFunction::ListIsEmpty | BuiltinFunction::ListLast | BuiltinFunction::ListLen | BuiltinFunction::ListPop | BuiltinFunction::ListReverse | BuiltinFunction::ListShrinkToFit | BuiltinFunction::MapCapacity | BuiltinFunction::MapClear | BuiltinFunction::MapIsEmpty | BuiltinFunction::MapKeys | BuiltinFunction::MapLen | BuiltinFunction::MapValues | BuiltinFunction::NumericCast { .. } | BuiltinFunction::NumericToStr | BuiltinFunction::Out | BuiltinFunction::Print | BuiltinFunction::StringByteLen | BuiltinFunction::StringCharLen | BuiltinFunction::StringChars | BuiltinFunction::StringIsEmpty | BuiltinFunction::StringLines | BuiltinFunction::StringSplitWhitespace | BuiltinFunction::StringToBytes | BuiltinFunction::StringToF64 | BuiltinFunction::StringToI64 | BuiltinFunction::StringToLower | BuiltinFunction::StringToUpper | BuiltinFunction::StringTrim | BuiltinFunction::StringTrimEnd | BuiltinFunction::StringTrimStart => 1,
        BuiltinFunction::ArrayAt | BuiltinFunction::ArrayAtUnchecked | BuiltinFunction::ArrayContains | BuiltinFunction::ArrayFill | BuiltinFunction::BytesAt | BuiltinFunction::BytesByteAt | BuiltinFunction::BytesCompare | BuiltinFunction::BytesEndsWith | BuiltinFunction::BytesExtend | BuiltinFunction::BytesFind | BuiltinFunction::BytesPush | BuiltinFunction::BytesReadInt { .. } | BuiltinFunction::BytesReserve | BuiltinFunction::BytesStartsWith | BuiltinFunction::BytesTruncate | BuiltinFunction::ListAt | BuiltinFunction::ListAtUnchecked | BuiltinFunction::ListContains | BuiltinFunction::ListExtend | BuiltinFunction::ListFindIndex | BuiltinFunction::ListJoin | BuiltinFunction::ListPush | BuiltinFunction::ListRemove | BuiltinFunction::ListReserve | BuiltinFunction::ListTruncate | BuiltinFunction::MapContainsKey | BuiltinFunction::MapGet | BuiltinFunction::MapGetOr | BuiltinFunction::MapRemove | BuiltinFunction::MapReserve | BuiltinFunction::StringCharAt | BuiltinFunction::StringCompare | BuiltinFunction::StringContains | BuiltinFunction::StringEndsWith | BuiltinFunction::StringEquals | BuiltinFunction::StringFind | BuiltinFunction::StringRepeat | BuiltinFunction::StringRfind | BuiltinFunction::StringSplit | BuiltinFunction::StringStartsWith | BuiltinFunction::StringStripPrefix | BuiltinFunction::StringStripSuffix => 2,
        BuiltinFunction::ArraySet | BuiltinFunction::BytesResize | BuiltinFunction::BytesSet | BuiltinFunction::BytesSlice | BuiltinFunction::BytesWriteInt { .. } | BuiltinFunction::ListInsert | BuiltinFunction::ListSet | BuiltinFunction::ListSlice | BuiltinFunction::ListSwap | BuiltinFunction::MapSet | BuiltinFunction::StringPadLeft | BuiltinFunction::StringPadRight | BuiltinFunction::StringReplace | BuiltinFunction::StringSubstring => 3,
        BuiltinFunction::Other { .. } => 0,
    }
}

/// The family a builtin's lowering belongs to: lists, bytes, strings, maps,
/// scalar conversions, fixed-size arrays (or 6 for one that is not lowered).
pub open spec fn builtin_family(b: BuiltinFunction) -> nat {
    match b {
        BuiltinFunction::ListAt | BuiltinFunction::ListAtUnchecked | BuiltinFunction::ListCapacity | BuiltinFunction::ListClear | BuiltinFunction::ListContains | BuiltinFunction::ListExtend | BuiltinFunction::ListFindIndex | BuiltinFunction::ListFirst | BuiltinFunction::ListInsert | BuiltinFunction::ListIsEmpty | BuiltinFunction::ListJoin | BuiltinFunction::ListLast | BuiltinFunction::ListLen | BuiltinFunction::ListNew | BuiltinFunction::ListPop | BuiltinFunction::ListPush | BuiltinFunction::ListRemove | BuiltinFunction::ListReserve | BuiltinFunction::ListReverse | BuiltinFunction::ListSet | BuiltinFunction::ListShrinkToFit | BuiltinFunction::ListSlice | BuiltinFunction::ListSwap | BuiltinFunction::ListTruncate | BuiltinFunction::Out | BuiltinFunction::Print => 0,
        BuiltinFunction::BytesAt | BuiltinFunction::BytesByteAt | BuiltinFunction::BytesCapacity | BuiltinFunction::BytesClear | BuiltinFunction::BytesClone | BuiltinFunction::BytesCompare | BuiltinFunction::BytesEndsWith | BuiltinFunction::BytesExtend | BuiltinFunction::BytesFind | BuiltinFunction::BytesFirst | BuiltinFunction::BytesFromList | BuiltinFunction::BytesIsEmpty | BuiltinFunction::BytesLast | BuiltinFunction::BytesLen | BuiltinFunction::BytesNew | BuiltinFunction::BytesPush | BuiltinFunction::BytesReadInt { .. } | BuiltinFunction::BytesReserve | BuiltinFunction::BytesResize | BuiltinFunction::BytesSet | BuiltinFunction::BytesSlice | BuiltinFunction::BytesStartsWith | BuiltinFunction::BytesToHex | BuiltinFunction::BytesToList | BuiltinFunction::BytesToStr | BuiltinFunction::BytesTruncate | BuiltinFunction::BytesWriteInt { .. } | BuiltinFunction::StringByteLen | BuiltinFunction::StringCharLen | BuiltinFunction::StringIsEmpty | BuiltinFunction::StringToBytes => 1,
        BuiltinFunction::StringCharAt | BuiltinFunction::StringChars | BuiltinFunction::StringCompare | BuiltinFunction::StringContains | BuiltinFunction::StringEndsWith | BuiltinFunction::StringEquals | BuiltinFunction::StringFind | BuiltinFunction::StringLines | BuiltinFunction::StringPadLeft | BuiltinFunction::StringPadRight | BuiltinFunction::StringRepeat | BuiltinFunction::StringReplace | BuiltinFunction::StringRfind | BuiltinFunction::StringSplit | BuiltinFunction::StringSplitWhitespace | BuiltinFunction::StringStartsWith | BuiltinFunction::StringStripPrefix | BuiltinFunction::StringStripSuffix | BuiltinFunction::StringSubstring | BuiltinFunction::StringToF64 | BuiltinFunction::StringToI64 | BuiltinFunction::StringToLower | BuiltinFunction::StringToUpper | BuiltinFunction::StringTrim | BuiltinFunction::StringTrimEnd | BuiltinFunction::StringTrimStart => 2,
        BuiltinFunction::MapCapacity | BuiltinFunction::MapClear | BuiltinFunction::MapContainsKey | BuiltinFunction::MapGet | BuiltinFunction::MapGetOr | BuiltinFunction::MapIsEmpty | BuiltinFunction::MapKeys | BuiltinFunction::MapLen | BuiltinFunction::MapNew | BuiltinFunction::MapRemove | BuiltinFunction::MapReserve | BuiltinFunction::MapSet | BuiltinFunction::MapValues => 3,
        BuiltinFunction::BoolToStr | BuiltinFunction::FloatToInt | BuiltinFunction::IntToFloat | BuiltinFunction::NumericCast { .. } | BuiltinFunction::NumericToStr => 4,
        BuiltinFunction::ArrayAt | BuiltinFunction::ArrayAtUnchecked | BuiltinFunction::ArrayContains | BuiltinFunction::ArrayFill | BuiltinFunction::ArrayFirst | BuiltinFunction::ArrayLast | BuiltinFunction::ArrayLen | BuiltinFunction::ArraySet | BuiltinFunction::ArrayToList => 5,
        BuiltinFunction::Other { .. } => 6,
    }
}

/// Lowers a call of one of the print and list builtins.
#[verifier::rlimit(50)]
#[verifier::spinoff_prover]
fn lower_list_call(f: &mut Builder, ctx: &LowerCtx, body: &MirFunction, map: &LocalMap, vals: &Values, scratch: u32, value: Option<ValueId>, result_type: Option<TypeId>, function: &BuiltinFunction, arguments: &Vec<ValueId>) -> (r: Result<(), CodegenError>)
    requires
        env(ctx, body, map, vals, scratch, *old(f)),
        opt_known(ctx.layouts, result_type),
        runtime_ready(ctx, vals, value, *function, arguments@),
        builtin_family(*function) == 0,
    ensures
        continues(*old(f), *final(f)),
        final(f).code() == old(f).code() + list_call_code(ctx, map, vals, scratch, value, result_type, *function, arguments@),
        r is Ok <==> runtime_lowers(ctx, vals, *function, arguments@),
        r matches Err(e) ==> e is Backend,
{
    match function {
        BuiltinFunction::Print | BuiltinFunction::Out => {
            let target = if matches!(function, BuiltinFunction::Print) {
                ctx.rt.print
            } else {
                ctx.rt.out
            };
            arg(f, map, vals, arguments, 0);
            emit(f, Ins::Call(target));
        }
        BuiltinFunction::ListNew => {
            let kind = match result_type {
                Some(t) => match ctx.layouts.shapes[t.0].list_element {
                    Some(elem) => element_kind(ctx.layouts, elem),
                    None => rc::KIND_NONE,
                },
                None => rc::KIND_NONE,
            };
            emit(f, Ins::I32Const(kind));
            if arguments.len() > 4 {
                arg(f, map, vals, arguments, 4);
                emit(f, Ins::I32WrapI64);
            } else {
                emit(f, Ins::I32Const(0));
            }
            emit(f, Ins::Call(ctx.rt.list_new));
            set_opt(f, vals, value);
        }
        BuiltinFunction::ListLen | BuiltinFunction::ListIsEmpty => {
            arg(f, map, vals, arguments, 0);
            emit(f, Ins::Call(ctx.rt.list_len));
            if matches!(function, BuiltinFunction::ListIsEmpty) {
                emit(f, Ins::I32Eqz);
            }
            set_opt_i32(f, vals, value);
        }
        BuiltinFunction::ListPush => {
            arg(f, map, vals, arguments, 0);
            arg_as_i64(f, map, vals, arguments, 1);
            emit(f, Ins::Call(ctx.rt.list_push));
        }
        BuiltinFunction::ListAt | BuiltinFunction::ListAtUnchecked => {
            arg(f, map, vals, arguments, 0);
            arg(f, map, vals, arguments, 1);
            emit(f, Ins::I32WrapI64); // index is `int`
            emit(f, Ins::Call(ctx.rt.list_at));
            set_opt_i64(f, vals, value);
        }
        BuiltinFunction::ListSet => {
            arg(f, map, vals, arguments, 0);
            arg(f, map, vals, arguments, 1);
            emit(f, Ins::I32WrapI64);
            arg_as_i64(f, map, vals, arguments, 2);
            emit(f, Ins::Call(ctx.rt.list_set));
        }
        BuiltinFunction::ListPop => {
            arg(f, map, vals, arguments, 0);
            emit(f, Ins::Call(ctx.rt.list_pop));
            set_opt_i64(f, vals, value);
        }
        BuiltinFunction::ListClear => {
            arg(f, map, vals, arguments, 0);
            emit(f, Ins::Call(ctx.rt.list_clear));
        }
        BuiltinFunction::ListCapacity => {
            arg(f, map, vals, arguments, 0);
            emit(f, Ins::Call(ctx.rt.ls_capacity));
            set_opt_i32(f, vals, value);
        }
        BuiltinFunction::ListReserve => {
            arg(f, map, vals, arguments, 0);
            arg(f, map, vals, arguments, 1);
            emit(f, Ins::I32WrapI64);
            emit(f, Ins::Call(ctx.rt.ls_reserve));
        }
        BuiltinFunction::ListTruncate => {
            arg(f, map, vals, arguments, 0);
            arg(f, map, vals, arguments, 1);
            emit(f, Ins::I32WrapI64);
            emit(f, Ins::Call(ctx.rt.ls_truncate));
        }
        BuiltinFunction::ListSwap => {
            arg(f, map, vals, arguments, 0);
            arg(f, map, vals, arguments, 1);
            emit(f, Ins::I32WrapI64);
            arg(f, map, vals, arguments, 2);
            emit(f, Ins::I32WrapI64);
            emit(f, Ins::Call(ctx.rt.ls_swap));
        }
        BuiltinFunction::ListReverse => {
            arg(f, map, vals, arguments, 0);
            emit(f, Ins::Call(ctx.rt.ls_reverse));
        }
        BuiltinFunction::ListShrinkToFit => {
            arg(f, map, vals, arguments, 0);
            emit(f, Ins::Call(ctx.rt.ls_shrink));
        }
        BuiltinFunction::ListFirst => {
            arg(f, map, vals, arguments, 0);
            emit(f, Ins::Call(ctx.rt.ls_first));
            set_opt_i64(f, vals, value);
        }
        BuiltinFunction::ListLast => {
            arg(f, map, vals, arguments, 0);
            emit(f, Ins::Call(ctx.rt.ls_last));
            set_opt_i64(f, vals, value);
        }
        BuiltinFunction::ListInsert => {
            arg(f, map, vals, arguments, 0);
            arg(f, map, vals, arguments, 1);
            emit(f, Ins::I32WrapI64);
            arg_as_i64(f, map, vals, arguments, 2);
            emit(f, Ins::Call(ctx.rt.ls_insert));
        }
        BuiltinFunction::ListRemove => {
            arg(f, map, vals, arguments, 0);
            arg(f, map, vals, arguments, 1);
            emit(f, Ins::I32WrapI64);
            emit(f, Ins::Call(ctx.rt.ls_remove));
            set_opt_i64(f, vals, value);
        }
        BuiltinFunction::ListExtend => {
            arg(f, map, vals, arguments, 0);
            arg(f, map, vals, arguments, 1);
            emit(f, Ins::Call(ctx.rt.ls_extend));
        }
        BuiltinFunction::ListSlice => {
            arg(f, map, vals, arguments, 0);
            arg(f, map, vals, arguments, 1);
            emit(f, Ins::I32WrapI64);
            arg(f, map, vals, arguments, 2);
            emit(f, Ins::I32WrapI64);
            emit(f, Ins::Call(ctx.rt.ls_slice));
            set_opt(f, vals, value);
        }
        BuiltinFunction::ListContains => {
            arg(f, map, vals, arguments, 0);
            arg_as_i64(f, map, vals, arguments, 1);
            emit(f, Ins::Call(ctx.rt.ls_contains));
            set_opt(f, vals, value);
        }
        BuiltinFunction::ListFindIndex => {
            arg(f, map, vals, arguments, 0);
            arg_as_i64(f, map, vals, arguments, 1);
            emit(f, Ins::Call(ctx.rt.ls_find));
            set_opt_i64(f, vals, value);
        }
        BuiltinFunction::ListJoin => {
            arg(f, map, vals, arguments, 0);
            arg(f, map, vals, arguments, 1);
            emit(f, Ins::Call(ctx.rt.ls_join));
            set_opt(f, vals, value);
        }
        _ => {},
    }
    assert(f.code() =~= old(f).code() + list_call_code(ctx, map, vals, scratch, value, result_type, *function, arguments@));
    Ok(())
}

/// Lowers a call of one of the byte-buffer builtins.
#[verifier::rlimit(50)]
#[verifier::spinoff_prover]
fn lower_bytes_call(f: &mut Builder, ctx: &LowerCtx, body: &MirFunction, map: &LocalMap, vals: &Values, scratch: u32, value: Option<ValueId>, result_type: Option<TypeId>, function: &BuiltinFunction, arguments: &Vec<ValueId>) -> (r: Result<(), CodegenError>)
    requires
        env(ctx, body, map, vals, scratch, *old(f)),
        opt_known(ctx.layouts, result_type),
        runtime_ready(ctx, vals, value, *function, arguments@),
        builtin_family(*function) == 1,
    ensures
        continues(*old(f), *final(f)),
        final(f).code() == old(f).code() + bytes_call_code(ctx, map, vals, scratch, value, result_type, *function, arguments@),
        r is Ok <==> runtime_lowers(ctx, vals, *function, arguments@),
        r matches Err(e) ==> e is Backend,
{
    match function {
        BuiltinFunction::BytesNew => {
            emit(f, Ins::I32Const(0));
            emit(f, Ins::Call(ctx.rt.bytes_new));
            set_opt(f, vals, value);
        }
        BuiltinFunction::BytesLen | BuiltinFunction::StringByteLen | BuiltinFunction::StringCharLen | BuiltinFunction::StringIsEmpty => {
            arg(f, map, vals, arguments, 0);
            emit(f, Ins::Call(ctx.rt.bytes_len));
            if matches!(function, BuiltinFunction::StringIsEmpty) {
                emit(f, Ins::I32Eqz);
            }
            set_opt_i32(f, vals, value);
        }
        BuiltinFunction::BytesAt => {
            arg(f, map, vals, arguments, 0);
            arg(f, map, vals, arguments, 1);
            emit(f, Ins::I32WrapI64);
            emit(f, Ins::Call(ctx.rt.bytes_at));
            set_opt_i32(f, vals, value);
        }
        BuiltinFunction::BytesSet => {
            arg(f, map, vals, arguments, 0);
            arg(f, map, vals, arguments, 1);
            emit(f, Ins::I32WrapI64);
            arg(f, map, vals, arguments, 2);
            emit(f, Ins::I32WrapI64);
            emit(f, Ins::Call(ctx.rt.bytes_set));
        }
        BuiltinFunction::StringToBytes | BuiltinFunction::BytesClone => {
            arg(f, map, vals, arguments, 0);
            emit(f, Ins::Call(ctx.rt.bytes_from_str));
            set_opt(f, vals, value);
        }
        BuiltinFunction::BytesToStr => {
            // `bytes.to_str()` yields `result[str, Utf8Error]`. The wasm runtime
            // does not validate UTF-8, so the ok variant is always produced.
            let ok_result = match result_type {
                Some(t) => match ctx.layouts.shapes[t.0].result {
                    Some(r) => if ctx.layouts.types[r.ok.0].size != 0 { Some((t, r)) } else { None },
                    None => None,
                },
                None => None,
            };
            match ok_result {
                Some((ty, result)) => {
                    let size = size_at_least_one(ctx.layouts, ty);
                    emit(f, Ins::I32Const(low_i32(size)));
                    emit(f, Ins::Call(ctx.rt.alloc));
                    f.push(Ins::LocalSet(scratch));
                    store_result_tag(f, ctx, scratch, result.tag_offset, true);
                    scratch_plus(f, scratch, result.ok_offset);
                    arg(f, map, vals, arguments, 0);
                    emit(f, Ins::Call(ctx.rt.bytes_to_str));
                    emit(f, Ins::I32Store(memarg(0)));
                    f.push(Ins::LocalGet(scratch));
                },
                None => {},
            }
            set_opt(f, vals, value);
        }
        BuiltinFunction::BytesIsEmpty => {
            arg(f, map, vals, arguments, 0);
            emit(f, Ins::Call(ctx.rt.bytes_len));
            emit(f, Ins::I32Eqz);
            set_opt(f, vals, value);
        }
        BuiltinFunction::BytesCapacity => {
            arg(f, map, vals, arguments, 0);
            emit(f, Ins::Call(ctx.rt.bt_capacity));
            set_opt_i32(f, vals, value);
        }
        BuiltinFunction::BytesReserve => {
            arg(f, map, vals, arguments, 0);
            arg(f, map, vals, arguments, 1);
            emit(f, Ins::I32WrapI64);
            emit(f, Ins::Call(ctx.rt.bt_reserve));
        }
        BuiltinFunction::BytesFirst => {
            arg(f, map, vals, arguments, 0);
            emit(f, Ins::Call(ctx.rt.bt_first));
            set_opt_i32(f, vals, value);
        }
        BuiltinFunction::BytesLast => {
            arg(f, map, vals, arguments, 0);
            emit(f, Ins::Call(ctx.rt.bt_last));
            set_opt_i32(f, vals, value);
        }
        BuiltinFunction::BytesSlice => {
            arg(f, map, vals, arguments, 0);
            arg(f, map, vals, arguments, 1);
            emit(f, Ins::I32WrapI64);
            arg(f, map, vals, arguments, 2);
            emit(f, Ins::I32WrapI64);
            emit(f, Ins::Call(ctx.rt.bt_slice));
            set_opt(f, vals, value);
        }
        BuiltinFunction::BytesByteAt => {
            arg(f, map, vals, arguments, 0);
            arg(f, map, vals, arguments, 1);
            emit(f, Ins::I32WrapI64);
            emit(f, Ins::Call(ctx.rt.bytes_at));
            set_opt_i32(f, vals, value);
        }
        BuiltinFunction::BytesPush => {
            arg(f, map, vals, arguments, 0);
            arg(f, map, vals, arguments, 1);
            if vals.vty(arguments[1]) == ValTy::I64 {
                emit(f, Ins::I32WrapI64);
            }
            emit(f, Ins::Call(ctx.rt.bt_push));
        }
        BuiltinFunction::BytesExtend => {
            arg(f, map, vals, arguments, 0);
            arg(f, map, vals, arguments, 1);
            emit(f, Ins::Call(ctx.rt.bt_extend));
        }
        BuiltinFunction::BytesTruncate => {
            arg(f, map, vals, arguments, 0);
            arg(f, map, vals, arguments, 1);
            emit(f, Ins::I32WrapI64);
            emit(f, Ins::Call(ctx.rt.bt_truncate));
        }
        BuiltinFunction::BytesResize => {
            arg(f, map, vals, arguments, 0);
            arg(f, map, vals, arguments, 1);
            emit(f, Ins::I32WrapI64);
            arg(f, map, vals, arguments, 2);
            if vals.vty(arguments[2]) == ValTy::I64 {
                emit(f, Ins::I32WrapI64);
            }
            emit(f, Ins::Call(ctx.rt.bt_resize));
        }
        BuiltinFunction::BytesFind => {
            arg(f, map, vals, arguments, 0);
            arg(f, map, vals, arguments, 1);
            emit(f, Ins::Call(ctx.rt.bt_find));
            set_opt(f, vals, value);
        }
        BuiltinFunction::BytesStartsWith => {
            arg(f, map, vals, arguments, 0);
            arg(f, map, vals, arguments, 1);
            emit(f, Ins::Call(ctx.rt.bt_starts));
            set_opt(f, vals, value);
        }
        BuiltinFunction::BytesEndsWith => {
            arg(f, map, vals, arguments, 0);
            arg(f, map, vals, arguments, 1);
            emit(f, Ins::Call(ctx.rt.bt_ends));
            set_opt(f, vals, value);
        }
        BuiltinFunction::BytesCompare => {
            arg(f, map, vals, arguments, 0);
            arg(f, map, vals, arguments, 1);
            emit(f, Ins::Call(ctx.rt.bt_cmp));
            set_opt(f, vals, value);
        }
        BuiltinFunction::BytesClear => {
            arg(f, map, vals, arguments, 0);
            emit(f, Ins::Call(ctx.rt.bt_clear));
        }
        BuiltinFunction::BytesToHex => {
            arg(f, map, vals, arguments, 0);
            emit(f, Ins::Call(ctx.rt.bt_to_hex));
            set_opt(f, vals, value);
        }
        BuiltinFunction::BytesToList => {
            arg(f, map, vals, arguments, 0);
            emit(f, Ins::Call(ctx.rt.bt_to_list));
            set_opt(f, vals, value);
        }
        BuiltinFunction::BytesFromList => {
            arg(f, map, vals, arguments, 0);
            emit(f, Ins::Call(ctx.rt.bt_from_list));
            set_opt(f, vals, value);
        }
        BuiltinFunction::BytesReadInt { width, big_endian, signed } => {
            let flags: i32 = (if *big_endian { 1i32 } else { 0i32 }) + (if *signed { 2i32 } else { 0i32 });
            arg(f, map, vals, arguments, 0);
            arg(f, map, vals, arguments, 1);
            emit(f, Ins::I32WrapI64);
            emit(f, Ins::I32Const(byte_i32(*width)));
            emit(f, Ins::I32Const(flags));
            emit(f, Ins::Call(ctx.rt.bt_read_int));
            set_opt(f, vals, value);
        }
        BuiltinFunction::BytesWriteInt { width, big_endian } => {
            arg(f, map, vals, arguments, 0);
            arg(f, map, vals, arguments, 1);
            emit(f, Ins::I32WrapI64);
            emit(f, Ins::I32Const(byte_i32(*width)));
            arg_as_i64(f, map, vals, arguments, 2);
            emit(f, Ins::I32Const(if *big_endian { 1 } else { 0 }));
            emit(f, Ins::Call(ctx.rt.bt_write_int));
        }
        _ => {},
    }
    assert(f.code() =~= old(f).code() + bytes_call_code(ctx, map, vals, scratch, value, result_type, *function, arguments@));
    Ok(())
}

/// Lowers a call of one of the string builtins.
#[verifier::rlimit(50)]
#[verifier::spinoff_prover]
fn lower_string_call(f: &mut Builder, ctx: &LowerCtx, body: &MirFunction, map: &LocalMap, vals: &Values, scratch: u32, value: Option<ValueId>, result_type: Option<TypeId>, function: &BuiltinFunction, arguments: &Vec<ValueId>) -> (r: Result<(), CodegenError>)
    requires
        env(ctx, body, map, vals, scratch, *old(f)),
        opt_known(ctx.layouts, result_type),
        runtime_ready(ctx, vals, value, *function, arguments@),
        builtin_family(*function) == 2,
    ensures
        continues(*old(f), *final(f)),
        final(f).code() == old(f).code() + string_call_code(ctx, map, vals, scratch, value, result_type, *function, arguments@),
        r is Ok <==> runtime_lowers(ctx, vals, *function, arguments@),
        r matches Err(e) ==> e is Backend,
{
    match function {
        BuiltinFunction::StringEquals => {
            arg(f, map, vals, arguments, 0);
            arg(f, map, vals, arguments, 1);
            emit(f, Ins::Call(ctx.rt.str_eq));
            set_opt(f, vals, value);
        }
        BuiltinFunction::StringCompare => {
            arg(f, map, vals, arguments, 0);
            arg(f, map, vals, arguments, 1);
            emit(f, Ins::Call(ctx.rt.str_cmp));
            set_opt(f, vals, value);
        }
        BuiltinFunction::StringContains => {
            arg(f, map, vals, arguments, 0);
            arg(f, map, vals, arguments, 1);
            emit(f, Ins::Call(ctx.rt.str_contains));
            set_opt(f, vals, value);
        }
        BuiltinFunction::StringStartsWith => {
            arg(f, map, vals, arguments, 0);
            arg(f, map, vals, arguments, 1);
            emit(f, Ins::Call(ctx.rt.str_starts));
            set_opt(f, vals, value);
        }
        BuiltinFunction::StringEndsWith => {
            arg(f, map, vals, arguments, 0);
            arg(f, map, vals, arguments, 1);
            emit(f, Ins::Call(ctx.rt.str_ends));
            set_opt(f, vals, value);
        }
        BuiltinFunction::StringFind => {
            arg(f, map, vals, arguments, 0);
            arg(f, map, vals, arguments, 1);
            emit(f, Ins::Call(ctx.rt.str_find));
            set_opt(f, vals, value);
        }
        BuiltinFunction::StringRfind => {
            arg(f, map, vals, arguments, 0);
            arg(f, map, vals, arguments, 1);
            emit(f, Ins::Call(ctx.rt.str_rfind));
            set_opt(f, vals, value);
        }
        BuiltinFunction::StringSubstring => {
            arg(f, map, vals, arguments, 0);
            arg(f, map, vals, arguments, 1);
            emit(f, Ins::I32WrapI64);
            arg(f, map, vals, arguments, 2);
            emit(f, Ins::I32WrapI64);
            emit(f, Ins::Call(ctx.rt.str_substring));
            set_opt(f, vals, value);
        }
        BuiltinFunction::StringRepeat => {
            arg(f, map, vals, arguments, 0);
            arg(f, map, vals, arguments, 1);
            emit(f, Ins::I32WrapI64);
            emit(f, Ins::Call(ctx.rt.str_repeat));
            set_opt(f, vals, value);
        }
        BuiltinFunction::StringStripPrefix => {
            arg(f, map, vals, arguments, 0);
            arg(f, map, vals, arguments, 1);
            emit(f, Ins::Call(ctx.rt.str_strip_prefix));
            set_opt(f, vals, value);
        }
        BuiltinFunction::StringStripSuffix => {
            arg(f, map, vals, arguments, 0);
            arg(f, map, vals, arguments, 1);
            emit(f, Ins::Call(ctx.rt.str_strip_suffix));
            set_opt(f, vals, value);
        }
        BuiltinFunction::StringTrim => {
            arg(f, map, vals, arguments, 0);
            emit(f, Ins::Call(ctx.rt.str_trim_start));
            emit(f, Ins::Call(ctx.rt.str_trim_end));
            set_opt(f, vals, value);
        }
        BuiltinFunction::StringTrimStart => {
            arg(f, map, vals, arguments, 0);
            emit(f, Ins::Call(ctx.rt.str_trim_start));
            set_opt(f, vals, value);
        }
        BuiltinFunction::StringTrimEnd => {
            arg(f, map, vals, arguments, 0);
            emit(f, Ins::Call(ctx.rt.str_trim_end));
            set_opt(f, vals, value);
        }
        BuiltinFunction::StringToLower => {
            arg(f, map, vals, arguments, 0);
            emit(f, Ins::Call(ctx.rt.str_lower));
            set_opt(f, vals, value);
        }
        BuiltinFunction::StringToUpper => {
            arg(f, map, vals, arguments, 0);
            emit(f, Ins::Call(ctx.rt.str_upper));
            set_opt(f, vals, value);
        }
        BuiltinFunction::StringToI64 => {
            arg(f, map, vals, arguments, 0);
            emit(f, Ins::Call(ctx.rt.str_to_i64));
            set_opt(f, vals, value);
        }
        BuiltinFunction::StringToF64 => {
            arg(f, map, vals, arguments, 0);
            emit(f, Ins::Call(ctx.rt.str_to_f64));
            set_opt(f, vals, value);
        }
        BuiltinFunction::StringCharAt => {
            arg(f, map, vals, arguments, 0);
            arg(f, map, vals, arguments, 1);
            emit(f, Ins::Call(ctx.rt.so_char_at));
            set_opt(f, vals, value);
        }
        BuiltinFunction::StringChars => {
            arg(f, map, vals, arguments, 0);
            emit(f, Ins::Call(ctx.rt.so_chars));
            set_opt(f, vals, value);
        }
        BuiltinFunction::StringPadLeft => {
            arg(f, map, vals, arguments, 0);
            arg(f, map, vals, arguments, 1);
            arg(f, map, vals, arguments, 2);
            emit(f, Ins::Call(ctx.rt.so_pad_left));
            set_opt(f, vals, value);
        }
        BuiltinFunction::StringPadRight => {
            arg(f, map, vals, arguments, 0);
            arg(f, map, vals, arguments, 1);
            arg(f, map, vals, arguments, 2);
            emit(f, Ins::Call(ctx.rt.so_pad_right));
            set_opt(f, vals, value);
        }
        BuiltinFunction::StringSplit => {
            arg(f, map, vals, arguments, 0);
            arg(f, map, vals, arguments, 1);
            emit(f, Ins::Call(ctx.rt.so_split));
            set_opt(f, vals, value);
        }
        BuiltinFunction::StringSplitWhitespace => {
            arg(f, map, vals, arguments, 0);
            emit(f, Ins::Call(ctx.rt.so_split_ws));
            set_opt(f, vals, value);
        }
        BuiltinFunction::StringLines => {
            arg(f, map, vals, arguments, 0);
            emit(f, Ins::Call(ctx.rt.so_lines));
            set_opt(f, vals, value);
        }
        BuiltinFunction::StringReplace => {
            arg(f, map, vals, arguments, 0);
            arg(f, map, vals, arguments, 1);
            arg(f, map, vals, arguments, 2);
            emit(f, Ins::Call(ctx.rt.so_replace));
            set_opt(f, vals, value);
        }
        _ => {},
    }
    assert(f.code() =~= old(f).code() + string_call_code(ctx, map, vals, scratch, value, result_type, *function, arguments@));
    Ok(())
}

/// Lowers a call of one of the map builtins.
#[verifier::rlimit(50)]
/// The list of a map's keys or values, built entry by entry.
#[verifier::spinoff_prover]
#[verifier::rlimit(100)]
fn map_entries(f: &mut Builder, ctx: &LowerCtx, map: &LocalMap, vals: &Values, scratch: u32, value_id: ValueId, keys: bool, arguments: &Vec<ValueId>)
    requires
        open_for_code(*old(f)),
        ctx.wf(),
        vals.fits(old(f).nlocals(), map.slots().len(), ctx.layouts),
        map_fits(map, old(f).nlocals()),
        scratch < old(f).nlocals(),
        arguments@.len() >= 1,
        readable(vals, arguments@[0]),
        readable(vals, value_id),
    ensures
        continues(*old(f), *final(f)),
        final(f).code() == old(f).code() + map_entries_code(ctx, map, vals, scratch, value_id, keys, arguments@),
{
    let element = match vals.mir_type(arguments[0]) {
        Some(t) => match ctx.layouts.shapes[t.0].map_entry {
            Some((key, val)) => Some(if keys { key } else { val }),
            None => None,
        },
        None => None,
    };
    let kind = match element {
        Some(e) => element_kind(ctx.layouts, e),
        None => rc::KIND_NONE,
    };
    let entry_offset: i64 = if keys { 0 } else { 8 };
    emit(f, Ins::I32Const(kind));
    arg(f, map, vals, arguments, 0);
    emit(f, Ins::Call(ctx.rt.map_len));
    emit(f, Ins::Call(ctx.rt.list_new));
    set(f, vals, value_id);
    emit(f, Ins::I32Const(0));
    f.push(Ins::LocalSet(scratch));
    f.push(Ins::Block(BlockTy::Empty));
    f.push(Ins::Loop(BlockTy::Empty));
    f.push(Ins::LocalGet(scratch));
    arg(f, map, vals, arguments, 0);
    emit(f, Ins::Call(ctx.rt.map_len));
    emit(f, Ins::I32GeU);
    f.push(Ins::BrIf(1));
    get_arg(f, map, vals, value_id);
    arg(f, map, vals, arguments, 0);
    emit(f, Ins::I32Load(memarg(12)));
    f.push(Ins::LocalGet(scratch));
    emit(f, Ins::I32Const(16));
    emit(f, Ins::I32Mul);
    emit(f, Ins::I32Add);
    emit(f, Ins::I64Load(memarg(entry_offset)));
    emit(f, Ins::Call(ctx.rt.list_push));
    f.push(Ins::LocalGet(scratch));
    emit(f, Ins::I32Const(1));
    emit(f, Ins::I32Add);
    f.push(Ins::LocalSet(scratch));
    f.push(Ins::Br(0));
    f.push(Ins::End);
    f.push(Ins::End);
    assert(f.frames() =~= old(f).frames());
    assert(f.code() =~= old(f).code() + map_entries_code(ctx, map, vals, scratch, value_id, keys, arguments@));
}

#[verifier::spinoff_prover]
fn lower_map_call(f: &mut Builder, ctx: &LowerCtx, body: &MirFunction, map: &LocalMap, vals: &Values, scratch: u32, value: Option<ValueId>, result_type: Option<TypeId>, function: &BuiltinFunction, arguments: &Vec<ValueId>) -> (r: Result<(), CodegenError>)
    requires
        env(ctx, body, map, vals, scratch, *old(f)),
        opt_known(ctx.layouts, result_type),
        runtime_ready(ctx, vals, value, *function, arguments@),
        builtin_family(*function) == 3,
    ensures
        continues(*old(f), *final(f)),
        final(f).code() == old(f).code() + map_call_code(ctx, map, vals, scratch, value, *function, arguments@),
        r is Ok <==> runtime_lowers(ctx, vals, *function, arguments@),
        r matches Err(e) ==> e is Backend,
{
    match function {
        BuiltinFunction::MapNew => {
            emit(f, Ins::Call(ctx.rt.map_new));
            set_opt(f, vals, value);
        }
        BuiltinFunction::MapLen => {
            arg(f, map, vals, arguments, 0);
            emit(f, Ins::Call(ctx.rt.map_len));
            set_opt_i32(f, vals, value);
        }
        BuiltinFunction::MapSet => {
            arg(f, map, vals, arguments, 0);
            arg_as_i64(f, map, vals, arguments, 1);
            arg_as_i64(f, map, vals, arguments, 2);
            emit(f, Ins::Call(ctx.rt.map_set));
        }
        BuiltinFunction::MapGet | BuiltinFunction::MapGetOr => {
            arg(f, map, vals, arguments, 0);
            arg_as_i64(f, map, vals, arguments, 1);
            emit(f, Ins::Call(ctx.rt.map_get));
            set_opt_i64(f, vals, value);
        }
        BuiltinFunction::MapContainsKey => {
            arg(f, map, vals, arguments, 0);
            arg_as_i64(f, map, vals, arguments, 1);
            emit(f, Ins::Call(ctx.rt.map_contains));
            set_opt_i32(f, vals, value);
        }
        BuiltinFunction::MapRemove => {
            arg(f, map, vals, arguments, 0);
            arg_as_i64(f, map, vals, arguments, 1);
            emit(f, Ins::Call(ctx.rt.map_remove));
            set_opt_i64(f, vals, value);
        }
        BuiltinFunction::MapClear => {
            arg(f, map, vals, arguments, 0);
            emit(f, Ins::Call(ctx.rt.map_clear));
        }
        BuiltinFunction::MapIsEmpty => {
            arg(f, map, vals, arguments, 0);
            emit(f, Ins::Call(ctx.rt.map_len));
            emit(f, Ins::I32Eqz);
            set_opt(f, vals, value);
        }
        BuiltinFunction::MapCapacity => {
            arg(f, map, vals, arguments, 0);
            emit(f, Ins::Call(ctx.rt.map_capacity));
            set_opt_i32(f, vals, value);
        }
        BuiltinFunction::MapReserve => {
            arg(f, map, vals, arguments, 0);
            arg(f, map, vals, arguments, 1);
            emit(f, Ins::I32WrapI64);
            emit(f, Ins::Call(ctx.rt.map_reserve));
        }
        BuiltinFunction::MapKeys | BuiltinFunction::MapValues => {
            match value {
                Some(value_id) => {
                    let keys = matches!(function, BuiltinFunction::MapKeys);
                    map_entries(f, ctx, map, vals, scratch, value_id, keys, arguments);
                },
                None => {},
            }
        }
        _ => {},
    }
    assert(f.code() =~= old(f).code() + map_call_code(ctx, map, vals, scratch, value, *function, arguments@));
    Ok(())
}

/// The local of `value`, when the call has a result with one.
pub open spec fn result_local(vals: &Values, value: Option<ValueId>) -> Option<u32> {
    match value {
        Some(v) => if vals.has(v) { Some(vals.slot(v).local) } else { None },
        None => None,
    }
}

/// The code of a call of one of the scalar conversion builtins: a float
/// truncated to `i64`, an integer converted to `f64`, a numeric cast into
/// the result's local, a number through the float or integer formatter, or
/// a `bool` through the static `true` and `false` literals.
pub open spec fn value_call_code(ctx: &LowerCtx, map: &LocalMap, vals: &Values, value: Option<ValueId>, b: BuiltinFunction, arguments: Seq<ValueId>) -> Seq<Ins> {
    let a = arguments[0];
    let source = vals.read_local(map, a);
    let ty = vals.vty_of(a);
    match b {
        BuiltinFunction::FloatToInt => seq![Ins::LocalGet(source)] + (if ty == ValTy::F32 {
            seq![Ins::F64PromoteF32]
        } else {
            Seq::empty()
        }) + seq![Ins::I64TruncSatF64S] + set_opt_code(vals, value),
        BuiltinFunction::IntToFloat => seq![
            Ins::LocalGet(source),
            if ty == ValTy::I32 { Ins::F64ConvertI32S } else { Ins::F64ConvertI64S },
        ] + set_opt_code(vals, value),
        BuiltinFunction::NumericCast { from, to } => numeric_cast_code(
            from,
            to,
            spec_pointer_bits(ctx.layouts),
            source,
            ty,
            match value {
                Some(v) => vals.vty_of(v),
                None => ValTy::I64,
            },
            result_local(vals, value),
        ),
        BuiltinFunction::NumericToStr => seq![Ins::LocalGet(source)] + (if ty == ValTy::F32 {
            seq![Ins::F64PromoteF32]
        } else {
            Seq::empty()
        }) + seq![
            Ins::Call(if ty == ValTy::F32 || ty == ValTy::F64 { ctx.rt.fmt_f64 } else { ctx.rt.format }),
        ] + set_opt_code(vals, value),
        BuiltinFunction::BoolToStr => seq![
            Ins::LocalGet(source),
            Ins::If(BlockTy::Result(ValTy::I32)),
            Ins::I32Const(string_value(ctx.strings@, "true"@) as i32),
            Ins::Call(ctx.rt.str_from_static),
            Ins::Else,
            Ins::I32Const(string_value(ctx.strings@, "false"@) as i32),
            Ins::Call(ctx.rt.str_from_static),
            Ins::End,
        ] + set_opt_code(vals, value),
        _ => Seq::empty(),
    }
}

/// Lowers a call of one of the scalar conversion builtins.
#[verifier::rlimit(50)]
#[verifier::spinoff_prover]
fn lower_value_call(f: &mut Builder, ctx: &LowerCtx, body: &MirFunction, map: &LocalMap, vals: &Values, scratch: u32, value: Option<ValueId>, result_type: Option<TypeId>, function: &BuiltinFunction, arguments: &Vec<ValueId>) -> (r: Result<(), CodegenError>)
    requires
        env(ctx, body, map, vals, scratch, *old(f)),
        opt_known(ctx.layouts, result_type),
        runtime_ready(ctx, vals, value, *function, arguments@),
        builtin_family(*function) == 4,
    ensures
        continues(*old(f), *final(f)),
        r is Ok <==> runtime_lowers(ctx, vals, *function, arguments@),
        r is Ok ==> final(f).code() == old(f).code() + value_call_code(ctx, map, vals, value, *function, arguments@),
        r matches Err(e) ==> e is Backend,
        r matches Err(CodegenError::Backend(m)) ==> m@ == runtime_error(ctx, *function),
        r is Err ==> final(f).code() == old(f).code(),
{
    match function {
        BuiltinFunction::FloatToInt => {
            let source = source_local(f, map, vals, arguments[0]);
            f.push(Ins::LocalGet(source));
            if vals.vty(arguments[0]) == ValTy::F32 {
                emit(f, Ins::F64PromoteF32);
            }
            emit(f, Ins::I64TruncSatF64S);
            set_opt(f, vals, value);
            assert(f.code() =~= old(f).code() + value_call_code(ctx, map, vals, value, *function, arguments@));
        }
        BuiltinFunction::IntToFloat => {
            let source = source_local(f, map, vals, arguments[0]);
            f.push(Ins::LocalGet(source));
            if vals.vty(arguments[0]) == ValTy::I32 {
                emit(f, Ins::F64ConvertI32S);
            } else {
                emit(f, Ins::F64ConvertI64S);
            }
            set_opt(f, vals, value);
            assert(f.code() =~= old(f).code() + value_call_code(ctx, map, vals, value, *function, arguments@));
        }
        BuiltinFunction::NumericCast { from, to } => {
            let source = source_local(f, map, vals, arguments[0]);
            let dest_ty = match value {
                Some(v) => vals.vty(v),
                None => ValTy::I64,
            };
            let dest = match value {
                Some(v) => vals.local(v),
                None => None,
            };
            proof {
                if let Some(v) = value {
                    vals.lemma_slot_unique(v);
                }
            }
            assert(dest == result_local(vals, value));
            emit_numeric_cast(f, *from, *to, pointer_bits(ctx.layouts), source, vals.vty(arguments[0]), dest_ty, dest);
            assert(f.code() =~= old(f).code() + value_call_code(ctx, map, vals, value, *function, arguments@));
        }
        BuiltinFunction::NumericToStr => {
            let ty = vals.vty(arguments[0]);
            arg(f, map, vals, arguments, 0);
            if ty == ValTy::F32 {
                emit(f, Ins::F64PromoteF32);
            }
            if ty == ValTy::F32 || ty == ValTy::F64 {
                emit(f, Ins::Call(ctx.rt.fmt_f64));
            } else {
                emit(f, Ins::Call(ctx.rt.format));
            }
            set_opt(f, vals, value);
            assert(f.code() =~= old(f).code() + value_call_code(ctx, map, vals, value, *function, arguments@));
        }
        BuiltinFunction::BoolToStr => {
            let truthy = match string_address(ctx.strings, "true") {
                Some(a) => a,
                None => {
                    return Err(CodegenError::Backend(String::from_str("wasm backend: missing `true` literal")));
                },
            };
            let falsy = match string_address(ctx.strings, "false") {
                Some(a) => a,
                None => {
                    return Err(CodegenError::Backend(String::from_str("wasm backend: missing `false` literal")));
                },
            };
            arg(f, map, vals, arguments, 0);
            f.push(Ins::If(BlockTy::Result(ValTy::I32)));
            emit(f, Ins::I32Const(truthy as i32));
            emit(f, Ins::Call(ctx.rt.str_from_static));
            f.push(Ins::Else);
            emit(f, Ins::I32Const(falsy as i32));
            emit(f, Ins::Call(ctx.rt.str_from_static));
            f.push(Ins::End);
            assert(f.frames() =~= old(f).frames());
            set_opt(f, vals, value);
            assert(f.code() =~= old(f).code() + value_call_code(ctx, map, vals, value, *function, arguments@));
        }
        _ => {},
    }
    Ok(())
}

/// The loop head over the `len` elements of an array with the index in
/// `scratch`: leave the loop once the index reaches `len`.
pub open spec fn array_loop_head(scratch: u32, len: u64) -> Seq<Ins> {
    seq![
        Ins::I32Const(0),
        Ins::LocalSet(scratch),
        Ins::Block(BlockTy::Empty),
        Ins::Loop(BlockTy::Empty),
        Ins::LocalGet(scratch),
        Ins::I32Const(len as i32),
        Ins::I32GeU,
        Ins::BrIf(1),
    ]
}

/// The loop tail: the index in `scratch` advanced by one, back to the loop
/// head, and the loop and its block closed.
pub open spec fn array_loop_step(scratch: u32) -> Seq<Ins> {
    seq![
        Ins::LocalGet(scratch),
        Ins::I32Const(1),
        Ins::I32Add,
        Ins::LocalSet(scratch),
        Ins::Br(0),
        Ins::End,
        Ins::End,
    ]
}

/// The address of element `scratch` of the array whose address is on the
/// stack.
pub open spec fn element_at_scratch(scratch: u32, stride: u64) -> Seq<Ins> {
    seq![Ins::LocalGet(scratch), Ins::I32Const(stride as i32), Ins::I32Mul, Ins::I32Add]
}

/// The code of `ArrayToList` over an array of `len` elements of type
/// `elem`: a fresh list of that capacity in the result, and each element
/// pushed onto it in order.
pub open spec fn array_to_list_code(ctx: &LowerCtx, map: &LocalMap, vals: &Values, scratch: u32, value_id: ValueId, elem: TypeId, len: u64, arguments: Seq<ValueId>) -> Seq<Ins> {
    let stride = ctx.layouts.types@[elem.0 as int].size;
    seq![Ins::I32Const(spec_element_kind(ctx.layouts, elem)), Ins::I32Const(len as i32), Ins::Call(ctx.rt.list_new)]
        + set_code(vals, value_id) + array_loop_head(scratch, len)
        + seq![Ins::LocalGet(vals.read_local(map, value_id))] + arg_code(map, vals, arguments, 0)
        + element_at_scratch(scratch, stride) + element_for_list_code(ctx, elem) + seq![Ins::Call(ctx.rt.list_push)]
        + array_loop_step(scratch)
}

/// The code of `ArrayContains` over an array of `len` elements of type
/// `elem`: the result cleared, then set and the loop left at the first
/// element equal to the second argument.
pub open spec fn array_contains_code(ctx: &LowerCtx, map: &LocalMap, vals: &Values, scratch: u32, value_id: ValueId, elem: TypeId, len: u64, arguments: Seq<ValueId>) -> Seq<Ins> {
    let stride = ctx.layouts.types@[elem.0 as int].size;
    seq![Ins::I32Const(0)] + set_code(vals, value_id) + array_loop_head(scratch, len) + arg_code(map, vals, arguments, 0)
        + element_at_scratch(scratch, stride) + arg_i64_code(map, vals, arguments, 1) + seq![
        Ins::I32Const(spec_element_kind(ctx.layouts, elem)),
        Ins::Call(ctx.rt.ls_elem_eq),
        Ins::If(BlockTy::Empty),
        Ins::I32Const(1),
    ] + set_code(vals, value_id) + seq![Ins::Br(2), Ins::End] + array_loop_step(scratch)
}

/// The code of a call of one of the fixed-size array builtins, over the
/// array shape (element type, length) of the first argument's MIR type.
pub open spec fn array_call_code(ctx: &LowerCtx, map: &LocalMap, vals: &Values, scratch: u32, value: Option<ValueId>, b: BuiltinFunction, arguments: Seq<ValueId>) -> Seq<Ins> {
    let arr = spec_array_of(ctx, vals, arguments[0]);
    let a0 = arg_code(map, vals, arguments, 0);
    let a1 = arg_code(map, vals, arguments, 1);
    let shape = arr->0;
    let (elem, len) = shape;
    let stride = ctx.layouts.types@[elem.0 as int].size;
    match b {
        BuiltinFunction::ArrayLen => seq![
            Ins::I64Const((if arr is Some { len } else { 0 }) as i64),
        ] + set_opt_code(vals, value),
        BuiltinFunction::ArrayAt | BuiltinFunction::ArrayAtUnchecked => a0 + a1 + seq![
            Ins::I32WrapI64,
            Ins::I32Const(stride as i32),
            Ins::I32Mul,
            Ins::I32Add,
        ] + load_unless_aggregate_code(ctx, elem) + set_opt_code(vals, value),
        BuiltinFunction::ArraySet => if arr is Some {
            a0 + a1 + seq![Ins::I32WrapI64, Ins::I32Const(stride as i32), Ins::I32Mul, Ins::I32Add]
                + arg_code(map, vals, arguments, 2) + coerce_code(
                vals.type_of(arguments[2]),
                spec_valtype(ctx.layouts, elem),
            ) + seq![spec_store_instruction(ctx.layouts, elem, 0)]
        } else {
            Seq::empty()
        },
        BuiltinFunction::ArrayFirst | BuiltinFunction::ArrayLast => (if arr is Some {
            let index: int = if b is ArrayLast { if len >= 1 { len - 1 } else { 0 } } else { 0 };
            let offset: int = if index * stride <= u64::MAX { index * stride } else { u64::MAX as int };
            a0 + seq![Ins::I32Const(offset as i32), Ins::I32Add] + load_unless_aggregate_code(ctx, elem)
        } else {
            Seq::empty()
        }) + set_opt_code(vals, value),
        BuiltinFunction::ArrayFill => if arr is Some {
            array_loop_head(scratch, len) + a0 + element_at_scratch(scratch, stride) + a1 + coerce_code(
                vals.type_of(arguments[1]),
                spec_valtype(ctx.layouts, elem),
            ) + seq![spec_store_instruction(ctx.layouts, elem, 0)] + array_loop_step(scratch)
        } else {
            Seq::empty()
        },
        BuiltinFunction::ArrayToList => if arr is Some && value is Some {
            array_to_list_code(ctx, map, vals, scratch, value->0, elem, len, arguments)
        } else {
            Seq::empty()
        },
        BuiltinFunction::ArrayContains => if arr is Some && value is Some {
            array_contains_code(ctx, map, vals, scratch, value->0, elem, len, arguments)
        } else {
            Seq::empty()
        },
        _ => Seq::empty(),
    }
}

/// Lowers a call of one of the fixed-size array builtins.
#[verifier::rlimit(100)]
#[verifier::spinoff_prover]
fn lower_array_call(f: &mut Builder, ctx: &LowerCtx, body: &MirFunction, map: &LocalMap, vals: &Values, scratch: u32, value: Option<ValueId>, result_type: Option<TypeId>, function: &BuiltinFunction, arguments: &Vec<ValueId>) -> (r: Result<(), CodegenError>)
    requires
        env(ctx, body, map, vals, scratch, *old(f)),
        opt_known(ctx.layouts, result_type),
        runtime_ready(ctx, vals, value, *function, arguments@),
        builtin_family(*function) == 5,
    ensures
        continues(*old(f), *final(f)),
        r is Ok <==> runtime_lowers(ctx, vals, *function, arguments@),
        r is Ok ==> final(f).code() == old(f).code() + array_call_code(ctx, map, vals, scratch, value, *function, arguments@),
        r matches Err(e) ==> e is Backend,
        r matches Err(CodegenError::Backend(m)) ==> m@ == runtime_error(ctx, *function),
        r is Err ==> final(f).code() == old(f).code(),
{
    match function {
        BuiltinFunction::ArrayLen => {
            let len: u64 = match array_of(ctx, vals, arguments[0]) {
                Some((_, l)) => l,
                None => 0,
            };
            emit(f, Ins::I64Const(len as i64));
            set_opt(f, vals, value);
            assert(f.code() =~= old(f).code() + array_call_code(ctx, map, vals, scratch, value, *function, arguments@));
        }
        BuiltinFunction::ArrayAt | BuiltinFunction::ArrayAtUnchecked => {
            match array_of(ctx, vals, arguments[0]) {
                Some((elem, _)) => {
                    let stride = ctx.layouts.types[elem.0].size;
                    arg(f, map, vals, arguments, 0);
                    arg(f, map, vals, arguments, 1);
                    emit(f, Ins::I32WrapI64);
                    emit(f, Ins::I32Const(stride as i32));
                    emit(f, Ins::I32Mul);
                    emit(f, Ins::I32Add);
                    load_unless_aggregate(f, ctx, elem);
                },
                None => {
                    return Err(CodegenError::Backend(String::from_str("wasm backend: array element")));
                },
            }
            set_opt(f, vals, value);
            assert(f.code() =~= old(f).code() + array_call_code(ctx, map, vals, scratch, value, *function, arguments@));
        }
        BuiltinFunction::ArraySet => {
            match array_of(ctx, vals, arguments[0]) {
                Some((elem, _)) => {
                    let stride = ctx.layouts.types[elem.0].size;
                    arg(f, map, vals, arguments, 0);
                    arg(f, map, vals, arguments, 1);
                    emit(f, Ins::I32WrapI64);
                    emit(f, Ins::I32Const(stride as i32));
                    emit(f, Ins::I32Mul);
                    emit(f, Ins::I32Add);
                    arg(f, map, vals, arguments, 2);
                    emit_coerce(f, vals.value_type(arguments[2]), valtype(ctx.layouts, elem));
                    emit_store(f, ctx.layouts, elem, 0);
                },
                None => {},
            }
            assert(f.code() =~= old(f).code() + array_call_code(ctx, map, vals, scratch, value, *function, arguments@));
        }
        BuiltinFunction::ArrayFirst | BuiltinFunction::ArrayLast => {
            match array_of(ctx, vals, arguments[0]) {
                Some((elem, len)) => {
                    let stride = ctx.layouts.types[elem.0].size;
                    let index: u64 = if matches!(function, BuiltinFunction::ArrayLast) {
                        if len >= 1 { len - 1 } else { 0 }
                    } else {
                        0
                    };
                    arg(f, map, vals, arguments, 0);
                    emit(f, Ins::I32Const(saturating_mul(index, stride) as i32));
                    emit(f, Ins::I32Add);
                    load_unless_aggregate(f, ctx, elem);
                },
                None => {},
            }
            set_opt(f, vals, value);
            assert(f.code() =~= old(f).code() + array_call_code(ctx, map, vals, scratch, value, *function, arguments@));
        }
        BuiltinFunction::ArrayFill => {
            lower_array_fill(f, ctx, body, map, vals, scratch, value, function, arguments);
        }
        BuiltinFunction::ArrayToList => {
            lower_array_to_list(f, ctx, body, map, vals, scratch, value, function, arguments);
            assert(f.code() =~= old(f).code() + array_call_code(ctx, map, vals, scratch, value, *function, arguments@));
        }
        BuiltinFunction::ArrayContains => {
            lower_array_contains(f, ctx, body, map, vals, scratch, value, function, arguments);
            assert(f.code() =~= old(f).code() + array_call_code(ctx, map, vals, scratch, value, *function, arguments@));
        }
        _ => {},
    }
    Ok(())
}

/// Opens a loop over an array's elements with the index in `scratch`.
fn open_array_loop(f: &mut Builder, scratch: u32, len: u64)
    requires
        open_for_code(*old(f)),
        scratch < old(f).nlocals(),
    ensures
        final(f).wf(),
        final(f).params() == old(f).params(),
        final(f).locals() == old(f).locals(),
        final(f).code() == old(f).code() + array_loop_head(scratch, len),
        final(f).frames() == old(f).frames().push(crate::wasm::builder::Frame::Block).push(crate::wasm::builder::Frame::Loop),
{
    emit(f, Ins::I32Const(0));
    f.push(Ins::LocalSet(scratch));
    f.push(Ins::Block(BlockTy::Empty));
    f.push(Ins::Loop(BlockTy::Empty));
    f.push(Ins::LocalGet(scratch));
    emit(f, Ins::I32Const(len as i32));
    emit(f, Ins::I32GeU);
    f.push(Ins::BrIf(1));
    assert(f.code() =~= old(f).code() + array_loop_head(scratch, len));
}

/// Advances the index in `scratch` and closes the loop `open_array_loop`
/// opened.
fn close_array_loop(f: &mut Builder, scratch: u32)
    requires
        old(f).wf(),
        old(f).frames().len() >= 3,
        scratch < old(f).nlocals(),
    ensures
        final(f).wf(),
        final(f).params() == old(f).params(),
        final(f).locals() == old(f).locals(),
        final(f).code() == old(f).code() + array_loop_step(scratch),
        final(f).frames() == old(f).frames().drop_last().drop_last(),
{
    f.push(Ins::LocalGet(scratch));
    emit(f, Ins::I32Const(1));
    emit(f, Ins::I32Add);
    f.push(Ins::LocalSet(scratch));
    f.push(Ins::Br(0));
    f.push(Ins::End);
    f.push(Ins::End);
    assert(f.code() =~= old(f).code() + array_loop_step(scratch));
}

/// `ArrayFill`: each element set to the second argument.
#[verifier::rlimit(50)]
#[verifier::spinoff_prover]
fn lower_array_fill(f: &mut Builder, ctx: &LowerCtx, body: &MirFunction, map: &LocalMap, vals: &Values, scratch: u32, value: Option<ValueId>, function: &BuiltinFunction, arguments: &Vec<ValueId>)
    requires
        env(ctx, body, map, vals, scratch, *old(f)),
        runtime_ready(ctx, vals, value, *function, arguments@),
        *function == BuiltinFunction::ArrayFill,
    ensures
        continues(*old(f), *final(f)),
        final(f).code() == old(f).code() + array_call_code(ctx, map, vals, scratch, value, *function, arguments@),
{
    match array_of(ctx, vals, arguments[0]) {
        Some((elem, len)) => {
            let stride = ctx.layouts.types[elem.0].size;
            open_array_loop(f, scratch, len);
            arg(f, map, vals, arguments, 0);
            f.push(Ins::LocalGet(scratch));
            emit(f, Ins::I32Const(stride as i32));
            emit(f, Ins::I32Mul);
            emit(f, Ins::I32Add);
            arg(f, map, vals, arguments, 1);
            emit_coerce(f, vals.value_type(arguments[1]), valtype(ctx.layouts, elem));
            emit_store(f, ctx.layouts, elem, 0);
            close_array_loop(f, scratch);
            assert(f.frames() =~= old(f).frames());
        },
        None => {},
    }
    assert(f.code() =~= old(f).code() + array_call_code(ctx, map, vals, scratch, value, *function, arguments@));
}

/// The element whose address is on the stack, loaded and widened to a list
/// slot unless it is an aggregate or empty.
pub open spec fn element_for_list_code(ctx: &LowerCtx, elem: TypeId) -> Seq<Ins> {
    if !ctx.layouts.shapes@[elem.0 as int].aggregate && ctx.layouts.types@[elem.0 as int].size != 0 {
        seq![spec_load_instruction(ctx.layouts, elem, 0)] + widen_code(spec_valtype(ctx.layouts, elem))
    } else {
        Seq::empty()
    }
}

/// Loads the element whose address is on the stack for a list push.
fn load_element_for_list(f: &mut Builder, ctx: &LowerCtx, elem: TypeId)
    requires
        open_for_code(*old(f)),
        ctx.wf(),
        known(ctx.layouts, elem),
    ensures
        continues(*old(f), *final(f)),
        final(f).code() == old(f).code() + element_for_list_code(ctx, elem),
{
    if !ctx.layouts.shapes[elem.0].aggregate && ctx.layouts.types[elem.0].size != 0 {
        emit_load(f, ctx.layouts, elem, 0);
        widen_to_slot(f, valtype(ctx.layouts, elem));
    }
    assert(f.code() =~= old(f).code() + element_for_list_code(ctx, elem));
}

/// `ArrayToList`: a fresh list with each element pushed in order.
#[verifier::rlimit(100)]
#[verifier::spinoff_prover]
fn lower_array_to_list(f: &mut Builder, ctx: &LowerCtx, body: &MirFunction, map: &LocalMap, vals: &Values, scratch: u32, value: Option<ValueId>, function: &BuiltinFunction, arguments: &Vec<ValueId>)
    requires
        env(ctx, body, map, vals, scratch, *old(f)),
        runtime_ready(ctx, vals, value, *function, arguments@),
        *function == BuiltinFunction::ArrayToList,
    ensures
        continues(*old(f), *final(f)),
        final(f).code() == old(f).code() + match (spec_array_of(ctx, vals, arguments@[0]), value) {
            (Some((elem, len)), Some(value_id)) => array_to_list_code(ctx, map, vals, scratch, value_id, elem, len, arguments@),
            _ => Seq::empty(),
        },
{
    match (array_of(ctx, vals, arguments[0]), value) {
        (Some((elem, len)), Some(value_id)) => {
            let stride = ctx.layouts.types[elem.0].size;
            let kind = element_kind(ctx.layouts, elem);
            let ghost c0 = f.code();
            emit(f, Ins::I32Const(kind));
            emit(f, Ins::I32Const(len as i32));
            emit(f, Ins::Call(ctx.rt.list_new));
            set(f, vals, value_id);
            let ghost c1 = f.code();
            assert(c1 =~= c0 + seq![Ins::I32Const(kind), Ins::I32Const(len as i32), Ins::Call(ctx.rt.list_new)]
                + set_code(vals, value_id));
            open_array_loop(f, scratch, len);
            let ghost c2 = f.code();
            assert(c2 =~= c1 + array_loop_head(scratch, len));
            get_arg(f, map, vals, value_id);
            arg(f, map, vals, arguments, 0);
            f.push(Ins::LocalGet(scratch));
            emit(f, Ins::I32Const(stride as i32));
            emit(f, Ins::I32Mul);
            emit(f, Ins::I32Add);
            let ghost c3 = f.code();
            assert(c3 =~= c2 + seq![Ins::LocalGet(vals.read_local(map, value_id))] + arg_code(map, vals, arguments@, 0)
                + element_at_scratch(scratch, stride));
            load_element_for_list(f, ctx, elem);
            let ghost c4 = f.code();
            emit(f, Ins::Call(ctx.rt.list_push));
            close_array_loop(f, scratch);
            assert(f.frames() =~= old(f).frames());
            assert(f.code() =~= c4 + seq![Ins::Call(ctx.rt.list_push)] + array_loop_step(scratch));
            assert(f.code() =~= old(f).code() + array_to_list_code(ctx, map, vals, scratch, value_id, elem, len, arguments@));
        },
        _ => {},
    }
}

/// `ArrayContains`: whether some element equals the second argument.
#[verifier::rlimit(100)]
#[verifier::spinoff_prover]
fn lower_array_contains(f: &mut Builder, ctx: &LowerCtx, body: &MirFunction, map: &LocalMap, vals: &Values, scratch: u32, value: Option<ValueId>, function: &BuiltinFunction, arguments: &Vec<ValueId>)
    requires
        env(ctx, body, map, vals, scratch, *old(f)),
        runtime_ready(ctx, vals, value, *function, arguments@),
        *function == BuiltinFunction::ArrayContains,
    ensures
        continues(*old(f), *final(f)),
        final(f).code() == old(f).code() + match (spec_array_of(ctx, vals, arguments@[0]), value) {
            (Some((elem, len)), Some(value_id)) => array_contains_code(ctx, map, vals, scratch, value_id, elem, len, arguments@),
            _ => Seq::empty(),
        },
{
    match (array_of(ctx, vals, arguments[0]), value) {
        (Some((elem, len)), Some(value_id)) => {
            let stride = ctx.layouts.types[elem.0].size;
            let kind = element_kind(ctx.layouts, elem);
            let ghost c0 = f.code();
            emit(f, Ins::I32Const(0));
            set(f, vals, value_id);
            let ghost c1 = f.code();
            assert(c1 =~= c0 + seq![Ins::I32Const(0)] + set_code(vals, value_id));
            open_array_loop(f, scratch, len);
            let ghost c2 = f.code();
            assert(c2 =~= c1 + array_loop_head(scratch, len));
            arg(f, map, vals, arguments, 0);
            f.push(Ins::LocalGet(scratch));
            emit(f, Ins::I32Const(stride as i32));
            emit(f, Ins::I32Mul);
            emit(f, Ins::I32Add);
            arg_as_i64(f, map, vals, arguments, 1);
            let ghost c3 = f.code();
            assert(c3 =~= c2 + arg_code(map, vals, arguments@, 0) + element_at_scratch(scratch, stride)
                + arg_i64_code(map, vals, arguments@, 1));
            emit(f, Ins::I32Const(kind));
            emit(f, Ins::Call(ctx.rt.ls_elem_eq));
            f.push(Ins::If(BlockTy::Empty));
            emit(f, Ins::I32Const(1));
            set(f, vals, value_id);
            let ghost c4 = f.code();
            assert(c4 =~= c3 + seq![Ins::I32Const(kind), Ins::Call(ctx.rt.ls_elem_eq), Ins::If(BlockTy::Empty), Ins::I32Const(1)]
                + set_code(vals, value_id));
            f.push(Ins::Br(2));
            f.push(Ins::End);
            close_array_loop(f, scratch);
            assert(f.frames() =~= old(f).frames());
            assert(f.code() =~= c4 + seq![Ins::Br(2), Ins::End] + array_loop_step(scratch));
            assert(f.code() =~= old(f).code() + array_contains_code(ctx, map, vals, scratch, value_id, elem, len, arguments@));
        },
        _ => {},
    }
}

/// The family of builtin `b` (see `builtin_family`).
fn family_of(b: &BuiltinFunction) -> (r: u8)
    ensures
        r == builtin_family(*b),
{
    match b {
        BuiltinFunction::ListAt | BuiltinFunction::ListAtUnchecked | BuiltinFunction::ListCapacity | BuiltinFunction::ListClear | BuiltinFunction::ListContains | BuiltinFunction::ListExtend | BuiltinFunction::ListFindIndex | BuiltinFunction::ListFirst | BuiltinFunction::ListInsert | BuiltinFunction::ListIsEmpty | BuiltinFunction::ListJoin | BuiltinFunction::ListLast | BuiltinFunction::ListLen | BuiltinFunction::ListNew | BuiltinFunction::ListPop | BuiltinFunction::ListPush | BuiltinFunction::ListRemove | BuiltinFunction::ListReserve | BuiltinFunction::ListReverse | BuiltinFunction::ListSet | BuiltinFunction::ListShrinkToFit | BuiltinFunction::ListSlice | BuiltinFunction::ListSwap | BuiltinFunction::ListTruncate | BuiltinFunction::Out | BuiltinFunction::Print => 0,
        BuiltinFunction::BytesAt | BuiltinFunction::BytesByteAt | BuiltinFunction::BytesCapacity | BuiltinFunction::BytesClear | BuiltinFunction::BytesClone | BuiltinFunction::BytesCompare | BuiltinFunction::BytesEndsWith | BuiltinFunction::BytesExtend | BuiltinFunction::BytesFind | BuiltinFunction::BytesFirst | BuiltinFunction::BytesFromList | BuiltinFunction::BytesIsEmpty | BuiltinFunction::BytesLast | BuiltinFunction::BytesLen | BuiltinFunction::BytesNew | BuiltinFunction::BytesPush | BuiltinFunction::BytesReadInt { .. } | BuiltinFunction::BytesReserve | BuiltinFunction::BytesResize | BuiltinFunction::BytesSet | BuiltinFunction::BytesSlice | BuiltinFunction::BytesStartsWith | BuiltinFunction::BytesToHex | BuiltinFunction::BytesToList | BuiltinFunction::BytesToStr | BuiltinFunction::BytesTruncate | BuiltinFunction::BytesWriteInt { .. } | BuiltinFunction::StringByteLen | BuiltinFunction::StringCharLen | BuiltinFunction::StringIsEmpty | BuiltinFunction::StringToBytes => 1,
        BuiltinFunction::StringCharAt | BuiltinFunction::StringChars | BuiltinFunction::StringCompare | BuiltinFunction::StringContains | BuiltinFunction::StringEndsWith | BuiltinFunction::StringEquals | BuiltinFunction::StringFind | BuiltinFunction::StringLines | BuiltinFunction::StringPadLeft | BuiltinFunction::StringPadRight | BuiltinFunction::StringRepeat | BuiltinFunction::StringReplace | BuiltinFunction::StringRfind | BuiltinFunction::StringSplit | BuiltinFunction::StringSplitWhitespace | BuiltinFunction::StringStartsWith | BuiltinFunction::StringStripPrefix | BuiltinFunction::StringStripSuffix | BuiltinFunction::StringSubstring | BuiltinFunction::StringToF64 | BuiltinFunction::StringToI64 | BuiltinFunction::StringToLower | BuiltinFunction::StringToUpper | BuiltinFunction::StringTrim | BuiltinFunction::StringTrimEnd | BuiltinFunction::StringTrimStart => 2,
        BuiltinFunction::MapCapacity | BuiltinFunction::MapClear | BuiltinFunction::MapContainsKey | BuiltinFunction::MapGet | BuiltinFunction::MapGetOr | BuiltinFunction::MapIsEmpty | BuiltinFunction::MapKeys | BuiltinFunction::MapLen | BuiltinFunction::MapNew | BuiltinFunction::MapRemove | BuiltinFunction::MapReserve | BuiltinFunction::MapSet | BuiltinFunction::MapValues => 3,
        BuiltinFunction::BoolToStr | BuiltinFunction::FloatToInt | BuiltinFunction::IntToFloat | BuiltinFunction::NumericCast { .. } | BuiltinFunction::NumericToStr => 4,
        BuiltinFunction::ArrayAt | BuiltinFunction::ArrayAtUnchecked | BuiltinFunction::ArrayContains | BuiltinFunction::ArrayFill | BuiltinFunction::ArrayFirst | BuiltinFunction::ArrayLast | BuiltinFunction::ArrayLen | BuiltinFunction::ArraySet | BuiltinFunction::ArrayToList => 5,
        BuiltinFunction::Other { .. } => 6,
    }
}

/// The code of a call of runtime builtin `b` with `arguments`: that of the
/// builtin's family (lists and printing, bytes, strings, maps, scalar
/// conversions, fixed-size arrays); none for a builtin that is not lowered.
pub open spec fn runtime_call_code(
    ctx: &LowerCtx,
    map: &LocalMap,
    vals: &Values,
    scratch: u32,
    value: Option<ValueId>,
    result_type: Option<TypeId>,
    b: BuiltinFunction,
    arguments: Seq<ValueId>,
) -> Seq<Ins> {
    let family = builtin_family(b);
    if family == 0 {
        list_call_code(ctx, map, vals, scratch, value, result_type, b, arguments)
    } else if family == 1 {
        bytes_call_code(ctx, map, vals, scratch, value, result_type, b, arguments)
    } else if family == 2 {
        string_call_code(ctx, map, vals, scratch, value, result_type, b, arguments)
    } else if family == 3 {
        map_call_code(ctx, map, vals, scratch, value, b, arguments)
    } else if family == 4 {
        value_call_code(ctx, map, vals, value, b, arguments)
    } else if family == 5 {
        array_call_code(ctx, map, vals, scratch, value, b, arguments)
    } else {
        Seq::empty()
    }
}

/// Lowers a call of runtime builtin `function` with `arguments`, storing
/// its result into `value` when there is one. Fails for a builtin the wasm
/// backend does not lower, for `bool` formatting without the `true` and
/// `false` literals, and for array indexing without the array's shape.
#[verifier::spinoff_prover]
fn lower_runtime_call(f: &mut Builder, ctx: &LowerCtx, body: &MirFunction, map: &LocalMap, vals: &Values, scratch: u32, value: Option<ValueId>, result_type: Option<TypeId>, function: &BuiltinFunction, arguments: &Vec<ValueId>) -> (r: Result<(), CodegenError>)
    requires
        env(ctx, body, map, vals, scratch, *old(f)),
        opt_known(ctx.layouts, result_type),
        runtime_ready(ctx, vals, value, *function, arguments@),
    ensures
        continues(*old(f), *final(f)),
        r is Ok <==> runtime_lowers(ctx, vals, *function, arguments@),
        r is Ok ==> final(f).code() == old(f).code() + runtime_call_code(ctx, map, vals, scratch, value, result_type, *function, arguments@),
        r matches Err(e) ==> e is Backend,
        r matches Err(CodegenError::Backend(m)) ==> m@ == runtime_error(ctx, *function),
        r is Err ==> final(f).code() == old(f).code(),
{
    match family_of(function) {
        0 => lower_list_call(f, ctx, body, map, vals, scratch, value, result_type, function, arguments),
        1 => lower_bytes_call(f, ctx, body, map, vals, scratch, value, result_type, function, arguments),
        2 => lower_string_call(f, ctx, body, map, vals, scratch, value, result_type, function, arguments),
        3 => lower_map_call(f, ctx, body, map, vals, scratch, value, result_type, function, arguments),
        4 => lower_value_call(f, ctx, body, map, vals, scratch, value, result_type, function, arguments),
        5 => lower_array_call(f, ctx, body, map, vals, scratch, value, result_type, function, arguments),
        _ => {
            let mut message = String::new();
            message.append("wasm backend: unsupported runtime call ");
            match function {
                BuiltinFunction::Other { text } => message.append(text.as_str()),
                _ => {},
            }
            Err(CodegenError::Backend(message))
        },
    }
}

/// An instruction can be lowered without a panic, given which values have a
/// local (`has`) and which can be read (`can_read`): every value it reads has
/// a local (or, for runtime calls, can be read), every MIR local it names is
/// one of the body's, every type whose layout it reads is in the table, a
/// frame slot access has the body's frame parameter, and an optional's
/// payload offset fits in `u64`.
pub open spec fn ins_ready_with(
    layouts: &LayoutTable,
    body: &MirFunction,
    has: spec_fn(ValueId) -> bool,
    can_read: spec_fn(ValueId) -> bool,
    ins: Instruction,
) -> bool {
    let n = body.locals@.len();
    match ins {
        Instruction::ConstFloat { ty, .. } | Instruction::ConstNull { ty, .. } => opt_known(layouts, ty),
        Instruction::Copy { local, .. } | Instruction::Move { local, .. } | Instruction::Borrow { local, .. }
        | Instruction::Drop { local } => local.0 < n,
        Instruction::Store { local, value } => local.0 < n && has(value),
        Instruction::Binary { operand_type, left, right, .. } => opt_known(layouts, operand_type) && has(left)
            && has(right),
        Instruction::Unary { operand, .. } => has(operand),
        Instruction::Call { result_type, arguments, .. } => opt_known(layouts, result_type) && all_in(has, arguments@),
        Instruction::CallIndirect { result_type, callable_ty, callee, arguments, .. } => opt_known(layouts, result_type)
            && opt_known(layouts, callable_ty) && has(callee) && all_in(has, arguments@),
        Instruction::RuntimeCall { value, result_type, function, arguments } => opt_known(layouts, result_type)
            && runtime_ready_with(layouts, has, can_read, value, function, arguments@),
        Instruction::AwaitFuture { handle, result_type, .. } => has(handle) && known(layouts, result_type),
        Instruction::StartFuture { result_type, arguments, .. } => opt_known(layouts, result_type)
            && all_in(has, arguments@),
        Instruction::Spawn { result_type, .. } => known(layouts, result_type),
        Instruction::ConstructInterface { ty, .. } => known(layouts, ty),
        Instruction::PollFuture { ready, frame, result_type, .. } => has(ready) && frame.0 < n
            && known(layouts, result_type),
        Instruction::FrameState { frame, .. } | Instruction::SetFrameState { frame, .. } => frame.0 < n,
        Instruction::SetFrameChild { frame, value } => frame.0 < n && has(value),
        Instruction::SpillValue { value, .. } => body.frame_param matches Some(p) && p < n && has(value),
        Instruction::ReloadValue { .. } => body.frame_param matches Some(p) && p < n,
        Instruction::Allocate { ty, .. } => known(layouts, ty),
        Instruction::LoadRaw { pointer, ty, .. } => has(pointer) && known(layouts, ty),
        Instruction::StoreRaw { pointer, value, ty, .. } => has(pointer) && has(value) && known(layouts, ty),
        Instruction::ConcatString { left, right, .. } => has(left) && has(right),
        Instruction::FormatValue { operand, ty, .. } | Instruction::MakeUnique { operand, ty, .. } => has(operand)
            && known(layouts, ty),
        Instruction::Retain { value, ty } | Instruction::Release { value, ty } => has(value) && known(layouts, ty),
        Instruction::ResultPayload { source, .. } | Instruction::EnumPayload { source, .. } => has(source),
        Instruction::ResultState { value, .. } | Instruction::EnumTag { value, .. } => has(value),
        Instruction::ConstructResult { ty, payload, .. } => known(layouts, ty) && has(payload),
        Instruction::OptionalWrap { operand, ty, inner, .. } => has(operand) && known(layouts, ty)
            && known(layouts, inner) && payload_offset_fits(layouts, inner),
        Instruction::OptionalUnwrap { operand, inner, .. } => has(operand) && known(layouts, inner)
            && payload_offset_fits(layouts, inner),
        Instruction::OptionalIsPresent { operand, inner, .. } => has(operand) && known(layouts, inner),
        Instruction::OptionalFromValue { present, payload, ty, inner, .. } => has(present) && has(payload)
            && known(layouts, ty) && known(layouts, inner) && payload_offset_fits(layouts, inner),
        Instruction::ConstructArray { ty, elements, .. } | Instruction::ConstructEnum { ty, payload: elements, .. } =>
            known(layouts, ty) && all_in(has, elements@),
        Instruction::Construct { ty, fields, .. } => known(layouts, ty)
            && forall|i: int| 0 <= i < fields@.len() ==> has(#[trigger] fields@[i].1),
        Instruction::Field { base, .. } => has(base),
        Instruction::FieldStore { base, value, .. } => base.0 < n && has(value),
        Instruction::BorrowField { base, .. } => base.0 < n,
        Instruction::CopyAggregate { source, ty, .. } => has(source) && known(layouts, ty),
        Instruction::IteratorInit { iterable, .. } => has(iterable),
        Instruction::IteratorNext { iterator, element_type, .. } => has(iterator) && known(layouts, element_type),
        Instruction::ConstructVariadicBuffer { element, elements, .. } => known(layouts, element)
            && all_in(has, elements@),
        Instruction::VariadicAt { data, index, element, .. } => has(data) && has(index)
            && known(layouts, element),
        _ => true,
    }
}

/// An instruction can be lowered without a panic with the value table `vals`.
pub open spec fn ins_ready(ctx: &LowerCtx, body: &MirFunction, vals: &Values, ins: Instruction) -> bool {
    ins_ready_with(ctx.layouts, body, |v: ValueId| vals.has(v), |v: ValueId| readable(vals, v), ins)
}

/// Every value of `vs` satisfies `has`.
pub open spec fn all_in(has: spec_fn(ValueId) -> bool, vs: Seq<ValueId>) -> bool {
    forall|i: int| 0 <= i < vs.len() ==> has(#[trigger] vs[i])
}

/// An instruction lowers successfully: its string literal, callee, callable
/// type, frame layout and poll entry, result layout, field or enum payload
/// are known; its binary operator exists for the operand type; its runtime
/// call lowers; and it is an instruction the backend lowers at all.
pub open spec fn lowers(ctx: &LowerCtx, body: &MirFunction, vals: &Values, ins: Instruction) -> bool {
    match ins {
        Instruction::ConstString { literal, .. } => has_string(ctx.strings@, literal@),
        Instruction::Binary { operand_type, op, .. } => binary_ins(
            op,
            operand_valtype(ctx.layouts, operand_type),
            operand_unsigned(ctx.layouts, operand_type),
        ) is Some,
        Instruction::Call { target, .. } => keyed(ctx.symbols@, target),
        Instruction::CallIndirect { callable_ty, .. } => callable_ty matches Some(t) && type_keyed(
            ctx.callable_types@,
            t,
        ),
        Instruction::RuntimeCall { function, arguments, .. } => runtime_lowers(ctx, vals, function, arguments@),
        Instruction::StartFuture { target, .. } => keyed(ctx.frames@, target) && keyed(ctx.poll_thunks@, target),
        Instruction::PollChannelRecv { .. } => false,
        Instruction::ResultPayload { source, .. } => value_result(ctx, vals, source) is Some,
        Instruction::Field { base, name, .. } => fields_at(ctx.layouts, vals.mir_of(base)) matches Some(fs)
            && has_field(fs@, name@),
        Instruction::FieldStore { base, name, .. } | Instruction::BorrowField { base, name, .. } => fields_at(
            ctx.layouts,
            local_type(body, base),
        ) matches Some(fs) && has_field(fs@, name@),
        Instruction::EnumPayload { ty, variant_index, field_index, .. } => has_enum_field(
            ctx.layouts,
            ty,
            variant_index,
            field_index,
        ),
        Instruction::MakeClosure { .. } | Instruction::ConstructInterface { .. } | Instruction::Other { .. } => false,
        _ => true,
    }
}

/// Instruction `ins` of `body` lowers, given the MIR type that the body
/// records for each of its values (`value_mir`): what `lowers` asks, with
/// those types in place of a value table's.
pub open spec fn instruction_lowers(ctx: &LowerCtx, body: &MirFunction, ins: Instruction) -> bool {
    match ins {
        Instruction::ConstString { literal, .. } => has_string(ctx.strings@, literal@),
        Instruction::Binary { operand_type, op, .. } => binary_ins(
            op,
            operand_valtype(ctx.layouts, operand_type),
            operand_unsigned(ctx.layouts, operand_type),
        ) is Some,
        Instruction::Call { target, .. } => keyed(ctx.symbols@, target),
        Instruction::CallIndirect { callable_ty, .. } => callable_ty matches Some(t) && type_keyed(
            ctx.callable_types@,
            t,
        ),
        Instruction::RuntimeCall { function, arguments, .. } => match function {
            BuiltinFunction::BoolToStr => has_string(ctx.strings@, "true"@) && has_string(ctx.strings@, "false"@),
            BuiltinFunction::ArrayAt | BuiltinFunction::ArrayAtUnchecked => match value_mir(body, arguments@[0]) {
                Some(t) => t.0 < ctx.layouts.shapes@.len() && ctx.layouts.shapes@[t.0 as int].array is Some,
                None => false,
            },
            BuiltinFunction::Other { .. } => false,
            _ => true,
        },
        Instruction::StartFuture { target, .. } => keyed(ctx.frames@, target) && keyed(ctx.poll_thunks@, target),
        Instruction::PollChannelRecv { .. } => false,
        Instruction::ResultPayload { source, .. } => match value_mir(body, source) {
            Some(t) => t.0 < ctx.layouts.shapes@.len() && ctx.layouts.shapes@[t.0 as int].result is Some,
            None => false,
        },
        Instruction::Field { base, name, .. } => fields_at(ctx.layouts, value_mir(body, base)) matches Some(fs)
            && has_field(fs@, name@),
        Instruction::FieldStore { base, name, .. } | Instruction::BorrowField { base, name, .. } => fields_at(
            ctx.layouts,
            local_type(body, base),
        ) matches Some(fs) && has_field(fs@, name@),
        Instruction::EnumPayload { ty, variant_index, field_index, .. } => has_enum_field(
            ctx.layouts,
            ty,
            variant_index,
            field_index,
        ),
        Instruction::MakeClosure { .. } | Instruction::ConstructInterface { .. } | Instruction::Other { .. } => false,
        _ => true,
    }
}

/// Every instruction of `body` lowers.
pub open spec fn body_lowers(ctx: &LowerCtx, body: &MirFunction) -> bool {
    forall|b: int, i: int| has_ins(body, b, i) ==> instruction_lowers(ctx, body, #[trigger] ins_at(body, b, i))
}

/// Instruction `i` of block `b` is the first, in block order, that does not
/// lower.
pub open spec fn first_failure(ctx: &LowerCtx, body: &MirFunction, b: int, i: int) -> bool {
    &&& has_ins(body, b, i)
    &&& !instruction_lowers(ctx, body, ins_at(body, b, i))
    &&& forall|bb: int, ii: int| has_ins(body, bb, ii) && (bb < b || (bb == b && ii < i))
        ==> instruction_lowers(ctx, body, #[trigger] ins_at(body, bb, ii))
}

/// With the body's own value types, `lowers` is `instruction_lowers`.
proof fn lemma_lowers_value_mir(ctx: &LowerCtx, body: &MirFunction, vals: &Values)
    requires
        forall|v: ValueId| #[trigger] vals.mir_of(v) == value_mir(body, v),
    ensures
        forall|ins: Instruction| lowers(ctx, body, vals, ins) == #[trigger] instruction_lowers(ctx, body, ins),
{
    assert forall|ins: Instruction| lowers(ctx, body, vals, ins) == #[trigger] instruction_lowers(ctx, body, ins) by {
        match ins {
            Instruction::RuntimeCall { arguments, .. } => {
                assert(vals.mir_of(arguments@[0]) == value_mir(body, arguments@[0]));
            },
            Instruction::ResultPayload { source, .. } => {
                assert(vals.mir_of(source) == value_mir(body, source));
            },
            Instruction::Field { base, .. } => {
                assert(vals.mir_of(base) == value_mir(body, base));
            },
            _ => {},
        }
    }
}

/// The message of the error that lowering `ins` reports when `lowers` does
/// not hold of it.
pub open spec fn lowering_error(ctx: &LowerCtx, body: &MirFunction, ins: Instruction) -> Seq<char> {
    match ins {
        Instruction::ConstString { literal, .. } => "wasm backend: unregistered string literal `"@ + literal@ + "`"@,
        Instruction::Binary { operand_type, op, .. } => "wasm backend: unsupported binary op "@ + op_name(op) + " on "@
            + valtype_label(operand_valtype(ctx.layouts, operand_type)),
        Instruction::Call { target, .. } => "wasm: unknown function "@ + "SymbolId("@ + decimal(target.0 as nat) + ")"@
            + ""@,
        Instruction::CallIndirect { .. } => "wasm backend: unknown callable type"@,
        Instruction::RuntimeCall { function, .. } => runtime_error(ctx, function),
        Instruction::StartFuture { target, .. } => "wasm: async fn "@ + decimal(target.0 as nat) + (if keyed(
            ctx.frames@,
            target,
        ) {
            " has no poll entry"@
        } else {
            " has no frame layout"@
        }),
        Instruction::PollChannelRecv { .. } => "wasm backend: "@ + "channel recv on wasm"@
            + " is not supported yet (function "@ + decimal(body.symbol.0 as nat) + ")"@,
        Instruction::ResultPayload { .. } => "wasm backend: result payload without a known result type"@,
        Instruction::Field { name, .. } | Instruction::FieldStore { name, .. } | Instruction::BorrowField {
            name,
            ..
        } => "wasm backend: unknown field `"@ + name@ + "`"@,
        Instruction::EnumPayload { .. } => "wasm backend: unknown enum payload"@,
        Instruction::MakeClosure { text, .. } | Instruction::ConstructInterface { text, .. } | Instruction::Other {
            text,
        } => "wasm backend: unsupported instruction "@ + text@,
        _ => Seq::empty(),
    }
}

/// The error for a feature the wasm backend does not support yet.
fn unsupported(body: &MirFunction, what: &str) -> (r: CodegenError)
    ensures
        r matches CodegenError::Backend(m) && m@ == "wasm backend: "@ + what@ + " is not supported yet (function "@
            + decimal(body.symbol.0 as nat) + ")"@,
{
    let mut message = String::new();
    message.append("wasm backend: ");
    message.append(what);
    message.append(" is not supported yet (function ");
    push_decimal(&mut message, body.symbol.0 as u64);
    message.append(")");
    CodegenError::Backend(message)
}

/// The error for an instruction the wasm backend does not lower.
fn unsupported_instruction(text: &str) -> (r: CodegenError)
    ensures
        r matches CodegenError::Backend(m) && m@ == "wasm backend: unsupported instruction "@ + text@,
{
    let mut message = String::new();
    message.append("wasm backend: unsupported instruction ");
    message.append(text);
    CodegenError::Backend(message)
}

/// Lowers one MIR instruction, appending its code to `f`. Fails exactly when
/// `lowers` does not hold; the code stays well formed either way.
#[verifier::rlimit(60)]
/// The code of `FrameState`: the frame's state word, widened to `i64`, into
/// the value.
pub open spec fn frame_state_code(ctx: &LowerCtx, map: &LocalMap, vals: &Values, value: ValueId, frame: LocalId) -> Seq<Ins> {
    seq![
        Ins::LocalGet(map.slots()[frame.0 as int]),
        Ins::I32Load(spec_memarg(ctx.frame_state_offset as i64)),
        Ins::I64ExtendI32U,
    ] + set_code(vals, value)
}

/// The code of `ReloadValue`: the value's frame slot loaded back into it.
pub open spec fn reload_code(body: &MirFunction, map: &LocalMap, vals: &Values, value: ValueId, slot: usize) -> Seq<Ins> {
    seq![
        Ins::LocalGet(map.slots()[body.frame_param->0 as int]),
        spec_mem_load(vals.vty_of(value), slot as i32),
    ] + set_code(vals, value)
}

/// The code of `Allocate`: a heap block of the type's size.
pub open spec fn allocate_code(ctx: &LowerCtx, vals: &Values, value: ValueId, ty: TypeId) -> Seq<Ins> {
    seq![Ins::I32Const(ctx.layouts.types@[ty.0 as int].size as i32), Ins::Call(ctx.rt.alloc)] + set_code(vals, value)
}

/// The code of `LoadRaw`: a load of `ty` at `offset` from the pointer.
pub open spec fn load_raw_code(ctx: &LowerCtx, vals: &Values, value: ValueId, pointer: ValueId, offset: i64, ty: TypeId) -> Seq<Ins> {
    seq![Ins::LocalGet(vals.slot(pointer).local), spec_load_instruction(ctx.layouts, ty, offset)] + set_code(vals, value)
}

/// The code of `StoreRaw`: the pointer, the value converted to `ty`, and a
/// store of `ty` at `offset`.
pub open spec fn store_raw_code(ctx: &LowerCtx, vals: &Values, pointer: ValueId, offset: i64, value: ValueId, ty: TypeId) -> Seq<Ins> {
    seq![Ins::LocalGet(vals.slot(pointer).local), Ins::LocalGet(vals.slot(value).local)]
        + coerce_code(vals.type_of(value), spec_valtype(ctx.layouts, ty))
        + seq![spec_store_instruction(ctx.layouts, ty, offset)]
}

/// The code of `AwaitFuture`: the runtime awaits the handle into the poll
/// scratch area, and the result is loaded from there.
pub open spec fn await_code(ctx: &LowerCtx, vals: &Values, value: ValueId, handle: ValueId, result_type: TypeId) -> Seq<Ins> {
    seq![
        Ins::LocalGet(vals.slot(handle).local),
        Ins::I32Const(POLL_SCRATCH),
        Ins::Call(ctx.async_rt.future_await),
        Ins::Drop,
        Ins::I32Const(POLL_SCRATCH),
        spec_mem_load(spec_valtype(ctx.layouts, result_type), 0),
    ] + set_code(vals, value)
}

/// The code of `Spawn`: a known callable called to completion, its result
/// dropped.
pub open spec fn spawn_code(ctx: &LowerCtx, vals: &Values, value: ValueId, callable: SymbolId) -> Seq<Ins> {
    let run = if keyed(ctx.symbols@, callable) {
        seq![Ins::Call(symbol_value(ctx.symbols@, callable)), Ins::Drop]
    } else {
        Seq::empty()
    };
    run + set_code(vals, value)
}

/// The code of `FormatValue`: a float, promoted to `f64`, through the float
/// formatter; anything else, widened to `i64` by its signedness, through the
/// integer formatter.
pub open spec fn format_code(ctx: &LowerCtx, vals: &Values, value: ValueId, operand: ValueId, ty: TypeId, unsigned: bool) -> Seq<Ins> {
    let get = Ins::LocalGet(vals.slot(operand).local);
    let formatted = if ctx.layouts.types@[ty.0 as int].repr == ValueRepr::Float {
        seq![get] + (if vals.type_of(operand) == Some(ValTy::F32) { seq![Ins::F64PromoteF32] } else { Seq::empty() })
            + seq![Ins::Call(ctx.rt.fmt_f64)]
    } else {
        seq![get] + (if vals.vty_of(operand) == ValTy::I32 {
            seq![if unsigned { Ins::I64ExtendI32U } else { Ins::I64ExtendI32S }]
        } else {
            Seq::empty()
        }) + seq![Ins::Call(ctx.rt.format)]
    };
    formatted + set_code(vals, value)
}

/// The code of `Retain` and `Release`: the type's helper called on the value
/// when it is not null; nothing for a type the runtime does not count.
pub open spec fn retain_release_code(ctx: &LowerCtx, vals: &Values, value: ValueId, ty: TypeId, retain: bool) -> Seq<Ins> {
    let ownership = ctx.layouts.types@[ty.0 as int].ownership;
    let target = if retain { spec_retain_call(*ctx.rt, ownership) } else { spec_release_call(*ctx.rt, ownership) };
    match target {
        Some(t) => {
            let l = vals.slot(value).local;
            seq![Ins::LocalGet(l), Ins::If(BlockTy::Empty), Ins::LocalGet(l), Ins::Call(t), Ins::End]
        },
        None => Seq::empty(),
    }
}

/// The code of `ConcatString`: the runtime's concatenation of the operands.
pub open spec fn concat_code(ctx: &LowerCtx, vals: &Values, value: ValueId, left: ValueId, right: ValueId) -> Seq<Ins> {
    seq![Ins::LocalGet(vals.slot(left).local), Ins::LocalGet(vals.slot(right).local), Ins::Call(ctx.rt.concat)]
        + set_code(vals, value)
}

/// The code of `MakeFunction`: the function's index (its table entry), 0
/// for an unknown symbol.
pub open spec fn make_function_code(ctx: &LowerCtx, vals: &Values, value: ValueId, symbol: SymbolId) -> Seq<Ins> {
    let index = if keyed(ctx.symbols@, symbol) { symbol_value(ctx.symbols@, symbol) } else { 0 };
    seq![Ins::I32Const(index as i32)] + set_code(vals, value)
}

/// The code that lowering appends for an instruction: for each kind of
/// instruction, what it computes, stored into the value's local. `None`
/// exactly for an instruction that does not lower (see `lowers`).
pub open spec fn simple_code(ctx: &LowerCtx, body: &MirFunction, map: &LocalMap, vals: &Values, scratch: u32, ins: Instruction) -> Option<Seq<Ins>> {
    match ins {
        Instruction::ConstInt { value, literal } => Some(seq![Ins::I64Const(literal)] + set_code(vals, value)),
        Instruction::ConstBool { value, literal } => Some(
            seq![Ins::I32Const(if literal { 1 } else { 0 })] + set_code(vals, value),
        ),
        Instruction::Copy { value, local } => Some(seq![Ins::LocalGet(map.slots()[local.0 as int])] + set_code(vals, value)),
        Instruction::Move { value, local } => Some(seq![Ins::LocalGet(map.slots()[local.0 as int])] + set_code(vals, value)),
        Instruction::Binary { operand_type, value, op, left, right } => {
            let ty = operand_valtype(ctx.layouts, operand_type);
            match binary_ins(op, ty, operand_unsigned(ctx.layouts, operand_type)) {
                Some(i) => Some(binary_code(vals, ty, i, value, left, right)),
                None => None,
            }
        },
        Instruction::Unary { value, op, operand } => Some(unary_code(vals, value, op, operand)),
        Instruction::ConstFloat { value, bits, single_bits, ty } => Some(
            const_float_code(ctx, vals, value, bits, single_bits, ty),
        ),
        Instruction::ConstString { value, literal } => if has_string(ctx.strings@, literal@) {
            Some(const_string_code(ctx, vals, value, literal@))
        } else {
            None
        },
        Instruction::Call { value, result_type, target, arguments } => if keyed(ctx.symbols@, target) {
            Some(call_code(ctx, vals, value, result_type, target, arguments@))
        } else {
            None
        },
        Instruction::RuntimeCall { value, result_type, function, arguments } => if runtime_lowers(
            ctx,
            vals,
            function,
            arguments@,
        ) {
            Some(runtime_call_code(ctx, map, vals, scratch, value, result_type, function, arguments@))
        } else {
            None
        },
        Instruction::StartFuture { value, target, arguments, .. } => if keyed(ctx.frames@, target) && keyed(
            ctx.poll_thunks@,
            target,
        ) {
            Some(start_future_code(ctx, vals, scratch, value, target, arguments@))
        } else {
            None
        },
        Instruction::CallIndirect { value, callable_ty, callee, arguments, .. } => if callable_ty matches Some(t)
            && type_keyed(ctx.callable_types@, t) {
            Some(call_indirect_code(ctx, vals, value, callable_ty->0, callee, arguments@))
        } else {
            None
        },
        Instruction::Field { value, base, name } => if fields_at(ctx.layouts, vals.mir_of(base)) matches Some(fs)
            && has_field(fs@, name@) {
            Some(field_code(ctx, vals, value, base, name@))
        } else {
            None
        },
        Instruction::FieldStore { base, name, value } => if fields_at(ctx.layouts, local_type(body, base)) matches Some(fs)
            && has_field(fs@, name@) {
            Some(field_store_code(ctx, body, map, vals, base, name@, value))
        } else {
            None
        },
        Instruction::BorrowField { value, base, name } => if fields_at(ctx.layouts, local_type(body, base)) matches Some(fs)
            && has_field(fs@, name@) {
            Some(borrow_field_code(ctx, body, map, vals, value, base, name@))
        } else {
            None
        },
        Instruction::ResultPayload { value, source, ok } => if value_result(ctx, vals, source) is Some {
            Some(result_payload_code(ctx, vals, value, source, ok))
        } else {
            None
        },
        Instruction::EnumPayload { value, source, ty, variant_index, field_index } => if has_enum_field(
            ctx.layouts,
            ty,
            variant_index,
            field_index,
        ) {
            Some(enum_payload_code(ctx, vals, value, source, ty, variant_index, field_index))
        } else {
            None
        },
        Instruction::TypeRetain { value } | Instruction::TypeRelease { value } => Some(
            seq![Ins::I32Const(0)] + set_code(vals, value),
        ),
        Instruction::FrameState { value, frame } => Some(frame_state_code(ctx, map, vals, value, frame)),
        Instruction::SetFrameState { frame, state } => Some(seq![
            Ins::LocalGet(map.slots()[frame.0 as int]),
            Ins::I32Const(state as i32),
            Ins::I32Store(spec_memarg(ctx.frame_state_offset as i64)),
        ]),
        Instruction::SetFrameChild { frame, value } => Some(seq![
            Ins::LocalGet(map.slots()[frame.0 as int]),
            Ins::LocalGet(vals.slot(value).local),
            Ins::I32Store(spec_memarg(ctx.frame_child_offset as i64)),
        ]),
        Instruction::SpillValue { slot, value } => Some(seq![
            Ins::LocalGet(map.slots()[body.frame_param->0 as int]),
            Ins::LocalGet(vals.slot(value).local),
            spec_mem_store(vals.vty_of(value), slot as i32),
        ]),
        Instruction::ReloadValue { value, slot } => Some(reload_code(body, map, vals, value, slot)),
        Instruction::MakeFunction { value, symbol } => Some(make_function_code(ctx, vals, value, symbol)),
        Instruction::Allocate { value, ty } => Some(allocate_code(ctx, vals, value, ty)),
        Instruction::ConcatString { value, left, right } => Some(concat_code(ctx, vals, value, left, right)),
        Instruction::AwaitFuture { value, handle, result_type } => Some(await_code(ctx, vals, value, handle, result_type)),
        Instruction::Spawn { value, callable, .. } => Some(spawn_code(ctx, vals, value, callable)),
        Instruction::FormatValue { value, operand, ty, unsigned } => Some(format_code(ctx, vals, value, operand, ty, unsigned)),
        Instruction::Retain { value, ty } => Some(retain_release_code(ctx, vals, value, ty, true)),
        Instruction::Release { value, ty } => Some(retain_release_code(ctx, vals, value, ty, false)),
        Instruction::Borrow { value, local } => Some(borrow_code(ctx, body, map, vals, scratch, value, local)),
        Instruction::Store { local, value } => Some(store_code_of(ctx, body, map, vals, local, value)),
        Instruction::PollFuture { value, ready, frame, result_type } => Some(
            poll_future_code(ctx, map, vals, value, ready, frame, result_type),
        ),
        Instruction::Drop { local } => Some(drop_code(ctx, body, map, local)),
        Instruction::MakeUnique { value, operand, ty } => Some(make_unique_code(ctx, vals, value, operand, ty)),
        Instruction::ResultState { result, value, ok } => Some(result_state_code(ctx, vals, result, value, ok)),
        Instruction::ConstructResult { value, ty, ok, payload } => Some(
            construct_result_code(ctx, vals, scratch, value, ty, ok, payload),
        ),
        Instruction::ConstNull { value, ty } => Some(const_null_code(ctx, vals, scratch, value, ty)),
        Instruction::OptionalWrap { value, operand, ty, inner } => Some(
            optional_wrap_code(ctx, vals, scratch, value, operand, ty, inner),
        ),
        Instruction::OptionalUnwrap { value, operand, inner } => Some(optional_unwrap_code(ctx, vals, value, operand, inner)),
        Instruction::OptionalIsPresent { value, operand, inner } => Some(
            optional_is_present_code(ctx, vals, value, operand, inner),
        ),
        Instruction::OptionalFromValue { value, present, payload, ty, inner } => Some(
            optional_from_value_code(ctx, vals, scratch, value, present, payload, ty, inner),
        ),
        Instruction::EnumTag { result, value, ty } => Some(enum_tag_code(ctx, vals, result, value, ty)),
        Instruction::CopyAggregate { value, source, ty } => Some(copy_aggregate_code(ctx, vals, scratch, value, source, ty)),
        Instruction::ConstructArray { value, ty, elements } => Some(
            construct_array_code(ctx, vals, scratch, value, ty, elements@),
        ),
        Instruction::Construct { value, ty, fields } => Some(construct_code(ctx, vals, scratch, value, ty, fields@)),
        Instruction::ConstructEnum { value, ty, variant_index, payload } => Some(
            construct_enum_code(ctx, vals, scratch, value, ty, variant_index, payload@),
        ),
        Instruction::IteratorInit { iterator, iterable, length, stride } => Some(
            iterator_init_code(ctx, vals, scratch, iterator, iterable, length, stride),
        ),
        Instruction::IteratorNext { has_value, value, index, iterator, element_type } => Some(
            iterator_next_code(ctx, vals, scratch, has_value, value, index, iterator, element_type),
        ),
        Instruction::ConstructVariadicBuffer { value, element, elements } => Some(
            variadic_buffer_code(ctx, vals, scratch, value, element, elements@),
        ),
        Instruction::VariadicAt { value, data, index, element } => Some(variadic_at_code(ctx, vals, value, data, index, element)),
        Instruction::LoadRaw { value, pointer, offset, ty } => Some(load_raw_code(ctx, vals, value, pointer, offset, ty)),
        Instruction::StoreRaw { pointer, offset, value, ty } => Some(store_raw_code(ctx, vals, pointer, offset, value, ty)),
        _ => None,
    }
}

#[verifier::spinoff_prover]
fn lower_instruction(f: &mut Builder, ctx: &LowerCtx, body: &MirFunction, map: &LocalMap, vals: &Values, scratch: u32, instruction: &Instruction) -> (r: Result<(), CodegenError>)
    requires
        env(ctx, body, map, vals, scratch, *old(f)),
        ins_ready(ctx, body, vals, *instruction),
    ensures
        continues(*old(f), *final(f)),
        r is Ok <==> lowers(ctx, body, vals, *instruction),
        r matches Err(e) ==> e is Backend,
        r matches Err(CodegenError::Backend(m)) ==> m@ == lowering_error(ctx, body, *instruction),
        r is Err ==> final(f).code() == old(f).code(),
        r is Ok ==> simple_code(ctx, body, map, vals, scratch, *instruction) is Some,
        simple_code(ctx, body, map, vals, scratch, *instruction) matches Some(c) ==> final(f).code() == old(f).code() + c,
{
    proof {
        if lowers(ctx, body, vals, *instruction) {
            lemma_lowers_coded(ctx, body, map, vals, scratch, *instruction);
        }
    }
    match instruction {
        Instruction::ConstInt { value, literal } => {
            emit(f, Ins::I64Const(*literal));
            set(f, vals, *value);
            assert(f.code() =~= old(f).code() + (seq![Ins::I64Const(*literal)] + set_code(vals, *value)));
            Ok(())
        },
        Instruction::ConstBool { value, literal } => {
            emit(f, Ins::I32Const(if *literal { 1 } else { 0 }));
            set(f, vals, *value);
            assert(f.code() =~= old(f).code() + (seq![Ins::I32Const(if *literal { 1 } else { 0 })] + set_code(vals, *value)));
            Ok(())
        },
        Instruction::ConstFloat { value, bits, single_bits, ty } => {
            lower_const_float(f, ctx, vals, *value, *bits, *single_bits, *ty);
            Ok(())
        },
        Instruction::ConstString { value, literal } => lower_const_string(f, ctx, vals, *value, literal),
        Instruction::Copy { value, local } | Instruction::Move { value, local } => {
            get_local(f, map, *local);
            set(f, vals, *value);
            assert(f.code() =~= old(f).code() + (seq![Ins::LocalGet(map.slots()[local.0 as int])] + set_code(vals, *value)));
            Ok(())
        },
        Instruction::Borrow { value, local } => {
            lower_borrow(f, ctx, body, map, vals, scratch, *value, *local);
            Ok(())
        },
        Instruction::Store { local, value } => {
            lower_store(f, ctx, body, map, vals, scratch, *local, *value);
            Ok(())
        },
        Instruction::Binary { operand_type, value, op, left, right } => lower_binary(
            f,
            ctx,
            vals,
            *operand_type,
            *value,
            *op,
            *left,
            *right,
        ),
        Instruction::Unary { value, op, operand } => {
            lower_unary(f, vals, *value, *op, *operand);
            Ok(())
        },
        Instruction::Call { value, result_type, target, arguments } => lower_call(
            f,
            ctx,
            vals,
            *value,
            *result_type,
            *target,
            arguments,
        ),
        Instruction::AwaitFuture { value, handle, result_type } => {
            lower_await(f, ctx, vals, *value, *handle, *result_type);
            Ok(())
        },
        Instruction::Spawn { value, callable, .. } => {
            lower_spawn(f, ctx, vals, *value, *callable);
            Ok(())
        },
        Instruction::FrameState { value, frame } => {
            lower_frame_state(f, ctx, map, vals, *value, *frame);
            Ok(())
        },
        Instruction::SetFrameState { frame, state } => {
            lower_set_frame_state(f, ctx, map, *frame, *state);
            Ok(())
        },
        Instruction::SetFrameChild { frame, value } => {
            lower_set_frame_child(f, ctx, map, vals, *frame, *value);
            Ok(())
        },
        Instruction::SpillValue { slot, value } => {
            lower_spill(f, body, map, vals, *slot, *value);
            Ok(())
        },
        Instruction::ReloadValue { value, slot } => {
            lower_reload(f, body, map, vals, *value, *slot);
            Ok(())
        },
        Instruction::PollFuture { value, ready, frame, result_type } => {
            lower_poll_future(f, ctx, map, vals, *value, *ready, *frame, *result_type);
            Ok(())
        },
        Instruction::PollChannelRecv { .. } => Err(unsupported(body, "channel recv on wasm")),
        Instruction::StartFuture { value, target, arguments, .. } => lower_start_future(
            f,
            ctx,
            vals,
            scratch,
            *value,
            *target,
            arguments,
        ),
        Instruction::MakeFunction { value, symbol } => {
            lower_make_function(f, ctx, vals, *value, *symbol);
            Ok(())
        },
        Instruction::Allocate { value, ty } => {
            lower_allocate(f, ctx, vals, *value, *ty);
            Ok(())
        },
        Instruction::LoadRaw { value, pointer, offset, ty } => {
            lower_load_raw(f, ctx, vals, *value, *pointer, *offset, *ty);
            Ok(())
        },
        Instruction::StoreRaw { pointer, offset, value, ty } => {
            lower_store_raw(f, ctx, vals, *pointer, *offset, *value, *ty);
            Ok(())
        },
        Instruction::ConcatString { value, left, right } => {
            lower_concat(f, ctx, vals, *value, *left, *right);
            Ok(())
        },
        Instruction::FormatValue { value, operand, ty, unsigned } => {
            lower_format_value(f, ctx, vals, *value, *operand, *ty, *unsigned);
            Ok(())
        },
        Instruction::RuntimeCall { value, result_type, function, arguments } => lower_runtime_call(
            f,
            ctx,
            body,
            map,
            vals,
            scratch,
            *value,
            *result_type,
            function,
            arguments,
        ),
        Instruction::Retain { value, ty } => {
            lower_retain_release(f, ctx, vals, *value, *ty, true);
            Ok(())
        },
        Instruction::Release { value, ty } => {
            lower_retain_release(f, ctx, vals, *value, *ty, false);
            Ok(())
        },
        Instruction::Drop { local } => {
            lower_drop(f, ctx, body, map, vals, scratch, *local);
            Ok(())
        },
        // Type retain/release callbacks are null (no element retain/release).
        Instruction::TypeRetain { value } | Instruction::TypeRelease { value } => {
            emit(f, Ins::I32Const(0));
            set(f, vals, *value);
            assert(f.code() =~= old(f).code() + (seq![Ins::I32Const(0)] + set_code(vals, *value)));
            Ok(())
        },
        Instruction::MakeUnique { value, operand, ty } => {
            lower_make_unique(f, ctx, vals, *value, *operand, *ty);
            Ok(())
        },
        Instruction::ResultPayload { value, source, ok } => lower_result_payload(f, ctx, vals, *value, *source, *ok),
        Instruction::ResultState { result, value, ok } => {
            lower_result_state(f, ctx, vals, *result, *value, *ok);
            Ok(())
        },
        Instruction::ConstructResult { value, ty, ok, payload } => {
            lower_construct_result(f, ctx, vals, scratch, *value, *ty, *ok, *payload);
            Ok(())
        },
        Instruction::ConstNull { value, ty } => {
            lower_const_null(f, ctx, vals, scratch, *value, *ty);
            Ok(())
        },
        Instruction::OptionalWrap { value, operand, ty, inner } => {
            lower_optional_wrap(f, ctx, vals, scratch, *value, *operand, *ty, *inner);
            Ok(())
        },
        Instruction::OptionalUnwrap { value, operand, inner } => {
            lower_optional_unwrap(f, ctx, vals, *value, *operand, *inner);
            Ok(())
        },
        Instruction::OptionalIsPresent { value, operand, inner } => {
            lower_optional_is_present(f, ctx, vals, *value, *operand, *inner);
            Ok(())
        },
        Instruction::OptionalFromValue { value, present, payload, ty, inner } => {
            lower_optional_from_value(f, ctx, vals, scratch, *value, *present, *payload, *ty, *inner);
            Ok(())
        },
        Instruction::ConstructArray { value, ty, elements } => {
            lower_construct_array(f, ctx, vals, scratch, *value, *ty, elements);
            Ok(())
        },
        Instruction::Construct { value, ty, fields } => {
            lower_construct(f, ctx, vals, scratch, *value, *ty, fields);
            Ok(())
        },
        Instruction::Field { value, base, name } => lower_field(f, ctx, vals, *value, *base, name),
        Instruction::FieldStore { base, name, value } => lower_field_store(
            f,
            ctx,
            body,
            map,
            vals,
            scratch,
            *base,
            name,
            *value,
        ),
        Instruction::BorrowField { value, base, name } => lower_borrow_field(
            f,
            ctx,
            body,
            map,
            vals,
            scratch,
            *value,
            *base,
            name,
        ),
        Instruction::CopyAggregate { value, source, ty } => {
            lower_copy_aggregate(f, ctx, vals, scratch, *value, *source, *ty);
            Ok(())
        },
        Instruction::EnumTag { result, value, ty } => {
            lower_enum_tag(f, ctx, vals, *result, *value, *ty);
            Ok(())
        },
        Instruction::ConstructEnum { value, ty, variant_index, payload } => {
            lower_construct_enum(f, ctx, vals, scratch, *value, *ty, *variant_index, payload);
            Ok(())
        },
        Instruction::EnumPayload { value, source, ty, variant_index, field_index } => lower_enum_payload(
            f,
            ctx,
            vals,
            *value,
            *source,
            *ty,
            *variant_index,
            *field_index,
        ),
        Instruction::IteratorInit { iterator, iterable, length, stride } => {
            lower_iterator_init(f, ctx, vals, scratch, *iterator, *iterable, *length, *stride);
            Ok(())
        },
        Instruction::IteratorNext { has_value, value, index, iterator, element_type } => {
            lower_iterator_next(f, ctx, vals, scratch, *has_value, *value, *index, *iterator, *element_type);
            Ok(())
        },
        Instruction::CallIndirect { value, callable_ty, callee, arguments, .. } => lower_call_indirect(
            f,
            ctx,
            vals,
            *value,
            *callable_ty,
            *callee,
            arguments,
        ),
        Instruction::ConstructVariadicBuffer { value, element, elements } => {
            lower_variadic_buffer(f, ctx, vals, scratch, *value, *element, elements);
            Ok(())
        },
        Instruction::VariadicAt { value, data, index, element } => {
            lower_variadic_at(f, ctx, vals, *value, *data, *index, *element);
            Ok(())
        },
        Instruction::MakeClosure { text, .. } | Instruction::ConstructInterface { text, .. }
        | Instruction::Other { text } => Err(unsupported_instruction(text.as_str())),
    }
}

impl Values {
    /// A table with no values and no borrows.
    pub fn new() -> (r: Values)
        ensures
            r.slots@.len() == 0,
            r.borrows@.len() == 0,
    {
        Values { slots: Vec::new(), borrows: Vec::new() }
    }

    /// Records `v` with local `local` and wasm type `ty` (replacing an
    /// earlier record of `v`), and with MIR type `mir` when that is known.
    pub fn record(&mut self, v: ValueId, local: u32, ty: ValTy, mir: Option<TypeId>)
        requires
            old(self).unique(),
        ensures
            final(self).unique(),
            final(self).has(v),
            forall|w: ValueId| old(self).has(w) ==> final(self).has(w),
            final(self).borrows@ == old(self).borrows@,
            forall|i: int| 0 <= i < final(self).slots@.len() ==> {
                let s = #[trigger] final(self).slots@[i];
                (s.value == v && s.local == local && s.ty == ty)
                    || exists|j: int| 0 <= j < old(self).slots@.len() && old(self).slots@[j].local == s.local
                    && old(self).slots@[j].ty == s.ty
            },
            forall|i: int| 0 <= i < final(self).slots@.len() ==> {
                let s = #[trigger] final(self).slots@[i];
                (s.mir is None) || s.mir == mir
                    || exists|j: int| 0 <= j < old(self).slots@.len() && old(self).slots@[j].mir == s.mir
            },
            forall|w: ValueId| #[trigger] final(self).mir_of(w) == (if w == v && mir is Some {
                mir
            } else {
                old(self).mir_of(w)
            }),
    {
        match self.find(v) {
            Some(i) => {
                let previous = self.slots[i].mir;
                let kept = match mir {
                    Some(t) => Some(t),
                    None => previous,
                };
                self.slots.set(i, ValueSlot { value: v, local, ty, mir: kept });
                assert forall|w: ValueId| old(self).has(w) implies self.has(w) by {
                    let j = choose|j: int| 0 <= j < old(self).slots@.len() && (#[trigger] old(self).slots@[j]).value == w;
                    assert(self.slots@[j].value == w);
                }
                assert forall|w: ValueId| #[trigger] self.mir_of(w) == (if w == v && mir is Some {
                    mir
                } else {
                    old(self).mir_of(w)
                }) by {
                    old(self).lemma_slot_unique(w);
                    self.lemma_slot_unique(w);
                    if w == v {
                        assert(self.slots@[i as int].value == v);
                        assert(old(self).slots@[i as int].value == v);
                    } else if old(self).has(w) {
                        let j = choose|j: int| 0 <= j < old(self).slots@.len() && (#[trigger] old(self).slots@[j]).value == w;
                        assert(self.slots@[j] == old(self).slots@[j]);
                    } else {
                        assert forall|j: int| 0 <= j < self.slots@.len() implies (#[trigger] self.slots@[j]).value != w by {
                            if j != i {
                                assert(self.slots@[j] == old(self).slots@[j]);
                            }
                        }
                    }
                }
            },
            None => {
                self.slots.push(ValueSlot { value: v, local, ty, mir });
                assert(self.slots@[self.slots@.len() - 1].value == v);
                assert forall|w: ValueId| old(self).has(w) implies self.has(w) by {
                    let j = choose|j: int| 0 <= j < old(self).slots@.len() && (#[trigger] old(self).slots@[j]).value == w;
                    assert(self.slots@[j].value == w);
                }
                assert forall|w: ValueId| #[trigger] self.mir_of(w) == (if w == v && mir is Some {
                    mir
                } else {
                    old(self).mir_of(w)
                }) by {
                    old(self).lemma_slot_unique(w);
                    self.lemma_slot_unique(w);
                    let n = old(self).slots@.len() as int;
                    if w == v {
                        assert(self.slots@[n].value == v);
                    } else if old(self).has(w) {
                        let j = choose|j: int| 0 <= j < old(self).slots@.len() && (#[trigger] old(self).slots@[j]).value == w;
                        assert(self.slots@[j] == old(self).slots@[j]);
                    } else {
                        assert forall|j: int| 0 <= j < self.slots@.len() implies (#[trigger] self.slots@[j]).value != w by {
                            if j < n {
                                assert(self.slots@[j] == old(self).slots@[j]);
                            }
                        }
                    }
                }
            },
        }
    }

    /// Records that `v` borrows the MIR local `local` (replacing an earlier
    /// record of `v`).
    pub fn record_borrow(&mut self, v: ValueId, local: LocalId)
        ensures
            final(self).borrowed(v),
            forall|w: ValueId| old(self).borrowed(w) ==> final(self).borrowed(w),
            final(self).slots@ == old(self).slots@,
            forall|i: int| 0 <= i < final(self).borrows@.len() ==> {
                let b = #[trigger] final(self).borrows@[i];
                b.1 == local || exists|j: int| 0 <= j < old(self).borrows@.len() && old(self).borrows@[j].1 == b.1
            },
    {
        let mut i: usize = 0;
        while i < self.borrows.len()
            invariant
                self.borrows@ == old(self).borrows@,
                self.slots@ == old(self).slots@,
                i <= self.borrows@.len(),
                forall|j: int| 0 <= j < i ==> (#[trigger] self.borrows@[j]).0 != v,
            decreases self.borrows@.len() - i,
        {
            if self.borrows[i].0 == v {
                self.borrows.set(i, (v, local));
                assert(self.borrows@[i as int].0 == v);
                assert forall|w: ValueId| old(self).borrowed(w) implies self.borrowed(w) by {
                    let j = choose|j: int| 0 <= j < old(self).borrows@.len() && (#[trigger] old(self).borrows@[j]).0 == w;
                    assert(self.borrows@[j].0 == w);
                }
                return;
            }
            i = i + 1;
        }
        self.borrows.push((v, local));
        assert(self.borrows@[self.borrows@.len() - 1].0 == v);
        assert forall|w: ValueId| old(self).borrowed(w) implies self.borrowed(w) by {
            let j = choose|j: int| 0 <= j < old(self).borrows@.len() && (#[trigger] old(self).borrows@[j]).0 == w;
            assert(self.borrows@[j].0 == w);
        }
    }
}

/// The value an instruction defines, if any.
pub open spec fn spec_defined_value(ins: Instruction) -> Option<ValueId> {
    match ins {
        Instruction::ConstInt { value, .. } | Instruction::ConstBool { value, .. } | Instruction::ConstFloat { value, .. }
        | Instruction::ConstString { value, .. } | Instruction::ConstNull { value, .. }
        | Instruction::OptionalWrap { value, .. } | Instruction::OptionalUnwrap { value, .. }
        | Instruction::OptionalIsPresent { value, .. } | Instruction::OptionalFromValue { value, .. }
        | Instruction::ConstructResult { value, .. } | Instruction::ResultState { result: value, .. }
        | Instruction::ResultPayload { value, .. } | Instruction::Construct { value, .. }
        | Instruction::ConstructArray { value, .. } | Instruction::ConstructEnum { value, .. }
        | Instruction::EnumTag { result: value, .. } | Instruction::EnumPayload { value, .. }
        | Instruction::CopyAggregate { value, .. } | Instruction::ConstructVariadicBuffer { value, .. }
        | Instruction::VariadicAt { value, .. } | Instruction::MakeClosure { value, .. }
        | Instruction::ReloadValue { value, .. } | Instruction::FrameState { value, .. }
        | Instruction::IteratorInit { iterator: value, .. } | Instruction::IteratorNext { value, .. }
        | Instruction::PollChannelRecv { value, .. } | Instruction::ConstructInterface { value, .. }
        | Instruction::Copy { value, .. } | Instruction::Move { value, .. } | Instruction::Borrow { value, .. }
        | Instruction::Binary { value, .. } | Instruction::Unary { value, .. }
        | Instruction::ConcatString { value, .. } | Instruction::FormatValue { value, .. }
        | Instruction::TypeRetain { value } | Instruction::TypeRelease { value }
        | Instruction::MakeUnique { value, .. } | Instruction::AwaitFuture { value, .. }
        | Instruction::Spawn { value, .. } | Instruction::MakeFunction { value, .. }
        | Instruction::Allocate { value, .. } | Instruction::LoadRaw { value, .. }
        | Instruction::Field { value, .. } => Some(value),
        Instruction::CallIndirect { value, .. } | Instruction::PollFuture { value, .. }
        | Instruction::Call { value, .. } | Instruction::RuntimeCall { value, .. }
        | Instruction::StartFuture { value, .. } => value,
        _ => None,
    }
}

/// The value an instruction defines, if any.
pub fn defined_value(ins: &Instruction) -> (r: Option<ValueId>)
    ensures
        r == spec_defined_value(*ins),
{
    match ins {
        Instruction::ConstInt { value, .. } | Instruction::ConstBool { value, .. } | Instruction::ConstFloat { value, .. }
        | Instruction::ConstString { value, .. } | Instruction::ConstNull { value, .. }
        | Instruction::OptionalWrap { value, .. } | Instruction::OptionalUnwrap { value, .. }
        | Instruction::OptionalIsPresent { value, .. } | Instruction::OptionalFromValue { value, .. }
        | Instruction::ConstructResult { value, .. } | Instruction::ResultState { result: value, .. }
        | Instruction::ResultPayload { value, .. } | Instruction::Construct { value, .. }
        | Instruction::ConstructArray { value, .. } | Instruction::ConstructEnum { value, .. }
        | Instruction::EnumTag { result: value, .. } | Instruction::EnumPayload { value, .. }
        | Instruction::CopyAggregate { value, .. } | Instruction::ConstructVariadicBuffer { value, .. }
        | Instruction::VariadicAt { value, .. } | Instruction::MakeClosure { value, .. }
        | Instruction::ReloadValue { value, .. } | Instruction::FrameState { value, .. }
        | Instruction::IteratorInit { iterator: value, .. } | Instruction::IteratorNext { value, .. }
        | Instruction::PollChannelRecv { value, .. } | Instruction::ConstructInterface { value, .. }
        | Instruction::Copy { value, .. } | Instruction::Move { value, .. } | Instruction::Borrow { value, .. }
        | Instruction::Binary { value, .. } | Instruction::Unary { value, .. }
        | Instruction::ConcatString { value, .. } | Instruction::FormatValue { value, .. }
        | Instruction::TypeRetain { value } | Instruction::TypeRelease { value }
        | Instruction::MakeUnique { value, .. } | Instruction::AwaitFuture { value, .. }
        | Instruction::Spawn { value, .. } | Instruction::MakeFunction { value, .. }
        | Instruction::Allocate { value, .. } | Instruction::LoadRaw { value, .. }
        | Instruction::Field { value, .. } => Some(*value),
        Instruction::CallIndirect { value, .. } | Instruction::PollFuture { value, .. }
        | Instruction::Call { value, .. } | Instruction::RuntimeCall { value, .. }
        | Instruction::StartFuture { value, .. } => *value,
        _ => None,
    }
}

/// The MIR result type of a value-producing instruction, when it has one.
pub open spec fn spec_value_result_type(body: &MirFunction, ins: Instruction) -> Option<TypeId> {
    match ins {
        Instruction::Copy { local, .. } | Instruction::Move { local, .. } | Instruction::Borrow { local, .. } =>
            local_type(body, local),
        Instruction::ConstNull { ty, .. } => ty,
        Instruction::OptionalWrap { ty, .. } | Instruction::OptionalFromValue { ty, .. }
        | Instruction::ConstructResult { ty, .. } | Instruction::Construct { ty, .. }
        | Instruction::ConstructArray { ty, .. } | Instruction::ConstructEnum { ty, .. }
        | Instruction::CopyAggregate { ty, .. } | Instruction::Allocate { ty, .. } | Instruction::LoadRaw { ty, .. }
        | Instruction::ConstructInterface { ty, .. } => Some(ty),
        Instruction::OptionalUnwrap { inner, .. } | Instruction::IteratorNext { element_type: inner, .. } => Some(inner),
        Instruction::Call { result_type, .. } | Instruction::RuntimeCall { result_type, .. }
        | Instruction::StartFuture { result_type, .. } => result_type,
        Instruction::AwaitFuture { result_type, .. } | Instruction::Spawn { result_type, .. } => Some(result_type),
        _ => None,
    }
}

/// The MIR result type of a value-producing instruction, when it has one.
pub fn value_result_type(body: &MirFunction, ins: &Instruction) -> (r: Option<TypeId>)
    ensures
        r == spec_value_result_type(body, *ins),
{
    match ins {
        Instruction::Copy { local, .. } | Instruction::Move { local, .. } | Instruction::Borrow { local, .. } => {
            if local.0 < body.locals.len() { body.locals[local.0] } else { None }
        },
        Instruction::ConstNull { ty, .. } => *ty,
        Instruction::OptionalWrap { ty, .. } | Instruction::OptionalFromValue { ty, .. }
        | Instruction::ConstructResult { ty, .. } | Instruction::Construct { ty, .. }
        | Instruction::ConstructArray { ty, .. } | Instruction::ConstructEnum { ty, .. }
        | Instruction::CopyAggregate { ty, .. } | Instruction::Allocate { ty, .. } | Instruction::LoadRaw { ty, .. }
        | Instruction::ConstructInterface { ty, .. } => Some(*ty),
        Instruction::OptionalUnwrap { inner, .. } | Instruction::IteratorNext { element_type: inner, .. } => Some(*inner),
        Instruction::Call { result_type, .. } | Instruction::RuntimeCall { result_type, .. }
        | Instruction::StartFuture { result_type, .. } => *result_type,
        Instruction::AwaitFuture { result_type, .. } | Instruction::Spawn { result_type, .. } => Some(*result_type),
        _ => None,
    }
}

/// The types whose layouts `infer_type` reads are in the table.
pub open spec fn ins_types_known(layouts: &LayoutTable, ins: Instruction) -> bool {
    match ins {
        Instruction::PollFuture { result_type, .. } | Instruction::AwaitFuture { result_type, .. } => known(
            layouts,
            result_type,
        ),
        Instruction::ConstFloat { ty, .. } => opt_known(layouts, ty),
        Instruction::Binary { operand_type, .. } => opt_known(layouts, operand_type),
        Instruction::Call { result_type, .. } | Instruction::RuntimeCall { result_type, .. }
        | Instruction::CallIndirect { result_type, .. } => opt_known(layouts, result_type),
        Instruction::OptionalUnwrap { inner, .. } => known(layouts, inner),
        Instruction::IteratorNext { element_type, .. } => known(layouts, element_type),
        Instruction::VariadicAt { element, .. } => known(layouts, element),
        _ => true,
    }
}

/// The wasm type a value of type `t` occupies as a temporary: `i32` for
/// managed handles and aggregates (addresses), else its value type.
fn slot_valtype(layouts: &LayoutTable, t: TypeId) -> (r: ValTy)
    requires
        layouts_wf(layouts),
        known(layouts, t),
    ensures
        r == spec_slot_valtype(layouts, t),
{
    if is_managed_handle(layouts, t) || layouts.shapes[t.0].aggregate {
        ValTy::I32
    } else {
        valtype(layouts, t)
    }
}

/// The wasm type of the value an instruction defines, from the operand and
/// result types it names and the types recorded so far in `vals`.
#[verifier::rlimit(30)]
#[verifier::spinoff_prover]
/// The wasm type of a value of type `t` kept in a slot: managed handles
/// and aggregates are addresses (`i32`), everything else its own type.
pub open spec fn spec_slot_valtype(layouts: &LayoutTable, t: TypeId) -> ValTy {
    if spec_is_managed_handle(layouts, t) || layouts.shapes@[t.0 as int].aggregate {
        ValTy::I32
    } else {
        spec_valtype(layouts, t)
    }
}

/// The wasm type of the value an instruction defines, as `infer_type`
/// computes it: by the instruction's kind, its result or operand type, or
/// the types recorded for its operands; `i32` for the rest.
pub open spec fn spec_infer_type(layouts: &LayoutTable, body: &MirFunction, ins: Instruction, vals: &Values) -> ValTy {
    match ins {
        Instruction::ConstInt { .. } => ValTy::I64,
        Instruction::FrameState { .. } => ValTy::I64,
        Instruction::EnumTag { .. } => ValTy::I64,
        Instruction::PollFuture { result_type, .. } => spec_valtype(layouts, result_type),
        Instruction::AwaitFuture { result_type, .. } => spec_valtype(layouts, result_type),
        Instruction::ConstFloat { ty, .. } => if ty matches Some(t) && layouts.types@[t.0 as int].size == 4 {
            ValTy::F32
        } else {
            ValTy::F64
        },
        Instruction::Binary { operand_type, op, .. } => if is_comparison(op) {
            ValTy::I32
        } else {
            match operand_type {
                Some(t) => spec_valtype(layouts, t),
                None => ValTy::I64,
            }
        },
        Instruction::Call { result_type, .. } => match result_type {
            Some(t) => spec_valtype(layouts, t),
            None => ValTy::I32,
        },
        Instruction::RuntimeCall { result_type, .. } => match result_type {
            Some(t) => spec_valtype(layouts, t),
            None => ValTy::I32,
        },
        Instruction::CallIndirect { result_type, .. } => match result_type {
            Some(t) => spec_valtype(layouts, t),
            None => ValTy::I32,
        },
        Instruction::Copy { local, .. } => local_valtype(layouts, body, local),
        Instruction::Move { local, .. } => local_valtype(layouts, body, local),
        Instruction::Unary { op, operand, .. } => if op == UnaryOp::Not { ValTy::I32 } else { vals.vty_of(operand) },
        Instruction::OptionalUnwrap { inner, .. } => spec_slot_valtype(layouts, inner),
        Instruction::ResultPayload { source, ok, .. } => match vals.mir_of(source) {
            Some(t) => match layouts.shapes@[t.0 as int].result {
                Some(result) => spec_slot_valtype(layouts, if ok { result.ok } else { result.err }),
                None => ValTy::I64,
            },
            None => ValTy::I64,
        },
        Instruction::IteratorNext { element_type, .. } => spec_slot_valtype(layouts, element_type),
        Instruction::VariadicAt { element, .. } => spec_slot_valtype(layouts, element),
        Instruction::EnumPayload { ty, variant_index, field_index, .. } => if ty.0 < layouts.shapes@.len() {
            match layouts.shapes@[ty.0 as int].enum_layout {
                Some(layout) => if variant_index < layout.variants@.len()
                    && field_index < layout.variants@[variant_index as int].fields@.len() {
                    spec_slot_valtype(layouts, layout.variants@[variant_index as int].fields@[field_index as int].ty)
                } else {
                    ValTy::I64
                },
                None => ValTy::I64,
            }
        } else {
            ValTy::I64
        },
        _ => ValTy::I32,
    }
}

/// The wasm type of the MIR local `local`: its type's, `i32` when untyped
/// or out of range.
pub open spec fn local_valtype(layouts: &LayoutTable, body: &MirFunction, local: LocalId) -> ValTy {
    if local.0 < body.locals@.len() {
        match body.locals@[local.0 as int] {
            Some(t) => spec_valtype(layouts, t),
            None => ValTy::I32,
        }
    } else {
        ValTy::I32
    }
}

pub fn infer_type(layouts: &LayoutTable, body: &MirFunction, ins: &Instruction, vals: &Values) -> (r: ValTy)
    requires
        layouts_wf(layouts),
        vals.unique(),
        vals.types_known(layouts),
        forall|i: int| 0 <= i < body.locals@.len() ==> (#[trigger] body.locals@[i] matches Some(t) ==> known(layouts, t)),
        ins_types_known(layouts, *ins),
    ensures
        r == spec_infer_type(layouts, body, *ins, vals),
{
    match ins {
        Instruction::ConstInt { .. } | Instruction::FrameState { .. } | Instruction::EnumTag { .. } => ValTy::I64,
        Instruction::PollFuture { result_type, .. } | Instruction::AwaitFuture { result_type, .. } => valtype(layouts, *result_type),
        Instruction::ConstBool { .. } | Instruction::ConstString { .. } => ValTy::I32,
        Instruction::ConstFloat { ty, .. } => {
            let single = match ty {
                Some(t) => layouts.types[t.0].size == 4,
                None => false,
            };
            if single { ValTy::F32 } else { ValTy::F64 }
        },
        Instruction::Binary { operand_type, op, .. } => {
            let comparison = match op {
                BinaryOp::Equal | BinaryOp::NotEqual | BinaryOp::Less | BinaryOp::LessEqual | BinaryOp::Greater
                | BinaryOp::GreaterEqual => true,
                _ => false,
            };
            if comparison {
                ValTy::I32
            } else {
                match operand_type {
                    Some(t) => valtype(layouts, *t),
                    None => ValTy::I64,
                }
            }
        },
        Instruction::Call { result_type, .. } | Instruction::RuntimeCall { result_type, .. }
        | Instruction::CallIndirect { result_type, .. } => match result_type {
            Some(t) => valtype(layouts, *t),
            None => ValTy::I32,
        },
        // A started future is a pointer-sized handle, not its result value.
        Instruction::StartFuture { .. } | Instruction::Spawn { .. } => ValTy::I32,
        Instruction::Copy { local, .. } | Instruction::Move { local, .. } => {
            let t = if local.0 < body.locals.len() { body.locals[local.0] } else { None };
            match t {
                Some(t) => valtype(layouts, t),
                None => ValTy::I32,
            }
        },
        Instruction::Unary { op, operand, .. } => {
            if *op == UnaryOp::Not {
                ValTy::I32
            } else {
                vals.vty(*operand)
            }
        },
        Instruction::OptionalUnwrap { inner, .. } => slot_valtype(layouts, *inner),
        Instruction::ResultPayload { source, ok, .. } => {
            match vals.mir_type(*source) {
                Some(t) => {
                    proof {
                        assert(shape_closed(layouts, layouts.shapes@[t.0 as int]));
                    }
                    match layouts.shapes[t.0].result {
                        Some(result) => slot_valtype(layouts, if *ok { result.ok } else { result.err }),
                        None => ValTy::I64,
                    }
                },
                None => ValTy::I64,
            }
        },
        Instruction::OptionalIsPresent { .. } | Instruction::OptionalWrap { .. } => ValTy::I32,
        Instruction::IteratorNext { element_type, .. } => slot_valtype(layouts, *element_type),
        Instruction::VariadicAt { element, .. } => slot_valtype(layouts, *element),
        Instruction::EnumPayload { ty, variant_index, field_index, .. } => {
            if ty.0 < layouts.shapes.len() {
                proof {
                    assert(shape_closed(layouts, layouts.shapes@[ty.0 as int]));
                }
                match &layouts.shapes[ty.0].enum_layout {
                    Some(layout) => {
                        if *variant_index < layout.variants.len()
                            && *field_index < layout.variants[*variant_index].fields.len() {
                            slot_valtype(layouts, layout.variants[*variant_index].fields[*field_index].ty)
                        } else {
                            ValTy::I64
                        }
                    },
                    None => ValTy::I64,
                }
            } else {
                ValTy::I64
            }
        },
        _ => ValTy::I32,
    }
}

/// The number of instructions in `blocks`.
pub open spec fn instruction_count(blocks: Seq<BasicBlock>) -> nat
    decreases blocks.len(),
{
    if blocks.len() == 0 {
        0
    } else {
        instruction_count(blocks.drop_last()) + blocks.last().instructions@.len()
    }
}

/// The instruction at position `i` of block `b`.
pub open spec fn ins_at(body: &MirFunction, b: int, i: int) -> Instruction {
    body.blocks@[b].instructions@[i]
}

/// Block `b` has an instruction at position `i`.
pub open spec fn has_ins(body: &MirFunction, b: int, i: int) -> bool {
    0 <= b < body.blocks@.len() && 0 <= i < body.blocks@[b].instructions@.len()
}

/// The values an instruction gives a local: the one it defines, a reloaded
/// value, an iterator step's flag and index, a poll's readiness flag and
/// result, and a channel receive's value, presence and readiness flags.
pub open spec fn defines(ins: Instruction, v: ValueId) -> bool {
    ||| spec_defined_value(ins) == Some(v)
    ||| match ins {
        Instruction::IteratorNext { has_value, index, .. } => has_value == v || index == v,
        Instruction::PollFuture { ready, .. } => ready == v,
        Instruction::PollChannelRecv { present, ready, .. } => present == v || ready == v,
        _ => false,
    }
}

/// Some instruction of the body gives `v` a local.
pub open spec fn body_defines(body: &MirFunction, v: ValueId) -> bool {
    exists|b: int, i: int| has_ins(body, b, i) && defines(#[trigger] ins_at(body, b, i), v)
}

/// Some instruction of the body borrows into `v`.
pub open spec fn body_borrows(body: &MirFunction, v: ValueId) -> bool {
    exists|b: int, i: int| has_ins(body, b, i) && (#[trigger] ins_at(body, b, i) matches Instruction::Borrow { value, .. }
        && value == v)
}

/// Every instruction and terminator of the body can be lowered without a
/// panic: the values they read are ones the body gives locals (or borrows,
/// for runtime calls), and a poll entry's return has its output pointer.
pub open spec fn body_ready(layouts: &LayoutTable, body: &MirFunction) -> bool {
    &&& forall|b: int, i: int| has_ins(body, b, i) ==> ins_ready_with(
        layouts,
        body,
        |v: ValueId| body_defines(body, v),
        |v: ValueId| body_defines(body, v) || body_borrows(body, v),
        #[trigger] ins_at(body, b, i),
    )
    &&& forall|b: int| 0 <= b < body.blocks@.len() ==> terminator_ready(body, #[trigger] body.blocks@[b].terminator)
}

/// A terminator reads only values the body gives locals, and a poll
/// entry's return has the output pointer.
pub open spec fn terminator_ready(body: &MirFunction, t: Terminator) -> bool {
    match t {
        Terminator::Branch { condition, .. } => body_defines(body, condition),
        Terminator::Return(value) => {
            &&& (value matches Some(v) ==> body_defines(body, v))
            &&& (body.is_poll ==> (body.out_param matches Some(o) && o < body.locals@.len()))
        },
        _ => true,
    }
}

/// Whether `ins` is `Borrow` of value `v`.
pub open spec fn borrows_into(ins: Instruction, v: ValueId) -> bool {
    ins matches Instruction::Borrow { value, .. } && value == v
}

/// The wasm type recorded for a frame slot, if any.
fn slot_type(slot_types: &Vec<(usize, ValTy)>, slot: usize) -> (r: Option<ValTy>)
    ensures
        r == slot_type_of(slot_types@, slot),
{
    assert(slot_types@.skip(0) =~= slot_types@);
    let mut i: usize = 0;
    while i < slot_types.len()
        invariant
            i <= slot_types@.len(),
            slot_type_of(slot_types@, slot) == slot_type_of(slot_types@.skip(i as int), slot),
        decreases slot_types@.len() - i,
    {
        proof {
            assert(slot_types@.skip(i as int).drop_first() =~= slot_types@.skip(i as int + 1));
        }
        if slot_types[i].0 == slot {
            return Some(slot_types[i].1);
        }
        i = i + 1;
    }
    None
}

/// The type of the first entry for `slot`, if any.
pub open spec fn slot_type_of(entries: Seq<(usize, ValTy)>, slot: usize) -> Option<ValTy>
    decreases entries.len(),
{
    if entries.len() == 0 {
        None
    } else if entries[0].0 == slot {
        Some(entries[0].1)
    } else {
        slot_type_of(entries.drop_first(), slot)
    }
}

/// Records `ty` for frame slot `slot` (replacing an earlier record).
fn record_slot_type(slot_types: &mut Vec<(usize, ValTy)>, slot: usize, ty: ValTy)
    ensures
        final(slot_types)@ == (match first_slot(old(slot_types)@, slot) {
            Some(i) => old(slot_types)@.update(i, (slot, ty)),
            None => old(slot_types)@.push((slot, ty)),
        }),
{
    let mut i: usize = 0;
    while i < slot_types.len()
        invariant
            i <= slot_types@.len(),
            slot_types@ == old(slot_types)@,
            forall|j: int| 0 <= j < i ==> (#[trigger] slot_types@[j]).0 != slot,
        decreases slot_types@.len() - i,
    {
        if slot_types[i].0 == slot {
            proof {
                lemma_first_slot(old(slot_types)@, slot, i as int);
            }
            slot_types.set(i, (slot, ty));
            return;
        }
        i = i + 1;
    }
    proof {
        lemma_no_slot(old(slot_types)@, slot);
    }
    slot_types.push((slot, ty));
}

/// The position of the first entry for `slot`, if any.
pub open spec fn first_slot(entries: Seq<(usize, ValTy)>, slot: usize) -> Option<int>
    decreases entries.len(),
{
    if entries.len() == 0 {
        None
    } else if entries[0].0 == slot {
        Some(0)
    } else {
        match first_slot(entries.drop_first(), slot) {
            Some(i) => Some(i + 1),
            None => None,
        }
    }
}

proof fn lemma_first_slot(entries: Seq<(usize, ValTy)>, slot: usize, i: int)
    requires
        0 <= i < entries.len(),
        entries[i].0 == slot,
        forall|j: int| 0 <= j < i ==> (#[trigger] entries[j]).0 != slot,
    ensures
        first_slot(entries, slot) == Some(i),
    decreases i,
{
    if i > 0 {
        lemma_first_slot(entries.drop_first(), slot, i - 1);
    }
}

proof fn lemma_no_slot(entries: Seq<(usize, ValTy)>, slot: usize)
    requires
        forall|j: int| 0 <= j < entries.len() ==> (#[trigger] entries[j]).0 != slot,
    ensures
        first_slot(entries, slot) is None,
    decreases entries.len(),
{
    if entries.len() > 0 {
        lemma_no_slot(entries.drop_first(), slot);
    }
}

/// The wasm type each spilled frame slot holds: that of the value spilled
/// into it, as `infer_type` sees the body on a first pass with no MIR types.
#[verifier::spinoff_prover]
fn spill_slot_types(ctx: &LowerCtx, body: &MirFunction) -> (r: Vec<(usize, ValTy)>)
    requires
        ctx.wf(),
        forall|i: int| 0 <= i < body.locals@.len() ==> (#[trigger] body.locals@[i] matches Some(t) ==> known(ctx.layouts, t)),
        forall|b: int, i: int| has_ins(body, b, i) ==> ins_types_known(ctx.layouts, #[trigger] ins_at(body, b, i)),
{
    let mut seen = Values::new();
    let mut slot_types: Vec<(usize, ValTy)> = Vec::new();
    let mut b: usize = 0;
    while b < body.blocks.len()
        invariant
            ctx.wf(),
            seen.unique(),
            seen.types_known(ctx.layouts),
            forall|i: int| 0 <= i < seen.slots@.len() ==> (#[trigger] seen.slots@[i]).mir is None,
            forall|i: int| 0 <= i < body.locals@.len() ==> (#[trigger] body.locals@[i] matches Some(t) ==> known(ctx.layouts, t)),
            forall|b: int, i: int| has_ins(body, b, i) ==> ins_types_known(ctx.layouts, #[trigger] ins_at(body, b, i)),
        decreases body.blocks@.len() - b,
    {
        let block = &body.blocks[b];
        let mut i: usize = 0;
        while i < block.instructions.len()
            invariant
                ctx.wf(),
                b < body.blocks@.len(),
                *block == body.blocks@[b as int],
                seen.unique(),
                seen.types_known(ctx.layouts),
                forall|i: int| 0 <= i < seen.slots@.len() ==> (#[trigger] seen.slots@[i]).mir is None,
                forall|i: int| 0 <= i < body.locals@.len() ==> (#[trigger] body.locals@[i] matches Some(t) ==> known(ctx.layouts, t)),
                forall|b: int, i: int| has_ins(body, b, i) ==> ins_types_known(ctx.layouts, #[trigger] ins_at(body, b, i)),
            decreases block.instructions@.len() - i,
        {
            let instruction = &block.instructions[i];
            assert(has_ins(body, b as int, i as int));
            assert(ins_at(body, b as int, i as int) == *instruction);
            match defined_value(instruction) {
                Some(value) => {
                    let ty = infer_type(ctx.layouts, body, instruction, &seen);
                    seen.record(value, 0, ty, None);
                },
                None => {},
            }
            match instruction {
                Instruction::SpillValue { slot, value } => {
                    match seen.value_type(*value) {
                        Some(ty) => record_slot_type(&mut slot_types, *slot, ty),
                        None => {},
                    }
                },
                _ => {},
            }
            i = i + 1;
        }
        b = b + 1;
    }
    slot_types
}

proof fn lemma_count_step(blocks: Seq<BasicBlock>, b: int)
    requires
        0 <= b < blocks.len(),
    ensures
        instruction_count(blocks.take(b + 1)) == instruction_count(blocks.take(b)) + blocks[b].instructions@.len(),
{
    assert(blocks.take(b + 1).drop_last() =~= blocks.take(b));
}

proof fn lemma_count_prefix(blocks: Seq<BasicBlock>, b: int)
    requires
        0 <= b <= blocks.len(),
    ensures
        instruction_count(blocks.take(b)) <= instruction_count(blocks),
    decreases blocks.len() - b,
{
    if b < blocks.len() {
        lemma_count_prefix(blocks, b + 1);
        lemma_count_step(blocks, b);
    } else {
        assert(blocks.take(b) =~= blocks);
    }
}

/// A ready instruction names only types of the table where `infer_type`
/// reads layouts, and its result type (if any) is in the table.
proof fn lemma_ready_types(ctx: &LowerCtx, body: &MirFunction, has: spec_fn(ValueId) -> bool, can_read: spec_fn(ValueId) -> bool, ins: Instruction)
    requires
        ins_ready_with(ctx.layouts, body, has, can_read, ins),
        forall|i: int| 0 <= i < body.locals@.len() ==> (#[trigger] body.locals@[i] matches Some(t) ==> known(ctx.layouts, t)),
    ensures
        ins_types_known(ctx.layouts, ins),
        spec_value_result_type(body, ins) matches Some(t) ==> known(ctx.layouts, t),
{
}

/// The MIR type that instruction `ins` records for `v`: its result type,
/// when it defines `v` (a reloaded value records none).
pub open spec fn mir_recorded_by(body: &MirFunction, ins: Instruction, v: ValueId) -> Option<TypeId> {
    match ins {
        Instruction::ReloadValue { .. } => None,
        _ => if spec_defined_value(ins) == Some(v) { spec_value_result_type(body, ins) } else { None },
    }
}

/// The MIR type recorded for `v` by the blocks before `b` and the first `i`
/// instructions of block `b`: that of the last of them that records one.
pub open spec fn recorded_mir(body: &MirFunction, b: int, i: int, v: ValueId) -> Option<TypeId>
    decreases b, i,
{
    if i > 0 {
        match mir_recorded_by(body, ins_at(body, b, i - 1), v) {
            Some(t) => Some(t),
            None => recorded_mir(body, b, i - 1, v),
        }
    } else if b > 0 {
        recorded_mir(body, b - 1, body.blocks@[b - 1].instructions@.len() as int, v)
    } else {
        None
    }
}

/// `after` records the MIR types `before` does, except that of the value
/// that `ins` records one for.
pub open spec fn mir_kept(before: Values, after: Values, body: &MirFunction, ins: Instruction) -> bool {
    forall|w: ValueId| #[trigger] after.mir_of(w) == match mir_recorded_by(body, ins, w) {
        Some(t) => Some(t),
        None => before.mir_of(w),
    }
}

/// One instruction more of block `b` records its MIR type.
proof fn lemma_mir_step(body: &MirFunction, b: int, i: int, before: Values, after: Values)
    requires
        0 <= i,
        mir_kept(before, after, body, ins_at(body, b, i)),
        forall|w: ValueId| #[trigger] before.mir_of(w) == recorded_mir(body, b, i, w),
    ensures
        forall|w: ValueId| #[trigger] after.mir_of(w) == recorded_mir(body, b, i + 1, w),
{
    assert forall|w: ValueId| #[trigger] after.mir_of(w) == recorded_mir(body, b, i + 1, w) by {
        assert(before.mir_of(w) == recorded_mir(body, b, i, w));
    }
}

/// The MIR type of value `v` of `body`: that of the last instruction, in
/// block order, that defines `v` with a known result type.
pub open spec fn value_mir(body: &MirFunction, v: ValueId) -> Option<TypeId> {
    recorded_mir(body, body.blocks@.len() as int, 0, v)
}

/// The locals of the body's values, numbered from `base` in instruction
/// order, and the wasm type of each local declared for them: the second
/// pass of `function_body`.
#[verifier::rlimit(100)]
#[verifier::spinoff_prover]
fn value_table(ctx: &LowerCtx, body: &MirFunction, base: u32, slot_types: &Vec<(usize, ValTy)>) -> (r: (Values, Vec<ValTy>))
    requires
        ctx.wf(),
        body_ready(ctx.layouts, body),
        forall|i: int| 0 <= i < body.locals@.len() ==> (#[trigger] body.locals@[i] matches Some(t) ==> known(ctx.layouts, t)),
        base + 3 * instruction_count(body.blocks@) + 2 <= u32::MAX,
    ensures
        r.0.unique(),
        forall|i: int| 0 <= i < r.0.slots@.len() ==> (#[trigger] r.0.slots@[i]).local < base + r.1@.len(),
        slots_declared(&r.0, base, r.1@),
        r.1@.len() <= 3 * instruction_count(body.blocks@),
        r.0.types_known(ctx.layouts),
        r.0.borrows_below(body.locals@.len()),
        forall|v: ValueId| body_defines(body, v) ==> r.0.has(v),
        forall|v: ValueId| body_borrows(body, v) ==> r.0.borrowed(v),
        forall|v: ValueId| #[trigger] r.0.mir_of(v) == value_mir(body, v),
{
    let mut vals = Values::new();
    let mut declared: Vec<ValTy> = Vec::new();
    let ghost blocks = body.blocks@;
    let mut b: usize = 0;
    while b < body.blocks.len()
        invariant
            ctx.wf(),
            body_ready(ctx.layouts, body),
            forall|i: int| 0 <= i < body.locals@.len() ==> (#[trigger] body.locals@[i] matches Some(t) ==> known(ctx.layouts, t)),
            blocks == body.blocks@,
            b <= blocks.len(),
            base + 3 * instruction_count(blocks) + 2 <= u32::MAX,
            vals.unique(),
            vals.types_known(ctx.layouts),
            vals.borrows_below(body.locals@.len()),
            forall|i: int| 0 <= i < vals.slots@.len() ==> (#[trigger] vals.slots@[i]).local < base + declared@.len(),
            slots_declared(&vals, base, declared@),
            declared@.len() <= 3 * instruction_count(blocks.take(b as int)),
            forall|bb: int, ii: int, v: ValueId| 0 <= bb < b && has_ins(body, bb, ii) && #[trigger] defines(ins_at(body, bb, ii), v)
                ==> vals.has(v),
            forall|bb: int, ii: int, v: ValueId| 0 <= bb < b && has_ins(body, bb, ii) && #[trigger] borrows_into(ins_at(body, bb, ii), v)
                ==> vals.borrowed(v),
            forall|w: ValueId| #[trigger] vals.mir_of(w) == recorded_mir(body, b as int, 0, w),
        decreases blocks.len() - b,
    {
        let block = &body.blocks[b];
        proof {
            lemma_count_step(blocks, b as int);
            lemma_count_prefix(blocks, b as int + 1);
        }
        let mut i: usize = 0;
        while i < block.instructions.len()
            invariant
                ctx.wf(),
                body_ready(ctx.layouts, body),
                forall|i: int| 0 <= i < body.locals@.len() ==> (#[trigger] body.locals@[i] matches Some(t) ==> known(ctx.layouts, t)),
                blocks == body.blocks@,
                b < blocks.len(),
                *block == blocks[b as int],
                i <= block.instructions@.len(),
                base + 3 * instruction_count(blocks) + 2 <= u32::MAX,
                instruction_count(blocks.take(b as int + 1)) == instruction_count(blocks.take(b as int)) + block.instructions@.len(),
                instruction_count(blocks.take(b as int + 1)) <= instruction_count(blocks),
                vals.unique(),
                vals.types_known(ctx.layouts),
                vals.borrows_below(body.locals@.len()),
                forall|i: int| 0 <= i < vals.slots@.len() ==> (#[trigger] vals.slots@[i]).local < base + declared@.len(),
                slots_declared(&vals, base, declared@),
            slots_declared(&vals, base, declared@),
                declared@.len() <= 3 * (instruction_count(blocks.take(b as int)) + i),
                forall|bb: int, ii: int, v: ValueId| (0 <= bb < b || (bb == b && ii < i)) && has_ins(body, bb, ii)
                    && #[trigger] defines(ins_at(body, bb, ii), v) ==> vals.has(v),
                forall|bb: int, ii: int, v: ValueId| (0 <= bb < b || (bb == b && ii < i)) && has_ins(body, bb, ii)
                    && #[trigger] borrows_into(ins_at(body, bb, ii), v) ==> vals.borrowed(v),
                forall|w: ValueId| #[trigger] vals.mir_of(w) == recorded_mir(body, b as int, i as int, w),
            decreases block.instructions@.len() - i,
        {
            let instruction = &block.instructions[i];
            proof {
                assert(has_ins(body, b as int, i as int));
                assert(ins_at(body, b as int, i as int) == *instruction);
                lemma_ready_types(
                    ctx,
                    body,
                    |v: ValueId| body_defines(body, v),
                    |v: ValueId| body_defines(body, v) || body_borrows(body, v),
                    *instruction,
                );
            }
            let ghost before = vals;
            let ghost declared_before = declared@.len();
            match instruction {
                Instruction::Borrow { value, local } => {
                    vals.record_borrow(*value, *local);
                },
                _ => {},
            }
            let ghost borrowed = vals;
            assert(borrowed.slots@ == before.slots@);
            match instruction {
                Instruction::ReloadValue { slot, value } => {
                    let index = base + declared.len() as u32;
                    let ty = match slot_type(slot_types, *slot) {
                        Some(t) => t,
                        None => ValTy::I32,
                    };
                    let ghost pre = vals;
                    let ghost pre_declared = declared@;
                    vals.record(*value, index, ty, None);
                    declared.push(ty);
                    proof {
                        lemma_declared_after_record(&pre, &vals, base, pre_declared, declared@, *value, index, ty);
                    }
                    assert(mir_kept(before, vals, body, *instruction));
                },
                _ => {
                    match defined_value(instruction) {
                        Some(value) => {
                            let index = base + declared.len() as u32;
                            let ty = infer_type(ctx.layouts, body, instruction, &vals);
                            let mir = value_result_type(body, instruction);
                            let ghost pre = vals;
                            let ghost pre_declared = declared@;
                            vals.record(value, index, ty, mir);
                            declared.push(ty);
                            proof {
                                lemma_declared_after_record(&pre, &vals, base, pre_declared, declared@, value, index, ty);
                            }
                        },
                        None => {},
                    }
                    let ghost defined = vals;
                    assert(mir_kept(before, defined, body, *instruction));
                    match instruction {
                        Instruction::IteratorNext { has_value, index, .. } => {
                            declare_value(&mut vals, &mut declared, base, *has_value, ValTy::I32);
                            declare_value(&mut vals, &mut declared, base, *index, ValTy::I64);
                        },
                        Instruction::PollFuture { value, ready, result_type, .. } => {
                            declare_value(&mut vals, &mut declared, base, *ready, ValTy::I32);
                            match value {
                                Some(v) => {
                                    let ty = valtype(ctx.layouts, *result_type);
                                    declare_value(&mut vals, &mut declared, base, *v, ty);
                                },
                                None => {},
                            }
                        },
                        Instruction::PollChannelRecv { value, present, ready } => {
                            declare_value(&mut vals, &mut declared, base, *value, ValTy::I32);
                            declare_value(&mut vals, &mut declared, base, *present, ValTy::I32);
                            declare_value(&mut vals, &mut declared, base, *ready, ValTy::I32);
                        },
                        _ => {},
                    }
                    assert(forall|w: ValueId| #[trigger] vals.mir_of(w) == defined.mir_of(w));
                    assert(mir_kept(before, vals, body, *instruction));
                },
            }
            proof {
                assert(declared@.len() <= declared_before + 3);
                assert forall|bb: int, ii: int, v: ValueId| (0 <= bb < b || (bb == b && ii < i + 1)) && has_ins(body, bb, ii)
                    && #[trigger] defines(ins_at(body, bb, ii), v) implies vals.has(v) by {
                    if bb == b && ii == i {
                    } else {
                        assert(before.has(v));
                    }
                }
                assert forall|bb: int, ii: int, v: ValueId| (0 <= bb < b || (bb == b && ii < i + 1)) && has_ins(body, bb, ii)
                    && #[trigger] borrows_into(ins_at(body, bb, ii), v) implies vals.borrowed(v) by {
                    if bb == b && ii == i {
                    } else {
                        assert(before.borrowed(v));
                    }
                }
                lemma_mir_step(body, b as int, i as int, before, vals);
            }
            i = i + 1;
        }
        proof {
            assert forall|w: ValueId| #[trigger] vals.mir_of(w) == recorded_mir(body, b as int + 1, 0, w) by {
                assert(recorded_mir(body, b as int + 1, 0, w) == recorded_mir(body, b as int, blocks[b as int].instructions@.len() as int, w));
            }
        }
        b = b + 1;
    }
    proof {
        assert(blocks.take(blocks.len() as int) =~= blocks);
        assert forall|v: ValueId| body_defines(body, v) implies vals.has(v) by {
            let (bb, ii) = choose|bb: int, ii: int| has_ins(body, bb, ii) && defines(#[trigger] ins_at(body, bb, ii), v);
            assert(defines(ins_at(body, bb, ii), v));
        }
        assert forall|v: ValueId| body_borrows(body, v) implies vals.borrowed(v) by {
            let (bb, ii) = choose|bb: int, ii: int| has_ins(body, bb, ii) && (#[trigger] ins_at(body, bb, ii) matches Instruction::Borrow { value, .. } && value == v);
            assert(borrows_into(ins_at(body, bb, ii), v));
        }
    }
    (vals, declared)
}

/// Each slot's local is declared at or past `base`, with the slot's type:
/// local `base + i` has type `declared[i]`.
pub open spec fn slots_declared(vals: &Values, base: u32, declared: Seq<ValTy>) -> bool {
    forall|i: int| 0 <= i < vals.slots@.len() ==> {
        let s = #[trigger] vals.slots@[i];
        &&& base <= s.local < base + declared.len()
        &&& declared[s.local - base] == s.ty
    }
}

/// Recording `v` at the next local `base + declared.len()` with type `ty`,
/// then declaring that local, keeps every slot declared.
proof fn lemma_declared_after_record(pre: &Values, post: &Values, base: u32, before: Seq<ValTy>, after: Seq<ValTy>, v: ValueId, local: u32, ty: ValTy)
    requires
        slots_declared(pre, base, before),
        local == base + before.len(),
        after == before.push(ty),
        forall|i: int| 0 <= i < post.slots@.len() ==> {
            let s = #[trigger] post.slots@[i];
            (s.value == v && s.local == local && s.ty == ty)
                || exists|j: int| 0 <= j < pre.slots@.len() && pre.slots@[j].local == s.local
                && pre.slots@[j].ty == s.ty
        },
    ensures
        slots_declared(post, base, after),
{
    assert forall|i: int| 0 <= i < post.slots@.len() implies {
        let s = #[trigger] post.slots@[i];
        &&& base <= s.local < base + after.len()
        &&& after[s.local - base] == s.ty
    } by {
        let s = post.slots@[i];
        if !(s.value == v && s.local == local && s.ty == ty) {
            let j = choose|j: int| 0 <= j < pre.slots@.len() && pre.slots@[j].local == s.local && pre.slots@[j].ty == s.ty;
            assert(pre.slots@[j] == pre.slots@[j]);
        }
    }
}

/// Gives `v` the next local, of type `ty`, unless it already has one.
fn declare_value(vals: &mut Values, declared: &mut Vec<ValTy>, base: u32, v: ValueId, ty: ValTy)
    requires
        old(vals).unique(),
        forall|i: int| 0 <= i < old(vals).slots@.len() ==> (#[trigger] old(vals).slots@[i]).local < base + old(declared)@.len(),
        base + old(declared)@.len() + 1 <= u32::MAX,
        slots_declared(old(vals), base, old(declared)@),
    ensures
        slots_declared(final(vals), base, final(declared)@),
        final(vals).unique(),
        final(vals).has(v),
        forall|w: ValueId| old(vals).has(w) ==> final(vals).has(w),
        forall|w: ValueId| old(vals).borrowed(w) ==> final(vals).borrowed(w),
        final(vals).borrows@ == old(vals).borrows@,
        forall|i: int| 0 <= i < final(vals).slots@.len() ==> (#[trigger] final(vals).slots@[i]).local < base + final(declared)@.len(),
        forall|i: int| 0 <= i < final(vals).slots@.len() ==> {
            let s = #[trigger] final(vals).slots@[i];
            (s.mir is None) || exists|j: int| 0 <= j < old(vals).slots@.len() && old(vals).slots@[j].mir == s.mir
        },
        final(declared)@.len() <= old(declared)@.len() + 1,
        old(vals).has(v) ==> final(declared)@.len() == old(declared)@.len(),
        forall|w: ValueId| #[trigger] final(vals).mir_of(w) == old(vals).mir_of(w),
{
    if vals.find(v).is_none() {
        let index = base + declared.len() as u32;
        let ghost pre = *vals;
        let ghost pre_declared = declared@;
        vals.record(v, index, ty, None);
        declared.push(ty);
        proof {
            lemma_declared_after_record(&pre, vals, base, pre_declared, declared@, v, index, ty);
        }
    }
}

/// An instruction ready with the body's own values is ready with any table
/// that gives a local to every value the body defines and records every
/// borrow.
proof fn lemma_ready_mono(ctx: &LowerCtx, body: &MirFunction, vals: &Values, ins: Instruction)
    requires
        ins_ready_with(
            ctx.layouts,
            body,
            |v: ValueId| body_defines(body, v),
            |v: ValueId| body_defines(body, v) || body_borrows(body, v),
            ins,
        ),
        forall|v: ValueId| body_defines(body, v) ==> vals.has(v),
        forall|v: ValueId| body_borrows(body, v) ==> vals.borrowed(v),
    ensures
        ins_ready(ctx, body, vals, ins),
{
    match ins {
        Instruction::RuntimeCall { value, function, arguments, .. } => {
            assert forall|i: int| 0 <= i < arguments@.len() implies readable(vals, #[trigger] arguments@[i]) by {
                assert(body_defines(body, arguments@[i]) || body_borrows(body, arguments@[i]));
            }
        },
        Instruction::Construct { fields, .. } => {
            assert forall|i: int| 0 <= i < fields@.len() implies vals.has(#[trigger] fields@[i].1) by {
                assert(body_defines(body, fields@[i].1));
            }
        },
        _ => {},
    }
}

/// A terminator reads only values with locals, and a poll entry's return
/// has its output pointer.
pub open spec fn terminator_ready_in(body: &MirFunction, vals: &Values, t: Terminator) -> bool {
    match t {
        Terminator::Branch { condition, .. } => vals.has(condition),
        Terminator::Return(value) => {
            &&& (value matches Some(v) ==> vals.has(v))
            &&& (body.is_poll ==> (body.out_param matches Some(o) && o < body.locals@.len()))
        },
        _ => true,
    }
}

/// Lowers one block's instructions, then its terminator: a jump or branch
/// stores the next block into `pc` and continues the dispatch loop at
/// `loop_depth`; a return leaves the function (a poll entry stores its
/// result through the output pointer and reports ready). Fails at the first
/// instruction that does not lower.
/// The code of a run of instructions whose code is all stated
/// (`simple_code`), one after another; `None` when one of them is not.
pub open spec fn simple_codes(ctx: &LowerCtx, body: &MirFunction, map: &LocalMap, vals: &Values, scratch: u32, instrs: Seq<Instruction>) -> Option<Seq<Ins>>
    decreases instrs.len(),
{
    if instrs.len() == 0 {
        Some(Seq::empty())
    } else {
        match (simple_codes(ctx, body, map, vals, scratch, instrs.drop_last()), simple_code(ctx, body, map, vals, scratch, instrs.last())) {
            (Some(a), Some(b)) => Some(a + b),
            _ => None,
        }
    }
}

/// The code of a block's terminator in the dispatch loop, whose loop is
/// `loop_depth` levels out and whose block counter is local `pc`: a jump
/// sets the counter and re-enters the loop; a branch sets it to one of two
/// blocks by the condition; a return returns the value (a poll body stores
/// it through its out pointer and returns 1, ready); `PollReturn` returns its
/// status.
pub open spec fn terminator_code(
    body: &MirFunction,
    map: &LocalMap,
    vals: &Values,
    t: Terminator,
    loop_depth: u32,
    pc: u32,
) -> Seq<Ins> {
    match t {
        Terminator::Jump(target) => seq![Ins::I32Const(target.0 as i32), Ins::LocalSet(pc), Ins::Br(loop_depth)],
        Terminator::Branch { condition, then_block, else_block } => seq![
            Ins::LocalGet(vals.slot(condition).local),
            Ins::If(BlockTy::Empty),
            Ins::I32Const(then_block.0 as i32),
            Ins::LocalSet(pc),
            Ins::Else,
            Ins::I32Const(else_block.0 as i32),
            Ins::LocalSet(pc),
            Ins::End,
            Ins::Br(loop_depth),
        ],
        Terminator::Return(value) => if body.is_poll {
            let store = match value {
                Some(v) => seq![
                    Ins::LocalGet(map.slots()[body.out_param.unwrap() as int]),
                    Ins::LocalGet(vals.slot(v).local),
                    spec_mem_store(
                        match vals.type_of(v) {
                            Some(t) => t,
                            None => ValTy::I32,
                        },
                        0,
                    ),
                ],
                None => Seq::empty(),
            };
            store + seq![Ins::I32Const(1), Ins::Return]
        } else {
            match value {
                Some(v) => seq![Ins::LocalGet(vals.slot(v).local), Ins::Return],
                None => seq![Ins::Return],
            }
        },
        Terminator::Unreachable => seq![Ins::Unreachable],
        Terminator::PollReturn(status) => seq![Ins::I32Const(status), Ins::Return],
    }
}

#[verifier::spinoff_prover]
fn lower_block(f: &mut Builder, ctx: &LowerCtx, body: &MirFunction, map: &LocalMap, vals: &Values, scratch: u32, block: &BasicBlock, loop_depth: u32, pc: u32) -> (r: Result<(), CodegenError>)
    requires
        env(ctx, body, map, vals, scratch, *old(f)),
        pc < old(f).nlocals(),
        loop_depth < old(f).frames().len(),
        forall|i: int| 0 <= i < block.instructions@.len() ==> ins_ready(ctx, body, vals, #[trigger] block.instructions@[i]),
        terminator_ready_in(body, vals, block.terminator),
    ensures
        continues(*old(f), *final(f)),
        r is Ok <==> forall|i: int| 0 <= i < block.instructions@.len() ==> lowers(ctx, body, vals, #[trigger] block.instructions@[i]),
        r matches Err(e) ==> e is Backend,
        r matches Err(CodegenError::Backend(m)) ==> exists|i: int| {
            &&& 0 <= i < block.instructions@.len()
            &&& !lowers(ctx, body, vals, #[trigger] block.instructions@[i])
            &&& (forall|k: int| 0 <= k < i ==> lowers(ctx, body, vals, #[trigger] block.instructions@[k]))
            &&& m@ == lowering_error(ctx, body, block.instructions@[i])
        },
        r is Ok ==> final(f).code().skip(
            final(f).code().len() - terminator_code(body, map, vals, block.terminator, loop_depth, pc).len(),
        ) == terminator_code(body, map, vals, block.terminator, loop_depth, pc),
        simple_codes(ctx, body, map, vals, scratch, block.instructions@) matches Some(c) ==> r is Ok
            && final(f).code() == old(f).code() + c + terminator_code(body, map, vals, block.terminator, loop_depth, pc),
        r is Ok ==> simple_codes(ctx, body, map, vals, scratch, block.instructions@) is Some,
{
    let mut i: usize = 0;
    while i < block.instructions.len()
        invariant
            env(ctx, body, map, vals, scratch, *f),
            continues(*old(f), *f),
            pc < f.nlocals(),
            loop_depth < f.frames().len(),
            i <= block.instructions@.len(),
            forall|k: int| 0 <= k < block.instructions@.len() ==> ins_ready(ctx, body, vals, #[trigger] block.instructions@[k]),
            forall|k: int| 0 <= k < i ==> lowers(ctx, body, vals, #[trigger] block.instructions@[k]),
            simple_codes(ctx, body, map, vals, scratch, block.instructions@.take(i as int)) matches Some(c)
                ==> f.code() == old(f).code() + c,
            simple_codes(ctx, body, map, vals, scratch, block.instructions@.take(i as int)) is Some,
        decreases block.instructions@.len() - i,
    {
        let ghost before = f.code();
        proof {
            assert(block.instructions@.take(i as int + 1).drop_last() =~= block.instructions@.take(i as int));
        }
        match lower_instruction(f, ctx, body, map, vals, scratch, &block.instructions[i]) {
            Ok(()) => {},
            Err(e) => {
                proof {
                    if simple_codes(ctx, body, map, vals, scratch, block.instructions@) is Some {
                        lemma_simple_prefix(ctx, body, map, vals, scratch, block.instructions@, i as int + 1);
                    }
                    assert(!lowers(ctx, body, vals, block.instructions@[i as int]));
                }
                return Err(e);
            },
        }
        proof {
            if let Some(c) = simple_codes(ctx, body, map, vals, scratch, block.instructions@.take(i as int + 1)) {
                assert(block.instructions@.take(i as int + 1).last() == block.instructions@[i as int]);
                assert(f.code() =~= old(f).code() + c);
            }
        }
        i = i + 1;
    }
    proof {
        assert(block.instructions@.take(i as int) =~= block.instructions@);
    }
    let ghost body_code = f.code();
    match block.terminator {
        Terminator::Jump(target) => {
            emit(f, Ins::I32Const(target.0 as i32));
            f.push(Ins::LocalSet(pc));
            f.push(Ins::Br(loop_depth));
        },
        Terminator::Branch { condition, then_block, else_block } => {
            get(f, vals, condition);
            f.push(Ins::If(BlockTy::Empty));
            emit(f, Ins::I32Const(then_block.0 as i32));
            f.push(Ins::LocalSet(pc));
            f.push(Ins::Else);
            emit(f, Ins::I32Const(else_block.0 as i32));
            f.push(Ins::LocalSet(pc));
            f.push(Ins::End);
            assert(f.frames() =~= old(f).frames());
            f.push(Ins::Br(loop_depth));
        },
        Terminator::Return(value) => {
            if body.is_poll {
                let out = body.out_param.unwrap();
                match value {
                    Some(v) => {
                        get_local(f, map, LocalId(out as usize));
                        get(f, vals, v);
                        let ty = match vals.value_type(v) {
                            Some(t) => t,
                            None => ValTy::I32,
                        };
                        mem_store(f, ty, 0);
                    },
                    None => {},
                }
                emit(f, Ins::I32Const(1));
                emit(f, Ins::Return);
            } else {
                match value {
                    Some(v) => get(f, vals, v),
                    None => {},
                }
                emit(f, Ins::Return);
            }
        },
        Terminator::Unreachable => {
            emit(f, Ins::Unreachable);
        },
        Terminator::PollReturn(status) => {
            emit(f, Ins::I32Const(status));
            emit(f, Ins::Return);
        },
    }
    proof {
        let t = terminator_code(body, map, vals, block.terminator, loop_depth, pc);
        assert(f.code() =~= body_code + t);
        assert(f.code().skip(f.code().len() - t.len()) =~= t);
    }
    Ok(())
}

/// Every instruction that lowers has its code stated.
proof fn lemma_lowers_coded(ctx: &LowerCtx, body: &MirFunction, map: &LocalMap, vals: &Values, scratch: u32, ins: Instruction)
    requires
        lowers(ctx, body, vals, ins),
    ensures
        simple_code(ctx, body, map, vals, scratch, ins) is Some,
{
}

/// A run of instructions whose code is stated has every prefix so.
proof fn lemma_simple_prefix(ctx: &LowerCtx, body: &MirFunction, map: &LocalMap, vals: &Values, scratch: u32, instrs: Seq<Instruction>, n: int)
    requires
        0 <= n <= instrs.len(),
        simple_codes(ctx, body, map, vals, scratch, instrs) is Some,
    ensures
        simple_codes(ctx, body, map, vals, scratch, instrs.take(n)) is Some,
        n >= 1 ==> simple_code(ctx, body, map, vals, scratch, instrs[n - 1]) is Some,
    decreases instrs.len() - n,
{
    if n < instrs.len() {
        lemma_simple_prefix(ctx, body, map, vals, scratch, instrs, n + 1);
        assert(instrs.take(n + 1).drop_last() =~= instrs.take(n));
        assert(instrs.take(n + 1).last() == instrs[n]);
    } else {
        assert(instrs.take(n) =~= instrs);
        if n >= 1 {
            assert(instrs.take(n).last() == instrs[n - 1]);
        }
    }
}

proof fn lemma_ordinary_bound(body: &MirFunction, i: int)
    requires
        i >= 0,
    ensures
        ordinary_before(body, i) <= i,
    decreases i,
{
    if i > 0 {
        lemma_ordinary_bound(body, i - 1);
    }
}

/// Every MIR local of `body` maps to one of the wasm locals the body
/// declares before its value temporaries.
pub open spec fn locals_fit(body: &MirFunction) -> bool {
    forall|i: int| 0 <= i < body.locals@.len()
        ==> #[trigger] local_slot(body, i) < wasm_params(body) + ordinary_before(body, body.locals@.len() as int)
}

/// The preconditions of `function_body`: the context is well formed, the
/// body's local types are in the layout table, every instruction and
/// terminator can be lowered without a panic, every MIR local maps to a
/// declared local, and the local and block counts fit in `u32`.
pub open spec fn body_lowerable(ctx: &LowerCtx, body: &MirFunction) -> bool {
    ctx.wf() && lowerable_in(ctx.layouts, body)
}

/// What `body_lowerable` asks of the body itself, given the layout table.
pub open spec fn lowerable_in(layouts: &LayoutTable, body: &MirFunction) -> bool {
    &&& forall|i: int| 0 <= i < body.locals@.len() ==> (#[trigger] body.locals@[i] matches Some(t) ==> known(layouts, t))
    &&& body_ready(layouts, body)
    &&& locals_fit(body)
    &&& body.locals@.len() + body.parameter_count + 3 * instruction_count(body.blocks@) + 8 <= u32::MAX
    &&& body.blocks@.len() + 3 <= u32::MAX
}

/// The start of a lowered body: the block counter `pc` set to the entry
/// block, the dispatch loop, one block per MIR block, and a `br_table` on
/// the counter that leaves the blocks at the counter's block.
pub open spec fn dispatch_head(entry: usize, pc: u32, count: u32) -> Seq<Ins> {
    seq![Ins::I32Const(entry as i32), Ins::LocalSet(pc), Ins::Loop(BlockTy::Empty)]
        + Seq::new(count as nat, |i: int| Ins::Block(BlockTy::Empty))
        + seq![Ins::LocalGet(pc), Ins::BrTable { targets: count, default: 0 }]
}

/// The code of the first `n` blocks of `body` in the dispatch loop: each
/// closes its dispatch block, then runs its instructions and its
/// terminator.
pub open spec fn blocks_code(ctx: &LowerCtx, body: &MirFunction, map: &LocalMap, vals: &Values, scratch: u32, pc: u32, n: nat) -> Seq<Ins>
    decreases n,
{
    if n == 0 {
        Seq::empty()
    } else {
        let b = n - 1;
        let block = body.blocks@[b];
        blocks_code(ctx, body, map, vals, scratch, pc, (n - 1) as nat) + seq![Ins::End]
            + simple_codes(ctx, body, map, vals, scratch, block.instructions@)->0
            + terminator_code(body, map, vals, block.terminator, (body.blocks@.len() - 1 - b) as u32, pc)
    }
}

/// A value table for `body`: no value has two slots, every value the body
/// defines has one, and each records the MIR type the body gives it.
pub open spec fn table_for(body: &MirFunction, vals: &Values) -> bool {
    &&& vals.unique()
    &&& forall|v: ValueId| body_defines(body, v) ==> vals.has(v)
    &&& forall|v: ValueId| #[trigger] vals.mir_of(v) == value_mir(body, v)
}

/// `map` places each MIR local of `body` where `local_slot` says.
pub open spec fn map_for(body: &MirFunction, map: &LocalMap) -> bool {
    &&& map.slots().len() == body.locals@.len()
    &&& forall|i: int| 0 <= i < map.slots().len() ==> #[trigger] map.slots()[i] == local_slot(body, i)
}

/// The local declarations of the first `n` MIR locals of `body` that are
/// not wasm parameters: one each, of its value type (`i32` when untyped).
pub open spec fn mir_local_decls(layouts: &LayoutTable, body: &MirFunction, n: nat) -> Seq<(u32, ValTy)>
    decreases n,
{
    if n == 0 {
        Seq::empty()
    } else {
        let i = n - 1;
        mir_local_decls(layouts, body, (n - 1) as nat) + if ordinary_local(body, i) {
            seq![(1u32, match body.locals@[i] {
                Some(t) => spec_valtype(layouts, t),
                None => ValTy::I32,
            })]
        } else {
            Seq::empty()
        }
    }
}

/// The locals a lowered body declares: the MIR locals that are not wasm
/// parameters, then one local per value (of type `value_types[i]` for the
/// `i`-th), then the block counter and the scratch local.
pub open spec fn body_locals(layouts: &LayoutTable, body: &MirFunction, value_types: Seq<ValTy>) -> Seq<(u32, ValTy)> {
    mir_local_decls(layouts, body, body.locals@.len()) + value_types.map_values(|t: ValTy| (1u32, t))
        + seq![(1u32, ValTy::I32), (1u32, ValTy::I32)]
}

/// The whole code of a lowered body with the block counter `pc` and the
/// scratch local after it: the dispatch head, each block in turn, and the
/// closing of the loop and the function.
pub open spec fn body_code(ctx: &LowerCtx, body: &MirFunction, map: &LocalMap, vals: &Values, pc: u32) -> Seq<Ins> {
    dispatch_head(body.entry, pc, body.blocks@.len() as u32) + blocks_code(
        ctx,
        body,
        map,
        vals,
        (pc + 1) as u32,
        pc,
        body.blocks@.len(),
    ) + seq![Ins::End, Ins::Unreachable, Ins::End]
}

/// `b` is the lowering of `body` with `ctx`: its locals are the MIR locals,
/// then one per defined value, then the dispatch and scratch locals; its code
/// is `body_code` with the local numbering of some map and value table that
/// fit `body`.
pub open spec fn lowered_as(ctx: &LowerCtx, body: &MirFunction, b: &Body) -> bool {
    exists|map: LocalMap, vals: Values, pc: u32, value_types: Seq<ValTy>|
        #![trigger body_code(ctx, body, &map, &vals, pc), body_locals(ctx.layouts, body, value_types)]
        pc + 2 == b.nlocals() && map_for(body, &map) && table_for(body, &vals)
        && b.code@ == body_code(ctx, body, &map, &vals, pc)
        && b.locals@ == body_locals(ctx.layouts, body, value_types)
        && pc == map.base + value_types.len()
        && (forall|i: int| 0 <= i < vals.slots@.len() ==> map.base <= (#[trigger] vals.slots@[i]).local < pc
            && value_types[vals.slots@[i].local - map.base] == vals.slots@[i].ty)
}

/// Lowers one MIR function to a wasm body: the MIR locals, one local per
/// value, a block counter and a scratch local; then a dispatch loop that
/// jumps to the entry block and runs each block in turn. Fails when an
/// instruction does not lower; what it returns is a well-structured body
/// with the function's wasm parameters.
#[verifier::spinoff_prover]
pub fn function_body(ctx: &LowerCtx, body: &MirFunction) -> (r: Result<Body, CodegenError>)
    requires
        body_lowerable(ctx, body),
    ensures
        r matches Ok(b) ==> b.valid() && b.params == wasm_params(body),
        r matches Ok(b) ==> b.code@.len() >= body.blocks@.len() + 8
            && b.code@.take(body.blocks@.len() + 5int) == dispatch_head(
                body.entry,
                (b.nlocals() - 2) as u32,
                body.blocks@.len() as u32,
            )
            && b.code@.skip(b.code@.len() - 3) == seq![Ins::End, Ins::Unreachable, Ins::End],
        r is Ok <==> body_lowers(ctx, body),
        r matches Ok(b) ==> lowered_as(ctx, body, &b),
        r matches Err(e) ==> e is Backend,
        r matches Err(CodegenError::Backend(m)) ==> exists|b: int, i: int| #[trigger] first_failure(ctx, body, b, i)
            && m@ == lowering_error(ctx, body, ins_at(body, b, i)),
{
    let map = LocalMap::new(body);
    proof {
        assert forall|b: int, i: int| has_ins(body, b, i) implies ins_types_known(ctx.layouts, #[trigger] ins_at(body, b, i)) by {
            lemma_ready_types(
                ctx,
                body,
                |v: ValueId| body_defines(body, v),
                |v: ValueId| body_defines(body, v) || body_borrows(body, v),
                ins_at(body, b, i),
            );
        }
        lemma_count_prefix(body.blocks@, 0);
        lemma_ordinary_bound(body, body.locals@.len() as int);
    }
    let slot_types = spill_slot_types(ctx, body);
    let (vals, declared_types) = value_table(ctx, body, map.base, &slot_types);
    proof {
        lemma_lowers_value_mir(ctx, body, &vals);
    }
    let pc = map.base + declared_types.len() as u32;
    let scratch = pc + 1;
    let params: u32 = if body.frame_param.is_some() {
        if body.out_param.is_some() { 2 } else { 1 }
    } else {
        body.parameter_count as u32
    };
    let mut f = Builder::new(params);
    let mut index: usize = 0;
    while index < body.locals.len()
        invariant
            f.wf(),
            f.code().len() == 0,
            f.params() == params,
            f.frames() == seq![crate::wasm::builder::Frame::Func],
            params == wasm_params(body),
            index <= body.locals@.len(),
            f.nlocals() == wasm_params(body) + ordinary_before(body, index as int),
            f.locals() == mir_local_decls(ctx.layouts, body, index as nat),
            ctx.wf(),
            forall|i: int| 0 <= i < body.locals@.len() ==> (#[trigger] body.locals@[i] matches Some(t) ==> known(ctx.layouts, t)),
        decreases body.locals@.len() - index,
    {
        let skip = (body.frame_param == Some(index as u32)) || (body.out_param == Some(index as u32))
            || index < body.parameter_count;
        assert(skip == !ordinary_local(body, index as int));
        if !skip {
            let ty = match body.locals[index] {
                Some(t) => valtype(ctx.layouts, t),
                None => ValTy::I32,
            };
            f.declare(1, ty);
        }
        proof {
            assert(f.locals() =~= mir_local_decls(ctx.layouts, body, (index + 1) as nat));
        }
        index = index + 1;
    }
    let ghost mir_decls = f.locals();
    let mut k: usize = 0;
    while k < declared_types.len()
        invariant
            f.wf(),
            f.code().len() == 0,
            f.params() == params,
            f.frames() == seq![crate::wasm::builder::Frame::Func],
            k <= declared_types@.len(),
            f.nlocals() == map.base + k,
            f.locals() == mir_decls + declared_types@.take(k as int).map_values(|t: ValTy| (1u32, t)),
        decreases declared_types@.len() - k,
    {
        f.declare(1, declared_types[k]);
        proof {
            assert(declared_types@.take(k as int + 1).map_values(|t: ValTy| (1u32, t))
                =~= declared_types@.take(k as int).map_values(|t: ValTy| (1u32, t)).push((1u32, declared_types@[k as int])));
        }
        k = k + 1;
    }
    f.declare(1, ValTy::I32);
    f.declare(1, ValTy::I32);
    let ghost decls = f.locals();
    proof {
        assert(declared_types@.take(k as int) =~= declared_types@);
        assert(decls =~= body_locals(ctx.layouts, body, declared_types@));
    }
    assert(f.nlocals() == scratch + 1);
    let count = body.blocks.len() as u32;
    emit(&mut f, Ins::I32Const(body.entry as i32));
    f.push(Ins::LocalSet(pc));
    f.push(Ins::Loop(BlockTy::Empty));
    let ghost opening = seq![Ins::I32Const(body.entry as i32), Ins::LocalSet(pc), Ins::Loop(BlockTy::Empty)];
    assert(f.code() =~= opening);
    let mut j: u32 = 0;
    while j < count
        invariant
            f.locals() == decls,
            f.wf(),
            f.params() == params,
            f.nlocals() == scratch + 1,
            f.frames().len() == 2 + j,
            j <= count,
            f.code() =~= opening + Seq::new(j as nat, |i: int| Ins::Block(BlockTy::Empty)),
        decreases count - j,
    {
        f.push(Ins::Block(BlockTy::Empty));
        assert(opening + Seq::new((j + 1) as nat, |i: int| Ins::Block(BlockTy::Empty))
            =~= (opening + Seq::new(j as nat, |i: int| Ins::Block(BlockTy::Empty))).push(Ins::Block(BlockTy::Empty)));
        j = j + 1;
    }
    f.push(Ins::LocalGet(pc));
    f.push(Ins::BrTable { targets: count, default: 0 });
    let ghost head = f.code();
    assert(head =~= dispatch_head(body.entry, pc, count));
    proof {
        assert forall|b: int, i: int| has_ins(body, b, i) implies ins_ready(ctx, body, &vals, #[trigger] ins_at(body, b, i)) by {
            lemma_ready_mono(ctx, body, &vals, ins_at(body, b, i));
        }
    }
    let mut b: usize = 0;
    while b < body.blocks.len()
        invariant
            f.locals() == decls,
            f.wf(),
            f.params() == params,
            f.nlocals() == scratch + 1,
            f.frames().len() == 2 + count - b,
            count == body.blocks@.len(),
            b <= count,
            pc < scratch,
            env(ctx, body, &map, &vals, scratch, f),
            forall|b: int, i: int| has_ins(body, b, i) ==> ins_ready(ctx, body, &vals, #[trigger] ins_at(body, b, i)),
            forall|b: int| 0 <= b < body.blocks@.len() ==> terminator_ready(body, #[trigger] body.blocks@[b].terminator),
            forall|v: ValueId| body_defines(body, v) ==> vals.has(v),
            forall|ins: Instruction| lowers(ctx, body, &vals, ins) == #[trigger] instruction_lowers(ctx, body, ins),
            forall|bb: int, ii: int| has_ins(body, bb, ii) && bb < b ==> instruction_lowers(ctx, body, #[trigger] ins_at(body, bb, ii)),
            head == dispatch_head(body.entry, pc, count),
            f.code() == head + blocks_code(ctx, body, &map, &vals, scratch, pc, b as nat),
            scratch == pc + 1,
            head.len() == count + 5,
            f.code().len() >= head.len(),
            f.code().take(head.len() as int) == head,
        decreases count - b,
    {
        let ghost before = f.code();
        f.push(Ins::End);
        let loop_depth = count - 1 - b as u32;
        let block = &body.blocks[b];
        proof {
            assert forall|i: int| 0 <= i < block.instructions@.len() implies ins_ready(ctx, body, &vals, #[trigger] block.instructions@[i]) by {
                assert(has_ins(body, b as int, i));
                assert(ins_at(body, b as int, i) == block.instructions@[i]);
            }
            assert(terminator_ready(body, body.blocks@[b as int].terminator));
        }
        match lower_block(&mut f, ctx, body, &map, &vals, scratch, block, loop_depth, pc) {
            Ok(()) => {},
            Err(e) => {
                proof {
                    let i = choose|i: int| 0 <= i < block.instructions@.len() && !lowers(ctx, body, &vals, #[trigger] block.instructions@[i]);
                    assert(has_ins(body, b as int, i) && ins_at(body, b as int, i) == block.instructions@[i]);
                    assert(!body_lowers(ctx, body));
                    if let CodegenError::Backend(m) = &e {
                        {
                            let i = choose|i: int| {
                                &&& 0 <= i < block.instructions@.len()
                                &&& !lowers(ctx, body, &vals, #[trigger] block.instructions@[i])
                                &&& (forall|k: int| 0 <= k < i ==> lowers(ctx, body, &vals, #[trigger] block.instructions@[k]))
                                &&& m@ == lowering_error(ctx, body, block.instructions@[i])
                            };
                            assert forall|bb: int, ii: int| has_ins(body, bb, ii) && (bb < b || (bb == b && ii < i))
                                implies instruction_lowers(ctx, body, #[trigger] ins_at(body, bb, ii)) by {
                                if bb == b {
                                    assert(lowers(ctx, body, &vals, block.instructions@[ii]));
                                }
                            }
                            assert(first_failure(ctx, body, b as int, i));
                        }
                    }
                }
                return Err(e);
            },
        }
        proof {
            assert forall|bb: int, ii: int| has_ins(body, bb, ii) && bb < b + 1
                implies instruction_lowers(ctx, body, #[trigger] ins_at(body, bb, ii)) by {
                if bb == b {
                    assert(lowers(ctx, body, &vals, block.instructions@[ii]));
                }
            }
            let c = simple_codes(ctx, body, &map, &vals, scratch, block.instructions@)->0;
            assert(f.code() =~= head + blocks_code(ctx, body, &map, &vals, scratch, pc, (b + 1) as nat));
        }
        assert(f.code().take(head.len() as int) =~= head) by {
            assert forall|k: int| 0 <= k < head.len() implies f.code()[k] == head[k] by {
                assert(before[k] == head[k]);
            }
        }
        b = b + 1;
    }
    let ghost before = f.code();
    f.push(Ins::End);
    emit(&mut f, Ins::Unreachable);
    f.push(Ins::End);
    assert(f.code() =~= before + seq![Ins::End, Ins::Unreachable, Ins::End]);
    assert(f.code().take(head.len() as int) =~= head);
    assert(f.code().skip(f.code().len() - 3) =~= seq![Ins::End, Ins::Unreachable, Ins::End]);
    assert(pc == f.nlocals() - 2);
    assert(body_lowers(ctx, body));
    assert(f.code() =~= body_code(ctx, body, &map, &vals, pc));
    assert(map_for(body, &map) && table_for(body, &vals));
    let result = f.finish();
    proof {
        assert(result.nlocals() == scratch + 1);
        assert(result.code@ == body_code(ctx, body, &map, &vals, pc));
        assert(map_for(body, &map) && table_for(body, &vals));
        assert(result.locals@ == body_locals(ctx.layouts, body, declared_types@));
        assert(body_locals(ctx.layouts, body, declared_types@) == body_locals(ctx.layouts, body, declared_types@));
    }
    Ok(result)
}

} // verus!
