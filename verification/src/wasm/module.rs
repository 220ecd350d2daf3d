//! The contents of an executable wasm module, laid out by the module plan:
//! its type, import, function, table, memory, global, export, element,
//! code and data sections and its interface metadata.
use vstd::prelude::*;
use crate::wasm::asyncrt;
use crate::wasm::asyncrt::AsyncRt;
use crate::wasm::backend::{
    fits_index_space, holds_function, invalid_target_message, is_host_import, lemma_positions_bound, positions, CodegenError, ModulePlan, WasmBackend,
    target_and_imports_checked, is_helper_import, needs_thunk, is_unsupported_import, wasm_triple,
};
use crate::wasm::builder::{body_views, signature_views, Body, Builder};
use crate::wasm::runtime::runtime_signatures;
use crate::wasm::asyncrt::async_signatures;
use crate::wasm::stdlib::stdlib_signatures;
use crate::wasm::data::{collect_strings, string_data, table_literals, table_matches};
use crate::wasm::imports::{align16, import_module, wasi_import_names};
use crate::wasm::layout::{known, signature_known, signature_params, signature_result, spec_valtype, triple_architecture, valtype, wasm_signature, Arch};
use crate::wasm::lower::{lowered_as, body_lowers, callables_known, first_failure, function_body, ins_at, layouts_wf, lowerable_in, lowering_error, LowerCtx};
use crate::wasm::metadata::{interface_metadata, spec_interface_metadata};
use crate::text::{decimal, first_index};
use crate::wasm::mir::FrameLayout;
use crate::wasm::model::{Ins, ValTy};
use crate::wasm::program::{MirFunction, Program, SymbolId, TypeId, ValueRepr};
use crate::wasm::rt_index as rt;
use crate::wasm::rt_index::Runtime;
use crate::wasm::runtime;
use crate::wasm::stdlib;
use crate::wasm::stdlib::{helper_index, helper_names, wasi_import_table, wasi_imports, WasiImport, INTERNAL_COUNT, MATH_COUNT};

verus! {

/// Bytes per wasm memory page.
pub const PAGE: u64 = 65536;

/// What an export names.
#[derive(Clone, Copy, Debug, PartialEq, Eq, Structural)]
pub enum ExportKind {
    Function,
    Memory,
}

/// One export: its name, what it names, and the index of that.
pub struct ModuleExport {
    pub name: String,
    pub kind: ExportKind,
    pub index: u32,
}

/// One function import: its module, name and type index.
pub struct ModuleImport {
    pub module: String,
    pub name: String,
    pub type_index: u32,
}

/// The contents of an executable module. `bodies` holds the code of every
/// defined function in index order except the math helpers, which belong at
/// position `math_position`.
pub struct ModuleParts {
    pub types: Vec<(Vec<ValTy>, Vec<ValTy>)>,
    pub imports: Vec<ModuleImport>,
    pub function_types: Vec<u32>,
    pub table_size: u32,
    pub pages: u32,
    pub heap_init: i32,
    pub exports: Vec<ModuleExport>,
    pub bodies: Vec<Body>,
    pub math_position: usize,
    pub data: Vec<u8>,
    pub metadata: String,
}

/// What compiling `program` needs of it beyond the module plan: the layout
/// table is well formed; every type that an extern, a callable signature or
/// an async frame's completion names is in it; every function's signature
/// and body can be lowered; a function records a frame size exactly when the
/// program has its frame; and the string data is small enough for a 32-bit
/// heap.
pub open spec fn module_ready(program: &Program) -> bool {
    let layouts = &program.layouts;
    &&& layouts_wf(layouts)
    &&& callables_known(layouts, program.callables@)
    &&& forall|c: int| 0 <= c < program.callables@.len() ==> known(layouts, #[trigger] program.callables@[c].result)
    &&& forall|e: int, i: int| 0 <= e < program.external_functions@.len()
        && 0 <= i < program.external_functions@[e].parameters@.len()
        ==> known(layouts, #[trigger] program.external_functions@[e].parameters@[i])
    &&& forall|e: int| 0 <= e < program.external_functions@.len()
        ==> (#[trigger] program.external_functions@[e].return_type matches Some(t) ==> known(layouts, t))
    &&& forall|i: int| 0 <= i < program.frames@.len()
        ==> (#[trigger] program.frames@[i].1.completion matches Some(c) ==> known(layouts, c.ty))
    &&& forall|i: int| 0 <= i < program.functions@.len() ==> {
        &&& signature_known(layouts, #[trigger] &program.functions@[i])
        &&& lowerable_in(layouts, &program.functions@[i])
    }
    &&& string_data(program).len() <= 0x7fff_0000
}

/// What the parts of the module compiled from `program` with this entry
/// hold. The module defines the functions that the entry reaches (`fs`) and
/// imports the nine WASI functions, then the externs that no helper
/// implements. Its parts are: the program's string data, in `pages` pages
/// (at least one), with the heap starting at the first multiple of 16 at or
/// after the larger of the data's end and 1024; valid bodies, the first of
/// which are the module's functions lowered with the module's lookup tables,
/// followed by the runtime helpers and the stdlib helpers other than math as
/// their builders make them, the start function, and the async helpers as
/// their builder makes them; the
/// type of every function, laid out as `function_type_at` says; the math
/// helpers' place among the bodies; the signature table and the interface
/// metadata of the module's functions; a table with an entry for every
/// imported and defined function; the imports in that order; and the exports
/// that `exports_hold` lists.
pub open spec fn parts_hold(program: &Program, entry: SymbolId, parts: &ModuleParts) -> bool {
    let fs = positions(program.functions@.len(), |i: int| holds_function(program, entry, i));
    let nf = fs.len() as int;
    let remaining = positions(program.external_functions@.len(), |e: int| is_host_import(program, fs, e));
    let wasi = wasi_import_table().len() as int;
    let imported = wasi + remaining.len();
    let runtime_base = imported + nf;
    let start = runtime_base + rt::COUNT + INTERNAL_COUNT + 45;
    let wasi_type_base = nf + program.external_functions@.len();
    let runtime_type_base = wasi_type_base + 3;
    let stdlib_type_base = runtime_type_base + rt::COUNT;
    let start_type = stdlib_type_base + INTERNAL_COUNT + 45;
    let async_poll_type = start_type + 1 + program.callables@.len();
    let async_type_base = async_poll_type + 2;
    let d = parts.data@.len() as int;
    let heap = if d >= 1024 { d } else { 1024 };
    &&& parts.data@ == string_data(program)
    &&& parts.pages == (if (d + 65535) / 65536 >= 1 { (d + 65535) / 65536 } else { 1 })
    &&& parts.heap_init == (heap + 15) - (heap + 15) % 16
    &&& forall|i: int| 0 <= i < parts.bodies@.len() ==> (#[trigger] parts.bodies@[i]).valid()
    &&& parts.function_types@.len() == parts.bodies@.len() + MATH_COUNT
    &&& forall|i: int| 0 <= i < parts.function_types@.len() ==> #[trigger] parts.function_types@[i] == function_type_at(
        i,
        nf,
        runtime_type_base,
        stdlib_type_base,
        start_type,
        async_type_base,
        async_poll_type,
    )
    &&& parts.math_position == nf + rt::COUNT + INTERNAL_COUNT + 45 - MATH_COUNT
    &&& parts.math_position <= parts.bodies@.len()
    &&& exists|ctx: LowerCtx| #[trigger] lowering_tables_hold(program, entry, &ctx)
        && forall|i: int| 0 <= i < nf ==> lowered_as(&ctx, module_functions(program, entry)[i], &#[trigger] parts.bodies@[i])
    &&& body_views(parts.bodies@.subrange(nf, nf + rt::COUNT)) == runtime::runtime_body_views(runtime_base as u32)
    &&& stdlib::stdlib_views_for(
        (runtime_base + rt::COUNT) as u32,
        Seq::new(9, |w: int| w as u32),
        (runtime_base + rt::ALLOC) as u32,
        (runtime_base + rt::BYTES_NEW) as u32,
        body_views(parts.bodies@.subrange(nf + rt::COUNT, parts.math_position as int)),
    )
    &&& body_views(parts.bodies@.subrange(parts.math_position + 1, parts.math_position + 1 + asyncrt::COUNT))
        == asyncrt::async_body_views(
        (start + 1) as u32,
        (runtime_base + rt::ALLOC) as u32,
        async_poll_type as u32,
        (async_poll_type + 1) as u32,
        1,
    )
    &&& signature_views(parts.types@) == module_type_views(
        program,
        fs.map_values(|i: usize| &program.functions@[i as int]),
    )
    &&& parts.metadata@ == spec_interface_metadata(
        program,
        fs.map_values(|i: usize| program.functions@[i as int]),
        entry,
    )
    &&& parts.table_size == parts.imports@.len() + parts.function_types@.len()
    &&& parts.imports@.len() == imported
    &&& forall|w: int| 0 <= w < wasi ==> wasi_import_at(#[trigger] parts.imports@[w], w, wasi_type_base)
    &&& forall|k: int| 0 <= k < remaining.len() ==> host_import_at(
        #[trigger] parts.imports@[wasi + k],
        program,
        remaining[k] as int,
        nf,
    )
    &&& exports_hold(
        parts.exports@,
        fs.map_values(|i: usize| program.functions@[i as int].symbol),
        entry,
        imported,
        runtime_base + rt::ALLOC,
        start,
    )
}

/// The import module of an extern with this link name: WASI names come
/// from `wasi_snapshot_preview1`, everything else from `env`.
pub open spec fn import_module_of(link_name: Seq<char>) -> Seq<char> {
    if wasi_import_names().contains(link_name) {
        "wasi_snapshot_preview1"@
    } else {
        "env"@
    }
}

/// The export name of a defined function: `vut_fn_` and its symbol's number.
pub open spec fn export_name(symbol: SymbolId) -> Seq<char> {
    "vut_fn_"@ + decimal(symbol.0 as nat)
}

/// `export` exports the function with this symbol, at this index.
pub open spec fn function_export_at(export: ModuleExport, symbol: SymbolId, index: int) -> bool {
    &&& export.name@ == export_name(symbol)
    &&& export.kind == ExportKind::Function
    &&& export.index == index
}

/// `export` is named `name`, of this kind, at this index.
pub open spec fn export_is(export: ModuleExport, name: Seq<char>, kind: ExportKind, index: int) -> bool {
    &&& export.name@ == name
    &&& export.kind == kind
    &&& export.index == index
}

/// The functions of `program` that a module entered at `entry` defines:
/// those the entry reaches, in program order.
pub open spec fn module_functions(program: &Program, entry: SymbolId) -> Seq<&MirFunction> {
    positions(program.functions@.len(), |i: int| holds_function(program, entry, i)).map_values(
        |i: usize| &program.functions@[i as int],
    )
}

/// `ctx` holds the tables that lowering the module of `program` entered at
/// `entry` looks names up in: the program's layouts, callables and async
/// frames, the index of every defined, imported, runtime, async-runtime and
/// helper-implemented function, the parameters of every defined function,
/// the address of every string literal, the type index of every callable
/// type, and the poll entry of every async function.
pub open spec fn lowering_tables_hold(program: &Program, entry: SymbolId, ctx: &LowerCtx) -> bool {
    let fs = positions(program.functions@.len(), |i: int| holds_function(program, entry, i));
    let functions = module_functions(program, entry);
    let nf = fs.len() as int;
    let remaining = positions(program.external_functions@.len(), |e: int| is_host_import(program, fs, e));
    let supported = positions(program.external_functions@.len(), |e: int| is_helper_import(program, fs, e));
    let thunks = positions(fs.len(), |k: int| needs_thunk(program, fs, k));
    let import_count = 9 + remaining.len();
    let stdlib_base = import_count + nf + rt::COUNT;
    let thunk_base = stdlib_base + INTERNAL_COUNT + 45 + 1 + asyncrt::COUNT;
    let start_type = nf + program.external_functions@.len() + 3 + rt::COUNT + INTERNAL_COUNT + 45;
    let runtime_base = import_count + nf;
    let async_base = stdlib_base + INTERNAL_COUNT + 45 + 1;
    &&& *ctx.layouts == program.layouts
    &&& ctx.rt.indices().len() == rt::field_offsets().len()
    &&& forall|i: int| 0 <= i < ctx.rt.indices().len()
        ==> #[trigger] ctx.rt.indices()[i] == runtime_base + rt::field_offsets()[i]
    &&& ctx.async_rt.frame_alloc == async_base + asyncrt::FRAME_ALLOC
    &&& ctx.async_rt.handle_new == async_base + asyncrt::HANDLE_NEW
    &&& ctx.async_rt.await_child == async_base + asyncrt::AWAIT_CHILD
    &&& ctx.async_rt.future_await == async_base + asyncrt::FUTURE_AWAIT
    &&& ctx.async_rt.executor_run == async_base + asyncrt::EXECUTOR_RUN
    &&& table_view(ctx.callee_params@) == upsert_all(Seq::empty(), param_assigns(program, functions))
    &&& ctx.callables@ == program.callables@
    &&& ctx.frame_state_offset == 0
    &&& ctx.frame_child_offset == 4
    &&& ctx.symbols@ == upsert_all(
        upsert_all(
            upsert_all(Seq::empty(), function_assigns(functions, import_count as int)),
            host_assigns(program, remaining),
        ),
        helper_assigns(program, supported, stdlib_base as u32),
    )
    &&& table_matches(ctx.strings@, table_literals(program))
    &&& ctx.callable_types@ == Seq::new(
        program.callables@.len(),
        |c: int| (program.callables@[c].ty, (start_type + 1 + c) as u32),
    )
    &&& ctx.frames@ == program.frames@
    &&& ctx.poll_thunks@ == upsert_all(
        upsert_all(Seq::empty(), poll_assigns(functions, import_count as int)),
        thunk_assigns(functions, thunks, thunk_base),
    )
}

/// Every function of the module of `program` entered at `entry` lowers with
/// the module's lookup tables.
pub open spec fn module_lowers(program: &Program, entry: SymbolId) -> bool {
    forall|ctx: LowerCtx| #[trigger] lowering_tables_hold(program, entry, &ctx) ==> forall|j: int|
        0 <= j < module_functions(program, entry).len() ==> body_lowers(&ctx, #[trigger] module_functions(program, entry)[j])
}

/// On a wasm target, no function that the entry reaches calls an extern
/// without a wasm mapping.
pub open spec fn imports_supported(program: &Program, entry: SymbolId) -> bool {
    let fs = positions(program.functions@.len(), |i: int| holds_function(program, entry, i));
    forall|e: int| 0 <= e < program.external_functions@.len() ==> !#[trigger] is_unsupported_import(program, fs, e)
}

/// The exports of a module whose defined functions have these symbols, from
/// function index `first` on: each function under its export name; the
/// entry, when it is one of them, as `main`; then the allocator
/// `vut_alloc`, the memory and `_start`.
pub open spec fn exports_hold(
    exports: Seq<ModuleExport>,
    symbols: Seq<SymbolId>,
    entry: SymbolId,
    first: int,
    alloc: int,
    start: int,
) -> bool {
    let n = symbols.len();
    let has_main = exists|k: int| 0 <= k < n && symbols[k] == entry;
    &&& exports.len() == n + 3 + (if has_main { 1int } else { 0 })
    &&& forall|k: int| 0 <= k < n ==> function_export_at(#[trigger] exports[k], symbols[k], first + k)
    &&& has_main ==> {
        &&& exports[n as int].name@ == "main"@
        &&& exports[n as int].kind == ExportKind::Function
        &&& first <= exports[n as int].index < first + n
        &&& symbols[exports[n as int].index - first] == entry
    }
    &&& export_is(exports[exports.len() - 3], "vut_alloc"@, ExportKind::Function, alloc)
    &&& export_is(exports[exports.len() - 2], "memory"@, ExportKind::Memory, 0)
    &&& export_is(exports[exports.len() - 1], "_start"@, ExportKind::Function, start)
}

/// The type index of function `i` of the function section, for a module
/// with `nf` defined functions: each defined function has its own type, then
/// come the runtime helpers, the stdlib helpers, `_start`, the async helpers,
/// and the resume thunks, which all have the poll type.
pub open spec fn function_type_at(
    i: int,
    nf: int,
    runtime_type_base: int,
    stdlib_type_base: int,
    start_type: int,
    async_type_base: int,
    async_poll_type: int,
) -> int {
    let runtime = nf;
    let helpers = runtime + rt::COUNT;
    let start = helpers + INTERNAL_COUNT + 45;
    let async_helpers = start + 1;
    let thunks = async_helpers + asyncrt::COUNT;
    if i < runtime {
        i
    } else if i < helpers {
        runtime_type_base + (i - runtime)
    } else if i < start {
        stdlib_type_base + (i - helpers)
    } else if i < async_helpers {
        start_type
    } else if i < thunks {
        async_type_base + (i - async_helpers)
    } else {
        async_poll_type
    }
}

/// Each WASI import has signature 0, 1 or 2.
proof fn lemma_wasi_signatures()
    ensures
        forall|v: int| 0 <= v < wasi_import_table().len() ==> #[trigger] wasi_import_table()[v].1 <= 2,
{
    let t = wasi_import_table();
    assert forall|v: int| 0 <= v < t.len() implies #[trigger] t[v].1 <= 2 by {
        if v == 0 {
        } else if v == 1 {
        } else if v == 2 {
        } else if v == 3 {
        } else if v == 4 {
        } else if v == 5 {
        } else if v == 6 {
        } else if v == 7 {
        } else {
        }
    }
}

/// `import` is WASI import `w`: from `wasi_snapshot_preview1`, with its name
/// and the type of its signature, counted from `type_base`.
pub open spec fn wasi_import_at(import: ModuleImport, w: int, type_base: int) -> bool {
    &&& import.module@ == "wasi_snapshot_preview1"@
    &&& import.name@ == wasi_import_table()[w].0
    &&& import.type_index == type_base + wasi_import_table()[w].1
}

/// `import` is extern `e` of `program`: from its module, under its link
/// name, with the extern's type, counted from `type_base`.
pub open spec fn host_import_at(import: ModuleImport, program: &Program, e: int, type_base: int) -> bool {
    let external = program.external_functions@[e];
    &&& import.module@ == import_module_of(external.link_name@)
    &&& import.name@ == external.link_name@
    &&& import.type_index == type_base + e
}

/// A signature's results as a list: none, or its one result.
pub open spec fn result_seq(result: Option<ValTy>) -> Seq<ValTy> {
    match result {
        Some(t) => seq![t],
        None => Seq::empty(),
    }
}

/// The wasm types of `types`.
pub open spec fn valtype_seq(program: &Program, types: Seq<TypeId>) -> Seq<ValTy> {
    types.map_values(|t: TypeId| spec_valtype(&program.layouts, t))
}

/// The results of a callable or extern returning `t`: none for `void`,
/// else its wasm type.
pub open spec fn non_void_seq(program: &Program, t: TypeId) -> Seq<ValTy> {
    if program.layouts.types@[t.0 as int].repr == ValueRepr::Void {
        Seq::empty()
    } else {
        seq![spec_valtype(&program.layouts, t)]
    }
}

/// The position of the first entry keyed by `key`, if any.
pub open spec fn first_key<V>(entries: Seq<(SymbolId, V)>, key: SymbolId) -> Option<int>
    decreases entries.len(),
{
    if entries.len() == 0 {
        None
    } else if entries[0].0 == key {
        Some(0)
    } else {
        match first_key(entries.drop_first(), key) {
            Some(i) => Some(i + 1),
            None => None,
        }
    }
}

/// `entries` with the first entry for `key` given `value`, or the pair
/// added at the end when there is none.
pub open spec fn upsert<V>(entries: Seq<(SymbolId, V)>, key: SymbolId, value: V) -> Seq<(SymbolId, V)> {
    match first_key(entries, key) {
        Some(i) => entries.update(i, (key, value)),
        None => entries.push((key, value)),
    }
}

/// `entries` after upserting each pair of `assigns` in turn.
pub open spec fn upsert_all<V>(entries: Seq<(SymbolId, V)>, assigns: Seq<(SymbolId, V)>) -> Seq<(SymbolId, V)>
    decreases assigns.len(),
{
    if assigns.len() == 0 {
        entries
    } else {
        upsert(upsert_all(entries, assigns.drop_last()), assigns.last().0, assigns.last().1)
    }
}

proof fn lemma_first_key<V>(entries: Seq<(SymbolId, V)>, key: SymbolId, i: int)
    requires
        0 <= i < entries.len(),
        entries[i].0 == key,
        forall|j: int| 0 <= j < i ==> (#[trigger] entries[j]).0 != key,
    ensures
        first_key(entries, key) == Some(i),
    decreases i,
{
    if i > 0 {
        lemma_first_key(entries.drop_first(), key, i - 1);
    }
}

proof fn lemma_no_key<V>(entries: Seq<(SymbolId, V)>, key: SymbolId)
    requires
        forall|j: int| 0 <= j < entries.len() ==> (#[trigger] entries[j]).0 != key,
    ensures
        first_key(entries, key) is None,
    decreases entries.len(),
{
    if entries.len() > 0 {
        lemma_no_key(entries.drop_first(), key);
    }
}

/// Upserting into a prefix of assignments and then one more is upserting the
/// longer prefix.
proof fn lemma_upsert_step<V>(entries: Seq<(SymbolId, V)>, assigns: Seq<(SymbolId, V)>, k: int)
    requires
        0 <= k < assigns.len(),
    ensures
        upsert_all(entries, assigns.take(k + 1)) == upsert(upsert_all(entries, assigns.take(k)), assigns[k].0, assigns[k].1),
{
    assert(assigns.take(k + 1).drop_last() =~= assigns.take(k));
}

/// Each defined function's symbol paired with its function index, counted
/// from `first`.
pub open spec fn function_assigns(functions: Seq<&MirFunction>, first: int) -> Seq<(SymbolId, u32)> {
    Seq::new(functions.len(), |k: int| (functions[k].symbol, (first + k) as u32))
}

/// Each host-imported extern's symbol paired with its import index, after
/// the nine WASI imports.
pub open spec fn host_assigns(program: &Program, remaining: Seq<usize>) -> Seq<(SymbolId, u32)> {
    Seq::new(remaining.len(), |k: int| (program.external_functions@[remaining[k] as int].symbol, (9 + k) as u32))
}

/// Each helper-implemented extern that has a helper, paired with the
/// helper's function index, counted from `base`.
pub open spec fn helper_assigns(program: &Program, supported: Seq<usize>, base: u32) -> Seq<(SymbolId, u32)>
    decreases supported.len(),
{
    if supported.len() == 0 {
        Seq::empty()
    } else {
        let rest = helper_assigns(program, supported.drop_last(), base);
        let external = program.external_functions@[supported.last() as int];
        match first_index(helper_names(), external.link_name@) {
            Some(j) => rest.push((external.symbol, (base + INTERNAL_COUNT + j) as u32)),
            None => rest,
        }
    }
}

/// The poll bodies among the defined functions, each paired with its
/// function index, counted from `first`.
pub open spec fn poll_assigns(functions: Seq<&MirFunction>, first: int) -> Seq<(SymbolId, u32)>
    decreases functions.len(),
{
    if functions.len() == 0 {
        Seq::empty()
    } else {
        let rest = poll_assigns(functions.drop_last(), first);
        let k = functions.len() - 1;
        if functions[k].is_poll {
            rest.push((functions[k].symbol, (first + k) as u32))
        } else {
            rest
        }
    }
}

/// Each resume thunk's function symbol paired with its function index,
/// counted from `base`.
pub open spec fn thunk_assigns(functions: Seq<&MirFunction>, thunks: Seq<usize>, base: int) -> Seq<(SymbolId, u32)> {
    Seq::new(thunks.len(), |t: int| (functions[thunks[t] as int].symbol, (base + t) as u32))
}

/// A table with each value taken by its view.
pub open spec fn table_view(t: Seq<(SymbolId, Vec<ValTy>)>) -> Seq<(SymbolId, Seq<ValTy>)> {
    t.map_values(|e: (SymbolId, Vec<ValTy>)| (e.0, e.1@))
}

proof fn lemma_first_key_view(t: Seq<(SymbolId, Vec<ValTy>)>, key: SymbolId)
    ensures
        first_key(table_view(t), key) == first_key(t, key),
    decreases t.len(),
{
    if t.len() > 0 {
        assert(table_view(t).drop_first() =~= table_view(t.drop_first()));
        lemma_first_key_view(t.drop_first(), key);
    }
}

proof fn lemma_upsert_view(t: Seq<(SymbolId, Vec<ValTy>)>, key: SymbolId, value: Vec<ValTy>)
    ensures
        table_view(upsert(t, key, value)) == upsert(table_view(t), key, value@),
{
    lemma_first_key_view(t, key);
    lemma_first_key_range(t, key);
    match first_key(t, key) {
        Some(i) => {
            assert(table_view(t.update(i, (key, value))) =~= table_view(t).update(i, (key, value@)));
        },
        None => {
            assert(table_view(t.push((key, value))) =~= table_view(t).push((key, value@)));
        },
    }
}

proof fn lemma_first_key_range<V>(t: Seq<(SymbolId, V)>, key: SymbolId)
    ensures
        first_key(t, key) matches Some(i) ==> 0 <= i < t.len(),
    decreases t.len(),
{
    if t.len() > 0 {
        lemma_first_key_range(t.drop_first(), key);
    }
}

/// Each defined function's symbol with its wasm parameter types, then each
/// extern's symbol with its parameters' wasm types.
pub open spec fn param_assigns(program: &Program, functions: Seq<&MirFunction>) -> Seq<(SymbolId, Seq<ValTy>)> {
    Seq::new(functions.len(), |k: int| (functions[k].symbol, signature_params(&program.layouts, functions[k])))
        + Seq::new(
        program.external_functions@.len(),
        |e: int| (program.external_functions@[e].symbol, valtype_seq(program, program.external_functions@[e].parameters@)),
    )
}

proof fn lemma_views_push(a: Seq<(Vec<ValTy>, Vec<ValTy>)>, x: (Vec<ValTy>, Vec<ValTy>))
    ensures
        signature_views(a.push(x)) == signature_views(a).push((x.0@, x.1@)),
{
    assert(signature_views(a.push(x)) =~= signature_views(a).push((x.0@, x.1@)));
}

proof fn lemma_views_append(a: Seq<(Vec<ValTy>, Vec<ValTy>)>, b: Seq<(Vec<ValTy>, Vec<ValTy>)>)
    ensures
        signature_views(a + b) == signature_views(a) + signature_views(b),
{
    assert(signature_views(a + b) =~= signature_views(a) + signature_views(b));
}

/// The function types of the defined functions: parameters and results.
pub open spec fn function_type_views(program: &Program, functions: Seq<&MirFunction>) -> Seq<(Seq<ValTy>, Seq<ValTy>)> {
    Seq::new(
        functions.len(),
        |k: int| (signature_params(&program.layouts, functions[k]), result_seq(signature_result(&program.layouts, functions[k]))),
    )
}

/// The function types of the externs.
pub open spec fn extern_type_views(program: &Program) -> Seq<(Seq<ValTy>, Seq<ValTy>)> {
    Seq::new(
        program.external_functions@.len(),
        |e: int| (
            valtype_seq(program, program.external_functions@[e].parameters@),
            match program.external_functions@[e].return_type {
                Some(t) => non_void_seq(program, t),
                None => Seq::empty(),
            },
        ),
    )
}

/// The three WASI signatures: four `i32`s, two `i32`s, and `i32, i64, i32`,
/// each returning an `i32`.
pub open spec fn wasi_type_views() -> Seq<(Seq<ValTy>, Seq<ValTy>)> {
    seq![
        (seq![ValTy::I32, ValTy::I32, ValTy::I32, ValTy::I32], seq![ValTy::I32]),
        (seq![ValTy::I32, ValTy::I32], seq![ValTy::I32]),
        (seq![ValTy::I32, ValTy::I64, ValTy::I32], seq![ValTy::I32]),
    ]
}

/// The function types of the indirect-callable signatures.
pub open spec fn callable_type_views(program: &Program) -> Seq<(Seq<ValTy>, Seq<ValTy>)> {
    Seq::new(
        program.callables@.len(),
        |c: int| (valtype_seq(program, program.callables@[c].params@), non_void_seq(program, program.callables@[c].result)),
    )
}

/// The type section of a module with these defined functions: the defined
/// functions' types, the externs', the WASI signatures, the runtime's and
/// the stdlib helpers', `_start`'s, the callable signatures, the poll and
/// drop types, and the async helpers'.
pub open spec fn module_type_views(program: &Program, functions: Seq<&MirFunction>) -> Seq<(Seq<ValTy>, Seq<ValTy>)> {
    function_type_views(program, functions) + extern_type_views(program) + wasi_type_views() + runtime_signatures()
        + stdlib_signatures() + seq![(Seq::<ValTy>::empty(), Seq::<ValTy>::empty())] + callable_type_views(program)
        + seq![(seq![ValTy::I32, ValTy::I32], seq![ValTy::I32]), (seq![ValTy::I32], Seq::<ValTy>::empty())]
        + async_signatures()
}

/// The results of a signature: none, or its one result.
fn result_list(result: Option<ValTy>) -> (r: Vec<ValTy>)
    ensures
        r@ == result_seq(result),
{
    match result {
        Some(t) => vec![t],
        None => Vec::new(),
    }
}

/// The wasm types of `types`.
fn valtypes(program: &Program, types: &Vec<TypeId>) -> (r: Vec<ValTy>)
    requires
        forall|i: int| 0 <= i < types@.len() ==> known(&program.layouts, #[trigger] types@[i]),
    ensures
        r@ == valtype_seq(program, types@),
{
    let mut r: Vec<ValTy> = Vec::new();
    let mut i: usize = 0;
    while i < types.len()
        invariant
            i <= types@.len(),
            forall|i: int| 0 <= i < types@.len() ==> known(&program.layouts, #[trigger] types@[i]),
            r@ == valtype_seq(program, types@.take(i as int)),
        decreases types@.len() - i,
    {
        r.push(valtype(&program.layouts, types[i]));
        assert(valtype_seq(program, types@.take(i as int + 1)) =~= valtype_seq(program, types@.take(i as int)).push(
            spec_valtype(&program.layouts, types@[i as int]),
        ));
        i = i + 1;
    }
    assert(types@.take(i as int) =~= types@);
    r
}

/// The results of a signature returning `t`: none for `void`.
fn non_void_result(program: &Program, t: TypeId) -> (r: Vec<ValTy>)
    requires
        known(&program.layouts, t),
    ensures
        r@ == non_void_seq(program, t),
{
    if program.layouts.types[t.0].repr == ValueRepr::Void {
        Vec::new()
    } else {
        vec![valtype(&program.layouts, t)]
    }
}

/// The type section: the program's functions, the externs, the three WASI
/// signatures, the runtime and stdlib helpers, `_start`, the callable
/// signatures, the poll and drop thunk signatures, and the async helpers;
/// and the type index of each callable type.
fn module_types(program: &Program, functions: &Vec<&MirFunction>, plan: &ModulePlan) -> (r: (
    Vec<(Vec<ValTy>, Vec<ValTy>)>,
    Vec<(TypeId, u32)>,
))
    requires
        module_ready(program),
        forall|i: int| 0 <= i < functions@.len() ==> signature_known(&program.layouts, #[trigger] functions@[i]),
        plan.start_type + 1 + program.callables@.len() <= u32::MAX,
    ensures
        signature_views(r.0@) == module_type_views(program, functions@),
        r.1@ == Seq::new(
            program.callables@.len(),
            |c: int| (program.callables@[c].ty, (plan.start_type + 1 + c) as u32),
        ),
{
    let ghost fv = function_type_views(program, functions@);
    let ghost ev = extern_type_views(program);
    let ghost cv = callable_type_views(program);
    let mut types: Vec<(Vec<ValTy>, Vec<ValTy>)> = Vec::new();
    let mut k: usize = 0;
    while k < functions.len()
        invariant
            k <= functions@.len(),
            forall|i: int| 0 <= i < functions@.len() ==> signature_known(&program.layouts, #[trigger] functions@[i]),
            fv == function_type_views(program, functions@),
            signature_views(types@) == fv.take(k as int),
        decreases functions@.len() - k,
    {
        let (params, result) = wasm_signature(&program.layouts, functions[k]);
        let ghost before = types@;
        let entry = (params, result_list(result));
        proof {
            lemma_views_push(before, entry);
            assert(fv.take(k as int + 1) =~= fv.take(k as int).push(fv[k as int]));
        }
        types.push(entry);
        k = k + 1;
    }
    assert(fv.take(k as int) =~= fv);
    let ghost after_functions = types@;
    let mut e: usize = 0;
    while e < program.external_functions.len()
        invariant
            e <= program.external_functions@.len(),
            module_ready(program),
            ev == extern_type_views(program),
            signature_views(types@) == fv + ev.take(e as int),
        decreases program.external_functions@.len() - e,
    {
        let external = &program.external_functions[e];
        let params = valtypes(program, &external.parameters);
        let results = match external.return_type {
            Some(t) => non_void_result(program, t),
            None => Vec::new(),
        };
        let ghost before = types@;
        let entry = (params, results);
        proof {
            lemma_views_push(before, entry);
            assert(fv + ev.take(e as int + 1) =~= (fv + ev.take(e as int)).push(ev[e as int]));
        }
        types.push(entry);
        e = e + 1;
    }
    assert(ev.take(e as int) =~= ev);
    let ghost t0 = types@;
    let w0 = (vec![ValTy::I32, ValTy::I32, ValTy::I32, ValTy::I32], vec![ValTy::I32]);
    let w1 = (vec![ValTy::I32, ValTy::I32], vec![ValTy::I32]);
    let w2 = (vec![ValTy::I32, ValTy::I64, ValTy::I32], vec![ValTy::I32]);
    proof {
        lemma_views_push(t0, w0);
        lemma_views_push(t0.push(w0), w1);
        lemma_views_push(t0.push(w0).push(w1), w2);
        assert(w0.0@ =~= seq![ValTy::I32, ValTy::I32, ValTy::I32, ValTy::I32]);
        assert(w1.0@ =~= seq![ValTy::I32, ValTy::I32]);
        assert(w2.0@ =~= seq![ValTy::I32, ValTy::I64, ValTy::I32]);
        assert(w0.1@ =~= seq![ValTy::I32]);
    }
    types.push(w0);
    types.push(w1);
    types.push(w2);
    assert(signature_views(types@) =~= fv + ev + wasi_type_views());
    let ghost before_runtime = types@;
    let mut runtime_sigs = runtime::signatures();
    let ghost rs = runtime_sigs@;
    types.append(&mut runtime_sigs);
    assert(types@ == before_runtime + rs);
    proof {
        lemma_views_append(before_runtime, rs);
    }
    let ghost before_stdlib = types@;
    let mut stdlib_sigs = stdlib::signatures();
    let ghost ss = stdlib_sigs@;
    types.append(&mut stdlib_sigs);
    proof {
        lemma_views_append(before_stdlib, ss);
    }
    let ghost before_start = types@;
    let start_entry: (Vec<ValTy>, Vec<ValTy>) = (Vec::new(), Vec::new());
    proof {
        lemma_views_push(before_start, start_entry);
    }
    types.push(start_entry);
    let ghost head = fv + ev + wasi_type_views() + runtime_signatures() + stdlib_signatures()
        + seq![(Seq::<ValTy>::empty(), Seq::<ValTy>::empty())];
    assert(signature_views(types@) =~= head);
    let mut callable_types: Vec<(TypeId, u32)> = Vec::new();
    let mut c: usize = 0;
    while c < program.callables.len()
        invariant
            c <= program.callables@.len(),
            module_ready(program),
            plan.start_type + 1 + program.callables@.len() <= u32::MAX,
            cv == callable_type_views(program),
            signature_views(types@) == head + cv.take(c as int),
            callable_types@ == Seq::new(c as nat, |j: int| (program.callables@[j].ty, (plan.start_type + 1 + j) as u32)),
        decreases program.callables@.len() - c,
    {
        let callable = &program.callables[c];
        proof {
            reveal(callables_known);
        }
        let params = valtypes(program, &callable.params);
        let results = non_void_result(program, callable.result);
        let ghost before = types@;
        let entry = (params, results);
        proof {
            lemma_views_push(before, entry);
            assert(head + cv.take(c as int + 1) =~= (head + cv.take(c as int)).push(cv[c as int]));
        }
        types.push(entry);
        callable_types.push((callable.ty, plan.start_type + 1 + c as u32));
        assert(callable_types@ =~= Seq::new((c + 1) as nat, |j: int| (program.callables@[j].ty, (plan.start_type + 1 + j) as u32)));
        c = c + 1;
    }
    assert(cv.take(c as int) =~= cv);
    let ghost t1 = types@;
    let p0 = (vec![ValTy::I32, ValTy::I32], vec![ValTy::I32]);
    let p1: (Vec<ValTy>, Vec<ValTy>) = (vec![ValTy::I32], Vec::new());
    proof {
        lemma_views_push(t1, p0);
        lemma_views_push(t1.push(p0), p1);
        assert(p0.0@ =~= seq![ValTy::I32, ValTy::I32]);
        assert(p1.0@ =~= seq![ValTy::I32]);
    }
    types.push(p0);
    types.push(p1);
    let ghost before_async = types@;
    let mut async_sigs = asyncrt::signatures();
    let ghost asigs = async_sigs@;
    types.append(&mut async_sigs);
    proof {
        lemma_views_append(before_async, asigs);
    }
    assert(signature_views(types@) =~= module_type_views(program, functions@));
    (types, callable_types)
}

/// The imports: the WASI functions, then the externs the host provides.
fn module_imports(program: &Program, plan: &ModulePlan) -> (r: Vec<ModuleImport>)
    requires
        forall|i: int| 0 <= i < plan.remaining@.len() ==> #[trigger] plan.remaining@[i] < program.external_functions@.len(),
        plan.wasi_type_base + 3 <= u32::MAX,
        plan.external_type_base + program.external_functions@.len() <= u32::MAX,
    ensures
        r@.len() == wasi_import_table().len() + plan.remaining@.len(),
        forall|w: int| 0 <= w < wasi_import_table().len() ==> wasi_import_at(#[trigger] r@[w], w, plan.wasi_type_base as int),
        forall|k: int| 0 <= k < plan.remaining@.len() ==> host_import_at(
            #[trigger] r@[wasi_import_table().len() + k],
            program,
            plan.remaining@[k] as int,
            plan.external_type_base as int,
        ),
{
    let mut imports: Vec<ModuleImport> = Vec::new();
    let wasi = wasi_imports();
    let ghost table = wasi@.map_values(|w: WasiImport| (w.name@, w.signature));
    proof {
        assert(table.len() == wasi@.len());
        lemma_wasi_signatures();
    }
    let mut w: usize = 0;
    while w < wasi.len()
        invariant
            w <= wasi@.len(),
            table == wasi@.map_values(|w: WasiImport| (w.name@, w.signature)),
            table == wasi_import_table(),
            forall|v: int| 0 <= v < wasi_import_table().len() ==> #[trigger] wasi_import_table()[v].1 <= 2,
            imports@.len() == w,
            plan.wasi_type_base + 3 <= u32::MAX,
            forall|v: int| 0 <= v < w ==> wasi_import_at(#[trigger] imports@[v], v, plan.wasi_type_base as int),
        decreases wasi@.len() - w,
    {
        let import = &wasi[w];
        proof {
            assert(table[w as int] == (import.name@, import.signature));
        }
        let type_index = if import.signature == 0 {
            plan.wasi_type_base
        } else if import.signature == 1 {
            plan.wasi_type_base + 1
        } else {
            plan.wasi_type_base + 2
        };
        imports.push(ModuleImport {
            module: String::from_str("wasi_snapshot_preview1"),
            name: String::from_str(import.name),
            type_index,
        });
        w = w + 1;
    }
    let mut k: usize = 0;
    while k < plan.remaining.len()
        invariant
            k <= plan.remaining@.len(),
            imports@.len() == wasi_import_table().len() + k,
            forall|i: int| 0 <= i < plan.remaining@.len() ==> #[trigger] plan.remaining@[i] < program.external_functions@.len(),
            plan.external_type_base + program.external_functions@.len() <= u32::MAX,
            forall|v: int| 0 <= v < wasi_import_table().len() ==> wasi_import_at(#[trigger] imports@[v], v, plan.wasi_type_base as int),
            forall|j: int| 0 <= j < k ==> host_import_at(
                #[trigger] imports@[wasi_import_table().len() + j],
                program,
                plan.remaining@[j] as int,
                plan.external_type_base as int,
            ),
        decreases plan.remaining@.len() - k,
    {
        let e = plan.remaining[k];
        let external = &program.external_functions[e];
        imports.push(ModuleImport {
            module: String::from_str(import_module(external.link_name.as_str())),
            name: external.link_name.clone(),
            type_index: plan.external_type_base + e as u32,
        });
        proof {
            assert(imports@[wasi_import_table().len() + k] == imports@.last());
        }
        k = k + 1;
    }
    imports
}

/// The function section: each defined function's type index, in function
/// index order.
fn function_section(plan: &ModulePlan) -> (r: Vec<u32>)
    requires
        plan.async_type_base + asyncrt::COUNT <= u32::MAX,
        plan.runtime_type_base + rt::COUNT <= u32::MAX,
        plan.stdlib_type_base + INTERNAL_COUNT + 45 <= u32::MAX,
        plan.functions@.len() <= u32::MAX,
    ensures
        r@.len() == plan.functions@.len() + rt::COUNT + INTERNAL_COUNT + 45 + 1 + asyncrt::COUNT + plan.thunks@.len(),
        forall|i: int| 0 <= i < r@.len() ==> #[trigger] r@[i] == function_type_at(
            i,
            plan.functions@.len() as int,
            plan.runtime_type_base as int,
            plan.stdlib_type_base as int,
            plan.start_type as int,
            plan.async_type_base as int,
            plan.async_poll_type as int,
        ),
{
    let ghost nf = plan.functions@.len() as int;
    let mut section: Vec<u32> = Vec::new();
    let mut k: usize = 0;
    while k < plan.functions.len()
        invariant
            k <= plan.functions@.len(),
            nf == plan.functions@.len(),
            plan.functions@.len() <= u32::MAX,
            section@.len() == k,
            forall|i: int| 0 <= i < section@.len() ==> #[trigger] section@[i] == function_type_at(i, nf, plan.runtime_type_base as int, plan.stdlib_type_base as int, plan.start_type as int, plan.async_type_base as int, plan.async_poll_type as int),
        decreases plan.functions@.len() - k,
    {
        section.push(k as u32);
        k = k + 1;
    }
    let mut i: u32 = 0;
    while i < rt::COUNT
        invariant
            i <= rt::COUNT,
            nf == plan.functions@.len(),
            plan.runtime_type_base + rt::COUNT <= u32::MAX,
            section@.len() == plan.functions@.len() + i,
            forall|j: int| 0 <= j < section@.len() ==> #[trigger] section@[j] == function_type_at(j, nf, plan.runtime_type_base as int, plan.stdlib_type_base as int, plan.start_type as int, plan.async_type_base as int, plan.async_poll_type as int),
        decreases rt::COUNT - i,
    {
        section.push(plan.runtime_type_base + i);
        i = i + 1;
    }
    let stdlib_count = stdlib::body_count();
    let mut i: u32 = 0;
    while i < stdlib_count
        invariant
            i <= stdlib_count,
            nf == plan.functions@.len(),
            stdlib_count == INTERNAL_COUNT + 45,
            plan.stdlib_type_base + INTERNAL_COUNT + 45 <= u32::MAX,
            section@.len() == plan.functions@.len() + rt::COUNT + i,
            forall|j: int| 0 <= j < section@.len() ==> #[trigger] section@[j] == function_type_at(j, nf, plan.runtime_type_base as int, plan.stdlib_type_base as int, plan.start_type as int, plan.async_type_base as int, plan.async_poll_type as int),
        decreases stdlib_count - i,
    {
        section.push(plan.stdlib_type_base + i);
        i = i + 1;
    }
    section.push(plan.start_type);
    let mut i: u32 = 0;
    while i < asyncrt::COUNT
        invariant
            i <= asyncrt::COUNT,
            nf == plan.functions@.len(),
            plan.async_type_base + asyncrt::COUNT <= u32::MAX,
            section@.len() == plan.functions@.len() + rt::COUNT + INTERNAL_COUNT + 45 + 1 + i,
            forall|j: int| 0 <= j < section@.len() ==> #[trigger] section@[j] == function_type_at(j, nf, plan.runtime_type_base as int, plan.stdlib_type_base as int, plan.start_type as int, plan.async_type_base as int, plan.async_poll_type as int),
        decreases asyncrt::COUNT - i,
    {
        section.push(plan.async_type_base + i);
        i = i + 1;
    }
    let mut t: usize = 0;
    while t < plan.thunks.len()
        invariant
            t <= plan.thunks@.len(),
            nf == plan.functions@.len(),
            section@.len() == plan.functions@.len() + rt::COUNT + INTERNAL_COUNT + 45 + 1 + asyncrt::COUNT + t,
            forall|j: int| 0 <= j < section@.len() ==> #[trigger] section@[j] == function_type_at(j, nf, plan.runtime_type_base as int, plan.stdlib_type_base as int, plan.start_type as int, plan.async_type_base as int, plan.async_poll_type as int),
        decreases plan.thunks@.len() - t,
    {
        section.push(plan.async_poll_type);
        t = t + 1;
    }
    section
}

/// The text `vut_fn_` followed by the symbol's number.
fn function_export_name(symbol: SymbolId) -> (r: String)
    ensures
        r@ == export_name(symbol),
{
    let mut name = String::new();
    name.append("vut_fn_");
    crate::text::push_decimal(&mut name, symbol.0 as u64);
    name
}

/// The position (among the module's functions) of the entry, if it is one.
fn entry_position(functions: &Vec<&MirFunction>, entry: SymbolId) -> (r: Option<usize>)
    ensures
        r matches Some(k) ==> k < functions@.len() && functions@[k as int].symbol == entry,
        r is None ==> forall|k: int| 0 <= k < functions@.len() ==> functions@[k].symbol != entry,
{
    let mut k: usize = 0;
    while k < functions.len()
        invariant
            k <= functions@.len(),
            forall|j: int| 0 <= j < k ==> functions@[j].symbol != entry,
        decreases functions@.len() - k,
    {
        if functions[k].symbol == entry {
            return Some(k);
        }
        k = k + 1;
    }
    None
}

/// The exports: each function as `vut_fn_<symbol>`, the entry as `main`,
/// the allocator, the memory and `_start`.
fn module_exports(functions: &Vec<&MirFunction>, plan: &ModulePlan, entry: SymbolId, alloc: u32) -> (r: Vec<ModuleExport>)
    requires
        plan.import_count + functions@.len() <= u32::MAX,
    ensures
        exports_hold(
            r@,
            functions@.map_values(|f: &MirFunction| f.symbol),
            entry,
            plan.import_count as int,
            alloc as int,
            plan.start_index as int,
        ),
{
    let ghost symbols = functions@.map_values(|f: &MirFunction| f.symbol);
    let mut exports: Vec<ModuleExport> = Vec::new();
    let mut k: usize = 0;
    while k < functions.len()
        invariant
            k <= functions@.len(),
            symbols == functions@.map_values(|f: &MirFunction| f.symbol),
            plan.import_count + functions@.len() <= u32::MAX,
            exports@.len() == k,
            forall|j: int| 0 <= j < k ==> function_export_at(#[trigger] exports@[j], symbols[j], plan.import_count + j),
        decreases functions@.len() - k,
    {
        exports.push(ModuleExport {
            name: function_export_name(functions[k].symbol),
            kind: ExportKind::Function,
            index: plan.import_count + k as u32,
        });
        k = k + 1;
    }
    let ghost n = functions@.len() as int;
    let ghost named = exports@;
    let position = entry_position(functions, entry);
    match position {
        Some(k) => {
            exports.push(ModuleExport {
                name: String::from_str("main"),
                kind: ExportKind::Function,
                index: plan.import_count + k as u32,
            });
            proof {
                assert(symbols[k as int] == entry);
            }
        },
        None => {
            proof {
                assert forall|j: int| 0 <= j < n implies symbols[j] != entry by {
                    assert(symbols[j] == functions@[j].symbol);
                }
            }
        },
    }
    let ghost with_main = exports@;
    exports.push(ModuleExport { name: String::from_str("vut_alloc"), kind: ExportKind::Function, index: alloc });
    exports.push(ModuleExport { name: String::from_str("memory"), kind: ExportKind::Memory, index: 0 });
    exports.push(ModuleExport { name: String::from_str("_start"), kind: ExportKind::Function, index: plan.start_index });
    proof {
        assert(exports@.subrange(0, n) =~= named);
        assert forall|j: int| 0 <= j < n implies function_export_at(#[trigger] exports@[j], symbols[j], plan.import_count + j) by {
            assert(exports@[j] == named[j]);
        }
        if position is Some {
            assert(exports@[n] == with_main[n]);
        }
    }
    exports
}

/// Sets the index of `symbol` to `index`, replacing an earlier one.
fn set_symbol<V>(table: &mut Vec<(SymbolId, V)>, symbol: SymbolId, value: V)
    ensures
        final(table)@ == upsert(old(table)@, symbol, value),
{
    let mut i: usize = 0;
    while i < table.len()
        invariant
            i <= table@.len(),
            table@ == old(table)@,
            forall|j: int| 0 <= j < i ==> (#[trigger] table@[j]).0 != symbol,
        decreases table@.len() - i,
    {
        if table[i].0 == symbol {
            proof {
                lemma_first_key(old(table)@, symbol, i as int);
            }
            table.set(i, (symbol, value));
            return;
        }
        i = i + 1;
    }
    proof {
        lemma_no_key(old(table)@, symbol);
    }
    table.push((symbol, value));
}

/// The function index of each symbol a call can name: the module's
/// functions, the host-provided externs, and the externs that stdlib
/// helpers implement.
fn symbol_table(program: &Program, functions: &Vec<&MirFunction>, plan: &ModulePlan) -> (r: Vec<(SymbolId, u32)>)
    requires
        plan.import_count + functions@.len() <= u32::MAX,
        9 + plan.remaining@.len() <= u32::MAX,
        forall|i: int| 0 <= i < plan.remaining@.len() ==> #[trigger] plan.remaining@[i] < program.external_functions@.len(),
        forall|i: int| 0 <= i < plan.supported@.len() ==> #[trigger] plan.supported@[i] < program.external_functions@.len(),
        plan.stdlib_base + INTERNAL_COUNT + 45 <= u32::MAX,
    ensures
        r@ == upsert_all(
            upsert_all(
                upsert_all(Seq::empty(), function_assigns(functions@, plan.import_count as int)),
                host_assigns(program, plan.remaining@),
            ),
            helper_assigns(program, plan.supported@, plan.stdlib_base),
        ),
{
    let ghost fa = function_assigns(functions@, plan.import_count as int);
    let ghost ha = host_assigns(program, plan.remaining@);
    let mut table: Vec<(SymbolId, u32)> = Vec::new();
    let mut k: usize = 0;
    while k < functions.len()
        invariant
            k <= functions@.len(),
            plan.import_count + functions@.len() <= u32::MAX,
            fa == function_assigns(functions@, plan.import_count as int),
            table@ == upsert_all(Seq::empty(), fa.take(k as int)),
        decreases functions@.len() - k,
    {
        proof {
            lemma_upsert_step(Seq::<(SymbolId, u32)>::empty(), fa, k as int);
        }
        set_symbol(&mut table, functions[k].symbol, plan.import_count + k as u32);
        k = k + 1;
    }
    assert(fa.take(k as int) =~= fa);
    let ghost after_functions = table@;
    let mut k: usize = 0;
    while k < plan.remaining.len()
        invariant
            k <= plan.remaining@.len(),
            9 + plan.remaining@.len() <= u32::MAX,
            forall|i: int| 0 <= i < plan.remaining@.len() ==> #[trigger] plan.remaining@[i] < program.external_functions@.len(),
            ha == host_assigns(program, plan.remaining@),
            table@ == upsert_all(after_functions, ha.take(k as int)),
        decreases plan.remaining@.len() - k,
    {
        proof {
            lemma_upsert_step(after_functions, ha, k as int);
        }
        let external = &program.external_functions[plan.remaining[k]];
        set_symbol(&mut table, external.symbol, 9 + k as u32);
        k = k + 1;
    }
    assert(ha.take(k as int) =~= ha);
    let ghost after_hosts = table@;
    let mut k: usize = 0;
    while k < plan.supported.len()
        invariant
            k <= plan.supported@.len(),
            forall|i: int| 0 <= i < plan.supported@.len() ==> #[trigger] plan.supported@[i] < program.external_functions@.len(),
            plan.stdlib_base + INTERNAL_COUNT + 45 <= u32::MAX,
            table@ == upsert_all(after_hosts, helper_assigns(program, plan.supported@.take(k as int), plan.stdlib_base)),
        decreases plan.supported@.len() - k,
    {
        let external = &program.external_functions[plan.supported[k]];
        proof {
            assert(plan.supported@.take(k as int + 1).drop_last() =~= plan.supported@.take(k as int));
            assert(helper_names().len() == 45);
        }
        let ghost before = helper_assigns(program, plan.supported@.take(k as int), plan.stdlib_base);
        match helper_index(plan.stdlib_base, external.link_name.as_str()) {
            Some(index) => {
                set_symbol(&mut table, external.symbol, index);
                proof {
                    let after = before.push((external.symbol, index));
                    assert(helper_assigns(program, plan.supported@.take(k as int + 1), plan.stdlib_base) == after);
                    assert(after.drop_last() =~= before);
                }
            },
            None => {},
        }
        k = k + 1;
    }
    assert(plan.supported@.take(k as int) =~= plan.supported@);
    table
}

/// The wasm parameter types of each direct callee: the module's functions
/// and every extern.
fn callee_param_table(program: &Program, functions: &Vec<&MirFunction>) -> (r: Vec<(SymbolId, Vec<ValTy>)>)
    requires
        module_ready(program),
        forall|i: int| 0 <= i < functions@.len() ==> signature_known(&program.layouts, #[trigger] functions@[i]),
    ensures
        table_view(r@) == upsert_all(Seq::empty(), param_assigns(program, functions@)),
{
    let ghost pa = param_assigns(program, functions@);
    let nf = functions.len();
    let mut table: Vec<(SymbolId, Vec<ValTy>)> = Vec::new();
    assert(table_view(table@) =~= Seq::<(SymbolId, Seq<ValTy>)>::empty());
    let mut k: usize = 0;
    while k < functions.len()
        invariant
            k <= functions@.len(),
            nf == functions@.len(),
            forall|i: int| 0 <= i < functions@.len() ==> signature_known(&program.layouts, #[trigger] functions@[i]),
            pa == param_assigns(program, functions@),
            table_view(table@) == upsert_all(Seq::empty(), pa.take(k as int)),
        decreases functions@.len() - k,
    {
        let (params, _) = wasm_signature(&program.layouts, functions[k]);
        proof {
            lemma_upsert_step(Seq::<(SymbolId, Seq<ValTy>)>::empty(), pa, k as int);
            lemma_upsert_view(table@, functions@[k as int].symbol, params);
        }
        set_symbol(&mut table, functions[k].symbol, params);
        k = k + 1;
    }
    let mut e: usize = 0;
    while e < program.external_functions.len()
        invariant
            e <= program.external_functions@.len(),
            nf == functions@.len(),
            module_ready(program),
            pa == param_assigns(program, functions@),
            pa.len() == nf + program.external_functions@.len(),
            table_view(table@) == upsert_all(Seq::empty(), pa.take(nf + e)),
        decreases program.external_functions@.len() - e,
    {
        let external = &program.external_functions[e];
        let params = valtypes(program, &external.parameters);
        proof {
            lemma_upsert_step(Seq::<(SymbolId, Seq<ValTy>)>::empty(), pa, nf + e);
            lemma_upsert_view(table@, external.symbol, params);
        }
        set_symbol(&mut table, external.symbol, params);
        e = e + 1;
    }
    assert(pa.take(nf + e) =~= pa);
    table
}

/// The poll entry of each async function: a state machine's own index, or
/// the resume thunk of an async body without one.
fn poll_thunk_table(functions: &Vec<&MirFunction>, plan: &ModulePlan) -> (r: Vec<(SymbolId, u32)>)
    requires
        plan.import_count + functions@.len() <= u32::MAX,
        plan.thunk_base + plan.thunks@.len() <= u32::MAX,
        forall|i: int| 0 <= i < plan.thunks@.len() ==> #[trigger] plan.thunks@[i] < functions@.len(),
    ensures
        r@ == upsert_all(
            upsert_all(Seq::empty(), poll_assigns(functions@, plan.import_count as int)),
            thunk_assigns(functions@, plan.thunks@, plan.thunk_base as int),
        ),
{
    let ghost ta = thunk_assigns(functions@, plan.thunks@, plan.thunk_base as int);
    let mut table: Vec<(SymbolId, u32)> = Vec::new();
    let mut k: usize = 0;
    while k < functions.len()
        invariant
            k <= functions@.len(),
            plan.import_count + functions@.len() <= u32::MAX,
            table@ == upsert_all(Seq::empty(), poll_assigns(functions@.take(k as int), plan.import_count as int)),
        decreases functions@.len() - k,
    {
        let ghost before = poll_assigns(functions@.take(k as int), plan.import_count as int);
        proof {
            assert(functions@.take(k as int + 1).drop_last() =~= functions@.take(k as int));
        }
        if functions[k].is_poll {
            set_symbol(&mut table, functions[k].symbol, plan.import_count + k as u32);
            proof {
                let after = before.push((functions@[k as int].symbol, (plan.import_count + k) as u32));
                assert(poll_assigns(functions@.take(k as int + 1), plan.import_count as int) == after);
                assert(after.drop_last() =~= before);
            }
        }
        k = k + 1;
    }
    assert(functions@.take(k as int) =~= functions@);
    let ghost after_polls = table@;
    let mut t: usize = 0;
    while t < plan.thunks.len()
        invariant
            t <= plan.thunks@.len(),
            plan.thunk_base + plan.thunks@.len() <= u32::MAX,
            forall|i: int| 0 <= i < plan.thunks@.len() ==> #[trigger] plan.thunks@[i] < functions@.len(),
            ta == thunk_assigns(functions@, plan.thunks@, plan.thunk_base as int),
            table@ == upsert_all(after_polls, ta.take(t as int)),
        decreases plan.thunks@.len() - t,
    {
        proof {
            lemma_upsert_step(after_polls, ta, t as int);
        }
        set_symbol(&mut table, functions[plan.thunks[t]].symbol, plan.thunk_base + t as u32);
        t = t + 1;
    }
    assert(ta.take(t as int) =~= ta);
    table
}

/// The size of `entry`'s async frame, 0 when it has none.
fn frame_size_of(program: &Program, entry: SymbolId) -> (r: u64)
    ensures
        r == (match first_key(program.frames@, entry) {
            Some(i) => program.frames@[i].1.size,
            None => 0,
        }),
{
    let mut i: usize = 0;
    while i < program.frames.len()
        invariant
            i <= program.frames@.len(),
            forall|j: int| 0 <= j < i ==> (#[trigger] program.frames@[j]).0 != entry,
        decreases program.frames@.len() - i,
    {
        if program.frames[i].0 == entry {
            proof {
                lemma_first_key(program.frames@, entry, i as int);
            }
            return program.frames[i].1.size;
        }
        i = i + 1;
    }
    proof {
        lemma_no_key(program.frames@, entry);
    }
    0
}

/// `_start`: run the entry (if the module has it) and discard its result.
/// An async entry with a state machine gets a root frame and handle driven
/// by the executor; an async entry without one is called once on a fresh
/// frame.
fn start_body(program: &Program, functions: &Vec<&MirFunction>, plan: &ModulePlan, entry: SymbolId, async_rt: &AsyncRt) -> (r: Body)
    requires
        plan.import_count + functions@.len() <= u32::MAX,
        forall|i: int| 0 <= i < functions@.len() ==> signature_known(&program.layouts, #[trigger] functions@[i]),
    ensures
        r.valid(),
        r.params == 0,
{
    let mut f = Builder::new(0);
    f.declare(2, ValTy::I32);
    match entry_position(functions, entry) {
        Some(k) => {
            let entry_fn = functions[k];
            let entry_index = plan.import_count + k as u32;
            let frame_size = frame_size_of(program, entry);
            let (_, result) = wasm_signature(&program.layouts, entry_fn);
            if entry_fn.is_poll {
                f.push(Ins::I32Const(frame_size as i32));
                f.push(Ins::Call(async_rt.frame_alloc));
                f.push(Ins::LocalSet(0));
                f.push(Ins::I32Const(entry_index as i32));
                f.push(Ins::I32Const(0));
                f.push(Ins::LocalGet(0));
                f.push(Ins::I32Const(0));
                f.push(Ins::Call(async_rt.handle_new));
                f.push(Ins::Call(async_rt.executor_run));
                f.push(Ins::Drop);
            } else if entry_fn.frame_param.is_some() {
                f.push(Ins::I32Const(frame_size as i32));
                f.push(Ins::Call(async_rt.frame_alloc));
                f.push(Ins::Call(entry_index));
                if result.is_some() {
                    f.push(Ins::Drop);
                }
            } else {
                f.push(Ins::Call(entry_index));
                if result.is_some() {
                    f.push(Ins::Drop);
                }
            }
        },
        None => {},
    }
    f.push(Ins::End);
    f.finish()
}

/// The module's functions: the program's functions at the plan's positions.
fn function_list<'a>(program: &'a Program, positions: &Vec<usize>) -> (r: Vec<&'a MirFunction>)
    requires
        module_ready(program),
        forall|j: int| 0 <= j < positions@.len() ==> #[trigger] positions@[j] < program.functions@.len(),
    ensures
        r@.len() == positions@.len(),
        forall|j: int| 0 <= j < r@.len() ==> *(#[trigger] r@[j]) == program.functions@[positions@[j] as int],
        forall|j: int| 0 <= j < r@.len() ==> signature_known(&program.layouts, #[trigger] r@[j]),
        forall|j: int| 0 <= j < r@.len() ==> lowerable_in(&program.layouts, #[trigger] r@[j]),
{
    let mut functions: Vec<&MirFunction> = Vec::new();
    let mut k: usize = 0;
    while k < positions.len()
        invariant
            k <= positions@.len(),
            module_ready(program),
            forall|j: int| 0 <= j < positions@.len() ==> #[trigger] positions@[j] < program.functions@.len(),
            functions@.len() == k,
            forall|j: int| 0 <= j < k ==> *(#[trigger] functions@[j]) == program.functions@[positions@[j] as int],
        decreases positions@.len() - k,
    {
        functions.push(&program.functions[positions[k]]);
        k = k + 1;
    }
    assert forall|j: int| 0 <= j < functions@.len() implies signature_known(&program.layouts, #[trigger] functions@[j])
        && lowerable_in(&program.layouts, functions@[j]) by {
        let i = positions@[j] as int;
        assert(signature_known(&program.layouts, &program.functions@[i]));
    }
    functions
}

/// Lowers each of the module's functions, in order.
fn lower_functions(ctx: &LowerCtx, functions: &Vec<&MirFunction>) -> (r: Result<Vec<Body>, CodegenError>)
    requires
        ctx.wf(),
        forall|j: int| 0 <= j < functions@.len() ==> lowerable_in(ctx.layouts, #[trigger] functions@[j]),
    ensures
        r matches Ok(bodies) ==> bodies@.len() == functions@.len()
            && forall|i: int| 0 <= i < bodies@.len() ==> (#[trigger] bodies@[i]).valid(),
        r matches Ok(bodies) ==> forall|i: int| 0 <= i < bodies@.len() ==> lowered_as(ctx, functions@[i], &#[trigger] bodies@[i]),
        r is Ok <==> forall|j: int| 0 <= j < functions@.len() ==> body_lowers(ctx, #[trigger] functions@[j]),
        r matches Err(e) ==> e is Backend,
        r matches Err(CodegenError::Backend(m)) ==> exists|j: int| #![trigger functions@[j]] {
            &&& 0 <= j < functions@.len()
            &&& (forall|k: int| 0 <= k < j ==> body_lowers(ctx, #[trigger] functions@[k]))
            &&& exists|b: int, i: int| #[trigger] first_failure(ctx, functions@[j], b, i)
                && m@ == lowering_error(ctx, functions@[j], ins_at(functions@[j], b, i))
        },
{
    let mut bodies: Vec<Body> = Vec::new();
    let mut k: usize = 0;
    while k < functions.len()
        invariant
            k <= functions@.len(),
            bodies@.len() == k,
            ctx.wf(),
            forall|j: int| 0 <= j < functions@.len() ==> lowerable_in(ctx.layouts, #[trigger] functions@[j]),
            forall|i: int| 0 <= i < bodies@.len() ==> (#[trigger] bodies@[i]).valid(),
            forall|i: int| 0 <= i < bodies@.len() ==> lowered_as(ctx, functions@[i], &#[trigger] bodies@[i]),
            forall|j: int| 0 <= j < k ==> body_lowers(ctx, #[trigger] functions@[j]),
        decreases functions@.len() - k,
    {
        match function_body(ctx, functions[k]) {
            Ok(b) => bodies.push(b),
            Err(e) => {
                proof {
                    assert(!body_lowers(ctx, functions@[k as int]));
                    if let CodegenError::Backend(m) = &e {
                        let (b, i) = choose|b: int, i: int| #[trigger] first_failure(ctx, functions@[k as int], b, i)
                            && m@ == lowering_error(ctx, functions@[k as int], ins_at(functions@[k as int], b, i));
                        assert(first_failure(ctx, functions@[k as int], b, i));
                    }
                }
                return Err(e);
            },
        }
        k = k + 1;
    }
    Ok(bodies)
}

/// The bodies after the program's functions: the runtime helpers, the
/// stdlib helpers other than math, `_start`, the async helpers, and the
/// resume thunks; with the position (in the returned bodies) where the math
/// helpers belong.
fn helper_bodies(program: &Program, functions: &Vec<&MirFunction>, plan: &ModulePlan, entry: SymbolId, alloc: u32, async_rt: &AsyncRt) -> (r: (Vec<Body>, usize))
    requires
        plan.runtime_base + rt::COUNT <= u32::MAX,
        plan.stdlib_base + INTERNAL_COUNT <= u32::MAX,
        plan.async_base + asyncrt::COUNT <= u32::MAX,
        plan.import_count + functions@.len() <= u32::MAX,
        forall|i: int| 0 <= i < functions@.len() ==> signature_known(&program.layouts, #[trigger] functions@[i]),
        forall|i: int| 0 <= i < plan.thunks@.len() ==> #[trigger] plan.thunks@[i] < functions@.len(),
    ensures
        forall|i: int| 0 <= i < r.0@.len() ==> (#[trigger] r.0@[i]).valid(),
        r.0@.len() + MATH_COUNT == rt::COUNT + INTERNAL_COUNT + 45 + 1 + asyncrt::COUNT + plan.thunks@.len(),
        r.1 <= r.0@.len(),
        r.1 == rt::COUNT + INTERNAL_COUNT + 45 - MATH_COUNT,
        body_views(r.0@.take(rt::COUNT as int)) == runtime::runtime_body_views(plan.runtime_base),
        stdlib::stdlib_views_for(
            plan.stdlib_base,
            Seq::new(9, |w: int| w as u32),
            alloc,
            (plan.runtime_base + rt::BYTES_NEW) as u32,
            body_views(r.0@.subrange(rt::COUNT as int, r.1 as int)),
        ),
        body_views(r.0@.subrange(r.1 + 1, r.1 + 1 + asyncrt::COUNT))
            == asyncrt::async_body_views(plan.async_base, alloc, plan.async_poll_type, plan.async_drop_type, 1),
{
    let mut bodies = runtime::bodies(plan.runtime_base);
    let ghost runtime_part = bodies@;
    let mut wasi: Vec<u32> = Vec::new();
    let mut w: u32 = 0;
    while w < 9
        invariant
            w <= 9,
            wasi@.len() == w,
            forall|i: int| 0 <= i < w ==> #[trigger] wasi@[i] == i,
        decreases 9 - w,
    {
        wasi.push(w);
        w = w + 1;
    }
    assert(wasi@ =~= Seq::new(9, |w: int| w as u32));
    let mut stdlib_bodies = stdlib::bodies(plan.stdlib_base, wasi, alloc, plan.runtime_base + rt::BYTES_NEW);
    let ghost stdlib_part = stdlib_bodies@;
    bodies.append(&mut stdlib_bodies);
    let math_position = bodies.len();
    bodies.push(start_body(program, functions, plan, entry, async_rt));
    let mut async_bodies = asyncrt::bodies(plan.async_base, alloc, plan.async_poll_type, plan.async_drop_type, 1);
    let ghost async_part = async_bodies@;
    bodies.append(&mut async_bodies);
    let ghost prefix = bodies@;
    proof {
        assert(prefix.take(rt::COUNT as int) =~= runtime_part);
        assert(prefix.subrange(rt::COUNT as int, math_position as int) =~= stdlib_part);
        assert(prefix.subrange(math_position + 1, math_position + 1 + asyncrt::COUNT) =~= async_part);
    }
    let mut t: usize = 0;
    while t < plan.thunks.len()
        invariant
            t <= plan.thunks@.len(),
            forall|i: int| 0 <= i < bodies@.len() ==> (#[trigger] bodies@[i]).valid(),
            forall|i: int| 0 <= i < functions@.len() ==> signature_known(&program.layouts, #[trigger] functions@[i]),
            forall|i: int| 0 <= i < plan.thunks@.len() ==> #[trigger] plan.thunks@[i] < functions@.len(),
            plan.import_count + functions@.len() <= u32::MAX,
            bodies@.len() + MATH_COUNT == rt::COUNT + INTERNAL_COUNT + 45 + 1 + asyncrt::COUNT + t,
            math_position <= bodies@.len(),
            prefix.len() <= bodies@.len(),
            forall|i: int| 0 <= i < prefix.len() ==> #[trigger] bodies@[i] == prefix[i],
        decreases plan.thunks@.len() - t,
    {
        let index = plan.thunks[t];
        let (_, result) = wasm_signature(&program.layouts, functions[index]);
        bodies.push(asyncrt::resume_thunk(plan.import_count + index as u32, result));
        t = t + 1;
    }
    proof {
        assert(bodies@.take(rt::COUNT as int) =~= prefix.take(rt::COUNT as int));
        assert(bodies@.subrange(rt::COUNT as int, math_position as int)
            =~= prefix.subrange(rt::COUNT as int, math_position as int));
        assert(bodies@.subrange(math_position + 1, math_position + 1 + asyncrt::COUNT)
            =~= prefix.subrange(math_position + 1, math_position + 1 + asyncrt::COUNT));
    }
    (bodies, math_position)
}

impl WasmBackend {
    /// The contents of the executable module for `program` with entry
    /// `entry`: the plan's checks and layout, then every section's entries
    /// and every function body the library generates. Fails when planning
    /// fails or a function body does not lower.
    #[verifier::rlimit(40)]
    pub fn module_parts(&self, program: &Program, entry: SymbolId) -> (r: Result<ModuleParts, CodegenError>)
        requires
            wasm_triple(self.target().triple@) ==> fits_index_space(program) && module_ready(program),
        ensures
            wasm_triple(self.target().triple@) && imports_supported(program, entry) && module_lowers(program, entry)
                ==> r is Ok,
            ({
                let arch = triple_architecture(self.target().triple@);
                !(arch == Some(Arch::Wasm32) || arch == Some(Arch::Wasm64))
                    ==> (r matches Err(CodegenError::InvalidTarget(msg))
                        && msg@ == invalid_target_message(self.target().triple@))
            }),
            r matches Ok(parts) ==> parts_hold(program, entry, &parts),
            r matches Err(e) ==> (e is Backend || e is InvalidTarget),
            target_and_imports_checked(self.target().triple@, program, entry, r),
    {
        let plan = match self.plan_module(program, entry) {
            Ok(plan) => plan,
            Err(e) => {
                return Err(e);
            },
        };
        let ghost fs = plan.functions@;
        proof {
            lemma_positions_bound(program.functions@.len(), |i: int| holds_function(program, entry, i));
            lemma_positions_bound(
                program.external_functions@.len(),
                |e: int| crate::wasm::backend::is_host_import(program, fs, e),
            );
            lemma_positions_bound(
                program.external_functions@.len(),
                |e: int| crate::wasm::backend::is_helper_import(program, fs, e),
            );
            lemma_positions_bound(fs.len(), |k: int| crate::wasm::backend::needs_thunk(program, fs, k));
        }
        let functions = function_list(program, &plan.functions);
        let runtime = Runtime::new(plan.runtime_base);
        let async_rt = AsyncRt::new(plan.async_base);
        let (data, strings) = collect_strings(program);
        let page_count: u64 = (data.len() as u64 + PAGE - 1) / PAGE;
        let pages: u32 = if page_count >= 1 { page_count as u32 } else { 1 };
        let heap_bytes: usize = if data.len() >= 1024 { data.len() } else { 1024 };
        let heap_init = align16(heap_bytes as i32);
        let (types, callable_types) = module_types(program, &functions, &plan);
        let imports = module_imports(program, &plan);
        let function_types = function_section(&plan);
        let exports = module_exports(&functions, &plan, entry, runtime.alloc);
        let symbols = symbol_table(program, &functions, &plan);
        let callee_params = callee_param_table(program, &functions);
        let poll_thunks = poll_thunk_table(&functions, &plan);
        let ctx = LowerCtx {
            layouts: &program.layouts,
            symbols: &symbols,
            strings: &strings,
            callee_params: &callee_params,
            callable_types: &callable_types,
            callables: &program.callables,
            rt: &runtime,
            frames: &program.frames,
            poll_thunks: &poll_thunks,
            async_rt: &async_rt,
            frame_state_offset: 0,
            frame_child_offset: 4,
        };
        proof {
            assert(functions@ =~= module_functions(program, entry));
            assert(lowering_tables_hold(program, entry, &ctx));
            if module_lowers(program, entry) {
                assert forall|j: int| 0 <= j < functions@.len() implies body_lowers(&ctx, #[trigger] functions@[j]) by {
                    assert(functions@[j] == module_functions(program, entry)[j]);
                }
            }
        }
        let mut bodies = match lower_functions(&ctx, &functions) {
            Ok(b) => b,
            Err(e) => {
                return Err(e);
            },
        };
        let (mut helpers, helper_math) = helper_bodies(program, &functions, &plan, entry, runtime.alloc, &async_rt);
        let ghost lowered = bodies@;
        let ghost helper_part = helpers@;
        let math_position = bodies.len() + helper_math;
        bodies.append(&mut helpers);
        proof {
            let nf = lowered.len() as int;
            assert(bodies@.subrange(nf, nf + rt::COUNT) =~= helper_part.take(rt::COUNT as int));
            assert(bodies@.subrange(nf + rt::COUNT, math_position as int) =~= helper_part.subrange(rt::COUNT as int, helper_math as int));
            assert(bodies@.subrange(math_position + 1, math_position + 1 + asyncrt::COUNT)
                =~= helper_part.subrange(helper_math + 1, helper_math + 1 + asyncrt::COUNT));
            assert forall|i: int| 0 <= i < nf implies lowered_as(&ctx, module_functions(program, entry)[i], &#[trigger] bodies@[i]) by {
                assert(bodies@[i] == lowered[i]);
                assert(module_functions(program, entry)[i] == functions@[i]);
            }
        }
        let metadata = interface_metadata(program, &functions, entry);
        proof {
            assert(helper_names().len() == 45);
            assert(wasi_import_table().len() == 9);
            assert(fs.map_values(|i: usize| program.functions@[i as int].symbol)
                =~= functions@.map_values(|f: &MirFunction| f.symbol));
            assert(fs.map_values(|i: usize| &program.functions@[i as int]) =~= functions@);
            assert(fs.map_values(|i: usize| program.functions@[i as int]) =~= functions@.map_values(|f: &MirFunction| *f));
        }
        let parts = ModuleParts {
            types,
            imports,
            function_types,
            table_size: plan.total_functions,
            pages,
            heap_init,
            exports,
            bodies,
            math_position,
            data,
            metadata,
        };
        proof {
            let d = parts.data@.len() as int;
            assert(parts.pages == (if (d + 65535) / 65536 >= 1 { (d + 65535) / 65536 } else { 1 }));
            let heap = if d >= 1024 { d } else { 1024 };
            assert(parts.heap_init == (heap + 15) - (heap + 15) % 16);
        }
        Ok(parts)
    }
}

} // verus!
