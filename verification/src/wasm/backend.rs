//! The WebAssembly code generator: target checks and the module layout plan.
//!
//! A module lays out its function index space as: the WASI imports, the
//! host imports of the remaining externs, the program's reachable
//! functions, the runtime helpers, the stdlib helpers, `_start`, the async
//! helpers, and one resume thunk per async body without a state machine.
use vstd::prelude::*;
use vstd::string::StringExecFns;
use crate::wasm::asyncrt;
use crate::wasm::imports::{runtime_module_of, unsupported_runtime_module};
use crate::wasm::layout::{is_wasm_target, triple_architecture, Arch};
use crate::wasm::program::{ExternalFunction, MirFunction, Program, SymbolId};
use crate::wasm::reach::{contains_symbol, reachable, reachable_functions};
use crate::wasm::rt_index as rt;
use crate::wasm::stdlib::{helper_names, is_supported, wasi_import_table, INTERNAL_COUNT};

verus! {

/// A compilation target: triple, optional CPU and feature overrides.
#[derive(Clone, Debug, PartialEq, Eq)]
pub struct Target {
    pub triple: String,
    pub cpu: Option<String>,
    pub features: Vec<String>,
}

impl Target {
    /// The portable baseline of `triple`: no CPU and no feature overrides.
    pub fn portable(triple: &str) -> (t: Target)
        ensures
            t.triple@ == triple@,
            t.cpu is None,
            t.features@.len() == 0,
    {
        Target { triple: triple.to_owned(), cpu: None, features: Vec::new() }
    }
}

/// Why code generation failed.
#[derive(Clone, Debug, PartialEq, Eq)]
pub enum CodegenError {
    /// The backend cannot generate code for the target.
    InvalidTarget(String),
    /// The program uses something the backend cannot lower.
    Backend(String),
}

/// The WebAssembly code generator.
pub struct WasmBackend {
    target: Target,
}

/// The message for a non-wasm target.
pub open spec fn invalid_target_message(triple: Seq<char>) -> Seq<char> {
    "wasm backend cannot target `"@ + triple + "`"@
}

/// The message for a native runtime import without a wasm implementation.
pub open spec fn unsupported_import_message(module: Seq<char>, link: Seq<char>) -> Seq<char> {
    "this program uses a standard-library capability (`"@ + module
        + "`) that is not available on wasm32-wasip1: native runtime import `"@ + link
        + "` has no wasm mapping"@
}

impl WasmBackend {
    /// Creates a wasm backend for `target`.
    pub fn new(target: Target) -> (backend: WasmBackend)
        ensures
            backend.target() == target,
    {
        WasmBackend { target }
    }

    pub closed spec fn target(&self) -> Target {
        self.target
    }

    /// Fails unless the backend's target is a 32/64-bit WebAssembly target.
    pub fn check_target(&self) -> (r: Result<(), CodegenError>)
        ensures
            ({
                let arch = triple_architecture(self.target().triple@);
                &&& r is Ok <==> (arch == Some(Arch::Wasm32) || arch == Some(Arch::Wasm64))
                &&& r matches Err(CodegenError::InvalidTarget(msg))
                    ==> msg@ == invalid_target_message(self.target().triple@)
                &&& !(r matches Err(CodegenError::Backend(_)))
            }),
    {
        if is_wasm_target(self.target.triple.as_str()) {
            Ok(())
        } else {
            let mut msg = String::new();
            msg.append("wasm backend cannot target `");
            msg.append(self.target.triple.as_str());
            msg.append("`");
            Err(CodegenError::InvalidTarget(msg))
        }
    }
}

/// `symbol` is referenced by one of `functions` (positions in `program`).
pub open spec fn called(program: &Program, functions: Seq<usize>, symbol: SymbolId) -> bool {
    exists|k: int| 0 <= k < functions.len()
        && #[trigger] program.functions@[functions[k] as int].references@.contains(symbol)
}

/// The external at `e` is called and has a wasm stdlib helper.
pub open spec fn is_helper_import(program: &Program, functions: Seq<usize>, e: int) -> bool {
    let ext = program.external_functions@[e];
    called(program, functions, ext.symbol) && helper_names().contains(ext.link_name@)
}

/// The external at `e` is called, has no helper and is a native runtime import.
pub open spec fn is_unsupported_import(program: &Program, functions: Seq<usize>, e: int) -> bool {
    let ext = program.external_functions@[e];
    &&& called(program, functions, ext.symbol)
    &&& !helper_names().contains(ext.link_name@)
    &&& runtime_module_of(ext.link_name@) is Some
}

/// The external at `e` is called and imported from the host.
pub open spec fn is_host_import(program: &Program, functions: Seq<usize>, e: int) -> bool {
    let ext = program.external_functions@[e];
    &&& called(program, functions, ext.symbol)
    &&& !helper_names().contains(ext.link_name@)
    &&& runtime_module_of(ext.link_name@) is None
}

/// Every called extern has exactly one home: a stdlib helper implements it,
/// the host provides it, or it is a native runtime import without a wasm
/// helper, on which planning fails.
pub proof fn lemma_extern_homes(program: &Program, functions: Seq<usize>, e: int)
    requires
        0 <= e < program.external_functions@.len(),
        called(program, functions, program.external_functions@[e].symbol),
    ensures
        is_helper_import(program, functions, e) || is_host_import(program, functions, e)
            || is_unsupported_import(program, functions, e),
        is_helper_import(program, functions, e) ==> !is_host_import(program, functions, e)
            && !is_unsupported_import(program, functions, e),
        is_host_import(program, functions, e) ==> !is_unsupported_import(program, functions, e),
{
}

/// The positions `i < n` (in order) for which `pred(i)` holds.
pub open spec fn positions(n: nat, pred: spec_fn(int) -> bool) -> Seq<usize>
    decreases n,
{
    if n == 0 {
        Seq::empty()
    } else if pred(n - 1) {
        positions((n - 1) as nat, pred).push((n - 1) as usize)
    } else {
        positions((n - 1) as nat, pred)
    }
}

/// The externs of a module: those implemented by stdlib helpers and those
/// imported from the host, as positions in `program.external_functions`.
#[derive(Debug)]
pub struct ExternPlan {
    pub supported: Vec<usize>,
    pub remaining: Vec<usize>,
}

/// Whether one of `functions` references `symbol`.
pub fn is_called(program: &Program, functions: &Vec<usize>, symbol: SymbolId) -> (r: bool)
    requires
        forall|k: int| 0 <= k < functions@.len() ==> #[trigger] functions@[k] < program.functions@.len(),
    ensures
        r == called(program, functions@, symbol),
{
    let mut k: usize = 0;
    while k < functions.len()
        invariant
            forall|k: int| 0 <= k < functions@.len() ==> #[trigger] functions@[k] < program.functions@.len(),
            k <= functions@.len(),
            forall|j: int| 0 <= j < k ==> !(#[trigger] program.functions@[functions@[j] as int].references@.contains(symbol)),
        decreases functions@.len() - k,
    {
        let f = &program.functions[functions[k]];
        if contains_symbol(&f.references, symbol) {
            return true;
        }
        k = k + 1;
    }
    false
}

/// Sorts the called externs into stdlib-implemented and host-imported ones;
/// fails on the first called native runtime import without a wasm helper.
pub fn classify_externals(program: &Program, functions: &Vec<usize>) -> (r: Result<ExternPlan, CodegenError>)
    requires
        forall|k: int| 0 <= k < functions@.len() ==> #[trigger] functions@[k] < program.functions@.len(),
    ensures
        r is Err <==> exists|e: int| 0 <= e < program.external_functions@.len()
            && #[trigger] is_unsupported_import(program, functions@, e),
        r matches Ok(plan) ==> {
            &&& plan.supported@ == positions(
                program.external_functions@.len(),
                |e: int| is_helper_import(program, functions@, e),
            )
            &&& plan.remaining@ == positions(
                program.external_functions@.len(),
                |e: int| is_host_import(program, functions@, e),
            )
        },
        r matches Err(CodegenError::Backend(msg)) ==> exists|e: int|
            0 <= e < program.external_functions@.len()
            && #[trigger] is_unsupported_import(program, functions@, e)
            && (forall|d: int| 0 <= d < e ==> !is_unsupported_import(program, functions@, d))
            && msg@ == unsupported_import_message(
                runtime_module_of(program.external_functions@[e].link_name@)->0,
                program.external_functions@[e].link_name@,
            ),
        !(r matches Err(CodegenError::InvalidTarget(_))),
{
    let ghost helper = |e: int| is_helper_import(program, functions@, e);
    let ghost host = |e: int| is_host_import(program, functions@, e);
    let mut supported: Vec<usize> = Vec::new();
    let mut remaining: Vec<usize> = Vec::new();
    let n = program.external_functions.len();
    let mut e: usize = 0;
    while e < n
        invariant
            n == program.external_functions@.len(),
            forall|k: int| 0 <= k < functions@.len() ==> #[trigger] functions@[k] < program.functions@.len(),
            e <= n,
            helper == (|e: int| is_helper_import(program, functions@, e)),
            host == (|e: int| is_host_import(program, functions@, e)),
            supported@ == positions(e as nat, helper),
            remaining@ == positions(e as nat, host),
            forall|d: int| 0 <= d < e ==> !is_unsupported_import(program, functions@, d),
        decreases n - e,
    {
        let external = &program.external_functions[e];
        let link = external.link_name.as_str();
        if is_called(program, functions, external.symbol) {
            if is_supported(link) {
                supported.push(e);
            } else {
                match unsupported_runtime_module(link) {
                    Some(module) => {
                        let mut msg = String::new();
                        msg.append("this program uses a standard-library capability (`");
                        msg.append(module);
                        msg.append("`) that is not available on wasm32-wasip1: native runtime import `");
                        msg.append(link);
                        msg.append("` has no wasm mapping");
                        proof {
                            assert(is_unsupported_import(program, functions@, e as int));
                        }
                        return Err(CodegenError::Backend(msg));
                    },
                    None => {
                        remaining.push(e);
                    },
                }
            }
        }
        e = e + 1;
    }
    Ok(ExternPlan { supported, remaining })
}

/// The layout of a module's function and type index spaces.
#[derive(Debug)]
pub struct ModulePlan {
    /// Positions (in `program.functions`) of the functions the module holds.
    pub functions: Vec<usize>,
    /// Positions (in `program.external_functions`) of the externs
    /// implemented by stdlib helpers.
    pub supported: Vec<usize>,
    /// Positions of the externs imported from the host.
    pub remaining: Vec<usize>,
    /// Positions (in `functions`) of the async bodies that need a resume thunk.
    pub thunks: Vec<usize>,
    pub import_count: u32,
    pub runtime_base: u32,
    pub stdlib_base: u32,
    pub start_index: u32,
    pub async_base: u32,
    pub thunk_base: u32,
    pub total_functions: u32,
    pub external_type_base: u32,
    pub wasi_type_base: u32,
    pub runtime_type_base: u32,
    pub stdlib_type_base: u32,
    pub start_type: u32,
    pub async_poll_type: u32,
    pub async_drop_type: u32,
    pub async_type_base: u32,
}

/// The function at `i` is reachable from `entry`.
pub open spec fn holds_function(program: &Program, entry: SymbolId, i: int) -> bool {
    reachable(program, entry, program.functions@[i].symbol)
}

/// The function at `functions[k]` is an async body without a state machine.
pub open spec fn needs_thunk(program: &Program, functions: Seq<usize>, k: int) -> bool {
    let f = program.functions@[functions[k] as int];
    f.frame_param is Some && !f.is_poll && f.frame_size is Some
}

/// What checking the target and the imports decides of a compilation of
/// `program` from `entry` for the target `target` with outcome `r`: a
/// non-wasm target is refused with the invalid-target error and a wasm
/// target never is; on a wasm target, the first extern that reachable code
/// calls and that has no wasm mapping fails the compilation with its
/// message.
pub open spec fn target_and_imports_checked<T>(target: Seq<char>, program: &Program, entry: SymbolId, r: Result<T, CodegenError>) -> bool {
    let arch = triple_architecture(target);
    let wasm = arch == Some(Arch::Wasm32) || arch == Some(Arch::Wasm64);
    let fs = positions(program.functions@.len(), |i: int| holds_function(program, entry, i));
    &&& !wasm ==> (r matches Err(CodegenError::InvalidTarget(msg)) && msg@ == invalid_target_message(target))
    &&& wasm ==> !(r matches Err(CodegenError::InvalidTarget(_)))
    &&& wasm && (exists|e: int| 0 <= e < program.external_functions@.len() && #[trigger] is_unsupported_import(program, fs, e))
        ==> (r matches Err(CodegenError::Backend(msg)) && exists|e: int|
            0 <= e < program.external_functions@.len()
            && #[trigger] is_unsupported_import(program, fs, e)
            && (forall|d: int| 0 <= d < e ==> !is_unsupported_import(program, fs, d))
            && msg@ == unsupported_import_message(
                runtime_module_of(program.external_functions@[e].link_name@)->0,
                program.external_functions@[e].link_name@,
            ))
}

/// The target is a 32- or 64-bit WebAssembly target.
pub open spec fn wasm_triple(triple: Seq<char>) -> bool {
    triple_architecture(triple) == Some(Arch::Wasm32) || triple_architecture(triple) == Some(Arch::Wasm64)
}

/// The indices a module takes besides the program's own functions, externs
/// and callables: the WASI imports and their three signatures, the runtime
/// helpers, the stdlib helpers, `_start`, the two async signatures and the
/// async helpers.
pub open spec fn fixed_indices() -> nat {
    (9 + 3 + rt::COUNT + INTERNAL_COUNT + 45 + 1 + 2 + asyncrt::COUNT) as nat
}

/// The program is small enough for 32-bit function and type indices: each
/// function may take a second index for its resume thunk, and the module's
/// own helpers take `fixed_indices()` more.
pub open spec fn fits_index_space(program: &Program) -> bool {
    2 * program.functions@.len() + program.external_functions@.len() + program.callables@.len() + fixed_indices()
        <= u32::MAX
}

/// Whether `program` is small enough for 32-bit indices.
pub fn index_space_fits(program: &Program) -> (r: bool)
    ensures
        r == fits_index_space(program),
{
    let functions = program.functions.len() as u64;
    let externals = program.external_functions.len() as u64;
    let callables = program.callables.len() as u64;
    let limit: u64 = 0xffff_ffff - (9 + 3 + rt::COUNT as u64 + INTERNAL_COUNT as u64 + 45 + 1 + 2 + asyncrt::COUNT as u64);
    functions <= limit && externals <= limit && callables <= limit && 2 * functions + externals + callables <= limit
}

proof fn lemma_positions_push(n: nat, pred: spec_fn(int) -> bool)
    ensures
        positions(n + 1, pred) == if pred(n as int) { positions(n, pred).push(n as usize) } else { positions(n, pred) },
{
}

/// Every position `positions(n, pred)` lists is below `n`, and it lists at
/// most `n` of them.
pub proof fn lemma_positions_bound(n: nat, pred: spec_fn(int) -> bool)
    ensures
        positions(n, pred).len() <= n,
        forall|k: int| 0 <= k < positions(n, pred).len() ==> #[trigger] positions(n, pred)[k] < n,
    decreases n,
{
    if n > 0 {
        lemma_positions_bound((n - 1) as nat, pred);
    }
}

impl WasmBackend {
    /// Plans the module for `program` with entry `entry`: checks the target,
    /// keeps the functions reachable from the entry, sorts the called externs,
    /// and lays out the function and type index spaces.
    pub fn plan_module(&self, program: &Program, entry: SymbolId) -> (r: Result<ModulePlan, CodegenError>)
        requires
            wasm_triple(self.target().triple@) ==> fits_index_space(program),
        ensures
            ({
                let arch = triple_architecture(self.target().triple@);
                !(arch == Some(Arch::Wasm32) || arch == Some(Arch::Wasm64))
                    ==> (r matches Err(CodegenError::InvalidTarget(msg))
                        && msg@ == invalid_target_message(self.target().triple@))
            }),
            r matches Ok(plan) ==> {
                let fs = positions(program.functions@.len(), |i: int| holds_function(program, entry, i));
                let nf = plan.functions@.len();
                let wasi = wasi_import_table().len();
                &&& plan.functions@ == fs
                &&& plan.supported@ == positions(
                    program.external_functions@.len(),
                    |e: int| is_helper_import(program, fs, e),
                )
                &&& plan.remaining@ == positions(
                    program.external_functions@.len(),
                    |e: int| is_host_import(program, fs, e),
                )
                &&& plan.thunks@ == positions(nf, |k: int| needs_thunk(program, fs, k))
                &&& plan.import_count == wasi + plan.remaining@.len()
                &&& plan.runtime_base == plan.import_count + nf
                &&& plan.stdlib_base == plan.runtime_base + rt::COUNT
                &&& plan.start_index == plan.stdlib_base + INTERNAL_COUNT + helper_names().len()
                &&& plan.async_base == plan.start_index + 1
                &&& plan.thunk_base == plan.async_base + asyncrt::COUNT
                &&& plan.total_functions == plan.thunk_base + plan.thunks@.len()
                &&& plan.external_type_base == nf
                &&& plan.wasi_type_base == nf + program.external_functions@.len()
                &&& plan.runtime_type_base == plan.wasi_type_base + 3
                &&& plan.stdlib_type_base == plan.runtime_type_base + rt::COUNT
                &&& plan.start_type == plan.stdlib_type_base + INTERNAL_COUNT + helper_names().len()
                &&& plan.async_poll_type == plan.start_type + 1 + program.callables@.len()
                &&& plan.async_drop_type == plan.async_poll_type + 1
                &&& plan.async_type_base == plan.async_drop_type + 1
            },
            r is Ok ==> (triple_architecture(self.target().triple@) == Some(Arch::Wasm32)
                || triple_architecture(self.target().triple@) == Some(Arch::Wasm64)),
            ({
                let arch = triple_architecture(self.target().triple@);
                let fs = positions(program.functions@.len(), |i: int| holds_function(program, entry, i));
                (arch == Some(Arch::Wasm32) || arch == Some(Arch::Wasm64)) ==> {
                    &&& r is Err <==> exists|e: int| 0 <= e < program.external_functions@.len()
                        && #[trigger] is_unsupported_import(program, fs, e)
                    &&& r is Err ==> (r matches Err(CodegenError::Backend(_)))
                    &&& match r {
                        Err(CodegenError::Backend(msg)) => exists|e: int|
                            0 <= e < program.external_functions@.len()
                            && #[trigger] is_unsupported_import(program, fs, e)
                            && (forall|d: int| 0 <= d < e ==> !is_unsupported_import(program, fs, d))
                            && msg@ == unsupported_import_message(
                                runtime_module_of(program.external_functions@[e].link_name@)->0,
                                program.external_functions@[e].link_name@,
                            ),
                        _ => true,
                    }
                }
            }),
    {
        match self.check_target() {
            Ok(()) => {},
            Err(e) => return Err(e),
        }
        let reach = reachable_functions(program, entry);
        let ghost pred = |i: int| holds_function(program, entry, i);
        let mut functions: Vec<usize> = Vec::new();
        let mut i: usize = 0;
        while i < program.functions.len()
            invariant
                pred == (|i: int| holds_function(program, entry, i)),
                forall|s: SymbolId| reach@.contains(s) <==> reachable(program, entry, s),
                i <= program.functions@.len(),
                functions@ == positions(i as nat, pred),
            decreases program.functions@.len() - i,
        {
            if contains_symbol(&reach, program.functions[i].symbol) {
                functions.push(i);
            }
            i = i + 1;
        }
        proof {
            lemma_positions_bound(program.functions@.len(), pred);
        }
        let externs = match classify_externals(program, &functions) {
            Ok(plan) => plan,
            Err(e) => return Err(e),
        };
        let ghost fs = functions@;
        let ghost tpred = |k: int| needs_thunk(program, fs, k);
        let mut thunks: Vec<usize> = Vec::new();
        let mut k: usize = 0;
        while k < functions.len()
            invariant
                fs == functions@,
                tpred == (|k: int| needs_thunk(program, fs, k)),
                forall|j: int| 0 <= j < fs.len() ==> #[trigger] fs[j] < program.functions@.len(),
                k <= fs.len(),
                thunks@ == positions(k as nat, tpred),
            decreases fs.len() - k,
        {
            let f = &program.functions[functions[k]];
            if f.frame_param.is_some() && !f.is_poll && f.frame_size.is_some() {
                thunks.push(k);
            }
            k = k + 1;
        }
        proof {
            lemma_positions_bound(fs.len(), tpred);
            lemma_positions_bound(program.external_functions@.len(), |e: int| is_host_import(program, fs, e));
        }
        let nf = functions.len() as u32;
        let import_count = 9 + externs.remaining.len() as u32;
        let runtime_base = import_count + nf;
        let stdlib_base = runtime_base + rt::COUNT;
        let start_index = stdlib_base + INTERNAL_COUNT + 45;
        let async_base = start_index + 1;
        let thunk_base = async_base + asyncrt::COUNT;
        let total_functions = thunk_base + thunks.len() as u32;
        let external_type_base = nf;
        let wasi_type_base = nf + program.external_functions.len() as u32;
        let runtime_type_base = wasi_type_base + 3;
        let stdlib_type_base = runtime_type_base + rt::COUNT;
        let start_type = stdlib_type_base + INTERNAL_COUNT + 45;
        let async_poll_type = start_type + 1 + program.callables.len() as u32;
        let async_drop_type = async_poll_type + 1;
        let async_type_base = async_drop_type + 1;
        Ok(ModulePlan {
            functions,
            supported: externs.supported,
            remaining: externs.remaining,
            thunks,
            import_count,
            runtime_base,
            stdlib_base,
            start_index,
            async_base,
            thunk_base,
            total_functions,
            external_type_base,
            wasi_type_base,
            runtime_type_base,
            stdlib_type_base,
            start_type,
            async_poll_type,
            async_drop_type,
            async_type_base,
        })
    }
}

} // verus!
