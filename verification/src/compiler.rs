//! Compiler-session foundation: build configuration, the session, the
//! runtime ABI check and the error type of the compiler pipeline.
use vstd::prelude::*;
use std::path::PathBuf;
use crate::wasm::backend::{CodegenError, Target};

pub mod display;
pub mod error;
pub mod link;

pub use error::CompileError;

verus! {

/// `std::path::PathBuf`, carried through the configuration unchanged.
#[verifier::external_type_specification]
#[verifier::external_body]
pub struct ExPathBuf(std::path::PathBuf);

/// How a program is built.
#[derive(Clone, Copy, Debug, PartialEq, Eq, Structural)]
pub enum BuildMode {
    Debug,
    Release,
}

impl Default for BuildMode {
    fn default() -> (mode: BuildMode)
        ensures
            mode == BuildMode::Debug,
    {
        BuildMode::Debug
    }
}

/// An explicit MIR/codegen optimization level.
#[derive(Clone, Copy, Debug, PartialEq, Eq, Structural)]
pub enum OptimizationLevel {
    /// The reference path, used by debug builds.
    O0,
    /// The optimizing path, used by release builds.
    O2,
}

/// The configuration of a compiler session.
#[derive(Clone, Debug, PartialEq, Eq)]
pub struct CompilerConfig {
    pub target: String,
    /// Target CPU: `None` is the portable baseline; `Some("native")` or a
    /// preset opts into that CPU's features. Independent of the optimization
    /// level.
    pub target_cpu: Option<String>,
    /// Explicit feature overrides (`avx2`, `+avx2`, `-avx2`).
    pub target_features: Vec<String>,
    pub build_mode: BuildMode,
    /// Explicit MIR/codegen optimization level. When `None` it is derived from
    /// `build_mode`: Debug uses the reference path (`O0`), Release uses `O2`.
    pub optimization: Option<OptimizationLevel>,
    pub output_dir: Option<PathBuf>,
    pub runtime_library: Option<PathBuf>,
    /// Prebuilt startup object for standalone linking.
    pub startup_object: Option<PathBuf>,
    /// Native static libraries (`.lib`/`.a`) to link into the executable.
    pub native_libraries: Vec<PathBuf>,
    /// Platform system libraries referenced by native dependencies.
    pub system_libraries: Vec<String>,
    /// Extra library search directories (`/LIBPATH:` on MSVC, `-L` elsewhere).
    pub library_search_paths: Vec<PathBuf>,
}

impl CompilerConfig {
    /// Every setting but the target triple and build mode is at its default:
    /// portable CPU, no feature overrides, derived optimization, no paths
    /// and no libraries.
    pub open spec fn is_plain(&self) -> bool {
        &&& self.target_cpu is None
        &&& self.target_features@.len() == 0
        &&& self.optimization is None
        &&& self.output_dir is None
        &&& self.runtime_library is None
        &&& self.startup_object is None
        &&& self.native_libraries@.len() == 0
        &&& self.system_libraries@.len() == 0
        &&& self.library_search_paths@.len() == 0
    }

    /// A configuration for `target` in `build_mode`, with every other setting
    /// at its default.
    pub fn for_target(target: &str, build_mode: BuildMode) -> (config: CompilerConfig)
        ensures
            config.target@ == target@,
            config.build_mode == build_mode,
            config.is_plain(),
    {
        CompilerConfig {
            target: target.to_owned(),
            target_cpu: None,
            target_features: Vec::new(),
            build_mode,
            optimization: None,
            output_dir: None,
            runtime_library: None,
            startup_object: None,
            native_libraries: Vec::new(),
            system_libraries: Vec::new(),
            library_search_paths: Vec::new(),
        }
    }

    /// The codegen target, including the opt-in CPU/feature configuration.
    pub fn codegen_target(&self) -> (t: Target)
        ensures
            t.triple@ == self.target@,
            t.cpu matches Some(cpu) ==> self.target_cpu matches Some(c) && cpu@ == c@,
            t.cpu is None <==> self.target_cpu is None,
            t.features@.len() == self.target_features@.len(),
            forall|i: int| 0 <= i < t.features@.len() ==> #[trigger] t.features@[i]@ == self.target_features@[i]@,
    {
        let cpu = match &self.target_cpu {
            Some(c) => Some(c.clone()),
            None => None,
        };
        let mut features: Vec<String> = Vec::new();
        let mut i: usize = 0;
        while i < self.target_features.len()
            invariant
                i <= self.target_features@.len(),
                features@.len() == i,
                forall|j: int| 0 <= j < i ==> #[trigger] features@[j]@ == self.target_features@[j]@,
            decreases self.target_features@.len() - i,
        {
            features.push(self.target_features[i].clone());
            i = i + 1;
        }
        Target { triple: self.target.clone(), cpu, features }
    }
}

/// The triple of the machine the compiler was built for (`target_lexicon::HOST`).
/// Nothing is stated of the text: it depends on the machine.
#[verifier::external_body]
fn host_triple() -> String {
    target_lexicon::HOST.to_string()
}

impl Default for CompilerConfig {
    /// A debug configuration for the host, with every other setting at its
    /// default.
    fn default() -> (config: CompilerConfig)
        ensures
            config.build_mode == BuildMode::Debug,
            config.is_plain(),
    {
        CompilerConfig {
            target: host_triple(),
            target_cpu: None,
            target_features: Vec::new(),
            build_mode: BuildMode::Debug,
            optimization: None,
            output_dir: None,
            runtime_library: None,
            startup_object: None,
            native_libraries: Vec::new(),
            system_libraries: Vec::new(),
            library_search_paths: Vec::new(),
        }
    }
}

/// A compiler session: the configuration every pipeline stage reads.
#[derive(Debug)]
pub struct CompilerSession {
    config: CompilerConfig,
}

impl CompilerSession {
    /// The session's configuration.
    pub closed spec fn spec_config(&self) -> CompilerConfig {
        self.config
    }

    /// A session with `config`.
    pub fn new(config: CompilerConfig) -> (session: CompilerSession)
        ensures
            session.spec_config() == config,
    {
        CompilerSession { config }
    }

    /// The session's configuration.
    pub fn config(&self) -> (config: &CompilerConfig)
        ensures
            *config == self.spec_config(),
    {
        &self.config
    }
}

/// The ABI mismatch error when an installed runtime's ABI revision differs
/// from the compiler's `compiler` revision; `None` (no install manifest) is
/// always compatible.
pub fn runtime_abi_mismatch(compiler: u32, installed: Option<u32>) -> (r: Option<CompileError>)
    ensures
        r is Some <==> (installed matches Some(v) && v != compiler),
        r matches Some(e) ==> e matches CompileError::AbiMismatch { compiler: c, runtime }
            && c == compiler && installed == Some(runtime),
{
    match installed {
        Some(runtime) => {
            if runtime != compiler {
                Some(CompileError::AbiMismatch { compiler, runtime })
            } else {
                None
            }
        },
        None => None,
    }
}

/// What the entry check reads of a resolved symbol.
pub struct SymbolInfo {
    pub name: String,
    /// A free function (not a type, module or value).
    pub is_function: bool,
    /// A method, declared with a receiver.
    pub has_receiver: bool,
}

/// The checked signature of a function symbol.
pub struct EntrySignature {
    /// The symbol (index into the resolved symbols) the signature belongs to.
    pub symbol: usize,
    pub parameter_count: usize,
    /// The result type is `void` or `int`.
    pub returns_void_or_int: bool,
}

/// The symbol at `i` is a free function named `main`.
pub open spec fn is_main(symbols: Seq<SymbolInfo>, i: int) -> bool {
    symbols[i].name@ == "main"@ && symbols[i].is_function && !symbols[i].has_receiver
}

/// The position of the first signature of `symbol`, if any.
pub open spec fn signature_of(signatures: Seq<EntrySignature>, symbol: int) -> Option<int> {
    if exists|k: int| 0 <= k < signatures.len() && signatures[k].symbol == symbol {
        Some(choose|k: int| 0 <= k < signatures.len() && signatures[k].symbol == symbol
            && forall|j: int| 0 <= j < k ==> signatures[j].symbol != symbol)
    } else {
        None
    }
}

/// The first free function named `main`, if any.
fn find_main(symbols: &Vec<SymbolInfo>) -> (r: Option<usize>)
    ensures
        r matches Some(e) ==> e < symbols@.len() && is_main(symbols@, e as int)
            && forall|j: int| 0 <= j < e ==> !is_main(symbols@, j),
        r is None ==> forall|j: int| 0 <= j < symbols@.len() ==> !is_main(symbols@, j),
{
    proof {
        reveal_strlit("main");
    }
    let mut e: usize = 0;
    while e < symbols.len()
        invariant
            e <= symbols@.len(),
            forall|j: int| 0 <= j < e ==> !is_main(symbols@, j),
        decreases symbols@.len() - e,
    {
        let s = &symbols[e];
        if s.is_function && !s.has_receiver && crate::text::str_eq(s.name.as_str(), "main") {
            return Some(e);
        }
        e = e + 1;
    }
    None
}

proof fn lemma_signature_of(signatures: Seq<EntrySignature>, symbol: int, k: int)
    requires
        0 <= k < signatures.len(),
        signatures[k].symbol == symbol,
        forall|j: int| 0 <= j < k ==> signatures[j].symbol != symbol,
    ensures
        signature_of(signatures, symbol) == Some(k),
{
    let w = choose|w: int| 0 <= w < signatures.len() && signatures[w].symbol == symbol
        && forall|j: int| 0 <= j < w ==> signatures[j].symbol != symbol;
    assert(0 <= w < signatures.len() && signatures[w].symbol == symbol
        && forall|j: int| 0 <= j < w ==> signatures[j].symbol != symbol);
    if w < k {
        assert(signatures[w].symbol != symbol);
    } else if k < w {
        assert(signatures[k].symbol != symbol);
    }
}

/// The position of the first signature of `symbol`, if any.
fn find_signature(signatures: &Vec<EntrySignature>, symbol: usize) -> (r: Option<usize>)
    ensures
        r matches Some(k) ==> k < signatures@.len() && signature_of(signatures@, symbol as int) == Some(k as int),
        r is None ==> signature_of(signatures@, symbol as int) is None,
{
    let mut k: usize = 0;
    while k < signatures.len()
        invariant
            k <= signatures@.len(),
            forall|j: int| 0 <= j < k ==> signatures@[j].symbol != symbol,
        decreases signatures@.len() - k,
    {
        if signatures[k].symbol == symbol {
            proof {
                lemma_signature_of(signatures@, symbol as int, k as int);
            }
            return Some(k);
        }
        k = k + 1;
    }
    None
}

/// Finds the program's entry: the first free function named `main`, which
/// must take no parameters and return `void` or `int`.
pub fn select_entry(symbols: &Vec<SymbolInfo>, signatures: &Vec<EntrySignature>) -> (r: Result<usize, CompileError>)
    ensures
        (forall|i: int| 0 <= i < symbols@.len() ==> !is_main(symbols@, i)) <==> r matches Err(CompileError::MissingEntry),
        r matches Ok(e) ==> {
            &&& e < symbols@.len()
            &&& is_main(symbols@, e as int)
            &&& forall|j: int| 0 <= j < e ==> !is_main(symbols@, j)
            &&& signature_of(signatures@, e as int) matches Some(k)
                && signatures@[k].parameter_count == 0 && signatures@[k].returns_void_or_int
        },
        r matches Err(CompileError::InvalidEntry) ==> exists|e: int| {
            &&& 0 <= e < symbols@.len()
            &&& is_main(symbols@, e)
            &&& (forall|j: int| 0 <= j < e ==> !is_main(symbols@, j))
            &&& match signature_of(signatures@, e) {
                Some(k) => signatures@[k].parameter_count != 0 || !signatures@[k].returns_void_or_int,
                None => true,
            }
        },
        r is Ok || r matches Err(CompileError::MissingEntry) || r matches Err(CompileError::InvalidEntry),
{
    let e = match find_main(symbols) {
        Some(e) => e,
        None => return Err(CompileError::MissingEntry),
    };
    let k = match find_signature(signatures, e) {
        Some(k) => k,
        None => return Err(CompileError::InvalidEntry),
    };
    let signature = &signatures[k];
    if signature.parameter_count != 0 || !signature.returns_void_or_int {
        return Err(CompileError::InvalidEntry);
    }
    Ok(e)
}

} // verus!
