use std::path::PathBuf;
use vut_wasm::compiler::display::sanitize;
use vut_wasm::compiler::{
    runtime_abi_mismatch, select_entry, BuildMode, CompileError, CompilerConfig, CompilerSession,
    EntrySignature, SymbolInfo,
};
use vut_wasm::wasm::backend::CodegenError;

#[test]
fn target_and_build_mode_are_explicit() {
    let session = CompilerSession::new(CompilerConfig::for_target(
        "x86_64-unknown-linux-gnu",
        BuildMode::Release,
    ));
    assert_eq!(session.config().target, "x86_64-unknown-linux-gnu");
    assert_eq!(session.config().build_mode, BuildMode::Release);
}

#[test]
fn defaults_are_a_portable_debug_build() {
    assert_eq!(BuildMode::default(), BuildMode::Debug);
    let config = CompilerConfig::default();
    assert_eq!(config.build_mode, BuildMode::Debug);
    assert!(!config.target.is_empty());
    assert_eq!(config.target_cpu, None);
    assert!(config.target_features.is_empty());
    assert_eq!(config.optimization, None);
    assert_eq!(config.runtime_library, None);
    assert!(config.native_libraries.is_empty());
}

#[test]
fn codegen_target_carries_cpu_and_features() {
    let mut config = CompilerConfig::for_target("x86_64-unknown-linux-gnu", BuildMode::Debug);
    config.target_cpu = Some("native".to_owned());
    config.target_features = vec!["+avx2".to_owned(), "-sse4.2".to_owned()];
    let target = config.codegen_target();
    assert_eq!(target.triple, "x86_64-unknown-linux-gnu");
    assert_eq!(target.cpu.as_deref(), Some("native"));
    assert_eq!(target.features, vec!["+avx2".to_owned(), "-sse4.2".to_owned()]);
    let plain = CompilerConfig::for_target("wasm32-wasip1", BuildMode::Release).codegen_target();
    assert_eq!(plain.cpu, None);
    assert!(plain.features.is_empty());
}

#[test]
fn abi_mismatch_only_for_a_different_installed_runtime() {
    assert!(runtime_abi_mismatch(3, None).is_none());
    assert!(runtime_abi_mismatch(3, Some(3)).is_none());
    match runtime_abi_mismatch(3, Some(2)) {
        Some(CompileError::AbiMismatch { compiler, runtime }) => {
            assert_eq!(compiler, 3);
            assert_eq!(runtime, 2);
        },
        other => panic!("unexpected {other:?}"),
    }
}

#[test]
fn error_messages() {
    assert_eq!(
        CompileError::AbiMismatch { compiler: 12, runtime: 7 }.message(),
        "runtime ABI mismatch: compiler expects 12, installed runtime is 7; reinstall or update Vut so the compiler and runtime match"
    );
    assert_eq!(CompileError::MissingEntry.message(), "program has no `fn main(...)` entry point");
    assert_eq!(
        CompileError::InvalidEntry.message(),
        "`main` must have no parameters and return `void` or `int`"
    );
    assert_eq!(
        CompileError::Language("error[E1]: x".to_owned()).message(),
        "compilation failed\nerror[E1]: x"
    );
    assert_eq!(
        CompileError::Codegen(CodegenError::Backend("boom".to_owned())).message(),
        "native code generation failed: boom"
    );
    assert_eq!(CompileError::Discover("no root".to_owned()).message(), "source discovery failed: no root");
    assert_eq!(CompileError::Link("ld".to_owned()).message(), "native linking failed: ld");
    assert_eq!(CompileError::Cache("bad".to_owned()).message(), "incremental cache failed: bad");
    let io = CompileError::Io(std::io::Error::other("disk full")).message();
    assert!(io.starts_with("artifact I/O failed: "));
    assert!(io.ends_with("disk full"));
}

fn symbol(name: &str, is_function: bool, has_receiver: bool) -> SymbolInfo {
    SymbolInfo { name: name.to_owned(), is_function, has_receiver }
}

#[test]
fn entry_is_the_first_free_main_function() {
    let symbols = vec![
        symbol("main", false, false),
        symbol("main", true, true),
        symbol("helper", true, false),
        symbol("main", true, false),
        symbol("main", true, false),
    ];
    let signatures = vec![
        EntrySignature { symbol: 2, parameter_count: 1, returns_void_or_int: true },
        EntrySignature { symbol: 3, parameter_count: 0, returns_void_or_int: true },
    ];
    assert!(matches!(select_entry(&symbols, &signatures), Ok(3)));
}

#[test]
fn entry_errors() {
    let none = vec![symbol("helper", true, false), symbol("main", true, true)];
    assert!(matches!(select_entry(&none, &vec![]), Err(CompileError::MissingEntry)));
    let symbols = vec![symbol("main", true, false)];
    let with_params = vec![EntrySignature { symbol: 0, parameter_count: 2, returns_void_or_int: true }];
    assert!(matches!(select_entry(&symbols, &with_params), Err(CompileError::InvalidEntry)));
    let returns_str = vec![EntrySignature { symbol: 0, parameter_count: 0, returns_void_or_int: false }];
    assert!(matches!(select_entry(&symbols, &returns_str), Err(CompileError::InvalidEntry)));
    assert!(matches!(select_entry(&symbols, &vec![]), Err(CompileError::InvalidEntry)));
}

#[test]
fn link_plan_collects_objects_and_libraries() {
    let mut config = CompilerConfig::for_target("x86_64-unknown-linux-gnu", BuildMode::Release);
    config.native_libraries = vec![PathBuf::from("a.lib")];
    config.system_libraries = vec!["m".to_owned()];
    config.runtime_library = Some(PathBuf::from("rt.a"));
    let session = CompilerSession::new(config);
    let plan = session.link_plan(
        PathBuf::from("main.o"),
        PathBuf::from("main"),
        Some(PathBuf::from("stdlib.a")),
    );
    assert_eq!(plan.objects, vec![PathBuf::from("main.o")]);
    assert_eq!(plan.static_libraries, vec![PathBuf::from("a.lib"), PathBuf::from("stdlib.a")]);
    assert_eq!(plan.system_libraries, vec!["m".to_owned()]);
    assert!(plan.frameworks.is_empty());
    assert_eq!(plan.runtime, Some(PathBuf::from("rt.a")));
    assert_eq!(plan.startup, None);
    assert_eq!(plan.output, PathBuf::from("main"));
    assert_eq!(plan.entry, "vut_entry");
    assert_eq!(plan.target, "x86_64-unknown-linux-gnu");
    let without = session.link_plan(PathBuf::from("x.o"), PathBuf::from("x"), None);
    assert_eq!(without.static_libraries, vec![PathBuf::from("a.lib")]);
}

#[test]
fn sanitize_keeps_ascii_alphanumerics_only() {
    assert_eq!(sanitize("u8"), "u8");
    assert_eq!(sanitize("a-b c"), "a_b_c");
    assert_eq!(sanitize("Zé9"), "Z_9");
    assert_eq!(sanitize(""), "");
}
