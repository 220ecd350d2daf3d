use vut_wasm::wasm::asyncrt::{self, AsyncRt};
use vut_wasm::wasm::backend::{classify_externals, index_space_fits, CodegenError, Target, WasmBackend};
use vut_wasm::wasm::builder::Builder;
use vut_wasm::wasm::data::collect_strings;
use vut_wasm::wasm::encode::encode;
use vut_wasm::wasm::imports::{align16, import_module, unsupported_runtime_module};
use vut_wasm::wasm::layout::{function_types, is_wasm_target, valtype, wasm_signature};
use vut_wasm::wasm::metadata::interface_metadata;
use vut_wasm::wasm::model::{Ins, ValTy};
use vut_wasm::wasm::program::{
    Callable, ExternalFunction, LayoutTable, MirFunction, OwnershipKind, Program, SymbolId, TypeId,
    TypeLayout, ValueRepr,
};
use vut_wasm::wasm::reach::reachable_functions;
use vut_wasm::wasm::rt_index::{self, Runtime};
use vut_wasm::wasm::{runtime, stdlib};
use wasm_encoder::Encode;

fn layout(repr: ValueRepr, size: u64, ownership: OwnershipKind) -> TypeLayout {
    TypeLayout { repr, size, alignment: size.max(1), ownership }
}

fn layouts() -> LayoutTable {
    LayoutTable {
        types: vec![
            layout(ValueRepr::Integer, 8, OwnershipKind::Unmanaged),
            layout(ValueRepr::Float, 8, OwnershipKind::Unmanaged),
            layout(ValueRepr::Void, 0, OwnershipKind::Unmanaged),
            layout(ValueRepr::Pointer, 4, OwnershipKind::RcString),
            layout(ValueRepr::Float, 4, OwnershipKind::Unmanaged),
        ],
        shapes: Vec::new(),
        pointer_size: 4,
    }
}

fn function(symbol: u32, references: Vec<u32>, literals: Vec<&str>) -> MirFunction {
    MirFunction {
        symbol: SymbolId(symbol),
        is_poll: false,
        frame_param: None,
        out_param: None,
        parameter_count: 1,
        locals: vec![Some(TypeId(0))],
        return_type: Some(TypeId(0)),
        frame_size: None,
        references: references.into_iter().map(SymbolId).collect(),
        literals: literals.into_iter().map(str::to_owned).collect(),
        blocks: vec![],
        entry: 0,
    }
}

fn external(symbol: u32, link: &str) -> ExternalFunction {
    ExternalFunction {
        symbol: SymbolId(symbol),
        link_name: link.to_owned(),
        parameters: vec![TypeId(0)],
        return_type: Some(TypeId(2)),
    }
}

fn program(externals: Vec<ExternalFunction>) -> Program {
    Program {
        functions: vec![
            function(1, vec![2, 10, 11], vec!["hi"]),
            function(2, vec![12], vec!["hi", "abcde"]),
            function(3, vec![13], vec!["unused"]),
        ],
        external_functions: externals,
        layouts: layouts(),
        callables: vec![Callable { ty: TypeId(3), params: vec![TypeId(0)], result: TypeId(2) }],
        frames: vec![],
    }
}

#[test]
fn wasi_names_import_from_wasi_and_others_from_env() {
    assert_eq!(import_module("fd_write"), "wasi_snapshot_preview1");
    assert_eq!(import_module("sched_yield"), "wasi_snapshot_preview1");
    assert_eq!(import_module("puts"), "env");
    assert_eq!(import_module(""), "env");
}

#[test]
fn native_runtime_imports_name_their_module() {
    assert_eq!(unsupported_runtime_module("vut_rt_http_get_v1"), Some("http"));
    assert_eq!(unsupported_runtime_module("vut_rt_fs"), Some("fs"));
    assert_eq!(unsupported_runtime_module("vut_rt_"), Some(""));
    assert_eq!(unsupported_runtime_module("puts"), None);
    assert_eq!(unsupported_runtime_module("vut_r"), None);
}

#[test]
fn align16_rounds_up_to_sixteen() {
    assert_eq!(align16(0), 0);
    assert_eq!(align16(1), 16);
    assert_eq!(align16(16), 16);
    assert_eq!(align16(17), 32);
    assert_eq!(align16(1024), 1024);
    assert_eq!(align16(1030), 1040);
}

#[test]
fn helper_indices_follow_the_internal_helpers() {
    assert_eq!(stdlib::body_count(), 50);
    assert_eq!(stdlib::helper_index(100, "vut_rt_count_ok_v1"), Some(105));
    assert_eq!(stdlib::helper_index(100, "vut_rt_env_get_v1"), Some(108));
    assert_eq!(stdlib::helper_index(100, "vut_rt_math_hypot_v1"), Some(149));
    assert_eq!(stdlib::helper_index(100, "vut_rt_http_get_v1"), None);
    assert!(stdlib::is_supported("vut_rt_io_flush_v1"));
    assert!(!stdlib::is_supported("vut_rt_io_flush_v2"));
}

#[test]
fn distinct_supported_names_get_distinct_helper_indices() {
    let names = stdlib::helpers();
    let mut seen = Vec::new();
    for name in &names {
        let index = stdlib::helper_index(7, name).unwrap();
        assert!((7 + 5..7 + 50).contains(&index));
        assert!(!seen.contains(&index));
        seen.push(index);
    }
    assert_eq!(seen.len(), 45);
}

#[test]
fn runtime_indices_are_offsets_from_the_base() {
    let rt = Runtime::new(40);
    assert_eq!(rt.alloc, 40);
    assert_eq!(rt.print, 41);
    assert_eq!(rt.map_clear, 40 + rt_index::MAP_CLEAR);
    assert_eq!(rt.str_eq, 40 + 43);
    assert_eq!(rt.map_reserve, 40 + 111);
    assert_eq!(rt_index::COUNT, 112);
}

#[test]
fn runtime_has_one_body_per_index() {
    let bodies = runtime::bodies(300);
    let signatures = runtime::signatures();
    assert_eq!(bodies.len(), rt_index::COUNT as usize);
    assert_eq!(signatures.len(), rt_index::COUNT as usize);
    for (body, signature) in bodies.iter().zip(signatures.iter()) {
        assert_eq!(body.params as usize, signature.0.len());
        assert_eq!(body.code.last(), Some(&Ins::End));
    }
}

#[test]
fn async_helpers_sit_after_their_base() {
    let rt = AsyncRt::new(7);
    assert_eq!(rt.frame_alloc, 7);
    assert_eq!(rt.handle_new, 9);
    assert_eq!(rt.await_child, 11);
    assert_eq!(rt.future_await, 12);
    assert_eq!(rt.executor_run, 13);
    let bodies = asyncrt::bodies(7, 0, 3, 4, 1);
    assert_eq!(bodies.len(), asyncrt::COUNT as usize);
}

#[test]
fn resume_thunk_stores_the_result_and_reports_ready() {
    let thunk = asyncrt::resume_thunk(17, Some(ValTy::I64));
    assert_eq!(thunk.params, 2);
    assert_eq!(thunk.locals, vec![(1, ValTy::I64)]);
    assert_eq!(thunk.code[0], Ins::LocalGet(0));
    assert_eq!(thunk.code[1], Ins::Call(17));
    assert_eq!(thunk.code[2], Ins::LocalSet(2));
    assert_eq!(thunk.code.len(), 8);
    let plain = asyncrt::resume_thunk(5, None);
    assert_eq!(plain.code, vec![Ins::LocalGet(0), Ins::Call(5), Ins::I32Const(1), Ins::End]);
}

#[test]
fn stdlib_bodies_cover_all_but_the_math_helpers() {
    let wasi: Vec<u32> = (0..9).collect();
    let bodies = stdlib::bodies(500, wasi, 200, 212);
    assert_eq!(bodies.len(), 50 - 17);
    let signatures = stdlib::signatures();
    assert_eq!(signatures.len(), 50);
    for (body, signature) in bodies.iter().zip(signatures.iter()) {
        assert_eq!(body.params as usize, signature.0.len());
    }
}

#[test]
fn wasm_triples_are_recognized() {
    assert!(is_wasm_target("wasm32-wasip1"));
    assert!(is_wasm_target("wasm32-unknown-unknown"));
    assert!(is_wasm_target("wasm64-unknown-unknown"));
    assert!(!is_wasm_target("x86_64-unknown-linux-gnu"));
    assert!(!is_wasm_target("not a triple at all"));
}

#[test]
fn value_types_follow_the_layout() {
    let table = layouts();
    assert_eq!(valtype(&table, TypeId(0)), ValTy::I64);
    assert_eq!(valtype(&table, TypeId(1)), ValTy::F64);
    assert_eq!(valtype(&table, TypeId(2)), ValTy::I32);
    assert_eq!(valtype(&table, TypeId(3)), ValTy::I32);
    assert_eq!(valtype(&table, TypeId(4)), ValTy::F32);
    let f = function(1, vec![], vec![]);
    assert_eq!(wasm_signature(&table, &f), (vec![ValTy::I64], Some(ValTy::I64)));
    let types = function_types(&program(vec![]));
    assert_eq!(types.len(), 3);
    assert_eq!(types[2], (vec![ValTy::I64], Some(ValTy::I64)));
}

#[test]
fn reachability_follows_references_of_defined_functions() {
    let p = program(vec![]);
    let mut reached: Vec<u32> = reachable_functions(&p, SymbolId(1)).iter().map(|s| s.0).collect();
    reached.sort_unstable();
    assert_eq!(reached, vec![1, 2]);
    let from_three: Vec<u32> = reachable_functions(&p, SymbolId(3)).iter().map(|s| s.0).collect();
    assert_eq!(from_three, vec![3]);
    let undefined: Vec<u32> = reachable_functions(&p, SymbolId(99)).iter().map(|s| s.0).collect();
    assert_eq!(undefined, vec![99]);
}

#[test]
fn string_records_are_length_prefixed_and_aligned() {
    let p = program(vec![]);
    let (data, table) = collect_strings(&p);
    assert_eq!(&data[..12], &[0u8; 12]);
    assert_eq!(data[12], b'\n');
    assert_eq!(&data[13..128], &[0u8; 115][..]);
    // "hi" at 128: length, bytes, padding to 4.
    assert_eq!(&data[128..136], &[2, 0, 0, 0, b'h', b'i', 0, 0]);
    // "abcde" at 136.
    assert_eq!(&data[136..148], &[5, 0, 0, 0, b'a', b'b', b'c', b'd', b'e', 0, 0, 0]);
    let lookup = |text: &str| table.iter().find(|(l, _)| l == text).map(|(_, a)| *a);
    assert_eq!(lookup("hi"), Some(128));
    assert_eq!(lookup("abcde"), Some(136));
    assert_eq!(lookup("unused"), Some(148));
    assert_eq!(lookup("true"), Some(160));
    assert_eq!(lookup("false"), Some(168));
    assert_eq!(table.len(), 5);
    assert_eq!(data.len(), 180);
    for (literal, address) in &table {
        let at = *address as usize;
        let len = u32::from_le_bytes([data[at], data[at + 1], data[at + 2], data[at + 3]]) as usize;
        assert_eq!(&data[at + 4..at + 4 + len], literal.as_bytes());
        assert_eq!(at % 4, 0);
    }
}

#[test]
fn metadata_lists_exports_and_imports() {
    let p = program(vec![external(10, "fd_write"), external(11, "puts")]);
    let functions: Vec<&MirFunction> = p.functions.iter().take(2).collect();
    let json = interface_metadata(&p, &functions, SymbolId(1));
    assert_eq!(
        json,
        "{\"schema\":1,\"entry\":\"vut_fn_1\",\"exports\":[\
         {\"name\":\"vut_fn_1\",\"params\":[\"i64\"],\"result\":\"i64\"},\
         {\"name\":\"vut_fn_2\",\"params\":[\"i64\"],\"result\":\"i64\"}],\
         \"imports\":[{\"module\":\"wasi_snapshot_preview1\",\"name\":\"fd_write\"},\
         {\"module\":\"wasi_snapshot_preview1\",\"name\":\"fd_write\"},\
         {\"module\":\"env\",\"name\":\"puts\"}]}"
    );
}

#[test]
fn encoding_keeps_the_instruction_sequence() {
    let mut b = Builder::new(1);
    b.declare(2, ValTy::I64);
    b.push(Ins::LocalGet(0));
    b.push(Ins::I64ExtendI32U);
    b.push(Ins::LocalSet(1));
    b.push(Ins::F64Const(0x3ff0_0000_0000_0000));
    b.push(Ins::Drop);
    b.push(Ins::End);
    let body = b.finish();
    let mut ours = Vec::new();
    encode(&body).encode(&mut ours);
    let mut direct = wasm_encoder::Function::new([(2, wasm_encoder::ValType::I64)]);
    direct.instruction(&wasm_encoder::Instruction::LocalGet(0));
    direct.instruction(&wasm_encoder::Instruction::I64ExtendI32U);
    direct.instruction(&wasm_encoder::Instruction::LocalSet(1));
    direct.instruction(&wasm_encoder::Instruction::F64Const(1.0_f64.into()));
    direct.instruction(&wasm_encoder::Instruction::Drop);
    direct.instruction(&wasm_encoder::Instruction::End);
    let mut theirs = Vec::new();
    direct.encode(&mut theirs);
    assert_eq!(ours, theirs);
}

#[test]
fn non_wasm_targets_are_refused() {
    let backend = WasmBackend::new(Target::portable("x86_64-unknown-linux-gnu"));
    assert_eq!(
        backend.check_target(),
        Err(CodegenError::InvalidTarget(
            "wasm backend cannot target `x86_64-unknown-linux-gnu`".to_owned()
        ))
    );
    let planned = backend.plan_module(&program(vec![]), SymbolId(1));
    assert!(matches!(planned, Err(CodegenError::InvalidTarget(_))));
    assert_eq!(WasmBackend::new(Target::portable("wasm32-wasip1")).check_target(), Ok(()));
}

#[test]
fn externs_are_sorted_into_helpers_and_host_imports() {
    let p = program(vec![
        external(10, "vut_rt_env_get_v1"),
        external(11, "puts"),
        external(12, "fd_write"),
        external(13, "vut_rt_http_get_v1"),
    ]);
    let plan = classify_externals(&p, &vec![0, 1]).unwrap();
    assert_eq!(plan.supported, vec![0]);
    assert_eq!(plan.remaining, vec![1, 2]);
}

#[test]
fn called_native_runtime_imports_without_a_helper_fail() {
    let p = program(vec![external(10, "vut_rt_http_get_v1"), external(11, "vut_rt_fs_read_v1")]);
    let error = classify_externals(&p, &vec![0]).unwrap_err();
    assert_eq!(
        error,
        CodegenError::Backend(
            "this program uses a standard-library capability (`http`) that is not available on \
             wasm32-wasip1: native runtime import `vut_rt_http_get_v1` has no wasm mapping"
                .to_owned()
        )
    );
    // Uncalled externs never fail.
    assert!(classify_externals(&p, &vec![2]).is_ok());
}

#[test]
fn module_plan_lays_out_the_index_spaces() {
    let p = program(vec![
        external(10, "vut_rt_env_get_v1"),
        external(11, "puts"),
        external(12, "fd_write"),
        external(13, "vut_rt_http_get_v1"),
    ]);
    let backend = WasmBackend::new(Target::portable("wasm32-wasip1"));
    let plan = backend.plan_module(&p, SymbolId(1)).unwrap();
    assert_eq!(plan.functions, vec![0, 1]);
    assert_eq!(plan.supported, vec![0]);
    assert_eq!(plan.remaining, vec![1, 2]);
    assert!(plan.thunks.is_empty());
    assert_eq!(plan.import_count, 9 + 2);
    assert_eq!(plan.runtime_base, 13);
    assert_eq!(plan.stdlib_base, 13 + 112);
    assert_eq!(plan.start_index, 125 + 50);
    assert_eq!(plan.async_base, 176);
    assert_eq!(plan.thunk_base, 185);
    assert_eq!(plan.total_functions, 185);
    assert_eq!(plan.external_type_base, 2);
    assert_eq!(plan.wasi_type_base, 6);
    assert_eq!(plan.runtime_type_base, 9);
    assert_eq!(plan.stdlib_type_base, 121);
    assert_eq!(plan.start_type, 171);
    assert_eq!(plan.async_poll_type, 173);
    assert_eq!(plan.async_drop_type, 174);
    assert_eq!(plan.async_type_base, 175);
    // Reaching the extern without a helper makes planning fail.
    assert!(matches!(backend.plan_module(&p, SymbolId(3)), Err(CodegenError::Backend(_))));
}

#[test]
fn async_bodies_without_a_state_machine_get_a_thunk() {
    let mut p = program(vec![]);
    p.functions[1].frame_param = Some(0);
    p.functions[1].frame_size = Some(24);
    let backend = WasmBackend::new(Target::portable("wasm32-wasip1"));
    let plan = backend.plan_module(&p, SymbolId(1)).unwrap();
    assert_eq!(plan.thunks, vec![1]);
    assert_eq!(plan.total_functions, plan.thunk_base + 1);
}

#[test]
fn ordinary_programs_fit_the_index_space() {
    assert!(index_space_fits(&program(vec![])));
}

#[test]
fn every_helper_name_is_supported_and_indexed_in_its_module() {
    let modules = ["count", "env", "time", "io", "os", "math"];
    for (k, name) in stdlib::helpers().iter().enumerate() {
        assert!(stdlib::is_supported(name));
        assert_eq!(stdlib::helper_index(100, name), Some(100 + stdlib::INTERNAL_COUNT + k as u32));
        let module = unsupported_runtime_module(name).unwrap();
        assert!(modules.contains(&module));
    }
    assert!(!stdlib::is_supported("vut_rt_fs_read_v1"));
    assert_eq!(stdlib::helper_index(100, "vut_rt_fs_read_v1"), None);
}

#[test]
fn wasm32_wasip1_is_a_wasm_target() {
    assert!(is_wasm_target("wasm32-wasip1"));
    assert!(!is_wasm_target("x86_64-unknown-linux-gnu"));
}
