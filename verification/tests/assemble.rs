use vut_wasm::wasm::assemble::{assemble, compile_object};
use vut_wasm::wasm::backend::{CodegenError, Target, WasmBackend};
use vut_wasm::wasm::builder::Body;
use vut_wasm::wasm::mir::{BasicBlock, Instruction, LocalId, Terminator, TypeShape, ValueId};
use vut_wasm::wasm::model::{Ins, ValTy};
use vut_wasm::wasm::module::{ExportKind, ModuleExport, ModuleImport, ModuleParts};
use vut_wasm::wasm::program::{
    LayoutTable, MirFunction, OwnershipKind, Program, SymbolId, TypeId, TypeLayout, ValueRepr,
};
use vut_wasm::wasm::stdlib::MATH_COUNT;

fn math() -> Vec<wasm_encoder::Function> {
    (0..MATH_COUNT)
        .map(|_| {
            let mut f = wasm_encoder::Function::new(vec![]);
            f.instruction(&wasm_encoder::Instruction::End);
            f
        })
        .collect()
}

fn layouts() -> LayoutTable {
    LayoutTable {
        types: vec![TypeLayout {
            repr: ValueRepr::Integer,
            size: 8,
            alignment: 8,
            ownership: OwnershipKind::Unmanaged,
        }],
        shapes: vec![TypeShape::plain()],
        pointer_size: 4,
    }
}

fn identity(symbol: u32) -> MirFunction {
    MirFunction {
        symbol: SymbolId(symbol),
        is_poll: false,
        frame_param: None,
        out_param: None,
        parameter_count: 1,
        locals: vec![Some(TypeId(0))],
        return_type: Some(TypeId(0)),
        frame_size: None,
        references: vec![],
        literals: vec![],
        blocks: vec![BasicBlock {
            instructions: vec![Instruction::Copy { value: ValueId(0), local: LocalId(0) }],
            terminator: Terminator::Return(Some(ValueId(0))),
        }],
        entry: 0,
    }
}

fn program() -> Program {
    Program {
        functions: vec![identity(1)],
        external_functions: vec![],
        layouts: layouts(),
        callables: vec![],
        frames: vec![],
    }
}

fn leb(bytes: &[u8], at: &mut usize) -> u32 {
    let mut value = 0u32;
    let mut shift = 0;
    loop {
        let byte = bytes[*at];
        *at += 1;
        value |= u32::from(byte & 0x7f) << shift;
        if byte & 0x80 == 0 {
            return value;
        }
        shift += 7;
    }
}

/// The id, entry count and contents of each section after the header.
fn sections(bytes: &[u8]) -> Vec<(u8, u32, Vec<u8>)> {
    let mut at = 8;
    let mut found = Vec::new();
    while at < bytes.len() {
        let id = bytes[at];
        at += 1;
        let size = leb(bytes, &mut at) as usize;
        let contents = bytes[at..at + size].to_vec();
        let mut inner = 0;
        let count = if id == 0 { 0 } else { leb(&contents, &mut inner) };
        found.push((id, count, contents));
        at += size;
    }
    found
}

#[test]
fn a_compiled_module_has_its_sections_in_order() {
    let backend = WasmBackend::new(Target::portable("wasm32-wasip1"));
    let bytes = backend.compile_executable_module(&program(), SymbolId(1), &math()).unwrap();
    assert_eq!(&bytes[..8], &[0x00, 0x61, 0x73, 0x6d, 0x01, 0x00, 0x00, 0x00]);
    let found = sections(&bytes);
    let ids: Vec<u8> = found.iter().map(|s| s.0).collect();
    assert_eq!(ids, vec![1, 2, 3, 4, 5, 6, 7, 9, 10, 11, 0]);
    // One code entry per function-section entry.
    assert_eq!(found[2].1, found[8].1);
    // Nine WASI imports and no host imports.
    assert_eq!(found[1].1, 9);
    // Two globals: the heap pointer and the polled handle.
    assert_eq!(found[5].1, 2);
    // The custom section is the interface metadata.
    let custom = &found[10].2;
    assert_eq!(custom[0] as usize, "vut.interface".len());
    assert_eq!(&custom[1..14], b"vut.interface");
    let metadata = String::from_utf8(custom[14..].to_vec()).unwrap();
    assert!(metadata.starts_with("{\"schema\":1,\"entry\":\"vut_fn_1\""));
}

#[test]
fn a_compiled_module_exports_its_entry_points() {
    let backend = WasmBackend::new(Target::portable("wasm32-wasip1"));
    let bytes = backend.compile_executable_module(&program(), SymbolId(1), &math()).unwrap();
    let exports = &sections(&bytes)[6].2;
    let text = String::from_utf8_lossy(exports);
    for name in ["vut_fn_1", "main", "vut_alloc", "memory", "_start"] {
        assert!(text.contains(name), "missing export {name}");
    }
}

#[test]
fn compiling_for_a_native_target_is_refused() {
    let backend = WasmBackend::new(Target::portable("x86_64-unknown-linux-gnu"));
    match backend.compile_executable_module(&program(), SymbolId(1), &math()) {
        Err(CodegenError::InvalidTarget(message)) => {
            assert_eq!(message, "wasm backend cannot target `x86_64-unknown-linux-gnu`")
        }
        _ => panic!("expected an invalid target"),
    }
}

#[test]
fn assembling_places_the_math_helpers_at_their_position() {
    let body = |value: i32| Body {
        params: 0,
        locals: vec![],
        code: vec![Ins::I32Const(value), Ins::Drop, Ins::End],
    };
    let parts = ModuleParts {
        types: vec![(vec![], vec![]), (vec![ValTy::I32], vec![ValTy::I64])],
        imports: vec![ModuleImport { module: "env".to_owned(), name: "f".to_owned(), type_index: 1 }],
        function_types: vec![0, 0, 0],
        table_size: 4,
        pages: 1,
        heap_init: 1024,
        exports: vec![ModuleExport { name: "memory".to_owned(), kind: ExportKind::Memory, index: 0 }],
        bodies: vec![body(1), body(2)],
        math_position: 1,
        data: vec![7, 8, 9],
        metadata: "{}".to_owned(),
    };
    let mut marker = wasm_encoder::Function::new(vec![]);
    marker.instruction(&wasm_encoder::Instruction::Nop);
    marker.instruction(&wasm_encoder::Instruction::End);
    let bytes = assemble(&parts, &vec![marker]).unwrap();
    let found = sections(&bytes);
    let code = &found[8];
    assert_eq!(code.0, 10);
    assert_eq!(code.1, 3);
    // Each entry: size, no locals, its instructions.
    assert_eq!(&code.2[1..], &[5, 0, 0x41, 1, 0x1a, 0x0b, 3, 0, 0x01, 0x0b, 5, 0, 0x41, 2, 0x1a, 0x0b]);
    // The table has four entries, filled with functions 0..4.
    assert_eq!(found[3].2, vec![1, 0x70, 0x01, 4, 4]);
    assert_eq!(found[7].2, vec![1, 0, 0x41, 0, 0x0b, 4, 0, 1, 2, 3]);
    // The data sits at address 0 of memory 0.
    assert_eq!(found[9].2, vec![1, 0, 0x41, 0, 0x0b, 3, 7, 8, 9]);
    // The heap pointer starts at `heap_init`, the polled handle at 0.
    assert_eq!(found[5].2, vec![2, 0x7f, 1, 0x41, 0x80, 0x08, 0x0b, 0x7f, 1, 0x41, 0, 0x0b]);
}

#[test]
fn module_parts_lay_out_imports_types_and_memory() {
    let backend = WasmBackend::new(Target::portable("wasm32-wasip1"));
    let parts = backend.module_parts(&program(), SymbolId(1)).unwrap();
    // The WASI imports come first, typed after the one defined function.
    assert_eq!(parts.imports.len(), 9);
    assert_eq!(parts.imports[0].module, "wasi_snapshot_preview1");
    assert_eq!(parts.imports[0].name, "fd_write");
    assert_eq!(parts.imports[0].type_index, 1);
    assert_eq!(parts.imports[2].name, "environ_sizes_get");
    assert_eq!(parts.imports[2].type_index, 2);
    assert_eq!(parts.imports[6].name, "clock_time_get");
    assert_eq!(parts.imports[6].type_index, 3);
    // The defined function has type 0; the runtime helpers follow the WASI types.
    assert_eq!(parts.function_types[0], 0);
    assert_eq!(parts.function_types[1], 4);
    assert_eq!(parts.table_size as usize, parts.imports.len() + parts.function_types.len());
    assert_eq!(parts.function_types.len(), parts.bodies.len() + MATH_COUNT as usize);
    // Small data fits one page; the heap starts at 1024.
    assert_eq!(parts.pages, 1);
    assert_eq!(parts.heap_init, 1024);
    assert_eq!(parts.exports[0].name, "vut_fn_1");
    assert_eq!(parts.exports[0].index, 9);
    assert_eq!(parts.exports[1].name, "main");
    assert_eq!(parts.exports[1].index, 9);
    assert_eq!(parts.exports[4].name, "_start");
    assert_eq!(parts.exports[4].index, 9 + 1 + 112 + 50);
}

#[test]
fn an_object_is_the_module_entered_at_the_first_function() {
    let backend = WasmBackend::new(Target::portable("wasm32-wasip1"));
    let program = program();
    let first = program.functions[0].symbol;
    let module = backend.compile_executable_module(&program, first, &math()).unwrap();
    assert_eq!(compile_object(&program, &math()).unwrap(), module);
}
