use vut_wasm::wasm::backend::CodegenError;
use vut_wasm::wasm::builder::Builder;
use vut_wasm::wasm::model::{BlockTy, Ins, MemArg, ValTy};
use vut_wasm::wasm::program::{
    LayoutTable, MirFunction, OwnershipKind, SymbolId, TypeId, TypeLayout, ValueRepr,
};
use vut_wasm::wasm::rt_index::Runtime;
use vut_wasm::wasm::select::{
    binary_instruction, coerce, default_value, element_kind, emit_numeric_cast, float_int_range,
    is_managed_handle, load_instruction, mem_load, mem_store, memarg, optional_payload_offset,
    push_as_i64, release_call, retain_call, set_from_i32, set_from_i64, store_instruction,
    widen_to_slot, BinaryOp, LocalMap, NumericKind,
};

fn arg(offset: u64) -> MemArg {
    MemArg { offset, align: 0, memory_index: 0 }
}

/// The code that `emit` appends to a fresh body with two `i64` locals.
fn emitted(emit: impl FnOnce(&mut Builder)) -> Vec<Ins> {
    let mut b = Builder::new(2);
    b.declare(2, ValTy::I64);
    emit(&mut b);
    b.push(Ins::End);
    let body = b.finish();
    let mut code = body.code;
    code.pop();
    code
}

fn table() -> LayoutTable {
    let layout = |repr, size, alignment, ownership| TypeLayout { repr, size, alignment, ownership };
    LayoutTable {
        types: vec![
            layout(ValueRepr::Integer, 8, 8, OwnershipKind::Unmanaged),
            layout(ValueRepr::Integer, 1, 1, OwnershipKind::Unmanaged),
            layout(ValueRepr::Integer, 2, 2, OwnershipKind::Unmanaged),
            layout(ValueRepr::Pointer, 4, 4, OwnershipKind::RcString),
            layout(ValueRepr::Float, 4, 4, OwnershipKind::Unmanaged),
            layout(ValueRepr::Float, 8, 8, OwnershipKind::Unmanaged),
            layout(ValueRepr::Void, 0, 0, OwnershipKind::Unmanaged),
            layout(ValueRepr::Pointer, 4, 4, OwnershipKind::RcMap),
            layout(ValueRepr::Pointer, 4, 16, OwnershipKind::Future),
        ],
        shapes: Vec::new(),
        pointer_size: 4,
    }
}

#[test]
fn memory_immediates_clamp_negative_offsets() {
    assert_eq!(memarg(12), arg(12));
    assert_eq!(memarg(-4), arg(0));
    assert_eq!(emitted(|b| mem_store(b, ValTy::F32, 8)), vec![Ins::F32Store(arg(8))]);
    assert_eq!(emitted(|b| mem_load(b, ValTy::I32, 4)), vec![Ins::I32Load(arg(4))]);
}

#[test]
fn coercions_between_value_types() {
    assert_eq!(emitted(|b| coerce(b, Some(ValTy::I64), ValTy::I32)), vec![Ins::I32WrapI64]);
    assert_eq!(emitted(|b| coerce(b, Some(ValTy::I32), ValTy::F64)), vec![Ins::F64ConvertI32S]);
    assert_eq!(emitted(|b| coerce(b, Some(ValTy::F32), ValTy::F64)), vec![Ins::F64PromoteF32]);
    assert_eq!(emitted(|b| coerce(b, None, ValTy::I32)), vec![]);
    assert_eq!(emitted(|b| coerce(b, Some(ValTy::F64), ValTy::I64)), vec![]);
    assert_eq!(emitted(|b| default_value(b, ValTy::F64)), vec![Ins::F64Const(0)]);
    assert_eq!(
        emitted(|b| widen_to_slot(b, ValTy::F32)),
        vec![Ins::F64PromoteF32, Ins::I64ReinterpretF64]
    );
    assert_eq!(
        emitted(|b| push_as_i64(b, 1, ValTy::I32)),
        vec![Ins::LocalGet(1), Ins::I64ExtendI32U]
    );
    assert_eq!(emitted(|b| set_from_i32(b, ValTy::F64, Some(3))), vec![Ins::F64ConvertI32U, Ins::LocalSet(3)]);
    assert_eq!(
        emitted(|b| set_from_i64(b, ValTy::F32, None)),
        vec![Ins::I32WrapI64, Ins::F32ReinterpretI32]
    );
}

#[test]
fn runtime_helpers_by_ownership() {
    let rt = Runtime::new(100);
    assert_eq!(retain_call(&rt, OwnershipKind::RcString), Some(rt.str_retain));
    assert_eq!(release_call(&rt, OwnershipKind::RcMap), Some(rt.map_release));
    assert_eq!(retain_call(&rt, OwnershipKind::Future), None);
    assert_eq!(release_call(&rt, OwnershipKind::Unmanaged), None);
    let layouts = table();
    assert!(is_managed_handle(&layouts, TypeId(3)));
    assert!(is_managed_handle(&layouts, TypeId(8)));
    assert!(!is_managed_handle(&layouts, TypeId(0)));
    assert_eq!(element_kind(&layouts, TypeId(3)), 1);
    assert_eq!(element_kind(&layouts, TypeId(7)), 4);
    assert_eq!(element_kind(&layouts, TypeId(5)), 5);
    assert_eq!(element_kind(&layouts, TypeId(0)), 0);
    assert_eq!(optional_payload_offset(&layouts, TypeId(0)), 8);
    assert_eq!(optional_payload_offset(&layouts, TypeId(1)), 4);
    assert_eq!(optional_payload_offset(&layouts, TypeId(8)), 16);
    assert_eq!(optional_payload_offset(&layouts, TypeId(6)), 4);
}

#[test]
fn loads_and_stores_follow_the_layout() {
    let layouts = table();
    assert_eq!(load_instruction(&layouts, TypeId(1), 3), Ins::I32Load8S(arg(3)));
    assert_eq!(load_instruction(&layouts, TypeId(2), 0), Ins::I32Load16S(arg(0)));
    assert_eq!(load_instruction(&layouts, TypeId(4), 0), Ins::F32Load(arg(0)));
    assert_eq!(load_instruction(&layouts, TypeId(0), -1), Ins::I64Load(arg(0)));
    assert_eq!(load_instruction(&layouts, TypeId(6), 8), Ins::I32Load(arg(8)));
    assert_eq!(store_instruction(&layouts, TypeId(2), 2), Ins::I32Store16(arg(2)));
    assert_eq!(store_instruction(&layouts, TypeId(5), 0), Ins::F64Store(arg(0)));
    assert_eq!(store_instruction(&layouts, TypeId(3), 4), Ins::I32Store(arg(4)));
}

#[test]
fn binary_operators_select_signed_or_unsigned_instructions() {
    assert_eq!(binary_instruction(BinaryOp::Divide, ValTy::I64, true), Ok((Ins::I64DivU, false)));
    assert_eq!(binary_instruction(BinaryOp::Divide, ValTy::I64, false), Ok((Ins::I64DivS, false)));
    assert_eq!(binary_instruction(BinaryOp::LessEqual, ValTy::I64, true), Ok((Ins::I64LeU, true)));
    assert_eq!(binary_instruction(BinaryOp::And, ValTy::I32, false), Ok((Ins::I32And, false)));
    assert_eq!(binary_instruction(BinaryOp::Greater, ValTy::F64, false), Ok((Ins::F64Gt, true)));
    assert_eq!(
        binary_instruction(BinaryOp::Modulo, ValTy::F64, false),
        Err(CodegenError::Backend("wasm backend: unsupported binary op Modulo on F64".to_owned()))
    );
    assert_eq!(
        binary_instruction(BinaryOp::Add, ValTy::F32, false),
        Err(CodegenError::Backend("wasm backend: unsupported binary op Add on F32".to_owned()))
    );
}

#[test]
fn float_bounds_are_powers_of_two() {
    assert_eq!(float_int_range(NumericKind::U8, 32), (0, 256.0_f64.to_bits()));
    assert_eq!(float_int_range(NumericKind::I32, 32), ((-2147483648.0_f64).to_bits(), 2147483648.0_f64.to_bits()));
    assert_eq!(float_int_range(NumericKind::USize, 32), (0, 4294967296.0_f64.to_bits()));
    assert_eq!(float_int_range(NumericKind::I64, 32), ((-9.223372036854775808e18_f64).to_bits(), 9.223372036854775808e18_f64.to_bits()));
}

#[test]
fn narrowing_integer_casts_trap_out_of_range() {
    let code = emitted(|b| {
        emit_numeric_cast(b, NumericKind::I64, NumericKind::U8, 32, 0, ValTy::I64, ValTy::I32, Some(3))
    });
    assert_eq!(
        code,
        vec![
            Ins::LocalGet(0),
            Ins::LocalGet(0),
            Ins::I64Const(0),
            Ins::I64GeS,
            Ins::LocalGet(0),
            Ins::I64Const(256),
            Ins::I64LtS,
            Ins::I32And,
            Ins::If(BlockTy::Result(ValTy::I32)),
            Ins::LocalGet(0),
            Ins::I32WrapI64,
            Ins::Else,
            Ins::Unreachable,
            Ins::End,
            Ins::LocalSet(3),
        ]
    );
    let signed = emitted(|b| {
        emit_numeric_cast(b, NumericKind::U32, NumericKind::I8, 32, 1, ValTy::I32, ValTy::I32, None)
    });
    assert_eq!(signed[0..2], [Ins::LocalGet(1), Ins::I64ExtendI32U]);
    assert!(signed.contains(&Ins::I64Const(0)));
    assert!(!signed.contains(&Ins::I64Const(-128)));
    assert!(signed.contains(&Ins::I64Const(128)));
    assert!(signed.contains(&Ins::Unreachable));
}

#[test]
fn unsigned_to_signed_64_bit_casts_check_the_sign() {
    let code = emitted(|b| {
        emit_numeric_cast(b, NumericKind::U64, NumericKind::I64, 32, 0, ValTy::I64, ValTy::I64, Some(1))
    });
    assert_eq!(
        code,
        vec![
            Ins::LocalGet(0),
            Ins::I64Const(0),
            Ins::I64GeS,
            Ins::If(BlockTy::Result(ValTy::I64)),
            Ins::LocalGet(0),
            Ins::Else,
            Ins::Unreachable,
            Ins::End,
            Ins::LocalSet(1),
        ]
    );
    let same_sign = emitted(|b| {
        emit_numeric_cast(b, NumericKind::I64, NumericKind::I64, 32, 0, ValTy::I64, ValTy::I64, None)
    });
    assert_eq!(same_sign[1], Ins::I64Const(1));
    let wide_to_narrow = emitted(|b| {
        emit_numeric_cast(b, NumericKind::U64, NumericKind::I32, 32, 0, ValTy::I64, ValTy::I32, None)
    });
    assert_eq!(wide_to_narrow[1..4], [Ins::LocalGet(0), Ins::I64Const(0), Ins::I64GeS]);
}

#[test]
fn float_casts() {
    let to_float = emitted(|b| {
        emit_numeric_cast(b, NumericKind::U32, NumericKind::F32, 32, 1, ValTy::I32, ValTy::F32, Some(2))
    });
    assert_eq!(
        to_float,
        vec![Ins::LocalGet(1), Ins::I64ExtendI32U, Ins::F32ConvertI64U, Ins::LocalSet(2)]
    );
    let widen = emitted(|b| {
        emit_numeric_cast(b, NumericKind::F32, NumericKind::F64, 32, 1, ValTy::F32, ValTy::F64, None)
    });
    assert_eq!(widen, vec![Ins::LocalGet(1), Ins::F64PromoteF32]);
    let to_int = emitted(|b| {
        emit_numeric_cast(b, NumericKind::F64, NumericKind::I32, 32, 1, ValTy::F64, ValTy::I32, Some(0))
    });
    assert_eq!(to_int[0..3], [Ins::LocalGet(1), Ins::F64Abs, Ins::F64Const(f64::INFINITY.to_bits())]);
    assert!(to_int.contains(&Ins::F64Const((-2147483648.0_f64).to_bits())));
    assert!(to_int.contains(&Ins::I64TruncF64S));
    assert_eq!(to_int[to_int.len() - 4..], [Ins::Else, Ins::Unreachable, Ins::End, Ins::LocalSet(0)]);
}

#[test]
fn locals_map_past_the_wasm_parameters() {
    let mut function = MirFunction {
        symbol: SymbolId(1),
        is_poll: false,
        frame_param: None,
        out_param: None,
        parameter_count: 2,
        locals: vec![None; 5],
        return_type: None,
        frame_size: None,
        references: vec![],
        literals: vec![],
        blocks: vec![],
        entry: 0,
    };
    let map = LocalMap::new(&function);
    assert_eq!(map.map, vec![0, 1, 2, 3, 4]);
    assert_eq!(map.base, 5);
    function.frame_param = Some(3);
    function.out_param = Some(4);
    let map = LocalMap::new(&function);
    assert_eq!(map.map, vec![0, 1, 2, 0, 1]);
    assert_eq!(map.base, 3);
    assert_eq!(map.get(3), 0);
    function.out_param = None;
    function.parameter_count = 0;
    let map = LocalMap::new(&function);
    assert_eq!(map.map, vec![1, 2, 3, 0, 4]);
    assert_eq!(map.base, 5);
}
