use vut_wasm::wasm::asyncrt::AsyncRt;
use vut_wasm::wasm::backend::CodegenError;
use vut_wasm::wasm::lower::{defined_value, function_body, value_result_type, LowerCtx};
use vut_wasm::wasm::mir::{
    BasicBlock, BlockId, BuiltinFunction, FieldLayout, FrameLayout, Instruction, LocalId, Terminator, TypeShape,
    ValueId,
};
use vut_wasm::wasm::model::{BlockTy, Ins, MemArg, ValTy};
use vut_wasm::wasm::program::{
    Callable, LayoutTable, MirFunction, OwnershipKind, SymbolId, TypeId, TypeLayout, ValueRepr,
};
use vut_wasm::wasm::rt_index::Runtime;
use vut_wasm::wasm::select::BinaryOp;

const INT: TypeId = TypeId(0);
const BOOL: TypeId = TypeId(1);
const STR: TypeId = TypeId(2);
const POINT: TypeId = TypeId(3);

fn layouts() -> LayoutTable {
    let layout = |repr, size, ownership| TypeLayout { repr, size, alignment: 8, ownership };
    let mut point = TypeShape::plain();
    point.aggregate = true;
    point.fields = Some(vec![
        FieldLayout { name: "x".to_owned(), offset: 0, ty: INT },
        FieldLayout { name: "y".to_owned(), offset: 8, ty: INT },
    ]);
    LayoutTable {
        types: vec![
            layout(ValueRepr::Integer, 8, OwnershipKind::Unmanaged),
            layout(ValueRepr::Integer, 1, OwnershipKind::Unmanaged),
            layout(ValueRepr::Pointer, 4, OwnershipKind::RcString),
            layout(ValueRepr::Pointer, 16, OwnershipKind::Unmanaged),
        ],
        shapes: vec![TypeShape::plain(), TypeShape::plain(), TypeShape::plain(), point],
        pointer_size: 4,
    }
}

struct Tables {
    layouts: LayoutTable,
    symbols: Vec<(SymbolId, u32)>,
    strings: Vec<(String, u32)>,
    callee_params: Vec<(SymbolId, Vec<ValTy>)>,
    callable_types: Vec<(TypeId, u32)>,
    callables: Vec<Callable>,
    rt: Runtime,
    frames: Vec<(SymbolId, FrameLayout)>,
    poll_thunks: Vec<(SymbolId, u32)>,
    async_rt: AsyncRt,
}

fn tables() -> Tables {
    Tables {
        layouts: layouts(),
        symbols: vec![(SymbolId(7), 40)],
        strings: vec![("true".to_owned(), 100), ("false".to_owned(), 108)],
        callee_params: vec![],
        callable_types: vec![],
        callables: vec![],
        rt: Runtime::new(0),
        frames: vec![],
        poll_thunks: vec![],
        async_rt: AsyncRt::new(200),
    }
}

fn ctx(t: &Tables) -> LowerCtx<'_> {
    LowerCtx {
        layouts: &t.layouts,
        symbols: &t.symbols,
        strings: &t.strings,
        callee_params: &t.callee_params,
        callable_types: &t.callable_types,
        callables: &t.callables,
        rt: &t.rt,
        frames: &t.frames,
        poll_thunks: &t.poll_thunks,
        async_rt: &t.async_rt,
        frame_state_offset: 0,
        frame_child_offset: 4,
    }
}

fn function(parameters: usize, locals: Vec<Option<TypeId>>, blocks: Vec<BasicBlock>) -> MirFunction {
    MirFunction {
        symbol: SymbolId(7),
        is_poll: false,
        frame_param: None,
        out_param: None,
        parameter_count: parameters,
        locals,
        return_type: Some(INT),
        frame_size: None,
        references: vec![],
        literals: vec![],
        blocks,
        entry: 0,
    }
}

fn block(instructions: Vec<Instruction>, terminator: Terminator) -> BasicBlock {
    BasicBlock { instructions, terminator }
}

fn m(offset: u64) -> MemArg {
    MemArg { offset, align: 0, memory_index: 0 }
}

fn backend_message(r: Result<vut_wasm::wasm::builder::Body, CodegenError>) -> String {
    match r {
        Err(CodegenError::Backend(message)) => message,
        _ => panic!("expected a backend error"),
    }
}

#[test]
fn adds_two_parameters_in_a_dispatch_loop() {
    let t = tables();
    let body = function(
        2,
        vec![Some(INT), Some(INT)],
        vec![block(
            vec![
                Instruction::Copy { value: ValueId(0), local: LocalId(0) },
                Instruction::Copy { value: ValueId(1), local: LocalId(1) },
                Instruction::Binary {
                    operand_type: Some(INT),
                    value: ValueId(2),
                    op: BinaryOp::Add,
                    left: ValueId(0),
                    right: ValueId(1),
                },
            ],
            Terminator::Return(Some(ValueId(2))),
        )],
    );
    let lowered = function_body(&ctx(&t), &body).unwrap();
    assert_eq!(lowered.params, 2);
    assert_eq!(
        lowered.locals,
        vec![(1, ValTy::I64), (1, ValTy::I64), (1, ValTy::I64), (1, ValTy::I32), (1, ValTy::I32)]
    );
    assert_eq!(
        lowered.code,
        vec![
            Ins::I32Const(0),
            Ins::LocalSet(5),
            Ins::Loop(BlockTy::Empty),
            Ins::Block(BlockTy::Empty),
            Ins::LocalGet(5),
            Ins::BrTable { targets: 1, default: 0 },
            Ins::End,
            Ins::LocalGet(0),
            Ins::LocalSet(2),
            Ins::LocalGet(1),
            Ins::LocalSet(3),
            Ins::LocalGet(2),
            Ins::LocalGet(3),
            Ins::I64Add,
            Ins::LocalSet(4),
            Ins::LocalGet(4),
            Ins::Return,
            Ins::End,
            Ins::Unreachable,
            Ins::End,
        ]
    );
}

#[test]
fn branches_store_the_next_block_and_loop() {
    let t = tables();
    let body = function(
        1,
        vec![Some(BOOL)],
        vec![
            block(
                vec![Instruction::Copy { value: ValueId(0), local: LocalId(0) }],
                Terminator::Branch { condition: ValueId(0), then_block: BlockId(1), else_block: BlockId(2) },
            ),
            block(vec![Instruction::ConstInt { value: ValueId(1), literal: 7 }], Terminator::Return(Some(ValueId(1)))),
            block(vec![], Terminator::Jump(BlockId(1))),
        ],
    );
    let lowered = function_body(&ctx(&t), &body).unwrap();
    // locals: 0 = parameter, 1 = v0 (i32), 2 = v1 (i64), 3 = pc, 4 = scratch.
    assert_eq!(lowered.locals, vec![(1, ValTy::I32), (1, ValTy::I64), (1, ValTy::I32), (1, ValTy::I32)]);
    assert_eq!(
        lowered.code[..9],
        [
            Ins::I32Const(0),
            Ins::LocalSet(3),
            Ins::Loop(BlockTy::Empty),
            Ins::Block(BlockTy::Empty),
            Ins::Block(BlockTy::Empty),
            Ins::Block(BlockTy::Empty),
            Ins::LocalGet(3),
            Ins::BrTable { targets: 3, default: 0 },
            Ins::End,
        ]
    );
    assert_eq!(
        lowered.code[9..21],
        [
            Ins::LocalGet(0),
            Ins::LocalSet(1),
            Ins::LocalGet(1),
            Ins::If(BlockTy::Empty),
            Ins::I32Const(1),
            Ins::LocalSet(3),
            Ins::Else,
            Ins::I32Const(2),
            Ins::LocalSet(3),
            Ins::End,
            Ins::Br(2),
            Ins::End,
        ]
    );
    assert_eq!(
        lowered.code[21..],
        [
            Ins::I64Const(7),
            Ins::LocalSet(2),
            Ins::LocalGet(2),
            Ins::Return,
            Ins::End,
            Ins::I32Const(1),
            Ins::LocalSet(3),
            Ins::Br(0),
            Ins::End,
            Ins::Unreachable,
            Ins::End,
        ]
    );
}

#[test]
fn reads_a_struct_field_by_name() {
    let t = tables();
    let body = function(
        0,
        vec![],
        vec![block(
            vec![
                Instruction::Allocate { value: ValueId(0), ty: POINT },
                Instruction::Field { value: ValueId(1), base: ValueId(0), name: "y".to_owned() },
            ],
            Terminator::Return(Some(ValueId(1))),
        )],
    );
    let lowered = function_body(&ctx(&t), &body).unwrap();
    let rt = Runtime::new(0);
    // v0 = local 0, v1 = local 1, pc = 2.
    assert_eq!(
        lowered.code[7..16],
        [
            Ins::I32Const(16),
            Ins::Call(rt.alloc),
            Ins::LocalSet(0),
            Ins::LocalGet(0),
            Ins::I32Const(8),
            Ins::I32Add,
            Ins::I64Load(m(0)),
            Ins::LocalSet(1),
            Ins::LocalGet(1),
        ]
    );
}

#[test]
fn formats_a_bool_through_the_static_literals() {
    let t = tables();
    let body = function(
        1,
        vec![Some(BOOL)],
        vec![block(
            vec![
                Instruction::Copy { value: ValueId(0), local: LocalId(0) },
                Instruction::RuntimeCall {
                    value: Some(ValueId(1)),
                    result_type: Some(STR),
                    function: BuiltinFunction::BoolToStr,
                    arguments: vec![ValueId(0)],
                },
            ],
            Terminator::Return(Some(ValueId(1))),
        )],
    );
    let lowered = function_body(&ctx(&t), &body).unwrap();
    let rt = Runtime::new(0);
    assert_eq!(
        lowered.code[9..19],
        [
            Ins::LocalGet(1),
            Ins::If(BlockTy::Result(ValTy::I32)),
            Ins::I32Const(100),
            Ins::Call(rt.str_from_static),
            Ins::Else,
            Ins::I32Const(108),
            Ins::Call(rt.str_from_static),
            Ins::End,
            Ins::LocalSet(2),
            Ins::LocalGet(2),
        ]
    );
}

#[test]
fn unregistered_string_literal_is_an_error() {
    let t = tables();
    let body = function(
        0,
        vec![],
        vec![block(
            vec![Instruction::ConstString { value: ValueId(0), literal: "hi".to_owned() }],
            Terminator::Return(None),
        )],
    );
    assert_eq!(
        backend_message(function_body(&ctx(&t), &body)),
        "wasm backend: unregistered string literal `hi`"
    );
}

#[test]
fn unknown_callee_is_an_error() {
    let t = tables();
    let body = function(
        0,
        vec![],
        vec![block(
            vec![Instruction::Call { value: None, result_type: None, target: SymbolId(9), arguments: vec![] }],
            Terminator::Return(None),
        )],
    );
    assert_eq!(backend_message(function_body(&ctx(&t), &body)), "wasm: unknown function SymbolId(9)");
}

#[test]
fn unknown_field_is_an_error() {
    let t = tables();
    let body = function(
        0,
        vec![],
        vec![block(
            vec![
                Instruction::Allocate { value: ValueId(0), ty: POINT },
                Instruction::Field { value: ValueId(1), base: ValueId(0), name: "z".to_owned() },
            ],
            Terminator::Return(None),
        )],
    );
    assert_eq!(backend_message(function_body(&ctx(&t), &body)), "wasm backend: unknown field `z`");
}

#[test]
fn channel_receive_is_not_supported() {
    let t = tables();
    let body = function(
        0,
        vec![],
        vec![block(
            vec![Instruction::PollChannelRecv { value: ValueId(0), present: ValueId(1), ready: ValueId(2) }],
            Terminator::Return(None),
        )],
    );
    assert_eq!(
        backend_message(function_body(&ctx(&t), &body)),
        "wasm backend: channel recv on wasm is not supported yet (function 7)"
    );
}

#[test]
fn unlowered_builtins_and_instructions_are_errors() {
    let t = tables();
    let call = function(
        0,
        vec![],
        vec![block(
            vec![Instruction::RuntimeCall {
                value: None,
                result_type: None,
                function: BuiltinFunction::Other { text: "ChannelSend".to_owned() },
                arguments: vec![],
            }],
            Terminator::Return(None),
        )],
    );
    assert_eq!(backend_message(function_body(&ctx(&t), &call)), "wasm backend: unsupported runtime call ChannelSend");
    let closure = function(
        0,
        vec![],
        vec![block(
            vec![Instruction::MakeClosure { value: ValueId(0), text: "MakeClosure".to_owned() }],
            Terminator::Return(None),
        )],
    );
    assert_eq!(backend_message(function_body(&ctx(&t), &closure)), "wasm backend: unsupported instruction MakeClosure");
}

#[test]
fn unsupported_binary_operator_is_an_error() {
    let t = tables();
    let body = function(
        2,
        vec![Some(INT), Some(INT)],
        vec![block(
            vec![
                Instruction::Copy { value: ValueId(0), local: LocalId(0) },
                Instruction::Copy { value: ValueId(1), local: LocalId(1) },
                Instruction::Binary {
                    operand_type: Some(INT),
                    value: ValueId(2),
                    op: BinaryOp::And,
                    left: ValueId(0),
                    right: ValueId(1),
                },
            ],
            Terminator::Return(None),
        )],
    );
    assert_eq!(backend_message(function_body(&ctx(&t), &body)), "wasm backend: unsupported binary op And on I64");
}

#[test]
fn defined_values_and_result_types() {
    let body = function(1, vec![Some(INT)], vec![]);
    let copy = Instruction::Copy { value: ValueId(3), local: LocalId(0) };
    assert_eq!(defined_value(&copy), Some(ValueId(3)));
    assert_eq!(value_result_type(&body, &copy), Some(INT));
    let store = Instruction::Store { local: LocalId(0), value: ValueId(3) };
    assert_eq!(defined_value(&store), None);
    assert_eq!(value_result_type(&body, &store), None);
    let call = Instruction::Call { value: None, result_type: Some(STR), target: SymbolId(1), arguments: vec![] };
    assert_eq!(defined_value(&call), None);
    assert_eq!(value_result_type(&body, &call), Some(STR));
}

#[test]
fn calls_pass_their_arguments_and_store_the_result() {
    let t = tables();
    let body = function(
        1,
        vec![Some(INT)],
        vec![block(
            vec![
                Instruction::Copy { value: ValueId(0), local: LocalId(0) },
                Instruction::Call {
                    value: Some(ValueId(1)),
                    result_type: Some(INT),
                    target: SymbolId(7),
                    arguments: vec![ValueId(0)],
                },
            ],
            Terminator::Return(Some(ValueId(1))),
        )],
    );
    let lowered = function_body(&ctx(&t), &body).unwrap();
    assert_eq!(lowered.locals, vec![(1, ValTy::I64), (1, ValTy::I64), (1, ValTy::I32), (1, ValTy::I32)]);
    assert_eq!(
        lowered.code,
        vec![
            Ins::I32Const(0),
            Ins::LocalSet(3),
            Ins::Loop(BlockTy::Empty),
            Ins::Block(BlockTy::Empty),
            Ins::LocalGet(3),
            Ins::BrTable { targets: 1, default: 0 },
            Ins::End,
            Ins::LocalGet(0),
            Ins::LocalSet(1),
            Ins::LocalGet(1),
            Ins::Call(40),
            Ins::LocalSet(2),
            Ins::LocalGet(2),
            Ins::Return,
            Ins::End,
            Ins::Unreachable,
            Ins::End,
        ]
    );
}

#[test]
fn the_first_failure_in_block_order_is_reported() {
    let t = tables();
    let body = function(
        0,
        vec![],
        vec![
            block(
                vec![
                    Instruction::ConstInt { value: ValueId(0), literal: 1 },
                    Instruction::Call { value: None, result_type: None, target: SymbolId(9), arguments: vec![] },
                ],
                Terminator::Jump(BlockId(1)),
            ),
            block(
                vec![Instruction::ConstString { value: ValueId(1), literal: "later".to_owned() }],
                Terminator::Return(None),
            ),
        ],
    );
    assert_eq!(backend_message(function_body(&ctx(&t), &body)), "wasm: unknown function SymbolId(9)");
    let second = function(
        0,
        vec![],
        vec![
            block(vec![Instruction::ConstInt { value: ValueId(0), literal: 1 }], Terminator::Jump(BlockId(1))),
            block(
                vec![Instruction::ConstString { value: ValueId(1), literal: "later".to_owned() }],
                Terminator::Return(None),
            ),
        ],
    );
    assert_eq!(backend_message(function_body(&ctx(&t), &second)), "wasm backend: unregistered string literal `later`");
}
