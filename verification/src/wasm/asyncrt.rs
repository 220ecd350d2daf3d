//! Async runtime helpers for the wasm backend.
//!
//! A single-threaded cooperative executor. Futures, tasks and vutcons are all
//! `AsyncHandle`s in linear memory. `drive` polls a handle; when a poll returns
//! pending the handle records the child it is waiting on, and `drive` recurses
//! into that child, then re-polls the parent. There is no run queue and no
//! threads: suspension is a pending poll, resumption is the recursive re-poll
//! once the awaited child has completed.
use vstd::prelude::*;
use crate::wasm::builder::{body_views, bodies_fit, local_count, signature_views, Body, Builder};
use crate::wasm::model::{m, BlockTy, Ins, MemArg, ValTy};

verus! {

// Offsets from the async helper base, in body order.
pub const FRAME_ALLOC: u32 = 0;
pub const FRAME_FREE: u32 = 1;
pub const HANDLE_NEW: u32 = 2;
pub const HANDLE_DROP: u32 = 3;
pub const AWAIT_CHILD: u32 = 4;
pub const FUTURE_AWAIT: u32 = 5;
pub const EXECUTOR_RUN: u32 = 6;
pub const POLL: u32 = 7;
pub const DRIVE: u32 = 8;
/// Number of async runtime helpers.
pub const COUNT: u32 = 9;

// `AsyncHandle` field offsets (all pointer-sized words; 32-byte record).
pub const H_POLL: i32 = 0;
pub const H_DROP: i32 = 4;
pub const H_FRAME: i32 = 8;
pub const H_STATE: i32 = 12;
pub const H_RESULT: i32 = 16;
pub const H_RSIZE: i32 = 20;
pub const H_WAITING: i32 = 24;
pub const H_SIZE: i32 = 32;

pub const STATE_READY: i32 = 1;

/// A memory immediate for a non-negative handle field offset.
pub open spec fn spec_ma(offset: i32) -> MemArg {
    MemArg { offset: offset as u64, align: 0, memory_index: 0 }
}

/// A memory immediate for a non-negative handle field offset.
#[verifier::when_used_as_spec(spec_ma)]
fn ma(offset: i32) -> (r: MemArg)
    requires
        offset >= 0,
    ensures
        r == (MemArg { offset: offset as u64, align: 0, memory_index: 0 }),
{
    m(offset as u64)
}

/// Absolute indices of the async helpers, given the helper block `base`.
pub struct AsyncRt {
    pub frame_alloc: u32,
    pub handle_new: u32,
    pub await_child: u32,
    pub future_await: u32,
    pub executor_run: u32,
}

impl AsyncRt {
    /// The async helper indices when their bodies start at `base`.
    pub fn new(base: u32) -> (rt: AsyncRt)
        requires
            base + COUNT <= u32::MAX,
        ensures
            rt.frame_alloc == base + FRAME_ALLOC,
            rt.handle_new == base + HANDLE_NEW,
            rt.await_child == base + AWAIT_CHILD,
            rt.future_await == base + FUTURE_AWAIT,
            rt.executor_run == base + EXECUTOR_RUN,
    {
        AsyncRt {
            frame_alloc: base + FRAME_ALLOC,
            handle_new: base + HANDLE_NEW,
            await_child: base + AWAIT_CHILD,
            future_await: base + FUTURE_AWAIT,
            executor_run: base + EXECUTOR_RUN,
        }
    }
}

/// Signatures of every async helper, in offset order.
pub open spec fn async_signatures() -> Seq<(Seq<ValTy>, Seq<ValTy>)> {
    seq![
        (seq![ValTy::I32], seq![ValTy::I32]),
        (seq![ValTy::I32], Seq::<ValTy>::empty()),
        (seq![ValTy::I32, ValTy::I32, ValTy::I32, ValTy::I32], seq![ValTy::I32]),
        (seq![ValTy::I32], Seq::<ValTy>::empty()),
        (seq![ValTy::I32, ValTy::I32], seq![ValTy::I32]),
        (seq![ValTy::I32, ValTy::I32], seq![ValTy::I32]),
        (seq![ValTy::I32], seq![ValTy::I32]),
        (seq![ValTy::I32], seq![ValTy::I32]),
        (seq![ValTy::I32], seq![ValTy::I32]),
    ]
}

/// Signatures of every async helper, in offset order.
pub fn signatures() -> (sigs: Vec<(Vec<ValTy>, Vec<ValTy>)>)
    ensures
        signature_views(sigs@) == async_signatures(),
{
    let sigs = vec![
        (vec![ValTy::I32], vec![ValTy::I32]),
        (vec![ValTy::I32], vec![]),
        (vec![ValTy::I32, ValTy::I32, ValTy::I32, ValTy::I32], vec![ValTy::I32]),
        (vec![ValTy::I32], vec![]),
        (vec![ValTy::I32, ValTy::I32], vec![ValTy::I32]),
        (vec![ValTy::I32, ValTy::I32], vec![ValTy::I32]),
        (vec![ValTy::I32], vec![ValTy::I32]),
        (vec![ValTy::I32], vec![ValTy::I32]),
        (vec![ValTy::I32], vec![ValTy::I32]),
    ];
    assert(signature_views(sigs@) =~~= async_signatures());
    sigs
}

/// The code that `frame_alloc_body` emits.
#[verifier::opaque]
pub open spec fn frame_alloc_body_code(alloc: u32) -> Seq<Ins> {
    let c = Seq::<Ins>::empty();
    c
        .push(Ins::LocalGet(0))
        .push(Ins::I32Const(8))
        .push(Ins::I32Add)
        .push(Ins::Call(alloc))
        .push(Ins::LocalSet(1))
        .push(Ins::LocalGet(1))
        .push(Ins::I32Const(7))
        .push(Ins::I32Add)
        .push(Ins::I32Const(-8i32))
        .push(Ins::I32And)
        .push(Ins::LocalTee(2))
        .push(Ins::I32Const(0))
        .push(Ins::LocalGet(0))
        .push(Ins::MemoryFill(0))
        .push(Ins::LocalGet(2))
        .push(Ins::End)
}

pub(crate) fn frame_alloc_body(alloc: u32) -> (body: Body)
    ensures
        body.code@ == frame_alloc_body_code(alloc),
        body.locals@ == seq![(2u32, ValTy::I32)],
        body.valid(),
        body.params == 1,
{
    proof {
        reveal(frame_alloc_body_code);
    }
    let mut f = Builder::new(1);
    f.declare(2, ValTy::I32);
    f.push(Ins::LocalGet(0));
    f.push(Ins::I32Const(8));
    f.push(Ins::I32Add);
    f.push(Ins::Call(alloc));
    f.push(Ins::LocalSet(1));
    f.push(Ins::LocalGet(1));
    f.push(Ins::I32Const(7));
    f.push(Ins::I32Add);
    f.push(Ins::I32Const(-8));
    f.push(Ins::I32And);
    f.push(Ins::LocalTee(2));
    f.push(Ins::I32Const(0));
    f.push(Ins::LocalGet(0));
    f.push(Ins::MemoryFill(0));
    f.push(Ins::LocalGet(2));
    f.push(Ins::End);
    assert(f.locals() =~= seq![(2u32, ValTy::I32)]);
    f.finish()
}

/// The code that `frame_free_body` emits.
#[verifier::opaque]
pub open spec fn frame_free_body_code() -> Seq<Ins> {
    let c = Seq::<Ins>::empty();
    c
        .push(Ins::End)
}

/// `(ptr) -> ()`: frames live in a bump arena, so freeing is a no-op.
pub(crate) fn frame_free_body() -> (body: Body)
    ensures
        body.code@ == frame_free_body_code(),
        body.locals@ == Seq::<(u32, ValTy)>::empty(),
        body.valid(),
        body.params == 1,
{
    proof {
        reveal(frame_free_body_code);
    }
    let mut f = Builder::new(1);
    f.push(Ins::End);
    f.finish()
}

/// The code that `handle_new_body` emits.
#[verifier::opaque]
pub open spec fn handle_new_body_code(alloc: u32) -> Seq<Ins> {
    let c = Seq::<Ins>::empty();
    c
        .push(Ins::I32Const(H_SIZE))
        .push(Ins::Call(alloc))
        .push(Ins::LocalSet(4))
        .push(Ins::LocalGet(4))
        .push(Ins::LocalGet(0))
        .push(Ins::I32Store(spec_ma(H_POLL)))
        .push(Ins::LocalGet(4))
        .push(Ins::LocalGet(1))
        .push(Ins::I32Store(spec_ma(H_DROP)))
        .push(Ins::LocalGet(4))
        .push(Ins::LocalGet(2))
        .push(Ins::I32Store(spec_ma(H_FRAME)))
        .push(Ins::LocalGet(4))
        .push(Ins::I32Const(0))
        .push(Ins::I32Store(spec_ma(H_STATE)))
        .push(Ins::LocalGet(4))
        .push(Ins::I32Const(0))
        .push(Ins::I32Store(spec_ma(H_WAITING)))
        .push(Ins::LocalGet(3))
        .push(Ins::I32Const(4))
        .push(Ins::I32LtS)
        .push(Ins::If(BlockTy::Result(ValTy::I32)))
        .push(Ins::I32Const(4))
        .push(Ins::Else)
        .push(Ins::LocalGet(3))
        .push(Ins::End)
        .push(Ins::I32Const(3))
        .push(Ins::I32Add)
        .push(Ins::I32Const(-4i32))
        .push(Ins::I32And)
        .push(Ins::Call(alloc))
        .push(Ins::LocalSet(5))
        .push(Ins::LocalGet(4))
        .push(Ins::LocalGet(5))
        .push(Ins::I32Store(spec_ma(H_RESULT)))
        .push(Ins::LocalGet(4))
        .push(Ins::LocalGet(3))
        .push(Ins::I32Store(spec_ma(H_RSIZE)))
        .push(Ins::LocalGet(4))
        .push(Ins::End)
}

/// `(poll_fn, drop_fn, frame, result_size) -> handle`.
pub(crate) fn handle_new_body(alloc: u32) -> (body: Body)
    ensures
        body.code@ == handle_new_body_code(alloc),
        body.locals@ == seq![(2u32, ValTy::I32)],
        body.valid(),
        body.params == 4,
{
    proof {
        reveal(handle_new_body_code);
    }
    let mut f = Builder::new(4);
    f.declare(2, ValTy::I32);
    f.push(Ins::I32Const(H_SIZE));
    f.push(Ins::Call(alloc));
    f.push(Ins::LocalSet(4));
    f.push(Ins::LocalGet(4));
    f.push(Ins::LocalGet(0));
    f.push(Ins::I32Store(ma(H_POLL)));
    f.push(Ins::LocalGet(4));
    f.push(Ins::LocalGet(1));
    f.push(Ins::I32Store(ma(H_DROP)));
    f.push(Ins::LocalGet(4));
    f.push(Ins::LocalGet(2));
    f.push(Ins::I32Store(ma(H_FRAME)));
    f.push(Ins::LocalGet(4));
    f.push(Ins::I32Const(0));
    f.push(Ins::I32Store(ma(H_STATE)));
    f.push(Ins::LocalGet(4));
    f.push(Ins::I32Const(0));
    f.push(Ins::I32Store(ma(H_WAITING)));
    // result buffer: at least one word so a void result has a valid pointer.
    f.push(Ins::LocalGet(3));
    f.push(Ins::I32Const(4));
    f.push(Ins::I32LtS);
    f.push(Ins::If(BlockTy::Result(ValTy::I32)));
    f.push(Ins::I32Const(4));
    f.push(Ins::Else);
    f.push(Ins::LocalGet(3));
    f.push(Ins::End);
    f.push(Ins::I32Const(3));
    f.push(Ins::I32Add);
    f.push(Ins::I32Const(-4));
    f.push(Ins::I32And);
    f.push(Ins::Call(alloc));
    f.push(Ins::LocalSet(5));
    f.push(Ins::LocalGet(4));
    f.push(Ins::LocalGet(5));
    f.push(Ins::I32Store(ma(H_RESULT)));
    f.push(Ins::LocalGet(4));
    f.push(Ins::LocalGet(3));
    f.push(Ins::I32Store(ma(H_RSIZE)));
    f.push(Ins::LocalGet(4));
    f.push(Ins::End);
    assert(f.locals() =~= seq![(2u32, ValTy::I32)]);
    f.finish()
}

/// The code that `handle_drop_body` emits.
#[verifier::opaque]
pub open spec fn handle_drop_body_code(drop_type: u32) -> Seq<Ins> {
    Seq::<Ins>::empty()
        .push(Ins::LocalGet(0))
        .push(Ins::I32Load(spec_ma(H_DROP)))
        .push(Ins::I32Eqz)
        .push(Ins::If(BlockTy::Empty))
        .push(Ins::Else)
        .push(Ins::LocalGet(0))
        .push(Ins::I32Load(spec_ma(H_FRAME)))
        .push(Ins::LocalGet(0))
        .push(Ins::I32Load(spec_ma(H_DROP)))
        .push(Ins::CallIndirect { type_index: drop_type, table_index: 0 })
        .push(Ins::End)
        .push(Ins::End)
}

/// `(handle) -> ()`: run the frame's drop thunk (releases in-flight children).
pub(crate) fn handle_drop_body(handle_drop: u32, drop_type: u32) -> (body: Body)
    ensures
        body.code@ == handle_drop_body_code(drop_type),
        body.locals@ == Seq::<(u32, ValTy)>::empty(),
        body.valid(),
        body.params == 1,
{
    proof {
        reveal(handle_drop_body_code);
    }
    let _ = handle_drop;
    let mut f = Builder::new(1);
    f.push(Ins::LocalGet(0));
    f.push(Ins::I32Load(ma(H_DROP)));
    f.push(Ins::I32Eqz);
    f.push(Ins::If(BlockTy::Empty));
    f.push(Ins::Else);
    f.push(Ins::LocalGet(0));
    f.push(Ins::I32Load(ma(H_FRAME)));
    f.push(Ins::LocalGet(0));
    f.push(Ins::I32Load(ma(H_DROP)));
    f.push(Ins::CallIndirect {
        type_index: drop_type,
        table_index: 0,
    });
    f.push(Ins::End);
    f.push(Ins::End);
    f.finish()
}

/// The code that `await_child_body` emits.
#[verifier::opaque]
pub open spec fn await_child_body_code(handle_drop: u32, current: u32) -> Seq<Ins> {
    let c = Seq::<Ins>::empty();
    c
        .push(Ins::LocalGet(0))
        .push(Ins::I32Load(m(0)))
        .push(Ins::LocalSet(2))
        .push(Ins::LocalGet(2))
        .push(Ins::I32Eqz)
        .push(Ins::If(BlockTy::Empty))
        .push(Ins::I32Const(1))
        .push(Ins::Return)
        .push(Ins::End)
        .push(Ins::LocalGet(2))
        .push(Ins::I32Load(spec_ma(H_STATE)))
        .push(Ins::I32Const(STATE_READY))
        .push(Ins::I32Eq)
        .push(Ins::If(BlockTy::Empty))
        .push(Ins::LocalGet(1))
        .push(Ins::I32Eqz)
        .push(Ins::If(BlockTy::Empty))
        .push(Ins::Else)
        .push(Ins::LocalGet(1))
        .push(Ins::LocalGet(2))
        .push(Ins::I32Load(spec_ma(H_RESULT)))
        .push(Ins::LocalGet(2))
        .push(Ins::I32Load(spec_ma(H_RSIZE)))
        .push(Ins::MemoryCopy { src_mem: 0, dst_mem: 0 })
        .push(Ins::End)
        .push(Ins::LocalGet(2))
        .push(Ins::Call(handle_drop))
        .push(Ins::LocalGet(0))
        .push(Ins::I32Const(0))
        .push(Ins::I32Store(m(0)))
        .push(Ins::I32Const(1))
        .push(Ins::Return)
        .push(Ins::End)
        .push(Ins::GlobalGet(current))
        .push(Ins::LocalGet(2))
        .push(Ins::I32Store(spec_ma(H_WAITING)))
        .push(Ins::I32Const(0))
        .push(Ins::End)
}

/// `(slot, out) -> i32`: `1` when the awaited child completed, `0` when the
/// current task must suspend. `slot` is the frame's child-handle slot.
pub(crate) fn await_child_body(handle_drop: u32, current: u32) -> (body: Body)
    ensures
        body.code@ == await_child_body_code(handle_drop, current),
        body.locals@ == seq![(1u32, ValTy::I32)],
        body.valid(),
        body.params == 2,
{
    proof {
        reveal(await_child_body_code);
    }
    let mut f = Builder::new(2);
    f.declare(1, ValTy::I32);
    f.push(Ins::LocalGet(0));
    f.push(Ins::I32Load(m(0)));
    f.push(Ins::LocalSet(2));
    // no child: treat as already complete.
    f.push(Ins::LocalGet(2));
    f.push(Ins::I32Eqz);
    f.push(Ins::If(BlockTy::Empty));
    f.push(Ins::I32Const(1));
    f.push(Ins::Return);
    f.push(Ins::End);
    // child ready: move the result out, drop the child, clear the slot.
    f.push(Ins::LocalGet(2));
    f.push(Ins::I32Load(ma(H_STATE)));
    f.push(Ins::I32Const(STATE_READY));
    f.push(Ins::I32Eq);
    f.push(Ins::If(BlockTy::Empty));
    f.push(Ins::LocalGet(1));
    f.push(Ins::I32Eqz);
    f.push(Ins::If(BlockTy::Empty));
    f.push(Ins::Else);
    f.push(Ins::LocalGet(1));
    f.push(Ins::LocalGet(2));
    f.push(Ins::I32Load(ma(H_RESULT)));
    f.push(Ins::LocalGet(2));
    f.push(Ins::I32Load(ma(H_RSIZE)));
    f.push(Ins::MemoryCopy {
        src_mem: 0,
        dst_mem: 0,
    });
    f.push(Ins::End);
    f.push(Ins::LocalGet(2));
    f.push(Ins::Call(handle_drop));
    f.push(Ins::LocalGet(0));
    f.push(Ins::I32Const(0));
    f.push(Ins::I32Store(m(0)));
    f.push(Ins::I32Const(1));
    f.push(Ins::Return);
    f.push(Ins::End);
    // pending: record the child on the active handle and suspend.
    f.push(Ins::GlobalGet(current));
    f.push(Ins::LocalGet(2));
    f.push(Ins::I32Store(ma(H_WAITING)));
    f.push(Ins::I32Const(0));
    f.push(Ins::End);
    assert(f.locals() =~= seq![(1u32, ValTy::I32)]);
    f.finish()
}

/// The code that `future_await_body` emits.
#[verifier::opaque]
pub open spec fn future_await_body_code(handle_drop: u32, drive: u32) -> Seq<Ins> {
    let c = Seq::<Ins>::empty();
    c
        .push(Ins::LocalGet(0))
        .push(Ins::Call(drive))
        .push(Ins::Drop)
        .push(Ins::LocalGet(1))
        .push(Ins::I32Eqz)
        .push(Ins::If(BlockTy::Empty))
        .push(Ins::Else)
        .push(Ins::LocalGet(1))
        .push(Ins::LocalGet(0))
        .push(Ins::I32Load(spec_ma(H_RESULT)))
        .push(Ins::LocalGet(0))
        .push(Ins::I32Load(spec_ma(H_RSIZE)))
        .push(Ins::MemoryCopy { src_mem: 0, dst_mem: 0 })
        .push(Ins::End)
        .push(Ins::LocalGet(0))
        .push(Ins::Call(handle_drop))
        .push(Ins::I32Const(1))
        .push(Ins::End)
}

/// `(handle, out) -> i32`: blocking await outside a poll body.
pub(crate) fn future_await_body(handle_drop: u32, drive: u32) -> (body: Body)
    ensures
        body.code@ == future_await_body_code(handle_drop, drive),
        body.locals@ == Seq::<(u32, ValTy)>::empty(),
        body.valid(),
        body.params == 2,
{
    proof {
        reveal(future_await_body_code);
    }
    let mut f = Builder::new(2);
    f.push(Ins::LocalGet(0));
    f.push(Ins::Call(drive));
    f.push(Ins::Drop);
    f.push(Ins::LocalGet(1));
    f.push(Ins::I32Eqz);
    f.push(Ins::If(BlockTy::Empty));
    f.push(Ins::Else);
    f.push(Ins::LocalGet(1));
    f.push(Ins::LocalGet(0));
    f.push(Ins::I32Load(ma(H_RESULT)));
    f.push(Ins::LocalGet(0));
    f.push(Ins::I32Load(ma(H_RSIZE)));
    f.push(Ins::MemoryCopy {
        src_mem: 0,
        dst_mem: 0,
    });
    f.push(Ins::End);
    f.push(Ins::LocalGet(0));
    f.push(Ins::Call(handle_drop));
    f.push(Ins::I32Const(1));
    f.push(Ins::End);
    f.finish()
}

/// The code that `executor_run_body` emits.
#[verifier::opaque]
pub open spec fn executor_run_body_code(drive: u32) -> Seq<Ins> {
    let c = Seq::<Ins>::empty();
    c
        .push(Ins::LocalGet(0))
        .push(Ins::Call(drive))
        .push(Ins::End)
}

/// `(root) -> i32`: drive the root task to completion.
pub(crate) fn executor_run_body(drive: u32) -> (body: Body)
    ensures
        body.code@ == executor_run_body_code(drive),
        body.locals@ == Seq::<(u32, ValTy)>::empty(),
        body.valid(),
        body.params == 1,
{
    proof {
        reveal(executor_run_body_code);
    }
    let mut f = Builder::new(1);
    f.push(Ins::LocalGet(0));
    f.push(Ins::Call(drive));
    f.push(Ins::End);
    f.finish()
}

/// The code that `poll_body` emits.
#[verifier::opaque]
pub open spec fn poll_body_code(poll_type: u32, current: u32) -> Seq<Ins> {
    let c = Seq::<Ins>::empty();
    c
        .push(Ins::LocalGet(0))
        .push(Ins::GlobalSet(current))
        .push(Ins::LocalGet(0))
        .push(Ins::I32Load(spec_ma(H_FRAME)))
        .push(Ins::LocalGet(0))
        .push(Ins::I32Load(spec_ma(H_RESULT)))
        .push(Ins::LocalGet(0))
        .push(Ins::I32Load(spec_ma(H_POLL)))
        .push(Ins::CallIndirect { type_index: poll_type, table_index: 0 })
        .push(Ins::End)
}

/// `(handle) -> i32`: poll the handle's state machine once.
pub(crate) fn poll_body(poll_type: u32, current: u32) -> (body: Body)
    ensures
        body.code@ == poll_body_code(poll_type, current),
        body.locals@ == Seq::<(u32, ValTy)>::empty(),
        body.valid(),
        body.params == 1,
{
    proof {
        reveal(poll_body_code);
    }
    let mut f = Builder::new(1);
    f.push(Ins::LocalGet(0));
    f.push(Ins::GlobalSet(current));
    f.push(Ins::LocalGet(0));
    f.push(Ins::I32Load(ma(H_FRAME)));
    f.push(Ins::LocalGet(0));
    f.push(Ins::I32Load(ma(H_RESULT)));
    f.push(Ins::LocalGet(0));
    f.push(Ins::I32Load(ma(H_POLL)));
    f.push(Ins::CallIndirect {
        type_index: poll_type,
        table_index: 0,
    });
    f.push(Ins::End);
    f.finish()
}

/// The code that `drive_body` emits.
#[verifier::opaque]
pub open spec fn drive_body_code(poll: u32, drive: u32) -> Seq<Ins> {
    let c = Seq::<Ins>::empty();
    c
        .push(Ins::Block(BlockTy::Empty))
        .push(Ins::Loop(BlockTy::Empty))
        .push(Ins::LocalGet(0))
        .push(Ins::Call(poll))
        .push(Ins::LocalSet(1))
        .push(Ins::LocalGet(1))
        .push(Ins::I32Const(STATE_READY))
        .push(Ins::I32Eq)
        .push(Ins::If(BlockTy::Empty))
        .push(Ins::LocalGet(0))
        .push(Ins::I32Const(STATE_READY))
        .push(Ins::I32Store(spec_ma(H_STATE)))
        .push(Ins::I32Const(1))
        .push(Ins::Return)
        .push(Ins::End)
        .push(Ins::LocalGet(0))
        .push(Ins::I32Load(spec_ma(H_WAITING)))
        .push(Ins::LocalSet(2))
        .push(Ins::LocalGet(2))
        .push(Ins::I32Eqz)
        .push(Ins::BrIf(1))
        .push(Ins::LocalGet(0))
        .push(Ins::I32Const(0))
        .push(Ins::I32Store(spec_ma(H_WAITING)))
        .push(Ins::LocalGet(2))
        .push(Ins::Call(drive))
        .push(Ins::Drop)
        .push(Ins::Br(0))
        .push(Ins::End)
        .push(Ins::End)
        .push(Ins::I32Const(0))
        .push(Ins::End)
}

/// `(handle) -> i32`: poll, and on suspension recurse into the awaited child
/// before re-polling. `1` when the handle completed, `0` if it cannot progress.
pub(crate) fn drive_body(poll: u32, drive: u32) -> (body: Body)
    ensures
        body.code@ == drive_body_code(poll, drive),
        body.locals@ == seq![(2u32, ValTy::I32)],
        body.valid(),
        body.params == 1,
{
    proof {
        reveal(drive_body_code);
    }
    let mut f = Builder::new(1);
    f.declare(2, ValTy::I32);
    f.push(Ins::Block(BlockTy::Empty));
    f.push(Ins::Loop(BlockTy::Empty));
    f.push(Ins::LocalGet(0));
    f.push(Ins::Call(poll));
    f.push(Ins::LocalSet(1));
    f.push(Ins::LocalGet(1));
    f.push(Ins::I32Const(STATE_READY));
    f.push(Ins::I32Eq);
    f.push(Ins::If(BlockTy::Empty));
    f.push(Ins::LocalGet(0));
    f.push(Ins::I32Const(STATE_READY));
    f.push(Ins::I32Store(ma(H_STATE)));
    f.push(Ins::I32Const(1));
    f.push(Ins::Return);
    f.push(Ins::End);
    f.push(Ins::LocalGet(0));
    f.push(Ins::I32Load(ma(H_WAITING)));
    f.push(Ins::LocalSet(2));
    f.push(Ins::LocalGet(2));
    f.push(Ins::I32Eqz);
    f.push(Ins::BrIf(1));
    f.push(Ins::LocalGet(0));
    f.push(Ins::I32Const(0));
    f.push(Ins::I32Store(ma(H_WAITING)));
    f.push(Ins::LocalGet(2));
    f.push(Ins::Call(drive));
    f.push(Ins::Drop);
    f.push(Ins::Br(0));
    f.push(Ins::End);
    f.push(Ins::End);
    f.push(Ins::I32Const(0));
    f.push(Ins::End);
    assert(f.locals() =~= seq![(2u32, ValTy::I32)]);
    f.finish()
}

/// The locals and code of each async helper, wired to its indices, in offset order.
pub open spec fn async_body_views(base: u32, alloc: u32, poll_type: u32, drop_type: u32, current: u32) -> Seq<(Seq<(u32, ValTy)>, Seq<Ins>)> {
    let poll = crate::wasm::rt_index::wired(base, POLL);
    let drive = crate::wasm::rt_index::wired(base, DRIVE);
    let handle_drop = crate::wasm::rt_index::wired(base, HANDLE_DROP);
    seq![
        (seq![(2u32, ValTy::I32)], frame_alloc_body_code((alloc))),
        (Seq::<(u32, ValTy)>::empty(), frame_free_body_code()),
        (seq![(2u32, ValTy::I32)], handle_new_body_code((alloc))),
        (Seq::<(u32, ValTy)>::empty(), handle_drop_body_code((drop_type))),
        (seq![(1u32, ValTy::I32)], await_child_body_code((handle_drop), (current))),
        (Seq::<(u32, ValTy)>::empty(), future_await_body_code((handle_drop), (drive))),
        (Seq::<(u32, ValTy)>::empty(), executor_run_body_code((drive))),
        (Seq::<(u32, ValTy)>::empty(), poll_body_code((poll_type), (current))),
        (seq![(2u32, ValTy::I32)], drive_body_code((poll), (drive))),
    ]
}

/// Emits the async helper bodies. `alloc` allocates linear memory; `poll_type`
/// and `drop_type` are the `call_indirect` type indices of `(frame,out)->i32`
/// and `(frame)->()`; `current` is a mutable global holding the active handle.
pub fn bodies(base: u32, alloc: u32, poll_type: u32, drop_type: u32, current: u32) -> (bodies: Vec<Body>)
    requires
        base + COUNT <= u32::MAX,
    ensures
        body_views(bodies@) == async_body_views(base, alloc, poll_type, drop_type, current),
        bodies_fit(bodies@, async_signatures()),
{
    let poll = base + POLL;
    let drive = base + DRIVE;
    let handle_drop = base + HANDLE_DROP;
    let bodies = vec![
        frame_alloc_body(alloc),
        frame_free_body(),
        handle_new_body(alloc),
        handle_drop_body(handle_drop, drop_type),
        await_child_body(handle_drop, current),
        future_await_body(handle_drop, drive),
        executor_run_body(drive),
        poll_body(poll_type, current),
        drive_body(poll, drive),
    ];
    assert(bodies_fit(bodies@, async_signatures()));
    assert(body_views(bodies@) =~= async_body_views(base, alloc, poll_type, drop_type, current));
    bodies
}

/// `(frame, out) -> i32`: poll entry for an async body with no suspension
/// points, so it has no state machine of its own. Calls the body once, stores
/// its result (if any) at `out`, and reports completion.
pub fn resume_thunk(body: u32, result: Option<ValTy>) -> (thunk: Body)
    ensures
        thunk.valid(),
        thunk.params == 2,
        thunk.locals@ == (match result {
            Some(ty) => seq![(1u32, ty)],
            None => Seq::<(u32, ValTy)>::empty(),
        }),
{
    let mut f = Builder::new(2);
    if let Some(ty) = result {
        f.declare(1, ty);
    }
    f.push(Ins::LocalGet(0));
    f.push(Ins::Call(body));
    if let Some(ty) = result {
        f.push(Ins::LocalSet(2));
        f.push(Ins::LocalGet(1));
        f.push(Ins::LocalGet(2));
        match ty {
            ValTy::I64 => f.push(Ins::I64Store(m(0))),
            ValTy::F32 => f.push(Ins::F32Store(m(0))),
            ValTy::F64 => f.push(Ins::F64Store(m(0))),
            ValTy::I32 => f.push(Ins::I32Store(m(0))),
        };
    }
    f.push(Ins::I32Const(1));
    f.push(Ins::End);
    proof {
        if result is Some {
            assert(f.locals() =~= seq![(1u32, result->0)]);
        }
    }
    f.finish()
}

} // verus!
