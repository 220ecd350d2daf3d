//! `list` runtime helpers for the wasm backend.
//!
//! A list handle points at `[len: i32][cap: i32][elem_kind: i32][data: i32]`
//! (16-byte payload) after the shared eight-byte reference-count prefix. Elements
//! occupy eight-byte slots.
use vstd::prelude::*;
use crate::wasm::builder::{body_views, bodies_fit, signature_views, Body, Builder};
use crate::wasm::model::{m, BlockTy, Ins, ValTy};
use crate::wasm::rc::{KIND_BYTES, KIND_FLOAT, KIND_STRING};
use crate::wasm::rt_index as rt;

verus! {


/// Signatures of the `list` helpers, in offset order.
pub open spec fn list_signatures() -> Seq<(Seq<ValTy>, Seq<ValTy>)> {
    seq![
        (seq![ValTy::I32, ValTy::I32], Seq::<ValTy>::empty()),
        (seq![ValTy::I32], seq![ValTy::I32]),
        (seq![ValTy::I32, ValTy::I32], Seq::<ValTy>::empty()),
        (seq![ValTy::I32, ValTy::I32], Seq::<ValTy>::empty()),
        (seq![ValTy::I32, ValTy::I32, ValTy::I32], Seq::<ValTy>::empty()),
        (seq![ValTy::I32], Seq::<ValTy>::empty()),
        (seq![ValTy::I32], Seq::<ValTy>::empty()),
        (seq![ValTy::I32], seq![ValTy::I64]),
        (seq![ValTy::I32], seq![ValTy::I64]),
        (seq![ValTy::I32, ValTy::I32, ValTy::I64], Seq::<ValTy>::empty()),
        (seq![ValTy::I32, ValTy::I32], seq![ValTy::I64]),
        (seq![ValTy::I32, ValTy::I32], Seq::<ValTy>::empty()),
        (seq![ValTy::I32, ValTy::I32, ValTy::I32], seq![ValTy::I32]),
        (seq![ValTy::I32, ValTy::I64], seq![ValTy::I32]),
        (seq![ValTy::I32, ValTy::I64], seq![ValTy::I64]),
        (seq![ValTy::I32, ValTy::I64, ValTy::I32], seq![ValTy::I32]),
        (seq![ValTy::I32, ValTy::I32], seq![ValTy::I32]),
    ]
}

/// Signatures of the `list` helpers, in offset order.
pub fn signatures() -> (sigs: Vec<(Vec<ValTy>, Vec<ValTy>)>)
    ensures
        signature_views(sigs@) == list_signatures(),
{
    let sigs = vec![
        (vec![ValTy::I32, ValTy::I32], vec![]),
        (vec![ValTy::I32], vec![ValTy::I32]),
        (vec![ValTy::I32, ValTy::I32], vec![]),
        (vec![ValTy::I32, ValTy::I32], vec![]),
        (vec![ValTy::I32, ValTy::I32, ValTy::I32], vec![]),
        (vec![ValTy::I32], vec![]),
        (vec![ValTy::I32], vec![]),
        (vec![ValTy::I32], vec![ValTy::I64]),
        (vec![ValTy::I32], vec![ValTy::I64]),
        (vec![ValTy::I32, ValTy::I32, ValTy::I64], vec![]),
        (vec![ValTy::I32, ValTy::I32], vec![ValTy::I64]),
        (vec![ValTy::I32, ValTy::I32], vec![]),
        (vec![ValTy::I32, ValTy::I32, ValTy::I32], vec![ValTy::I32]),
        (vec![ValTy::I32, ValTy::I64], vec![ValTy::I32]),
        (vec![ValTy::I32, ValTy::I64], vec![ValTy::I64]),
        (vec![ValTy::I32, ValTy::I64, ValTy::I32], vec![ValTy::I32]),
        (vec![ValTy::I32, ValTy::I32], vec![ValTy::I32]),
    ];
    assert(signature_views(sigs@) =~~= list_signatures());
    sigs
}

/// The locals and code of each list helper, wired to the runtime at `base`, in offset order.
pub open spec fn list_body_views(base: u32) -> Seq<(Seq<(u32, ValTy)>, Seq<Ins>)> {
    let alloc = rt::wired(base, rt::ALLOC);
    let rc_new = rt::wired(base, rt::RC_NEW);
    let elem_retain = rt::wired(base, rt::ELEM_RETAIN);
    let ensure = rt::wired(base, rt::LS_ENSURE);
    let elem_eq = rt::wired(base, rt::LS_ELEM_EQ);
    let str_eq = rt::wired(base, rt::STR_EQ);
    let bt_cmp = rt::wired(base, rt::BT_CMP);
    seq![
        (seq![(4u32, ValTy::I32)], ensure_body_code((alloc))),
        (Seq::<(u32, ValTy)>::empty(), capacity_body_code()),
        (seq![(2u32, ValTy::I32)], reserve_body_code((alloc))),
        (Seq::<(u32, ValTy)>::empty(), truncate_body_code()),
        (seq![(1u32, ValTy::I64)], swap_body_code()),
        (seq![(2u32, ValTy::I32)], reverse_body_code()),
        (seq![(2u32, ValTy::I32)], shrink_body_code((alloc))),
        (Seq::<(u32, ValTy)>::empty(), first_body_code()),
        (Seq::<(u32, ValTy)>::empty(), last_body_code()),
        (seq![(2u32, ValTy::I32)], insert_body_code((ensure))),
        (seq![(1u32, ValTy::I32), (1u32, ValTy::I64), (1u32, ValTy::I32)], remove_body_code()),
        (seq![(4u32, ValTy::I32)], extend_body_code((ensure), (elem_retain))),
        (seq![(5u32, ValTy::I32)], slice_body_code((rc_new), (alloc), (elem_retain))),
        (seq![(3u32, ValTy::I32)], contains_body_code((elem_eq))),
        (seq![(3u32, ValTy::I32)], find_body_code((elem_eq))),
        (Seq::<(u32, ValTy)>::empty(), elem_eq_body_code((str_eq), (bt_cmp))),
        (seq![(8u32, ValTy::I32)], join_body_code((rc_new))),
    ]
}

/// The `list` helper bodies, in offset order.
pub fn bodies(base: u32) -> (bodies: Vec<Body>)
    requires
        base + rt::COUNT <= u32::MAX,
    ensures
        body_views(bodies@) == list_body_views(base),
        bodies_fit(bodies@, list_signatures()),
{
    let alloc = base + rt::ALLOC;
    let rc_new = base + rt::RC_NEW;
    let elem_retain = base + rt::ELEM_RETAIN;
    let ensure = base + rt::LS_ENSURE;
    let elem_eq = base + rt::LS_ELEM_EQ;
    let str_eq = base + rt::STR_EQ;
    let bt_cmp = base + rt::BT_CMP;
    let bodies = vec![
        ensure_body(alloc),
        capacity_body(),
        reserve_body(alloc),
        truncate_body(),
        swap_body(),
        reverse_body(),
        shrink_body(alloc),
        first_body(),
        last_body(),
        insert_body(ensure),
        remove_body(),
        extend_body(ensure, elem_retain),
        slice_body(rc_new, alloc, elem_retain),
        contains_body(elem_eq),
        find_body(elem_eq),
        elem_eq_body(str_eq, bt_cmp),
        join_body(rc_new),
    ];
    assert(bodies_fit(bodies@, list_signatures()));
    assert(body_views(bodies@) =~= list_body_views(base));
    bodies
}

/// The code that `ensure_body` emits.
#[verifier::opaque]
pub open spec fn ensure_body_code(alloc: u32) -> Seq<Ins> {
    let c = Seq::<Ins>::empty();
    c
        .push(Ins::LocalGet(0))
        .push(Ins::I32Load(m(4)))
        .push(Ins::LocalSet(2))
        .push(Ins::LocalGet(2))
        .push(Ins::LocalGet(1))
        .push(Ins::I32GeU)
        .push(Ins::If(BlockTy::Empty))
        .push(Ins::Return)
        .push(Ins::End)
        .push(Ins::LocalGet(0))
        .push(Ins::I32Load(m(0)))
        .push(Ins::LocalSet(3))
        .push(Ins::LocalGet(2))
        .push(Ins::I32Eqz)
        .push(Ins::If(BlockTy::Result(ValTy::I32)))
        .push(Ins::I32Const(4))
        .push(Ins::Else)
        .push(Ins::LocalGet(2))
        .push(Ins::I32Const(2))
        .push(Ins::I32Mul)
        .push(Ins::End)
        .push(Ins::LocalSet(4))
        .push(Ins::Block(BlockTy::Empty))
        .push(Ins::Loop(BlockTy::Empty))
        .push(Ins::LocalGet(4))
        .push(Ins::LocalGet(1))
        .push(Ins::I32GeU)
        .push(Ins::BrIf(1))
        .push(Ins::LocalGet(4))
        .push(Ins::I32Const(2))
        .push(Ins::I32Mul)
        .push(Ins::LocalSet(4))
        .push(Ins::Br(0))
        .push(Ins::End)
        .push(Ins::End)
        .push(Ins::LocalGet(4))
        .push(Ins::I32Const(8))
        .push(Ins::I32Mul)
        .push(Ins::Call(alloc))
        .push(Ins::LocalSet(5))
        .push(Ins::LocalGet(5))
        .push(Ins::LocalGet(0))
        .push(Ins::I32Load(m(12)))
        .push(Ins::LocalGet(3))
        .push(Ins::I32Const(8))
        .push(Ins::I32Mul)
        .push(Ins::MemoryCopy { src_mem: 0, dst_mem: 0 })
        .push(Ins::LocalGet(0))
        .push(Ins::LocalGet(4))
        .push(Ins::I32Store(m(4)))
        .push(Ins::LocalGet(0))
        .push(Ins::LocalGet(5))
        .push(Ins::I32Store(m(12)))
        .push(Ins::End)
}

pub(crate) fn ensure_body(alloc: u32) -> (body: Body)
    ensures
        body.code@ == ensure_body_code(alloc),
        body.locals@ == seq![(4u32, ValTy::I32)],
        body.valid(),
        body.params == 2,
{
    proof {
        reveal(ensure_body_code);
    }
    // locals: 2 = cap, 3 = len, 4 = new_cap, 5 = new_data.
    let mut f = Builder::new(2);
    f.declare(4, ValTy::I32);
    f.push(Ins::LocalGet(0));
    f.push(Ins::I32Load(m(4)));
    f.push(Ins::LocalSet(2));
    f.push(Ins::LocalGet(2));
    f.push(Ins::LocalGet(1));
    f.push(Ins::I32GeU);
    f.push(Ins::If(BlockTy::Empty));
    f.push(Ins::Return);
    f.push(Ins::End);
    f.push(Ins::LocalGet(0));
    f.push(Ins::I32Load(m(0)));
    f.push(Ins::LocalSet(3));
    f.push(Ins::LocalGet(2));
    f.push(Ins::I32Eqz);
    f.push(Ins::If(BlockTy::Result(ValTy::I32)));
    f.push(Ins::I32Const(4));
    f.push(Ins::Else);
    f.push(Ins::LocalGet(2));
    f.push(Ins::I32Const(2));
    f.push(Ins::I32Mul);
    f.push(Ins::End);
    f.push(Ins::LocalSet(4));
    f.push(Ins::Block(BlockTy::Empty));
    f.push(Ins::Loop(BlockTy::Empty));
    f.push(Ins::LocalGet(4));
    f.push(Ins::LocalGet(1));
    f.push(Ins::I32GeU);
    f.push(Ins::BrIf(1));
    f.push(Ins::LocalGet(4));
    f.push(Ins::I32Const(2));
    f.push(Ins::I32Mul);
    f.push(Ins::LocalSet(4));
    f.push(Ins::Br(0));
    f.push(Ins::End);
    f.push(Ins::End);
    f.push(Ins::LocalGet(4));
    f.push(Ins::I32Const(8));
    f.push(Ins::I32Mul);
    f.push(Ins::Call(alloc));
    f.push(Ins::LocalSet(5));
    f.push(Ins::LocalGet(5));
    f.push(Ins::LocalGet(0));
    f.push(Ins::I32Load(m(12)));
    f.push(Ins::LocalGet(3));
    f.push(Ins::I32Const(8));
    f.push(Ins::I32Mul);
    f.push(Ins::MemoryCopy {
        src_mem: 0,
        dst_mem: 0,
    });
    f.push(Ins::LocalGet(0));
    f.push(Ins::LocalGet(4));
    f.push(Ins::I32Store(m(4)));
    f.push(Ins::LocalGet(0));
    f.push(Ins::LocalGet(5));
    f.push(Ins::I32Store(m(12)));
    f.push(Ins::End);
    assert(f.locals() =~= seq![(4u32, ValTy::I32)]);
    f.finish()
}

/// The code that `capacity_body` emits.
#[verifier::opaque]
pub open spec fn capacity_body_code() -> Seq<Ins> {
    let c = Seq::<Ins>::empty();
    c
        .push(Ins::LocalGet(0))
        .push(Ins::I32Load(m(4)))
        .push(Ins::End)
}

pub(crate) fn capacity_body() -> (body: Body)
    ensures
        body.code@ == capacity_body_code(),
        body.locals@ == Seq::<(u32, ValTy)>::empty(),
        body.valid(),
        body.params == 1,
{
    proof {
        reveal(capacity_body_code);
    }
    let mut f = Builder::new(1);
    f.push(Ins::LocalGet(0));
    f.push(Ins::I32Load(m(4)));
    f.push(Ins::End);
    f.finish()
}

/// The code that `reserve_body` emits.
#[verifier::opaque]
pub open spec fn reserve_body_code(alloc: u32) -> Seq<Ins> {
    let c = Seq::<Ins>::empty();
    c
        .push(Ins::LocalGet(1))
        .push(Ins::LocalGet(0))
        .push(Ins::I32Load(m(4)))
        .push(Ins::I32LeU)
        .push(Ins::If(BlockTy::Empty))
        .push(Ins::Return)
        .push(Ins::End)
        .push(Ins::LocalGet(0))
        .push(Ins::I32Load(m(0)))
        .push(Ins::LocalSet(2))
        .push(Ins::LocalGet(1))
        .push(Ins::I32Const(8))
        .push(Ins::I32Mul)
        .push(Ins::Call(alloc))
        .push(Ins::LocalSet(3))
        .push(Ins::LocalGet(3))
        .push(Ins::LocalGet(0))
        .push(Ins::I32Load(m(12)))
        .push(Ins::LocalGet(2))
        .push(Ins::I32Const(8))
        .push(Ins::I32Mul)
        .push(Ins::MemoryCopy { src_mem: 0, dst_mem: 0 })
        .push(Ins::LocalGet(0))
        .push(Ins::LocalGet(1))
        .push(Ins::I32Store(m(4)))
        .push(Ins::LocalGet(0))
        .push(Ins::LocalGet(3))
        .push(Ins::I32Store(m(12)))
        .push(Ins::End)
}

/// `(h, n) -> ()`: grow so capacity is at least `n` (exact, matching native).
pub(crate) fn reserve_body(alloc: u32) -> (body: Body)
    ensures
        body.code@ == reserve_body_code(alloc),
        body.locals@ == seq![(2u32, ValTy::I32)],
        body.valid(),
        body.params == 2,
{
    proof {
        reveal(reserve_body_code);
    }
    // locals: 2 = len, 3 = new_data.
    let mut f = Builder::new(2);
    f.declare(2, ValTy::I32);
    f.push(Ins::LocalGet(1));
    f.push(Ins::LocalGet(0));
    f.push(Ins::I32Load(m(4)));
    f.push(Ins::I32LeU);
    f.push(Ins::If(BlockTy::Empty));
    f.push(Ins::Return);
    f.push(Ins::End);
    f.push(Ins::LocalGet(0));
    f.push(Ins::I32Load(m(0)));
    f.push(Ins::LocalSet(2));
    f.push(Ins::LocalGet(1));
    f.push(Ins::I32Const(8));
    f.push(Ins::I32Mul);
    f.push(Ins::Call(alloc));
    f.push(Ins::LocalSet(3));
    f.push(Ins::LocalGet(3));
    f.push(Ins::LocalGet(0));
    f.push(Ins::I32Load(m(12)));
    f.push(Ins::LocalGet(2));
    f.push(Ins::I32Const(8));
    f.push(Ins::I32Mul);
    f.push(Ins::MemoryCopy {
        src_mem: 0,
        dst_mem: 0,
    });
    f.push(Ins::LocalGet(0));
    f.push(Ins::LocalGet(1));
    f.push(Ins::I32Store(m(4)));
    f.push(Ins::LocalGet(0));
    f.push(Ins::LocalGet(3));
    f.push(Ins::I32Store(m(12)));
    f.push(Ins::End);
    assert(f.locals() =~= seq![(2u32, ValTy::I32)]);
    f.finish()
}

/// The code that `truncate_body` emits.
#[verifier::opaque]
pub open spec fn truncate_body_code() -> Seq<Ins> {
    let c = Seq::<Ins>::empty();
    c
        .push(Ins::LocalGet(1))
        .push(Ins::LocalGet(0))
        .push(Ins::I32Load(m(0)))
        .push(Ins::I32LtU)
        .push(Ins::If(BlockTy::Empty))
        .push(Ins::LocalGet(0))
        .push(Ins::LocalGet(1))
        .push(Ins::I32Store(m(0)))
        .push(Ins::End)
        .push(Ins::End)
}

pub(crate) fn truncate_body() -> (body: Body)
    ensures
        body.code@ == truncate_body_code(),
        body.locals@ == Seq::<(u32, ValTy)>::empty(),
        body.valid(),
        body.params == 2,
{
    proof {
        reveal(truncate_body_code);
    }
    let mut f = Builder::new(2);
    f.push(Ins::LocalGet(1));
    f.push(Ins::LocalGet(0));
    f.push(Ins::I32Load(m(0)));
    f.push(Ins::I32LtU);
    f.push(Ins::If(BlockTy::Empty));
    f.push(Ins::LocalGet(0));
    f.push(Ins::LocalGet(1));
    f.push(Ins::I32Store(m(0)));
    f.push(Ins::End);
    f.push(Ins::End);
    f.finish()
}

/// The code that `swap_body` emits.
#[verifier::opaque]
pub open spec fn swap_body_code() -> Seq<Ins> {
    let c = Seq::<Ins>::empty();
    c
        .push(Ins::LocalGet(1))
        .push(Ins::LocalGet(0))
        .push(Ins::I32Load(m(0)))
        .push(Ins::I32GeU)
        .push(Ins::LocalGet(2))
        .push(Ins::LocalGet(0))
        .push(Ins::I32Load(m(0)))
        .push(Ins::I32GeU)
        .push(Ins::I32Or)
        .push(Ins::If(BlockTy::Empty))
        .push(Ins::Unreachable)
        .push(Ins::End)
        .push(Ins::LocalGet(0))
        .push(Ins::I32Load(m(12)))
        .push(Ins::LocalGet(1))
        .push(Ins::I32Const(8))
        .push(Ins::I32Mul)
        .push(Ins::I32Add)
        .push(Ins::I64Load(m(0)))
        .push(Ins::LocalSet(3))
        .push(Ins::LocalGet(0))
        .push(Ins::I32Load(m(12)))
        .push(Ins::LocalGet(1))
        .push(Ins::I32Const(8))
        .push(Ins::I32Mul)
        .push(Ins::I32Add)
        .push(Ins::LocalGet(0))
        .push(Ins::I32Load(m(12)))
        .push(Ins::LocalGet(2))
        .push(Ins::I32Const(8))
        .push(Ins::I32Mul)
        .push(Ins::I32Add)
        .push(Ins::I64Load(m(0)))
        .push(Ins::I64Store(m(0)))
        .push(Ins::LocalGet(0))
        .push(Ins::I32Load(m(12)))
        .push(Ins::LocalGet(2))
        .push(Ins::I32Const(8))
        .push(Ins::I32Mul)
        .push(Ins::I32Add)
        .push(Ins::LocalGet(3))
        .push(Ins::I64Store(m(0)))
        .push(Ins::End)
}

/// `(h, i, j) -> ()`: swap two 8-byte slots (bounds-checked).
pub(crate) fn swap_body() -> (body: Body)
    ensures
        body.code@ == swap_body_code(),
        body.locals@ == seq![(1u32, ValTy::I64)],
        body.valid(),
        body.params == 3,
{
    proof {
        reveal(swap_body_code);
    }
    // locals: 3 = tmp (i64).
    let mut f = Builder::new(3);
    f.declare(1, ValTy::I64);
    f.push(Ins::LocalGet(1));
    f.push(Ins::LocalGet(0));
    f.push(Ins::I32Load(m(0)));
    f.push(Ins::I32GeU);
    f.push(Ins::LocalGet(2));
    f.push(Ins::LocalGet(0));
    f.push(Ins::I32Load(m(0)));
    f.push(Ins::I32GeU);
    f.push(Ins::I32Or);
    f.push(Ins::If(BlockTy::Empty));
    f.push(Ins::Unreachable);
    f.push(Ins::End);
    f.push(Ins::LocalGet(0));
    f.push(Ins::I32Load(m(12)));
    f.push(Ins::LocalGet(1));
    f.push(Ins::I32Const(8));
    f.push(Ins::I32Mul);
    f.push(Ins::I32Add);
    f.push(Ins::I64Load(m(0)));
    f.push(Ins::LocalSet(3));
    // a[i] = a[j]
    f.push(Ins::LocalGet(0));
    f.push(Ins::I32Load(m(12)));
    f.push(Ins::LocalGet(1));
    f.push(Ins::I32Const(8));
    f.push(Ins::I32Mul);
    f.push(Ins::I32Add);
    f.push(Ins::LocalGet(0));
    f.push(Ins::I32Load(m(12)));
    f.push(Ins::LocalGet(2));
    f.push(Ins::I32Const(8));
    f.push(Ins::I32Mul);
    f.push(Ins::I32Add);
    f.push(Ins::I64Load(m(0)));
    f.push(Ins::I64Store(m(0)));
    // a[j] = tmp
    f.push(Ins::LocalGet(0));
    f.push(Ins::I32Load(m(12)));
    f.push(Ins::LocalGet(2));
    f.push(Ins::I32Const(8));
    f.push(Ins::I32Mul);
    f.push(Ins::I32Add);
    f.push(Ins::LocalGet(3));
    f.push(Ins::I64Store(m(0)));
    f.push(Ins::End);
    assert(f.locals() =~= seq![(1u32, ValTy::I64)]);
    f.finish()
}

/// The code that `reverse_body` emits.
#[verifier::opaque]
pub open spec fn reverse_body_code() -> Seq<Ins> {
    let c = Seq::<Ins>::empty();
    c
        .push(Ins::I32Const(0))
        .push(Ins::LocalSet(1))
        .push(Ins::LocalGet(0))
        .push(Ins::I32Load(m(0)))
        .push(Ins::I32Const(1))
        .push(Ins::I32Sub)
        .push(Ins::LocalSet(2))
        .push(Ins::Block(BlockTy::Empty))
        .push(Ins::Loop(BlockTy::Empty))
        .push(Ins::LocalGet(1))
        .push(Ins::LocalGet(2))
        .push(Ins::I32GeU)
        .push(Ins::BrIf(1))
        .push(Ins::LocalGet(0))
        .push(Ins::I32Load(m(12)))
        .push(Ins::LocalGet(1))
        .push(Ins::I32Const(8))
        .push(Ins::I32Mul)
        .push(Ins::I32Add)
        .push(Ins::LocalGet(0))
        .push(Ins::I32Load(m(12)))
        .push(Ins::LocalGet(2))
        .push(Ins::I32Const(8))
        .push(Ins::I32Mul)
        .push(Ins::I32Add)
        .push(Ins::I64Load(m(0)))
        .push(Ins::I64Store(m(0)))
        .push(Ins::LocalGet(0))
        .push(Ins::I32Load(m(12)))
        .push(Ins::LocalGet(2))
        .push(Ins::I32Const(8))
        .push(Ins::I32Mul)
        .push(Ins::I32Add)
        .push(Ins::LocalGet(0))
        .push(Ins::I32Load(m(12)))
        .push(Ins::LocalGet(1))
        .push(Ins::I32Const(8))
        .push(Ins::I32Mul)
        .push(Ins::I32Add)
        .push(Ins::I64Load(m(0)))
        .push(Ins::I64Store(m(0)))
        .push(Ins::LocalGet(1))
        .push(Ins::I32Const(1))
        .push(Ins::I32Add)
        .push(Ins::LocalSet(1))
        .push(Ins::LocalGet(2))
        .push(Ins::I32Const(1))
        .push(Ins::I32Sub)
        .push(Ins::LocalSet(2))
        .push(Ins::Br(0))
        .push(Ins::End)
        .push(Ins::End)
        .push(Ins::End)
}

pub(crate) fn reverse_body() -> (body: Body)
    ensures
        body.code@ == reverse_body_code(),
        body.locals@ == seq![(2u32, ValTy::I32)],
        body.valid(),
        body.params == 1,
{
    proof {
        reveal(reverse_body_code);
    }
    // locals: 1 = i, 2 = j.
    let mut f = Builder::new(1);
    f.declare(2, ValTy::I32);
    f.push(Ins::I32Const(0));
    f.push(Ins::LocalSet(1));
    f.push(Ins::LocalGet(0));
    f.push(Ins::I32Load(m(0)));
    f.push(Ins::I32Const(1));
    f.push(Ins::I32Sub);
    f.push(Ins::LocalSet(2));
    f.push(Ins::Block(BlockTy::Empty));
    f.push(Ins::Loop(BlockTy::Empty));
    f.push(Ins::LocalGet(1));
    f.push(Ins::LocalGet(2));
    f.push(Ins::I32GeU);
    f.push(Ins::BrIf(1));
    // swap slots i and j inline
    f.push(Ins::LocalGet(0));
    f.push(Ins::I32Load(m(12)));
    f.push(Ins::LocalGet(1));
    f.push(Ins::I32Const(8));
    f.push(Ins::I32Mul);
    f.push(Ins::I32Add);
    f.push(Ins::LocalGet(0));
    f.push(Ins::I32Load(m(12)));
    f.push(Ins::LocalGet(2));
    f.push(Ins::I32Const(8));
    f.push(Ins::I32Mul);
    f.push(Ins::I32Add);
    f.push(Ins::I64Load(m(0)));
    f.push(Ins::I64Store(m(0)));
    // load i into scratch local 3? reuse: recompute
    f.push(Ins::LocalGet(0));
    f.push(Ins::I32Load(m(12)));
    f.push(Ins::LocalGet(2));
    f.push(Ins::I32Const(8));
    f.push(Ins::I32Mul);
    f.push(Ins::I32Add);
    f.push(Ins::LocalGet(0));
    f.push(Ins::I32Load(m(12)));
    f.push(Ins::LocalGet(1));
    f.push(Ins::I32Const(8));
    f.push(Ins::I32Mul);
    f.push(Ins::I32Add);
    f.push(Ins::I64Load(m(0)));
    f.push(Ins::I64Store(m(0)));
    f.push(Ins::LocalGet(1));
    f.push(Ins::I32Const(1));
    f.push(Ins::I32Add);
    f.push(Ins::LocalSet(1));
    f.push(Ins::LocalGet(2));
    f.push(Ins::I32Const(1));
    f.push(Ins::I32Sub);
    f.push(Ins::LocalSet(2));
    f.push(Ins::Br(0));
    f.push(Ins::End);
    f.push(Ins::End);
    f.push(Ins::End);
    assert(f.locals() =~= seq![(2u32, ValTy::I32)]);
    f.finish()
}

/// The code that `shrink_body` emits.
#[verifier::opaque]
pub open spec fn shrink_body_code(alloc: u32) -> Seq<Ins> {
    let c = Seq::<Ins>::empty();
    c
        .push(Ins::LocalGet(0))
        .push(Ins::I32Load(m(4)))
        .push(Ins::LocalGet(0))
        .push(Ins::I32Load(m(0)))
        .push(Ins::I32GtU)
        .push(Ins::If(BlockTy::Empty))
        .push(Ins::LocalGet(0))
        .push(Ins::I32Load(m(0)))
        .push(Ins::LocalSet(1))
        .push(Ins::LocalGet(1))
        .push(Ins::I32Const(8))
        .push(Ins::I32Mul)
        .push(Ins::Call(alloc))
        .push(Ins::LocalSet(2))
        .push(Ins::LocalGet(2))
        .push(Ins::LocalGet(0))
        .push(Ins::I32Load(m(12)))
        .push(Ins::LocalGet(1))
        .push(Ins::I32Const(8))
        .push(Ins::I32Mul)
        .push(Ins::MemoryCopy { src_mem: 0, dst_mem: 0 })
        .push(Ins::LocalGet(0))
        .push(Ins::LocalGet(1))
        .push(Ins::I32Store(m(4)))
        .push(Ins::LocalGet(0))
        .push(Ins::LocalGet(2))
        .push(Ins::I32Store(m(12)))
        .push(Ins::End)
        .push(Ins::End)
}

pub(crate) fn shrink_body(alloc: u32) -> (body: Body)
    ensures
        body.code@ == shrink_body_code(alloc),
        body.locals@ == seq![(2u32, ValTy::I32)],
        body.valid(),
        body.params == 1,
{
    proof {
        reveal(shrink_body_code);
    }
    // locals: 1 = len, 2 = new_data.
    let mut f = Builder::new(1);
    f.declare(2, ValTy::I32);
    f.push(Ins::LocalGet(0));
    f.push(Ins::I32Load(m(4)));
    f.push(Ins::LocalGet(0));
    f.push(Ins::I32Load(m(0)));
    f.push(Ins::I32GtU);
    f.push(Ins::If(BlockTy::Empty));
    f.push(Ins::LocalGet(0));
    f.push(Ins::I32Load(m(0)));
    f.push(Ins::LocalSet(1));
    f.push(Ins::LocalGet(1));
    f.push(Ins::I32Const(8));
    f.push(Ins::I32Mul);
    f.push(Ins::Call(alloc));
    f.push(Ins::LocalSet(2));
    f.push(Ins::LocalGet(2));
    f.push(Ins::LocalGet(0));
    f.push(Ins::I32Load(m(12)));
    f.push(Ins::LocalGet(1));
    f.push(Ins::I32Const(8));
    f.push(Ins::I32Mul);
    f.push(Ins::MemoryCopy {
        src_mem: 0,
        dst_mem: 0,
    });
    f.push(Ins::LocalGet(0));
    f.push(Ins::LocalGet(1));
    f.push(Ins::I32Store(m(4)));
    f.push(Ins::LocalGet(0));
    f.push(Ins::LocalGet(2));
    f.push(Ins::I32Store(m(12)));
    f.push(Ins::End);
    f.push(Ins::End);
    assert(f.locals() =~= seq![(2u32, ValTy::I32)]);
    f.finish()
}

/// The code that `first_body` emits.
#[verifier::opaque]
pub open spec fn first_body_code() -> Seq<Ins> {
    let c = Seq::<Ins>::empty();
    c
        .push(Ins::LocalGet(0))
        .push(Ins::I32Load(m(0)))
        .push(Ins::I32Eqz)
        .push(Ins::If(BlockTy::Empty))
        .push(Ins::Unreachable)
        .push(Ins::End)
        .push(Ins::LocalGet(0))
        .push(Ins::I32Load(m(12)))
        .push(Ins::I64Load(m(0)))
        .push(Ins::End)
}

pub(crate) fn first_body() -> (body: Body)
    ensures
        body.code@ == first_body_code(),
        body.locals@ == Seq::<(u32, ValTy)>::empty(),
        body.valid(),
        body.params == 1,
{
    proof {
        reveal(first_body_code);
    }
    let mut f = Builder::new(1);
    f.push(Ins::LocalGet(0));
    f.push(Ins::I32Load(m(0)));
    f.push(Ins::I32Eqz);
    f.push(Ins::If(BlockTy::Empty));
    f.push(Ins::Unreachable);
    f.push(Ins::End);
    f.push(Ins::LocalGet(0));
    f.push(Ins::I32Load(m(12)));
    f.push(Ins::I64Load(m(0)));
    f.push(Ins::End);
    f.finish()
}

/// The code that `last_body` emits.
#[verifier::opaque]
pub open spec fn last_body_code() -> Seq<Ins> {
    let c = Seq::<Ins>::empty();
    c
        .push(Ins::LocalGet(0))
        .push(Ins::I32Load(m(0)))
        .push(Ins::I32Eqz)
        .push(Ins::If(BlockTy::Empty))
        .push(Ins::Unreachable)
        .push(Ins::End)
        .push(Ins::LocalGet(0))
        .push(Ins::I32Load(m(12)))
        .push(Ins::LocalGet(0))
        .push(Ins::I32Load(m(0)))
        .push(Ins::I32Const(1))
        .push(Ins::I32Sub)
        .push(Ins::I32Const(8))
        .push(Ins::I32Mul)
        .push(Ins::I32Add)
        .push(Ins::I64Load(m(0)))
        .push(Ins::End)
}

pub(crate) fn last_body() -> (body: Body)
    ensures
        body.code@ == last_body_code(),
        body.locals@ == Seq::<(u32, ValTy)>::empty(),
        body.valid(),
        body.params == 1,
{
    proof {
        reveal(last_body_code);
    }
    let mut f = Builder::new(1);
    f.push(Ins::LocalGet(0));
    f.push(Ins::I32Load(m(0)));
    f.push(Ins::I32Eqz);
    f.push(Ins::If(BlockTy::Empty));
    f.push(Ins::Unreachable);
    f.push(Ins::End);
    f.push(Ins::LocalGet(0));
    f.push(Ins::I32Load(m(12)));
    f.push(Ins::LocalGet(0));
    f.push(Ins::I32Load(m(0)));
    f.push(Ins::I32Const(1));
    f.push(Ins::I32Sub);
    f.push(Ins::I32Const(8));
    f.push(Ins::I32Mul);
    f.push(Ins::I32Add);
    f.push(Ins::I64Load(m(0)));
    f.push(Ins::End);
    f.finish()
}

/// The code that `insert_body` emits.
#[verifier::opaque]
pub open spec fn insert_body_code(ensure: u32) -> Seq<Ins> {
    let c = Seq::<Ins>::empty();
    c
        .push(Ins::LocalGet(0))
        .push(Ins::I32Load(m(0)))
        .push(Ins::LocalSet(3))
        .push(Ins::LocalGet(1))
        .push(Ins::LocalGet(3))
        .push(Ins::I32GtU)
        .push(Ins::If(BlockTy::Empty))
        .push(Ins::LocalGet(3))
        .push(Ins::LocalSet(1))
        .push(Ins::End)
        .push(Ins::LocalGet(0))
        .push(Ins::LocalGet(3))
        .push(Ins::I32Const(1))
        .push(Ins::I32Add)
        .push(Ins::Call(ensure))
        .push(Ins::LocalGet(3))
        .push(Ins::LocalSet(4))
        .push(Ins::Block(BlockTy::Empty))
        .push(Ins::Loop(BlockTy::Empty))
        .push(Ins::LocalGet(4))
        .push(Ins::LocalGet(1))
        .push(Ins::I32LeU)
        .push(Ins::BrIf(1))
        .push(Ins::LocalGet(0))
        .push(Ins::I32Load(m(12)))
        .push(Ins::LocalGet(4))
        .push(Ins::I32Const(8))
        .push(Ins::I32Mul)
        .push(Ins::I32Add)
        .push(Ins::LocalGet(0))
        .push(Ins::I32Load(m(12)))
        .push(Ins::LocalGet(4))
        .push(Ins::I32Const(1))
        .push(Ins::I32Sub)
        .push(Ins::I32Const(8))
        .push(Ins::I32Mul)
        .push(Ins::I32Add)
        .push(Ins::I64Load(m(0)))
        .push(Ins::I64Store(m(0)))
        .push(Ins::LocalGet(4))
        .push(Ins::I32Const(1))
        .push(Ins::I32Sub)
        .push(Ins::LocalSet(4))
        .push(Ins::Br(0))
        .push(Ins::End)
        .push(Ins::End)
        .push(Ins::LocalGet(0))
        .push(Ins::I32Load(m(12)))
        .push(Ins::LocalGet(1))
        .push(Ins::I32Const(8))
        .push(Ins::I32Mul)
        .push(Ins::I32Add)
        .push(Ins::LocalGet(2))
        .push(Ins::I64Store(m(0)))
        .push(Ins::LocalGet(0))
        .push(Ins::LocalGet(3))
        .push(Ins::I32Const(1))
        .push(Ins::I32Add)
        .push(Ins::I32Store(m(0)))
        .push(Ins::End)
}

/// `(h, i, v: i64) -> ()`: insert before index `i`.
pub(crate) fn insert_body(ensure: u32) -> (body: Body)
    ensures
        body.code@ == insert_body_code(ensure),
        body.locals@ == seq![(2u32, ValTy::I32)],
        body.valid(),
        body.params == 3,
{
    proof {
        reveal(insert_body_code);
    }
    // locals: 3 = len, 4 = j.
    let mut f = Builder::new(3);
    f.declare(2, ValTy::I32);
    f.push(Ins::LocalGet(0));
    f.push(Ins::I32Load(m(0)));
    f.push(Ins::LocalSet(3));
    f.push(Ins::LocalGet(1));
    f.push(Ins::LocalGet(3));
    f.push(Ins::I32GtU);
    f.push(Ins::If(BlockTy::Empty));
    f.push(Ins::LocalGet(3));
    f.push(Ins::LocalSet(1));
    f.push(Ins::End);
    f.push(Ins::LocalGet(0));
    f.push(Ins::LocalGet(3));
    f.push(Ins::I32Const(1));
    f.push(Ins::I32Add);
    f.push(Ins::Call(ensure));
    // j = len; while j > i: a[j] = a[j-1]; j--
    f.push(Ins::LocalGet(3));
    f.push(Ins::LocalSet(4));
    f.push(Ins::Block(BlockTy::Empty));
    f.push(Ins::Loop(BlockTy::Empty));
    f.push(Ins::LocalGet(4));
    f.push(Ins::LocalGet(1));
    f.push(Ins::I32LeU);
    f.push(Ins::BrIf(1));
    f.push(Ins::LocalGet(0));
    f.push(Ins::I32Load(m(12)));
    f.push(Ins::LocalGet(4));
    f.push(Ins::I32Const(8));
    f.push(Ins::I32Mul);
    f.push(Ins::I32Add);
    f.push(Ins::LocalGet(0));
    f.push(Ins::I32Load(m(12)));
    f.push(Ins::LocalGet(4));
    f.push(Ins::I32Const(1));
    f.push(Ins::I32Sub);
    f.push(Ins::I32Const(8));
    f.push(Ins::I32Mul);
    f.push(Ins::I32Add);
    f.push(Ins::I64Load(m(0)));
    f.push(Ins::I64Store(m(0)));
    f.push(Ins::LocalGet(4));
    f.push(Ins::I32Const(1));
    f.push(Ins::I32Sub);
    f.push(Ins::LocalSet(4));
    f.push(Ins::Br(0));
    f.push(Ins::End);
    f.push(Ins::End);
    f.push(Ins::LocalGet(0));
    f.push(Ins::I32Load(m(12)));
    f.push(Ins::LocalGet(1));
    f.push(Ins::I32Const(8));
    f.push(Ins::I32Mul);
    f.push(Ins::I32Add);
    f.push(Ins::LocalGet(2));
    f.push(Ins::I64Store(m(0)));
    f.push(Ins::LocalGet(0));
    f.push(Ins::LocalGet(3));
    f.push(Ins::I32Const(1));
    f.push(Ins::I32Add);
    f.push(Ins::I32Store(m(0)));
    f.push(Ins::End);
    assert(f.locals() =~= seq![(2u32, ValTy::I32)]);
    f.finish()
}

/// The code that `remove_body` emits.
#[verifier::opaque]
pub open spec fn remove_body_code() -> Seq<Ins> {
    let c = Seq::<Ins>::empty();
    c
        .push(Ins::LocalGet(0))
        .push(Ins::I32Load(m(0)))
        .push(Ins::LocalSet(2))
        .push(Ins::LocalGet(1))
        .push(Ins::LocalGet(2))
        .push(Ins::I32GeU)
        .push(Ins::If(BlockTy::Empty))
        .push(Ins::Unreachable)
        .push(Ins::End)
        .push(Ins::LocalGet(0))
        .push(Ins::I32Load(m(12)))
        .push(Ins::LocalGet(1))
        .push(Ins::I32Const(8))
        .push(Ins::I32Mul)
        .push(Ins::I32Add)
        .push(Ins::I64Load(m(0)))
        .push(Ins::LocalSet(3))
        .push(Ins::LocalGet(1))
        .push(Ins::LocalSet(4))
        .push(Ins::Block(BlockTy::Empty))
        .push(Ins::Loop(BlockTy::Empty))
        .push(Ins::LocalGet(4))
        .push(Ins::I32Const(1))
        .push(Ins::I32Add)
        .push(Ins::LocalGet(2))
        .push(Ins::I32GeU)
        .push(Ins::BrIf(1))
        .push(Ins::LocalGet(0))
        .push(Ins::I32Load(m(12)))
        .push(Ins::LocalGet(4))
        .push(Ins::I32Const(8))
        .push(Ins::I32Mul)
        .push(Ins::I32Add)
        .push(Ins::LocalGet(0))
        .push(Ins::I32Load(m(12)))
        .push(Ins::LocalGet(4))
        .push(Ins::I32Const(1))
        .push(Ins::I32Add)
        .push(Ins::I32Const(8))
        .push(Ins::I32Mul)
        .push(Ins::I32Add)
        .push(Ins::I64Load(m(0)))
        .push(Ins::I64Store(m(0)))
        .push(Ins::LocalGet(4))
        .push(Ins::I32Const(1))
        .push(Ins::I32Add)
        .push(Ins::LocalSet(4))
        .push(Ins::Br(0))
        .push(Ins::End)
        .push(Ins::End)
        .push(Ins::LocalGet(0))
        .push(Ins::LocalGet(2))
        .push(Ins::I32Const(1))
        .push(Ins::I32Sub)
        .push(Ins::I32Store(m(0)))
        .push(Ins::LocalGet(3))
        .push(Ins::End)
}

/// `(h, i) -> i64`: remove and return the element at `i`.
pub(crate) fn remove_body() -> (body: Body)
    ensures
        body.code@ == remove_body_code(),
        body.locals@ == seq![(1u32, ValTy::I32), (1u32, ValTy::I64), (1u32, ValTy::I32)],
        body.valid(),
        body.params == 2,
{
    proof {
        reveal(remove_body_code);
    }
    // locals: 2 = len, 3 = v (i64), 4 = j.
    let mut f = Builder::new(2);
    f.declare(1, ValTy::I32);
    f.declare(1, ValTy::I64);
    f.declare(1, ValTy::I32);
    f.push(Ins::LocalGet(0));
    f.push(Ins::I32Load(m(0)));
    f.push(Ins::LocalSet(2));
    f.push(Ins::LocalGet(1));
    f.push(Ins::LocalGet(2));
    f.push(Ins::I32GeU);
    f.push(Ins::If(BlockTy::Empty));
    f.push(Ins::Unreachable);
    f.push(Ins::End);
    f.push(Ins::LocalGet(0));
    f.push(Ins::I32Load(m(12)));
    f.push(Ins::LocalGet(1));
    f.push(Ins::I32Const(8));
    f.push(Ins::I32Mul);
    f.push(Ins::I32Add);
    f.push(Ins::I64Load(m(0)));
    f.push(Ins::LocalSet(3));
    f.push(Ins::LocalGet(1));
    f.push(Ins::LocalSet(4));
    f.push(Ins::Block(BlockTy::Empty));
    f.push(Ins::Loop(BlockTy::Empty));
    f.push(Ins::LocalGet(4));
    f.push(Ins::I32Const(1));
    f.push(Ins::I32Add);
    f.push(Ins::LocalGet(2));
    f.push(Ins::I32GeU);
    f.push(Ins::BrIf(1));
    f.push(Ins::LocalGet(0));
    f.push(Ins::I32Load(m(12)));
    f.push(Ins::LocalGet(4));
    f.push(Ins::I32Const(8));
    f.push(Ins::I32Mul);
    f.push(Ins::I32Add);
    f.push(Ins::LocalGet(0));
    f.push(Ins::I32Load(m(12)));
    f.push(Ins::LocalGet(4));
    f.push(Ins::I32Const(1));
    f.push(Ins::I32Add);
    f.push(Ins::I32Const(8));
    f.push(Ins::I32Mul);
    f.push(Ins::I32Add);
    f.push(Ins::I64Load(m(0)));
    f.push(Ins::I64Store(m(0)));
    f.push(Ins::LocalGet(4));
    f.push(Ins::I32Const(1));
    f.push(Ins::I32Add);
    f.push(Ins::LocalSet(4));
    f.push(Ins::Br(0));
    f.push(Ins::End);
    f.push(Ins::End);
    f.push(Ins::LocalGet(0));
    f.push(Ins::LocalGet(2));
    f.push(Ins::I32Const(1));
    f.push(Ins::I32Sub);
    f.push(Ins::I32Store(m(0)));
    f.push(Ins::LocalGet(3));
    f.push(Ins::End);
    assert(f.locals() =~= seq![(1u32, ValTy::I32), (1u32, ValTy::I64), (1u32, ValTy::I32)]);
    f.finish()
}

/// The code that `extend_body` emits.
#[verifier::opaque]
pub open spec fn extend_body_code(ensure: u32, elem_retain: u32) -> Seq<Ins> {
    let c = Seq::<Ins>::empty();
    c
        .push(Ins::LocalGet(0))
        .push(Ins::I32Load(m(0)))
        .push(Ins::LocalSet(2))
        .push(Ins::LocalGet(1))
        .push(Ins::I32Load(m(0)))
        .push(Ins::LocalSet(3))
        .push(Ins::LocalGet(0))
        .push(Ins::LocalGet(2))
        .push(Ins::LocalGet(3))
        .push(Ins::I32Add)
        .push(Ins::Call(ensure))
        .push(Ins::LocalGet(0))
        .push(Ins::I32Load(m(12)))
        .push(Ins::LocalGet(2))
        .push(Ins::I32Const(8))
        .push(Ins::I32Mul)
        .push(Ins::I32Add)
        .push(Ins::LocalSet(4))
        .push(Ins::LocalGet(4))
        .push(Ins::LocalGet(1))
        .push(Ins::I32Load(m(12)))
        .push(Ins::LocalGet(3))
        .push(Ins::I32Const(8))
        .push(Ins::I32Mul)
        .push(Ins::MemoryCopy { src_mem: 0, dst_mem: 0 })
        .push(Ins::I32Const(0))
        .push(Ins::LocalSet(5))
        .push(Ins::Block(BlockTy::Empty))
        .push(Ins::Loop(BlockTy::Empty))
        .push(Ins::LocalGet(5))
        .push(Ins::LocalGet(3))
        .push(Ins::I32GeU)
        .push(Ins::BrIf(1))
        .push(Ins::LocalGet(0))
        .push(Ins::I32Load(m(8)))
        .push(Ins::LocalGet(4))
        .push(Ins::LocalGet(5))
        .push(Ins::I32Const(8))
        .push(Ins::I32Mul)
        .push(Ins::I32Add)
        .push(Ins::Call(elem_retain))
        .push(Ins::LocalGet(5))
        .push(Ins::I32Const(1))
        .push(Ins::I32Add)
        .push(Ins::LocalSet(5))
        .push(Ins::Br(0))
        .push(Ins::End)
        .push(Ins::End)
        .push(Ins::LocalGet(0))
        .push(Ins::LocalGet(2))
        .push(Ins::LocalGet(3))
        .push(Ins::I32Add)
        .push(Ins::I32Store(m(0)))
        .push(Ins::End)
}

/// `(h, other) -> ()`: append every element of `other`, retaining managed ones.
pub(crate) fn extend_body(ensure: u32, elem_retain: u32) -> (body: Body)
    ensures
        body.code@ == extend_body_code(ensure, elem_retain),
        body.locals@ == seq![(4u32, ValTy::I32)],
        body.valid(),
        body.params == 2,
{
    proof {
        reveal(extend_body_code);
    }
    // locals: 2 = len, 3 = olen, 4 = base, 5 = k.
    let mut f = Builder::new(2);
    f.declare(4, ValTy::I32);
    f.push(Ins::LocalGet(0));
    f.push(Ins::I32Load(m(0)));
    f.push(Ins::LocalSet(2));
    f.push(Ins::LocalGet(1));
    f.push(Ins::I32Load(m(0)));
    f.push(Ins::LocalSet(3));
    f.push(Ins::LocalGet(0));
    f.push(Ins::LocalGet(2));
    f.push(Ins::LocalGet(3));
    f.push(Ins::I32Add);
    f.push(Ins::Call(ensure));
    f.push(Ins::LocalGet(0));
    f.push(Ins::I32Load(m(12)));
    f.push(Ins::LocalGet(2));
    f.push(Ins::I32Const(8));
    f.push(Ins::I32Mul);
    f.push(Ins::I32Add);
    f.push(Ins::LocalSet(4));
    f.push(Ins::LocalGet(4));
    f.push(Ins::LocalGet(1));
    f.push(Ins::I32Load(m(12)));
    f.push(Ins::LocalGet(3));
    f.push(Ins::I32Const(8));
    f.push(Ins::I32Mul);
    f.push(Ins::MemoryCopy {
        src_mem: 0,
        dst_mem: 0,
    });
    f.push(Ins::I32Const(0));
    f.push(Ins::LocalSet(5));
    f.push(Ins::Block(BlockTy::Empty));
    f.push(Ins::Loop(BlockTy::Empty));
    f.push(Ins::LocalGet(5));
    f.push(Ins::LocalGet(3));
    f.push(Ins::I32GeU);
    f.push(Ins::BrIf(1));
    f.push(Ins::LocalGet(0));
    f.push(Ins::I32Load(m(8)));
    f.push(Ins::LocalGet(4));
    f.push(Ins::LocalGet(5));
    f.push(Ins::I32Const(8));
    f.push(Ins::I32Mul);
    f.push(Ins::I32Add);
    f.push(Ins::Call(elem_retain));
    f.push(Ins::LocalGet(5));
    f.push(Ins::I32Const(1));
    f.push(Ins::I32Add);
    f.push(Ins::LocalSet(5));
    f.push(Ins::Br(0));
    f.push(Ins::End);
    f.push(Ins::End);
    f.push(Ins::LocalGet(0));
    f.push(Ins::LocalGet(2));
    f.push(Ins::LocalGet(3));
    f.push(Ins::I32Add);
    f.push(Ins::I32Store(m(0)));
    f.push(Ins::End);
    assert(f.locals() =~= seq![(4u32, ValTy::I32)]);
    f.finish()
}

/// The code that `slice_body` emits.
#[verifier::opaque]
pub open spec fn slice_body_code(rc_new: u32, alloc: u32, elem_retain: u32) -> Seq<Ins> {
    let c = Seq::<Ins>::empty();
    let c = c
        .push(Ins::LocalGet(0))
        .push(Ins::I32Load(m(0)))
        .push(Ins::LocalSet(3));
    let c = clamp_code(c, 1, 3, 4);
    let c = clamp_code(c, 2, 3, 5);
    c
        .push(Ins::LocalGet(5))
        .push(Ins::LocalGet(4))
        .push(Ins::I32LtU)
        .push(Ins::If(BlockTy::Empty))
        .push(Ins::LocalGet(4))
        .push(Ins::LocalSet(5))
        .push(Ins::End)
        .push(Ins::I32Const(16))
        .push(Ins::Call(rc_new))
        .push(Ins::LocalSet(6))
        .push(Ins::LocalGet(5))
        .push(Ins::LocalGet(4))
        .push(Ins::I32Sub)
        .push(Ins::LocalSet(3))
        .push(Ins::LocalGet(6))
        .push(Ins::LocalGet(3))
        .push(Ins::I32Store(m(0)))
        .push(Ins::LocalGet(6))
        .push(Ins::LocalGet(3))
        .push(Ins::I32Store(m(4)))
        .push(Ins::LocalGet(6))
        .push(Ins::LocalGet(0))
        .push(Ins::I32Load(m(8)))
        .push(Ins::I32Store(m(8)))
        .push(Ins::LocalGet(3))
        .push(Ins::I32Const(8))
        .push(Ins::I32Mul)
        .push(Ins::Call(alloc))
        .push(Ins::LocalSet(7))
        .push(Ins::LocalGet(6))
        .push(Ins::LocalGet(7))
        .push(Ins::I32Store(m(12)))
        .push(Ins::LocalGet(7))
        .push(Ins::LocalGet(0))
        .push(Ins::I32Load(m(12)))
        .push(Ins::LocalGet(4))
        .push(Ins::I32Const(8))
        .push(Ins::I32Mul)
        .push(Ins::I32Add)
        .push(Ins::LocalGet(3))
        .push(Ins::I32Const(8))
        .push(Ins::I32Mul)
        .push(Ins::MemoryCopy { src_mem: 0, dst_mem: 0 })
        .push(Ins::I32Const(0))
        .push(Ins::LocalSet(4))
        .push(Ins::Block(BlockTy::Empty))
        .push(Ins::Loop(BlockTy::Empty))
        .push(Ins::LocalGet(4))
        .push(Ins::LocalGet(3))
        .push(Ins::I32GeU)
        .push(Ins::BrIf(1))
        .push(Ins::LocalGet(6))
        .push(Ins::I32Load(m(8)))
        .push(Ins::LocalGet(7))
        .push(Ins::LocalGet(4))
        .push(Ins::I32Const(8))
        .push(Ins::I32Mul)
        .push(Ins::I32Add)
        .push(Ins::Call(elem_retain))
        .push(Ins::LocalGet(4))
        .push(Ins::I32Const(1))
        .push(Ins::I32Add)
        .push(Ins::LocalSet(4))
        .push(Ins::Br(0))
        .push(Ins::End)
        .push(Ins::End)
        .push(Ins::LocalGet(6))
        .push(Ins::End)
}

/// `(h, start, end) -> list`: clamped range copy with managed elements retained.
pub(crate) fn slice_body(rc_new: u32, alloc: u32, elem_retain: u32) -> (body: Body)
    ensures
        body.code@ == slice_body_code(rc_new, alloc, elem_retain),
        body.locals@ == seq![(5u32, ValTy::I32)],
        body.valid(),
        body.params == 3,
{
    proof {
        reveal(slice_body_code);
    }
    // locals: 3 = len, 4 = lo, 5 = hi, 6 = out, 7 = i.
    let mut f = Builder::new(3);
    f.declare(5, ValTy::I32);
    f.push(Ins::LocalGet(0));
    f.push(Ins::I32Load(m(0)));
    f.push(Ins::LocalSet(3));
    clamp(&mut f, 1, 3, 4);
    clamp(&mut f, 2, 3, 5);
    f.push(Ins::LocalGet(5));
    f.push(Ins::LocalGet(4));
    f.push(Ins::I32LtU);
    f.push(Ins::If(BlockTy::Empty));
    f.push(Ins::LocalGet(4));
    f.push(Ins::LocalSet(5));
    f.push(Ins::End);
    f.push(Ins::I32Const(16));
    f.push(Ins::Call(rc_new));
    f.push(Ins::LocalSet(6));
    f.push(Ins::LocalGet(5));
    f.push(Ins::LocalGet(4));
    f.push(Ins::I32Sub);
    f.push(Ins::LocalSet(3));
    f.push(Ins::LocalGet(6));
    f.push(Ins::LocalGet(3));
    f.push(Ins::I32Store(m(0)));
    f.push(Ins::LocalGet(6));
    f.push(Ins::LocalGet(3));
    f.push(Ins::I32Store(m(4)));
    f.push(Ins::LocalGet(6));
    f.push(Ins::LocalGet(0));
    f.push(Ins::I32Load(m(8)));
    f.push(Ins::I32Store(m(8)));
    f.push(Ins::LocalGet(3));
    f.push(Ins::I32Const(8));
    f.push(Ins::I32Mul);
    f.push(Ins::Call(alloc));
    f.push(Ins::LocalSet(7));
    f.push(Ins::LocalGet(6));
    f.push(Ins::LocalGet(7));
    f.push(Ins::I32Store(m(12)));
    f.push(Ins::LocalGet(7));
    f.push(Ins::LocalGet(0));
    f.push(Ins::I32Load(m(12)));
    f.push(Ins::LocalGet(4));
    f.push(Ins::I32Const(8));
    f.push(Ins::I32Mul);
    f.push(Ins::I32Add);
    f.push(Ins::LocalGet(3));
    f.push(Ins::I32Const(8));
    f.push(Ins::I32Mul);
    f.push(Ins::MemoryCopy {
        src_mem: 0,
        dst_mem: 0,
    });
    // retain copied managed elements
    f.push(Ins::I32Const(0));
    f.push(Ins::LocalSet(4));
    f.push(Ins::Block(BlockTy::Empty));
    f.push(Ins::Loop(BlockTy::Empty));
    f.push(Ins::LocalGet(4));
    f.push(Ins::LocalGet(3));
    f.push(Ins::I32GeU);
    f.push(Ins::BrIf(1));
    f.push(Ins::LocalGet(6));
    f.push(Ins::I32Load(m(8)));
    f.push(Ins::LocalGet(7));
    f.push(Ins::LocalGet(4));
    f.push(Ins::I32Const(8));
    f.push(Ins::I32Mul);
    f.push(Ins::I32Add);
    f.push(Ins::Call(elem_retain));
    f.push(Ins::LocalGet(4));
    f.push(Ins::I32Const(1));
    f.push(Ins::I32Add);
    f.push(Ins::LocalSet(4));
    f.push(Ins::Br(0));
    f.push(Ins::End);
    f.push(Ins::End);
    f.push(Ins::LocalGet(6));
    f.push(Ins::End);
    assert(f.locals() =~= seq![(5u32, ValTy::I32)]);
    f.finish()
}

/// The code that `contains_body` emits.
#[verifier::opaque]
pub open spec fn contains_body_code(elem_eq: u32) -> Seq<Ins> {
    let c = Seq::<Ins>::empty();
    c
        .push(Ins::LocalGet(0))
        .push(Ins::I32Load(m(0)))
        .push(Ins::LocalSet(2))
        .push(Ins::LocalGet(0))
        .push(Ins::I32Load(m(8)))
        .push(Ins::LocalSet(3))
        .push(Ins::I32Const(0))
        .push(Ins::LocalSet(4))
        .push(Ins::Block(BlockTy::Empty))
        .push(Ins::Loop(BlockTy::Empty))
        .push(Ins::LocalGet(4))
        .push(Ins::LocalGet(2))
        .push(Ins::I32GeU)
        .push(Ins::BrIf(1))
        .push(Ins::LocalGet(0))
        .push(Ins::I32Load(m(12)))
        .push(Ins::LocalGet(4))
        .push(Ins::I32Const(8))
        .push(Ins::I32Mul)
        .push(Ins::I32Add)
        .push(Ins::LocalGet(1))
        .push(Ins::LocalGet(3))
        .push(Ins::Call(elem_eq))
        .push(Ins::If(BlockTy::Empty))
        .push(Ins::I32Const(1))
        .push(Ins::Return)
        .push(Ins::End)
        .push(Ins::LocalGet(4))
        .push(Ins::I32Const(1))
        .push(Ins::I32Add)
        .push(Ins::LocalSet(4))
        .push(Ins::Br(0))
        .push(Ins::End)
        .push(Ins::End)
        .push(Ins::I32Const(0))
        .push(Ins::End)
}

pub(crate) fn contains_body(elem_eq: u32) -> (body: Body)
    ensures
        body.code@ == contains_body_code(elem_eq),
        body.locals@ == seq![(3u32, ValTy::I32)],
        body.valid(),
        body.params == 2,
{
    proof {
        reveal(contains_body_code);
    }
    // locals: 2 = len, 3 = kind, 4 = i.
    let mut f = Builder::new(2);
    f.declare(3, ValTy::I32);
    f.push(Ins::LocalGet(0));
    f.push(Ins::I32Load(m(0)));
    f.push(Ins::LocalSet(2));
    f.push(Ins::LocalGet(0));
    f.push(Ins::I32Load(m(8)));
    f.push(Ins::LocalSet(3));
    f.push(Ins::I32Const(0));
    f.push(Ins::LocalSet(4));
    f.push(Ins::Block(BlockTy::Empty));
    f.push(Ins::Loop(BlockTy::Empty));
    f.push(Ins::LocalGet(4));
    f.push(Ins::LocalGet(2));
    f.push(Ins::I32GeU);
    f.push(Ins::BrIf(1));
    f.push(Ins::LocalGet(0));
    f.push(Ins::I32Load(m(12)));
    f.push(Ins::LocalGet(4));
    f.push(Ins::I32Const(8));
    f.push(Ins::I32Mul);
    f.push(Ins::I32Add);
    f.push(Ins::LocalGet(1));
    f.push(Ins::LocalGet(3));
    f.push(Ins::Call(elem_eq));
    f.push(Ins::If(BlockTy::Empty));
    f.push(Ins::I32Const(1));
    f.push(Ins::Return);
    f.push(Ins::End);
    f.push(Ins::LocalGet(4));
    f.push(Ins::I32Const(1));
    f.push(Ins::I32Add);
    f.push(Ins::LocalSet(4));
    f.push(Ins::Br(0));
    f.push(Ins::End);
    f.push(Ins::End);
    f.push(Ins::I32Const(0));
    f.push(Ins::End);
    assert(f.locals() =~= seq![(3u32, ValTy::I32)]);
    f.finish()
}

/// The code that `find_body` emits.
#[verifier::opaque]
pub open spec fn find_body_code(elem_eq: u32) -> Seq<Ins> {
    let c = Seq::<Ins>::empty();
    c
        .push(Ins::LocalGet(0))
        .push(Ins::I32Load(m(0)))
        .push(Ins::LocalSet(2))
        .push(Ins::LocalGet(0))
        .push(Ins::I32Load(m(8)))
        .push(Ins::LocalSet(3))
        .push(Ins::I32Const(0))
        .push(Ins::LocalSet(4))
        .push(Ins::Block(BlockTy::Empty))
        .push(Ins::Loop(BlockTy::Empty))
        .push(Ins::LocalGet(4))
        .push(Ins::LocalGet(2))
        .push(Ins::I32GeU)
        .push(Ins::BrIf(1))
        .push(Ins::LocalGet(0))
        .push(Ins::I32Load(m(12)))
        .push(Ins::LocalGet(4))
        .push(Ins::I32Const(8))
        .push(Ins::I32Mul)
        .push(Ins::I32Add)
        .push(Ins::LocalGet(1))
        .push(Ins::LocalGet(3))
        .push(Ins::Call(elem_eq))
        .push(Ins::If(BlockTy::Empty))
        .push(Ins::LocalGet(4))
        .push(Ins::I64ExtendI32U)
        .push(Ins::Return)
        .push(Ins::End)
        .push(Ins::LocalGet(4))
        .push(Ins::I32Const(1))
        .push(Ins::I32Add)
        .push(Ins::LocalSet(4))
        .push(Ins::Br(0))
        .push(Ins::End)
        .push(Ins::End)
        .push(Ins::I64Const(-1i64))
        .push(Ins::End)
}

pub(crate) fn find_body(elem_eq: u32) -> (body: Body)
    ensures
        body.code@ == find_body_code(elem_eq),
        body.locals@ == seq![(3u32, ValTy::I32)],
        body.valid(),
        body.params == 2,
{
    proof {
        reveal(find_body_code);
    }
    // locals: 2 = len, 3 = kind, 4 = i.
    let mut f = Builder::new(2);
    f.declare(3, ValTy::I32);
    f.push(Ins::LocalGet(0));
    f.push(Ins::I32Load(m(0)));
    f.push(Ins::LocalSet(2));
    f.push(Ins::LocalGet(0));
    f.push(Ins::I32Load(m(8)));
    f.push(Ins::LocalSet(3));
    f.push(Ins::I32Const(0));
    f.push(Ins::LocalSet(4));
    f.push(Ins::Block(BlockTy::Empty));
    f.push(Ins::Loop(BlockTy::Empty));
    f.push(Ins::LocalGet(4));
    f.push(Ins::LocalGet(2));
    f.push(Ins::I32GeU);
    f.push(Ins::BrIf(1));
    f.push(Ins::LocalGet(0));
    f.push(Ins::I32Load(m(12)));
    f.push(Ins::LocalGet(4));
    f.push(Ins::I32Const(8));
    f.push(Ins::I32Mul);
    f.push(Ins::I32Add);
    f.push(Ins::LocalGet(1));
    f.push(Ins::LocalGet(3));
    f.push(Ins::Call(elem_eq));
    f.push(Ins::If(BlockTy::Empty));
    f.push(Ins::LocalGet(4));
    f.push(Ins::I64ExtendI32U);
    f.push(Ins::Return);
    f.push(Ins::End);
    f.push(Ins::LocalGet(4));
    f.push(Ins::I32Const(1));
    f.push(Ins::I32Add);
    f.push(Ins::LocalSet(4));
    f.push(Ins::Br(0));
    f.push(Ins::End);
    f.push(Ins::End);
    f.push(Ins::I64Const(-1));
    f.push(Ins::End);
    assert(f.locals() =~= seq![(3u32, ValTy::I32)]);
    f.finish()
}

/// The code that `elem_eq_body` emits.
#[verifier::opaque]
pub open spec fn elem_eq_body_code(str_eq: u32, bt_cmp: u32) -> Seq<Ins> {
    let c = Seq::<Ins>::empty();
    c
        .push(Ins::LocalGet(2))
        .push(Ins::I32Const(KIND_FLOAT))
        .push(Ins::I32Eq)
        .push(Ins::If(BlockTy::Result(ValTy::I32)))
        .push(Ins::LocalGet(0))
        .push(Ins::F64Load(m(0)))
        .push(Ins::LocalGet(1))
        .push(Ins::F64ReinterpretI64)
        .push(Ins::F64Eq)
        .push(Ins::Else)
        .push(Ins::LocalGet(2))
        .push(Ins::I32Const(KIND_STRING))
        .push(Ins::I32Eq)
        .push(Ins::If(BlockTy::Result(ValTy::I32)))
        .push(Ins::LocalGet(0))
        .push(Ins::I32Load(m(0)))
        .push(Ins::LocalGet(1))
        .push(Ins::I32WrapI64)
        .push(Ins::Call(str_eq))
        .push(Ins::Else)
        .push(Ins::LocalGet(2))
        .push(Ins::I32Const(KIND_BYTES))
        .push(Ins::I32Eq)
        .push(Ins::If(BlockTy::Result(ValTy::I32)))
        .push(Ins::LocalGet(0))
        .push(Ins::I32Load(m(0)))
        .push(Ins::LocalGet(1))
        .push(Ins::I32WrapI64)
        .push(Ins::Call(bt_cmp))
        .push(Ins::I64Eqz)
        .push(Ins::Else)
        .push(Ins::LocalGet(0))
        .push(Ins::I64Load(m(0)))
        .push(Ins::LocalGet(1))
        .push(Ins::I64Eq)
        .push(Ins::End)
        .push(Ins::End)
        .push(Ins::End)
        .push(Ins::End)
}

/// `(slot: i32, value: i64, kind: i32) -> i32`: element equality by kind.
pub(crate) fn elem_eq_body(str_eq: u32, bt_cmp: u32) -> (body: Body)
    ensures
        body.code@ == elem_eq_body_code(str_eq, bt_cmp),
        body.locals@ == Seq::<(u32, ValTy)>::empty(),
        body.valid(),
        body.params == 3,
{
    proof {
        reveal(elem_eq_body_code);
    }
    let mut f = Builder::new(3);
    f.push(Ins::LocalGet(2));
    f.push(Ins::I32Const(KIND_FLOAT));
    f.push(Ins::I32Eq);
    f.push(Ins::If(BlockTy::Result(ValTy::I32)));
    f.push(Ins::LocalGet(0));
    f.push(Ins::F64Load(m(0)));
    f.push(Ins::LocalGet(1));
    f.push(Ins::F64ReinterpretI64);
    f.push(Ins::F64Eq);
    f.push(Ins::Else);
    f.push(Ins::LocalGet(2));
    f.push(Ins::I32Const(KIND_STRING));
    f.push(Ins::I32Eq);
    f.push(Ins::If(BlockTy::Result(ValTy::I32)));
    f.push(Ins::LocalGet(0));
    f.push(Ins::I32Load(m(0)));
    f.push(Ins::LocalGet(1));
    f.push(Ins::I32WrapI64);
    f.push(Ins::Call(str_eq));
    f.push(Ins::Else);
    f.push(Ins::LocalGet(2));
    f.push(Ins::I32Const(KIND_BYTES));
    f.push(Ins::I32Eq);
    f.push(Ins::If(BlockTy::Result(ValTy::I32)));
    f.push(Ins::LocalGet(0));
    f.push(Ins::I32Load(m(0)));
    f.push(Ins::LocalGet(1));
    f.push(Ins::I32WrapI64);
    f.push(Ins::Call(bt_cmp));
    f.push(Ins::I64Eqz);
    f.push(Ins::Else);
    f.push(Ins::LocalGet(0));
    f.push(Ins::I64Load(m(0)));
    f.push(Ins::LocalGet(1));
    f.push(Ins::I64Eq);
    f.push(Ins::End);
    f.push(Ins::End);
    f.push(Ins::End);
    f.push(Ins::End);
    f.finish()
}

/// The code that `join_body` emits.
#[verifier::opaque]
pub open spec fn join_body_code(rc_new: u32) -> Seq<Ins> {
    let c = Seq::<Ins>::empty();
    c
        .push(Ins::LocalGet(0))
        .push(Ins::I32Load(m(0)))
        .push(Ins::LocalSet(2))
        .push(Ins::LocalGet(1))
        .push(Ins::I32Load(m(0)))
        .push(Ins::LocalSet(9))
        .push(Ins::I32Const(0))
        .push(Ins::LocalSet(3))
        .push(Ins::I32Const(0))
        .push(Ins::LocalSet(4))
        .push(Ins::Block(BlockTy::Empty))
        .push(Ins::Loop(BlockTy::Empty))
        .push(Ins::LocalGet(4))
        .push(Ins::LocalGet(2))
        .push(Ins::I32GeU)
        .push(Ins::BrIf(1))
        .push(Ins::LocalGet(0))
        .push(Ins::I32Load(m(12)))
        .push(Ins::LocalGet(4))
        .push(Ins::I32Const(8))
        .push(Ins::I32Mul)
        .push(Ins::I32Add)
        .push(Ins::I32Load(m(0)))
        .push(Ins::LocalSet(7))
        .push(Ins::LocalGet(3))
        .push(Ins::LocalGet(7))
        .push(Ins::I32Load(m(0)))
        .push(Ins::I32Add)
        .push(Ins::LocalSet(3))
        .push(Ins::LocalGet(4))
        .push(Ins::I32Const(1))
        .push(Ins::I32Add)
        .push(Ins::LocalSet(4))
        .push(Ins::Br(0))
        .push(Ins::End)
        .push(Ins::End)
        .push(Ins::LocalGet(2))
        .push(Ins::I32Eqz)
        .push(Ins::If(BlockTy::Empty))
        .push(Ins::Else)
        .push(Ins::LocalGet(3))
        .push(Ins::LocalGet(2))
        .push(Ins::I32Const(1))
        .push(Ins::I32Sub)
        .push(Ins::LocalGet(9))
        .push(Ins::I32Mul)
        .push(Ins::I32Add)
        .push(Ins::LocalSet(3))
        .push(Ins::End)
        .push(Ins::I32Const(4))
        .push(Ins::LocalGet(3))
        .push(Ins::I32Add)
        .push(Ins::Call(rc_new))
        .push(Ins::LocalSet(5))
        .push(Ins::LocalGet(5))
        .push(Ins::LocalGet(3))
        .push(Ins::I32Store(m(0)))
        .push(Ins::I32Const(0))
        .push(Ins::LocalSet(6))
        .push(Ins::I32Const(0))
        .push(Ins::LocalSet(4))
        .push(Ins::Block(BlockTy::Empty))
        .push(Ins::Loop(BlockTy::Empty))
        .push(Ins::LocalGet(4))
        .push(Ins::LocalGet(2))
        .push(Ins::I32GeU)
        .push(Ins::BrIf(1))
        .push(Ins::LocalGet(0))
        .push(Ins::I32Load(m(12)))
        .push(Ins::LocalGet(4))
        .push(Ins::I32Const(8))
        .push(Ins::I32Mul)
        .push(Ins::I32Add)
        .push(Ins::I32Load(m(0)))
        .push(Ins::LocalSet(7))
        .push(Ins::LocalGet(7))
        .push(Ins::I32Load(m(0)))
        .push(Ins::LocalSet(8))
        .push(Ins::LocalGet(5))
        .push(Ins::I32Const(4))
        .push(Ins::I32Add)
        .push(Ins::LocalGet(6))
        .push(Ins::I32Add)
        .push(Ins::LocalGet(7))
        .push(Ins::I32Const(4))
        .push(Ins::I32Add)
        .push(Ins::LocalGet(8))
        .push(Ins::MemoryCopy { src_mem: 0, dst_mem: 0 })
        .push(Ins::LocalGet(6))
        .push(Ins::LocalGet(8))
        .push(Ins::I32Add)
        .push(Ins::LocalSet(6))
        .push(Ins::LocalGet(4))
        .push(Ins::I32Const(1))
        .push(Ins::I32Add)
        .push(Ins::LocalGet(2))
        .push(Ins::I32LtU)
        .push(Ins::If(BlockTy::Empty))
        .push(Ins::LocalGet(5))
        .push(Ins::I32Const(4))
        .push(Ins::I32Add)
        .push(Ins::LocalGet(6))
        .push(Ins::I32Add)
        .push(Ins::LocalGet(1))
        .push(Ins::I32Const(4))
        .push(Ins::I32Add)
        .push(Ins::LocalGet(9))
        .push(Ins::MemoryCopy { src_mem: 0, dst_mem: 0 })
        .push(Ins::LocalGet(6))
        .push(Ins::LocalGet(9))
        .push(Ins::I32Add)
        .push(Ins::LocalSet(6))
        .push(Ins::End)
        .push(Ins::LocalGet(4))
        .push(Ins::I32Const(1))
        .push(Ins::I32Add)
        .push(Ins::LocalSet(4))
        .push(Ins::Br(0))
        .push(Ins::End)
        .push(Ins::End)
        .push(Ins::LocalGet(5))
        .push(Ins::End)
}

/// `(h, sep) -> str`: concatenate `list[str]` elements with `sep`.
pub(crate) fn join_body(rc_new: u32) -> (body: Body)
    ensures
        body.code@ == join_body_code(rc_new),
        body.locals@ == seq![(8u32, ValTy::I32)],
        body.valid(),
        body.params == 2,
{
    proof {
        reveal(join_body_code);
    }
    // locals: 2 = len, 3 = total, 4 = i, 5 = out, 6 = cursor, 7 = elem, 8 = n, 9 = slen.
    let mut f = Builder::new(2);
    f.declare(8, ValTy::I32);
    f.push(Ins::LocalGet(0));
    f.push(Ins::I32Load(m(0)));
    f.push(Ins::LocalSet(2));
    f.push(Ins::LocalGet(1));
    f.push(Ins::I32Load(m(0)));
    f.push(Ins::LocalSet(9));
    f.push(Ins::I32Const(0));
    f.push(Ins::LocalSet(3));
    f.push(Ins::I32Const(0));
    f.push(Ins::LocalSet(4));
    f.push(Ins::Block(BlockTy::Empty));
    f.push(Ins::Loop(BlockTy::Empty));
    f.push(Ins::LocalGet(4));
    f.push(Ins::LocalGet(2));
    f.push(Ins::I32GeU);
    f.push(Ins::BrIf(1));
    f.push(Ins::LocalGet(0));
    f.push(Ins::I32Load(m(12)));
    f.push(Ins::LocalGet(4));
    f.push(Ins::I32Const(8));
    f.push(Ins::I32Mul);
    f.push(Ins::I32Add);
    f.push(Ins::I32Load(m(0)));
    f.push(Ins::LocalSet(7));
    f.push(Ins::LocalGet(3));
    f.push(Ins::LocalGet(7));
    f.push(Ins::I32Load(m(0)));
    f.push(Ins::I32Add);
    f.push(Ins::LocalSet(3));
    f.push(Ins::LocalGet(4));
    f.push(Ins::I32Const(1));
    f.push(Ins::I32Add);
    f.push(Ins::LocalSet(4));
    f.push(Ins::Br(0));
    f.push(Ins::End);
    f.push(Ins::End);
    // add separators
    f.push(Ins::LocalGet(2));
    f.push(Ins::I32Eqz);
    f.push(Ins::If(BlockTy::Empty));
    f.push(Ins::Else);
    f.push(Ins::LocalGet(3));
    f.push(Ins::LocalGet(2));
    f.push(Ins::I32Const(1));
    f.push(Ins::I32Sub);
    f.push(Ins::LocalGet(9));
    f.push(Ins::I32Mul);
    f.push(Ins::I32Add);
    f.push(Ins::LocalSet(3));
    f.push(Ins::End);
    f.push(Ins::I32Const(4));
    f.push(Ins::LocalGet(3));
    f.push(Ins::I32Add);
    f.push(Ins::Call(rc_new));
    f.push(Ins::LocalSet(5));
    f.push(Ins::LocalGet(5));
    f.push(Ins::LocalGet(3));
    f.push(Ins::I32Store(m(0)));
    f.push(Ins::I32Const(0));
    f.push(Ins::LocalSet(6));
    f.push(Ins::I32Const(0));
    f.push(Ins::LocalSet(4));
    f.push(Ins::Block(BlockTy::Empty));
    f.push(Ins::Loop(BlockTy::Empty));
    f.push(Ins::LocalGet(4));
    f.push(Ins::LocalGet(2));
    f.push(Ins::I32GeU);
    f.push(Ins::BrIf(1));
    f.push(Ins::LocalGet(0));
    f.push(Ins::I32Load(m(12)));
    f.push(Ins::LocalGet(4));
    f.push(Ins::I32Const(8));
    f.push(Ins::I32Mul);
    f.push(Ins::I32Add);
    f.push(Ins::I32Load(m(0)));
    f.push(Ins::LocalSet(7));
    f.push(Ins::LocalGet(7));
    f.push(Ins::I32Load(m(0)));
    f.push(Ins::LocalSet(8));
    // copy element bytes to out+4+cursor
    f.push(Ins::LocalGet(5));
    f.push(Ins::I32Const(4));
    f.push(Ins::I32Add);
    f.push(Ins::LocalGet(6));
    f.push(Ins::I32Add);
    f.push(Ins::LocalGet(7));
    f.push(Ins::I32Const(4));
    f.push(Ins::I32Add);
    f.push(Ins::LocalGet(8));
    f.push(Ins::MemoryCopy {
        src_mem: 0,
        dst_mem: 0,
    });
    f.push(Ins::LocalGet(6));
    f.push(Ins::LocalGet(8));
    f.push(Ins::I32Add);
    f.push(Ins::LocalSet(6));
    // separator if not last
    f.push(Ins::LocalGet(4));
    f.push(Ins::I32Const(1));
    f.push(Ins::I32Add);
    f.push(Ins::LocalGet(2));
    f.push(Ins::I32LtU);
    f.push(Ins::If(BlockTy::Empty));
    f.push(Ins::LocalGet(5));
    f.push(Ins::I32Const(4));
    f.push(Ins::I32Add);
    f.push(Ins::LocalGet(6));
    f.push(Ins::I32Add);
    f.push(Ins::LocalGet(1));
    f.push(Ins::I32Const(4));
    f.push(Ins::I32Add);
    f.push(Ins::LocalGet(9));
    f.push(Ins::MemoryCopy {
        src_mem: 0,
        dst_mem: 0,
    });
    f.push(Ins::LocalGet(6));
    f.push(Ins::LocalGet(9));
    f.push(Ins::I32Add);
    f.push(Ins::LocalSet(6));
    f.push(Ins::End);
    f.push(Ins::LocalGet(4));
    f.push(Ins::I32Const(1));
    f.push(Ins::I32Add);
    f.push(Ins::LocalSet(4));
    f.push(Ins::Br(0));
    f.push(Ins::End);
    f.push(Ins::End);
    f.push(Ins::LocalGet(5));
    f.push(Ins::End);
    assert(f.locals() =~= seq![(8u32, ValTy::I32)]);
    f.finish()
}

/// `c` followed by the code that `clamp` emits.
#[verifier::opaque]
pub open spec fn clamp_code(c: Seq<Ins>, src: u32, len: u32, dest: u32) -> Seq<Ins> {
    c
        .push(Ins::LocalGet(src))
        .push(Ins::I32Const(0))
        .push(Ins::I32LtS)
        .push(Ins::If(BlockTy::Result(ValTy::I32)))
        .push(Ins::I32Const(0))
        .push(Ins::Else)
        .push(Ins::LocalGet(src))
        .push(Ins::LocalGet(len))
        .push(Ins::I32GtS)
        .push(Ins::If(BlockTy::Result(ValTy::I32)))
        .push(Ins::LocalGet(len))
        .push(Ins::Else)
        .push(Ins::LocalGet(src))
        .push(Ins::End)
        .push(Ins::End)
        .push(Ins::LocalSet(dest))
}

/// `local = clamp(local, 0, len_local)` (signed compares).
fn clamp(f: &mut Builder, src: u32, len: u32, dest: u32)
    requires
        old(f).wf(),
        old(f).frames().len() >= 1,
        dest < old(f).nlocals(),
        len < old(f).nlocals(),
        src < old(f).nlocals(),
    ensures
        final(f).code() == clamp_code(old(f).code(), src, len, dest),
        final(f).wf(),
        final(f).params() == old(f).params(),
        final(f).locals() == old(f).locals(),
        final(f).frames() == old(f).frames(),
{
    proof {
        reveal(clamp_code);
    }
    f.push(Ins::LocalGet(src));
    f.push(Ins::I32Const(0));
    f.push(Ins::I32LtS);
    f.push(Ins::If(BlockTy::Result(ValTy::I32)));
    f.push(Ins::I32Const(0));
    f.push(Ins::Else);
    f.push(Ins::LocalGet(src));
    f.push(Ins::LocalGet(len));
    f.push(Ins::I32GtS);
    f.push(Ins::If(BlockTy::Result(ValTy::I32)));
    f.push(Ins::LocalGet(len));
    f.push(Ins::Else);
    f.push(Ins::LocalGet(src));
    f.push(Ins::End);
    f.push(Ins::End);
    f.push(Ins::LocalSet(dest));
}


} // verus!
