//! Extra `map` runtime helpers for the wasm backend.
//!
//! A map handle points at `[len: i32][cap: i32][unused: i32][data: i32]`
//! (16-byte payload) after the eight-byte reference-count prefix; entries are
//! 16 bytes (key `i64`, value `i64`).
use vstd::prelude::*;
use crate::wasm::builder::{body_views, bodies_fit, signature_views, Body, Builder};
use crate::wasm::model::{m, BlockTy, Ins, ValTy};
use crate::wasm::rt_index as rt;

verus! {


/// Signatures of the extra `map` helpers, in offset order.
pub open spec fn map_signatures() -> Seq<(Seq<ValTy>, Seq<ValTy>)> {
    seq![
        (seq![ValTy::I32], seq![ValTy::I32]),
        (seq![ValTy::I32, ValTy::I32], Seq::<ValTy>::empty()),
    ]
}

/// Signatures of the extra `map` helpers, in offset order.
pub fn signatures() -> (sigs: Vec<(Vec<ValTy>, Vec<ValTy>)>)
    ensures
        signature_views(sigs@) == map_signatures(),
{
    let sigs = vec![
        (vec![ValTy::I32], vec![ValTy::I32]),
        (vec![ValTy::I32, ValTy::I32], vec![]),
    ];
    assert(signature_views(sigs@) =~~= map_signatures());
    sigs
}

/// The locals and code of each map helper, wired to the runtime at `base`, in offset order.
pub open spec fn map_body_views(base: u32) -> Seq<(Seq<(u32, ValTy)>, Seq<Ins>)> {
    let alloc = rt::wired(base, rt::ALLOC);
    seq![
        (Seq::<(u32, ValTy)>::empty(), capacity_body_code()),
        (seq![(3u32, ValTy::I32)], reserve_body_code((alloc))),
    ]
}

/// The extra `map` helper bodies, in offset order.
pub fn bodies(base: u32) -> (bodies: Vec<Body>)
    requires
        base + rt::COUNT <= u32::MAX,
    ensures
        body_views(bodies@) == map_body_views(base),
        bodies_fit(bodies@, map_signatures()),
{
    let alloc = base + rt::ALLOC;
    let bodies = vec![capacity_body(), reserve_body(alloc)];
    assert(bodies_fit(bodies@, map_signatures()));
    assert(body_views(bodies@) =~= map_body_views(base));
    bodies
}

/// The code that `capacity_body` emits.
#[verifier::opaque]
pub open spec fn capacity_body_code() -> Seq<Ins> {
    let c = Seq::<Ins>::empty();
    c
        .push(Ins::LocalGet(0))
        .push(Ins::I32Load(m(4)))
        .push(Ins::End)
}

pub(crate) fn capacity_body() -> (body: Body)
    ensures
        body.code@ == capacity_body_code(),
        body.locals@ == Seq::<(u32, ValTy)>::empty(),
        body.valid(),
        body.params == 1,
{
    proof {
        reveal(capacity_body_code);
    }
    let mut f = Builder::new(1);
    f.push(Ins::LocalGet(0));
    f.push(Ins::I32Load(m(4)));
    f.push(Ins::End);
    f.finish()
}

/// The code that `reserve_body` emits.
#[verifier::opaque]
pub open spec fn reserve_body_code(alloc: u32) -> Seq<Ins> {
    let c = Seq::<Ins>::empty();
    c
        .push(Ins::LocalGet(0))
        .push(Ins::I32Load(m(4)))
        .push(Ins::LocalSet(2))
        .push(Ins::LocalGet(1))
        .push(Ins::LocalGet(2))
        .push(Ins::I32LeU)
        .push(Ins::If(BlockTy::Empty))
        .push(Ins::Return)
        .push(Ins::End)
        .push(Ins::LocalGet(0))
        .push(Ins::I32Load(m(0)))
        .push(Ins::LocalSet(3))
        .push(Ins::LocalGet(1))
        .push(Ins::I32Const(16))
        .push(Ins::I32Mul)
        .push(Ins::Call(alloc))
        .push(Ins::LocalSet(4))
        .push(Ins::LocalGet(4))
        .push(Ins::LocalGet(0))
        .push(Ins::I32Load(m(12)))
        .push(Ins::LocalGet(3))
        .push(Ins::I32Const(16))
        .push(Ins::I32Mul)
        .push(Ins::MemoryCopy { src_mem: 0, dst_mem: 0 })
        .push(Ins::LocalGet(0))
        .push(Ins::LocalGet(1))
        .push(Ins::I32Store(m(4)))
        .push(Ins::LocalGet(0))
        .push(Ins::LocalGet(4))
        .push(Ins::I32Store(m(12)))
        .push(Ins::End)
}

pub(crate) fn reserve_body(alloc: u32) -> (body: Body)
    ensures
        body.code@ == reserve_body_code(alloc),
        body.locals@ == seq![(3u32, ValTy::I32)],
        body.valid(),
        body.params == 2,
{
    proof {
        reveal(reserve_body_code);
    }
    // locals: 2 = cap, 3 = len, 4 = data.
    let mut f = Builder::new(2);
    f.declare(3, ValTy::I32);
    f.push(Ins::LocalGet(0));
    f.push(Ins::I32Load(m(4)));
    f.push(Ins::LocalSet(2));
    f.push(Ins::LocalGet(1));
    f.push(Ins::LocalGet(2));
    f.push(Ins::I32LeU);
    f.push(Ins::If(BlockTy::Empty));
    f.push(Ins::Return);
    f.push(Ins::End);
    f.push(Ins::LocalGet(0));
    f.push(Ins::I32Load(m(0)));
    f.push(Ins::LocalSet(3));
    f.push(Ins::LocalGet(1));
    f.push(Ins::I32Const(16));
    f.push(Ins::I32Mul);
    f.push(Ins::Call(alloc));
    f.push(Ins::LocalSet(4));
    f.push(Ins::LocalGet(4));
    f.push(Ins::LocalGet(0));
    f.push(Ins::I32Load(m(12)));
    f.push(Ins::LocalGet(3));
    f.push(Ins::I32Const(16));
    f.push(Ins::I32Mul);
    f.push(Ins::MemoryCopy {
        src_mem: 0,
        dst_mem: 0,
    });
    f.push(Ins::LocalGet(0));
    f.push(Ins::LocalGet(1));
    f.push(Ins::I32Store(m(4)));
    f.push(Ins::LocalGet(0));
    f.push(Ins::LocalGet(4));
    f.push(Ins::I32Store(m(12)));
    f.push(Ins::End);
    assert(f.locals() =~= seq![(3u32, ValTy::I32)]);
    f.finish()
}


} // verus!
