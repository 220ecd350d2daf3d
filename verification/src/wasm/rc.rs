//! Reference counting and copy-on-write helpers for the wasm managed runtime.
//!
//! Managed objects (string, bytes, list, map) are allocated with an eight-byte
//! prefix: the `i32` reference count at `handle - 8`, and the payload at
//! `handle`. `*_retain` increments the count, `*_release` decrements it and runs
//! element destruction at zero, and `make_unique` returns a clone when the
//! object is shared so an in-place mutation cannot alias another binding.
//!
//! Compound objects store an element *kind code* (see [`KIND_STRING`] etc.) so
//! element retain/release can dispatch without a per-type callback table.
use vstd::prelude::*;
use crate::wasm::builder::{body_views, bodies_fit, signature_views, Body, Builder};
use crate::wasm::model::{m, BlockTy, Ins, ValTy};
use crate::wasm::rt_index as rt;

verus! {

/// Element ownership kind codes stored in collection headers.
pub const KIND_NONE: i32 = 0;
pub const KIND_STRING: i32 = 1;
pub const KIND_BYTES: i32 = 2;
pub const KIND_LIST: i32 = 3;
pub const KIND_MAP: i32 = 4;
pub const KIND_FLOAT: i32 = 5;

/// Signatures of the reference-counting helpers, in offset order.
pub open spec fn rc_signatures() -> Seq<(Seq<ValTy>, Seq<ValTy>)> {
    seq![
        (seq![ValTy::I32], seq![ValTy::I32]),
        (seq![ValTy::I32], seq![ValTy::I32]),
        (seq![ValTy::I32], Seq::<ValTy>::empty()),
        (seq![ValTy::I32], Seq::<ValTy>::empty()),
        (seq![ValTy::I32], Seq::<ValTy>::empty()),
        (seq![ValTy::I32], Seq::<ValTy>::empty()),
        (seq![ValTy::I32], seq![ValTy::I32]),
        (seq![ValTy::I32], Seq::<ValTy>::empty()),
        (seq![ValTy::I32], Seq::<ValTy>::empty()),
        (seq![ValTy::I32], seq![ValTy::I32]),
        (seq![ValTy::I32], Seq::<ValTy>::empty()),
        (seq![ValTy::I32], Seq::<ValTy>::empty()),
        (seq![ValTy::I32, ValTy::I32], Seq::<ValTy>::empty()),
        (seq![ValTy::I32, ValTy::I32], Seq::<ValTy>::empty()),
    ]
}

/// Signatures of the reference-counting helpers, in offset order.
pub fn signatures() -> (sigs: Vec<(Vec<ValTy>, Vec<ValTy>)>)
    ensures
        signature_views(sigs@) == rc_signatures(),
{
    let sigs = vec![
        (vec![ValTy::I32], vec![ValTy::I32]),
        (vec![ValTy::I32], vec![ValTy::I32]),
        (vec![ValTy::I32], vec![]),
        (vec![ValTy::I32], vec![]),
        (vec![ValTy::I32], vec![]),
        (vec![ValTy::I32], vec![]),
        (vec![ValTy::I32], vec![ValTy::I32]),
        (vec![ValTy::I32], vec![]),
        (vec![ValTy::I32], vec![]),
        (vec![ValTy::I32], vec![ValTy::I32]),
        (vec![ValTy::I32], vec![]),
        (vec![ValTy::I32], vec![]),
        (vec![ValTy::I32, ValTy::I32], vec![]),
        (vec![ValTy::I32, ValTy::I32], vec![]),
    ];
    assert(signature_views(sigs@) =~~= rc_signatures());
    sigs
}

/// The locals and code of each reference-counting helper, wired to the runtime at `base`, in offset order.
pub open spec fn rc_body_views(base: u32) -> Seq<(Seq<(u32, ValTy)>, Seq<Ins>)> {
    let alloc = rt::wired(base, rt::ALLOC);
    let rc_new = rt::wired(base, rt::RC_NEW);
    let str_retain = rt::wired(base, rt::STR_RETAIN);
    let str_release = rt::wired(base, rt::STR_RELEASE);
    let bytes_retain = rt::wired(base, rt::BYTES_RETAIN);
    let bytes_release = rt::wired(base, rt::BYTES_RELEASE);
    let list_retain = rt::wired(base, rt::LIST_RETAIN);
    let list_release = rt::wired(base, rt::LIST_RELEASE);
    let map_retain = rt::wired(base, rt::MAP_RETAIN);
    let map_release = rt::wired(base, rt::MAP_RELEASE);
    let elem_retain = rt::wired(base, rt::ELEM_RETAIN);
    let elem_release = rt::wired(base, rt::ELEM_RELEASE);
    seq![
        (seq![(2u32, ValTy::I32)], rc_new_body_code((alloc))),
        (seq![(2u32, ValTy::I32)], str_from_static_body_code((rc_new))),
        (Seq::<(u32, ValTy)>::empty(), inc_ref_body_code()),
        (seq![(1u32, ValTy::I32)], simple_release_body_code()),
        (Seq::<(u32, ValTy)>::empty(), inc_ref_body_code()),
        (seq![(1u32, ValTy::I32)], simple_release_body_code()),
        (seq![(4u32, ValTy::I32)], bytes_make_unique_body_code((rc_new), (alloc))),
        (Seq::<(u32, ValTy)>::empty(), inc_ref_body_code()),
        (seq![(5u32, ValTy::I32)], list_release_body_code((elem_release))),
        (seq![(6u32, ValTy::I32)], list_make_unique_body_code((rc_new), (alloc), (elem_retain))),
        (Seq::<(u32, ValTy)>::empty(), inc_ref_body_code()),
        (seq![(1u32, ValTy::I32)], simple_release_body_code()),
        (Seq::<(u32, ValTy)>::empty(), elem_dispatch_body_code((str_retain), (bytes_retain), (list_retain), (map_retain))),
        (Seq::<(u32, ValTy)>::empty(), elem_dispatch_body_code((str_release), (bytes_release), (list_release), (map_release))),
    ]
}

/// Helper bodies in offset order, referencing the shared runtime by `base`.
pub fn bodies(base: u32) -> (bodies: Vec<Body>)
    requires
        base + rt::COUNT <= u32::MAX,
    ensures
        body_views(bodies@) == rc_body_views(base),
        bodies_fit(bodies@, rc_signatures()),
{
    let alloc = base + rt::ALLOC;
    let rc_new = base + rt::RC_NEW;
    let str_retain = base + rt::STR_RETAIN;
    let str_release = base + rt::STR_RELEASE;
    let bytes_retain = base + rt::BYTES_RETAIN;
    let bytes_release = base + rt::BYTES_RELEASE;
    let list_retain = base + rt::LIST_RETAIN;
    let list_release = base + rt::LIST_RELEASE;
    let map_retain = base + rt::MAP_RETAIN;
    let map_release = base + rt::MAP_RELEASE;
    let elem_retain = base + rt::ELEM_RETAIN;
    let elem_release = base + rt::ELEM_RELEASE;
    let bodies = vec![
        rc_new_body(alloc),
        str_from_static_body(rc_new),
        inc_ref_body(),
        simple_release_body(),
        inc_ref_body(),
        simple_release_body(),
        bytes_make_unique_body(rc_new, alloc),
        inc_ref_body(),
        list_release_body(elem_release),
        list_make_unique_body(rc_new, alloc, elem_retain),
        inc_ref_body(),
        simple_release_body(),
        elem_dispatch_body(str_retain, bytes_retain, list_retain, map_retain),
        elem_dispatch_body(str_release, bytes_release, list_release, map_release),
    ];
    assert(bodies_fit(bodies@, rc_signatures()));
    assert(body_views(bodies@) =~= rc_body_views(base));
    bodies
}

/// The code that `rc_new_body` emits.
#[verifier::opaque]
pub open spec fn rc_new_body_code(alloc: u32) -> Seq<Ins> {
    let c = Seq::<Ins>::empty();
    c
        .push(Ins::LocalGet(0))
        .push(Ins::I32Const(8))
        .push(Ins::I32Add)
        .push(Ins::LocalSet(1))
        .push(Ins::LocalGet(1))
        .push(Ins::Call(alloc))
        .push(Ins::LocalSet(2))
        .push(Ins::LocalGet(2))
        .push(Ins::I32Const(1))
        .push(Ins::I32Store(m(0)))
        .push(Ins::LocalGet(2))
        .push(Ins::I32Const(8))
        .push(Ins::I32Add)
        .push(Ins::End)
}

pub(crate) fn rc_new_body(alloc: u32) -> (body: Body)
    ensures
        body.code@ == rc_new_body_code(alloc),
        body.locals@ == seq![(2u32, ValTy::I32)],
        body.valid(),
        body.params == 1,
{
    proof {
        reveal(rc_new_body_code);
    }
    let mut f = Builder::new(1);
    f.declare(2, ValTy::I32);
    f.push(Ins::LocalGet(0));
    f.push(Ins::I32Const(8));
    f.push(Ins::I32Add);
    f.push(Ins::LocalSet(1));
    f.push(Ins::LocalGet(1));
    f.push(Ins::Call(alloc));
    f.push(Ins::LocalSet(2));
    f.push(Ins::LocalGet(2));
    f.push(Ins::I32Const(1));
    f.push(Ins::I32Store(m(0)));
    f.push(Ins::LocalGet(2));
    f.push(Ins::I32Const(8));
    f.push(Ins::I32Add);
    f.push(Ins::End);
    assert(f.locals() =~= seq![(2u32, ValTy::I32)]);
    f.finish()
}

/// The code that `str_from_static_body` emits.
#[verifier::opaque]
pub open spec fn str_from_static_body_code(rc_new: u32) -> Seq<Ins> {
    let c = Seq::<Ins>::empty();
    c
        .push(Ins::LocalGet(0))
        .push(Ins::I32Load(m(0)))
        .push(Ins::LocalSet(1))
        .push(Ins::LocalGet(1))
        .push(Ins::I32Const(4))
        .push(Ins::I32Add)
        .push(Ins::Call(rc_new))
        .push(Ins::LocalSet(2))
        .push(Ins::LocalGet(2))
        .push(Ins::LocalGet(1))
        .push(Ins::I32Store(m(0)))
        .push(Ins::LocalGet(2))
        .push(Ins::I32Const(4))
        .push(Ins::I32Add)
        .push(Ins::LocalGet(0))
        .push(Ins::I32Const(4))
        .push(Ins::I32Add)
        .push(Ins::LocalGet(1))
        .push(Ins::MemoryCopy { src_mem: 0, dst_mem: 0 })
        .push(Ins::LocalGet(2))
        .push(Ins::End)
}

/// `(static_addr: i32) -> handle`: copies a `[len][bytes]` literal to a new
/// reference-counted string.
pub(crate) fn str_from_static_body(rc_new: u32) -> (body: Body)
    ensures
        body.code@ == str_from_static_body_code(rc_new),
        body.locals@ == seq![(2u32, ValTy::I32)],
        body.valid(),
        body.params == 1,
{
    proof {
        reveal(str_from_static_body_code);
    }
    let mut f = Builder::new(1);
    f.declare(2, ValTy::I32);
    f.push(Ins::LocalGet(0));
    f.push(Ins::I32Load(m(0)));
    f.push(Ins::LocalSet(1));
    f.push(Ins::LocalGet(1));
    f.push(Ins::I32Const(4));
    f.push(Ins::I32Add);
    f.push(Ins::Call(rc_new));
    f.push(Ins::LocalSet(2));
    f.push(Ins::LocalGet(2));
    f.push(Ins::LocalGet(1));
    f.push(Ins::I32Store(m(0)));
    f.push(Ins::LocalGet(2));
    f.push(Ins::I32Const(4));
    f.push(Ins::I32Add);
    f.push(Ins::LocalGet(0));
    f.push(Ins::I32Const(4));
    f.push(Ins::I32Add);
    f.push(Ins::LocalGet(1));
    f.push(Ins::MemoryCopy {
        src_mem: 0,
        dst_mem: 0,
    });
    f.push(Ins::LocalGet(2));
    f.push(Ins::End);
    assert(f.locals() =~= seq![(2u32, ValTy::I32)]);
    f.finish()
}

/// The code that `inc_ref_body` emits.
#[verifier::opaque]
pub open spec fn inc_ref_body_code() -> Seq<Ins> {
    let c = Seq::<Ins>::empty();
    let c = push_refcount_addr_code(c);
    let c = push_refcount_code(c);
    c
        .push(Ins::I32Const(1))
        .push(Ins::I32Add)
        .push(Ins::I32Store(m(0)))
        .push(Ins::End)
}

/// `(h: i32) -> ()`: increments the reference count at `h - 8`.
pub(crate) fn inc_ref_body() -> (body: Body)
    ensures
        body.code@ == inc_ref_body_code(),
        body.locals@ == Seq::<(u32, ValTy)>::empty(),
        body.valid(),
        body.params == 1,
{
    proof {
        reveal(inc_ref_body_code);
    }
    let mut f = Builder::new(1);
    push_refcount_addr(&mut f);
    push_refcount(&mut f);
    f.push(Ins::I32Const(1));
    f.push(Ins::I32Add);
    f.push(Ins::I32Store(m(0)));
    f.push(Ins::End);
    f.finish()
}

/// The code that `simple_release_body` emits.
#[verifier::opaque]
pub open spec fn simple_release_body_code() -> Seq<Ins> {
    let c = Seq::<Ins>::empty();
    let c = push_dec_ref_code(c, 1);
    c
        .push(Ins::Drop)
        .push(Ins::End)
}

/// `(h: i32) -> ()`: decrements the reference count at `h - 8`.
pub(crate) fn simple_release_body() -> (body: Body)
    ensures
        body.code@ == simple_release_body_code(),
        body.locals@ == seq![(1u32, ValTy::I32)],
        body.valid(),
        body.params == 1,
{
    proof {
        reveal(simple_release_body_code);
    }
    let mut f = Builder::new(1);
    f.declare(1, ValTy::I32);
    push_dec_ref(&mut f, 1);
    f.push(Ins::Drop);
    f.push(Ins::End);
    assert(f.locals() =~= seq![(1u32, ValTy::I32)]);
    f.finish()
}

/// The code that `list_release_body` emits.
#[verifier::opaque]
pub open spec fn list_release_body_code(elem_release: u32) -> Seq<Ins> {
    let c = Seq::<Ins>::empty();
    let c = push_dec_ref_code(c, 1);
    c
        .push(Ins::If(BlockTy::Empty))
        .push(Ins::LocalGet(0))
        .push(Ins::I32Load(m(12)))
        .push(Ins::LocalSet(3))
        .push(Ins::LocalGet(0))
        .push(Ins::I32Load(m(8)))
        .push(Ins::LocalSet(4))
        .push(Ins::LocalGet(0))
        .push(Ins::I32Load(m(0)))
        .push(Ins::LocalSet(5))
        .push(Ins::I32Const(0))
        .push(Ins::LocalSet(2))
        .push(Ins::Block(BlockTy::Empty))
        .push(Ins::Loop(BlockTy::Empty))
        .push(Ins::LocalGet(2))
        .push(Ins::LocalGet(5))
        .push(Ins::I32GeU)
        .push(Ins::BrIf(1))
        .push(Ins::LocalGet(4))
        .push(Ins::LocalGet(3))
        .push(Ins::LocalGet(2))
        .push(Ins::I32Const(8))
        .push(Ins::I32Mul)
        .push(Ins::I32Add)
        .push(Ins::Call(elem_release))
        .push(Ins::LocalGet(2))
        .push(Ins::I32Const(1))
        .push(Ins::I32Add)
        .push(Ins::LocalSet(2))
        .push(Ins::Br(0))
        .push(Ins::End)
        .push(Ins::End)
        .push(Ins::End)
        .push(Ins::End)
}

/// `(h: i32) -> ()`: decrements a list refcount and destroys its elements when
/// the count reaches zero. Locals: 1 = count, 2 = i, 3 = data, 4 = kind, 5 = len.
pub(crate) fn list_release_body(elem_release: u32) -> (body: Body)
    ensures
        body.code@ == list_release_body_code(elem_release),
        body.locals@ == seq![(5u32, ValTy::I32)],
        body.valid(),
        body.params == 1,
{
    proof {
        reveal(list_release_body_code);
    }
    let mut f = Builder::new(1);
    f.declare(5, ValTy::I32);
    push_dec_ref(&mut f, 1);
    f.push(Ins::If(BlockTy::Empty));
    f.push(Ins::LocalGet(0));
    f.push(Ins::I32Load(m(12)));
    f.push(Ins::LocalSet(3));
    f.push(Ins::LocalGet(0));
    f.push(Ins::I32Load(m(8)));
    f.push(Ins::LocalSet(4));
    f.push(Ins::LocalGet(0));
    f.push(Ins::I32Load(m(0)));
    f.push(Ins::LocalSet(5));
    f.push(Ins::I32Const(0));
    f.push(Ins::LocalSet(2));
    f.push(Ins::Block(BlockTy::Empty));
    f.push(Ins::Loop(BlockTy::Empty));
    f.push(Ins::LocalGet(2));
    f.push(Ins::LocalGet(5));
    f.push(Ins::I32GeU);
    f.push(Ins::BrIf(1));
    f.push(Ins::LocalGet(4));
    f.push(Ins::LocalGet(3));
    f.push(Ins::LocalGet(2));
    f.push(Ins::I32Const(8));
    f.push(Ins::I32Mul);
    f.push(Ins::I32Add);
    f.push(Ins::Call(elem_release));
    f.push(Ins::LocalGet(2));
    f.push(Ins::I32Const(1));
    f.push(Ins::I32Add);
    f.push(Ins::LocalSet(2));
    f.push(Ins::Br(0));
    f.push(Ins::End);
    f.push(Ins::End);
    f.push(Ins::End);
    f.push(Ins::End);
    assert(f.locals() =~= seq![(5u32, ValTy::I32)]);
    f.finish()
}

/// The code that `elem_dispatch_body` emits.
#[verifier::opaque]
pub open spec fn elem_dispatch_body_code(string: u32, bytes: u32, list: u32, map: u32) -> Seq<Ins> {
    let c = Seq::<Ins>::empty();
    let c = c
        .push(Ins::LocalGet(0))
        .push(Ins::I32Const(KIND_STRING))
        .push(Ins::I32Eq)
        .push(Ins::If(BlockTy::Empty));
    let c = call_slot_code(c, string);
    let c = c
        .push(Ins::Else)
        .push(Ins::LocalGet(0))
        .push(Ins::I32Const(KIND_BYTES))
        .push(Ins::I32Eq)
        .push(Ins::If(BlockTy::Empty));
    let c = call_slot_code(c, bytes);
    let c = c
        .push(Ins::Else)
        .push(Ins::LocalGet(0))
        .push(Ins::I32Const(KIND_LIST))
        .push(Ins::I32Eq)
        .push(Ins::If(BlockTy::Empty));
    let c = call_slot_code(c, list);
    let c = c
        .push(Ins::Else)
        .push(Ins::LocalGet(0))
        .push(Ins::I32Const(KIND_MAP))
        .push(Ins::I32Eq)
        .push(Ins::If(BlockTy::Empty));
    let c = call_slot_code(c, map);
    c
        .push(Ins::End)
        .push(Ins::End)
        .push(Ins::End)
        .push(Ins::End)
        .push(Ins::End)
}

/// `(kind: i32, slot: i32) -> ()`: dispatches element retain/release by kind.
pub(crate) fn elem_dispatch_body(string: u32, bytes: u32, list: u32, map: u32) -> (body: Body)
    ensures
        body.code@ == elem_dispatch_body_code(string, bytes, list, map),
        body.locals@ == Seq::<(u32, ValTy)>::empty(),
        body.valid(),
        body.params == 2,
{
    proof {
        reveal(elem_dispatch_body_code);
    }
    let mut f = Builder::new(2);
    f.push(Ins::LocalGet(0));
    f.push(Ins::I32Const(KIND_STRING));
    f.push(Ins::I32Eq);
    f.push(Ins::If(BlockTy::Empty));
    call_slot(&mut f, string);
    f.push(Ins::Else);
    f.push(Ins::LocalGet(0));
    f.push(Ins::I32Const(KIND_BYTES));
    f.push(Ins::I32Eq);
    f.push(Ins::If(BlockTy::Empty));
    call_slot(&mut f, bytes);
    f.push(Ins::Else);
    f.push(Ins::LocalGet(0));
    f.push(Ins::I32Const(KIND_LIST));
    f.push(Ins::I32Eq);
    f.push(Ins::If(BlockTy::Empty));
    call_slot(&mut f, list);
    f.push(Ins::Else);
    f.push(Ins::LocalGet(0));
    f.push(Ins::I32Const(KIND_MAP));
    f.push(Ins::I32Eq);
    f.push(Ins::If(BlockTy::Empty));
    call_slot(&mut f, map);
    f.push(Ins::End);
    f.push(Ins::End);
    f.push(Ins::End);
    f.push(Ins::End);
    f.push(Ins::End);
    f.finish()
}

/// The code that `bytes_make_unique_body` emits.
#[verifier::opaque]
pub open spec fn bytes_make_unique_body_code(rc_new: u32, alloc: u32) -> Seq<Ins> {
    let c = Seq::<Ins>::empty();
    let c = push_is_unique_code(c);
    let c = c
        .push(Ins::If(BlockTy::Result(ValTy::I32)))
        .push(Ins::LocalGet(0))
        .push(Ins::Else)
        .push(Ins::LocalGet(0))
        .push(Ins::I32Load(m(0)))
        .push(Ins::LocalSet(1))
        .push(Ins::I32Const(16))
        .push(Ins::Call(rc_new))
        .push(Ins::LocalSet(2))
        .push(Ins::LocalGet(2))
        .push(Ins::LocalGet(1))
        .push(Ins::I32Store(m(0)))
        .push(Ins::LocalGet(2))
        .push(Ins::LocalGet(1))
        .push(Ins::I32Store(m(4)))
        .push(Ins::LocalGet(1))
        .push(Ins::Call(alloc))
        .push(Ins::LocalSet(3))
        .push(Ins::LocalGet(2))
        .push(Ins::LocalGet(3))
        .push(Ins::I32Store(m(12)))
        .push(Ins::LocalGet(3))
        .push(Ins::LocalGet(0))
        .push(Ins::I32Load(m(12)))
        .push(Ins::LocalGet(1))
        .push(Ins::MemoryCopy { src_mem: 0, dst_mem: 0 });
    let c = push_dec_ref_code(c, 4);
    c
        .push(Ins::Drop)
        .push(Ins::LocalGet(2))
        .push(Ins::End)
        .push(Ins::End)
}

/// `(h: i32) -> handle`: clones shared bytes, otherwise returns `h`.
pub(crate) fn bytes_make_unique_body(rc_new: u32, alloc: u32) -> (body: Body)
    ensures
        body.code@ == bytes_make_unique_body_code(rc_new, alloc),
        body.locals@ == seq![(4u32, ValTy::I32)],
        body.valid(),
        body.params == 1,
{
    proof {
        reveal(bytes_make_unique_body_code);
    }
    // locals: 1 = len, 2 = new, 3 = data, 4 = count.
    let mut f = Builder::new(1);
    f.declare(4, ValTy::I32);
    push_is_unique(&mut f);
    f.push(Ins::If(BlockTy::Result(ValTy::I32)));
    f.push(Ins::LocalGet(0));
    f.push(Ins::Else);
    f.push(Ins::LocalGet(0));
    f.push(Ins::I32Load(m(0)));
    f.push(Ins::LocalSet(1));
    f.push(Ins::I32Const(16));
    f.push(Ins::Call(rc_new));
    f.push(Ins::LocalSet(2));
    f.push(Ins::LocalGet(2));
    f.push(Ins::LocalGet(1));
    f.push(Ins::I32Store(m(0)));
    f.push(Ins::LocalGet(2));
    f.push(Ins::LocalGet(1));
    f.push(Ins::I32Store(m(4)));
    f.push(Ins::LocalGet(1));
    f.push(Ins::Call(alloc));
    f.push(Ins::LocalSet(3));
    f.push(Ins::LocalGet(2));
    f.push(Ins::LocalGet(3));
    f.push(Ins::I32Store(m(12)));
    f.push(Ins::LocalGet(3));
    f.push(Ins::LocalGet(0));
    f.push(Ins::I32Load(m(12)));
    f.push(Ins::LocalGet(1));
    f.push(Ins::MemoryCopy {
        src_mem: 0,
        dst_mem: 0,
    });
    push_dec_ref(&mut f, 4);
    f.push(Ins::Drop);
    f.push(Ins::LocalGet(2));
    f.push(Ins::End);
    f.push(Ins::End);
    assert(f.locals() =~= seq![(4u32, ValTy::I32)]);
    f.finish()
}

/// The code that `list_make_unique_body` emits.
#[verifier::opaque]
pub open spec fn list_make_unique_body_code(rc_new: u32, alloc: u32, elem_retain: u32) -> Seq<Ins> {
    let c = Seq::<Ins>::empty();
    let c = push_is_unique_code(c);
    let c = c
        .push(Ins::If(BlockTy::Result(ValTy::I32)))
        .push(Ins::LocalGet(0))
        .push(Ins::Else)
        .push(Ins::LocalGet(0))
        .push(Ins::I32Load(m(0)))
        .push(Ins::LocalSet(1))
        .push(Ins::LocalGet(0))
        .push(Ins::I32Load(m(8)))
        .push(Ins::LocalSet(2))
        .push(Ins::I32Const(16))
        .push(Ins::Call(rc_new))
        .push(Ins::LocalSet(3))
        .push(Ins::LocalGet(3))
        .push(Ins::LocalGet(1))
        .push(Ins::I32Store(m(0)))
        .push(Ins::LocalGet(3))
        .push(Ins::LocalGet(1))
        .push(Ins::I32Store(m(4)))
        .push(Ins::LocalGet(3))
        .push(Ins::LocalGet(2))
        .push(Ins::I32Store(m(8)))
        .push(Ins::LocalGet(1))
        .push(Ins::I32Const(8))
        .push(Ins::I32Mul)
        .push(Ins::Call(alloc))
        .push(Ins::LocalSet(4))
        .push(Ins::LocalGet(3))
        .push(Ins::LocalGet(4))
        .push(Ins::I32Store(m(12)))
        .push(Ins::LocalGet(4))
        .push(Ins::LocalGet(0))
        .push(Ins::I32Load(m(12)))
        .push(Ins::LocalGet(1))
        .push(Ins::I32Const(8))
        .push(Ins::I32Mul)
        .push(Ins::MemoryCopy { src_mem: 0, dst_mem: 0 })
        .push(Ins::I32Const(0))
        .push(Ins::LocalSet(5))
        .push(Ins::Block(BlockTy::Empty))
        .push(Ins::Loop(BlockTy::Empty))
        .push(Ins::LocalGet(5))
        .push(Ins::LocalGet(1))
        .push(Ins::I32GeU)
        .push(Ins::BrIf(1))
        .push(Ins::LocalGet(2))
        .push(Ins::LocalGet(4))
        .push(Ins::LocalGet(5))
        .push(Ins::I32Const(8))
        .push(Ins::I32Mul)
        .push(Ins::I32Add)
        .push(Ins::Call(elem_retain))
        .push(Ins::LocalGet(5))
        .push(Ins::I32Const(1))
        .push(Ins::I32Add)
        .push(Ins::LocalSet(5))
        .push(Ins::Br(0))
        .push(Ins::End)
        .push(Ins::End);
    let c = push_dec_ref_code(c, 6);
    c
        .push(Ins::Drop)
        .push(Ins::LocalGet(3))
        .push(Ins::End)
        .push(Ins::End)
}

/// `(h: i32) -> handle`: clones a shared list, retaining every element.
pub(crate) fn list_make_unique_body(rc_new: u32, alloc: u32, elem_retain: u32) -> (body: Body)
    ensures
        body.code@ == list_make_unique_body_code(rc_new, alloc, elem_retain),
        body.locals@ == seq![(6u32, ValTy::I32)],
        body.valid(),
        body.params == 1,
{
    proof {
        reveal(list_make_unique_body_code);
    }
    // locals: 1 = len, 2 = kind, 3 = new, 4 = data, 5 = i, 6 = count.
    let mut f = Builder::new(1);
    f.declare(6, ValTy::I32);
    push_is_unique(&mut f);
    f.push(Ins::If(BlockTy::Result(ValTy::I32)));
    f.push(Ins::LocalGet(0));
    f.push(Ins::Else);
    f.push(Ins::LocalGet(0));
    f.push(Ins::I32Load(m(0)));
    f.push(Ins::LocalSet(1));
    f.push(Ins::LocalGet(0));
    f.push(Ins::I32Load(m(8)));
    f.push(Ins::LocalSet(2));
    f.push(Ins::I32Const(16));
    f.push(Ins::Call(rc_new));
    f.push(Ins::LocalSet(3));
    f.push(Ins::LocalGet(3));
    f.push(Ins::LocalGet(1));
    f.push(Ins::I32Store(m(0)));
    f.push(Ins::LocalGet(3));
    f.push(Ins::LocalGet(1));
    f.push(Ins::I32Store(m(4)));
    f.push(Ins::LocalGet(3));
    f.push(Ins::LocalGet(2));
    f.push(Ins::I32Store(m(8)));
    f.push(Ins::LocalGet(1));
    f.push(Ins::I32Const(8));
    f.push(Ins::I32Mul);
    f.push(Ins::Call(alloc));
    f.push(Ins::LocalSet(4));
    f.push(Ins::LocalGet(3));
    f.push(Ins::LocalGet(4));
    f.push(Ins::I32Store(m(12)));
    f.push(Ins::LocalGet(4));
    f.push(Ins::LocalGet(0));
    f.push(Ins::I32Load(m(12)));
    f.push(Ins::LocalGet(1));
    f.push(Ins::I32Const(8));
    f.push(Ins::I32Mul);
    f.push(Ins::MemoryCopy {
        src_mem: 0,
        dst_mem: 0,
    });
    f.push(Ins::I32Const(0));
    f.push(Ins::LocalSet(5));
    f.push(Ins::Block(BlockTy::Empty));
    f.push(Ins::Loop(BlockTy::Empty));
    f.push(Ins::LocalGet(5));
    f.push(Ins::LocalGet(1));
    f.push(Ins::I32GeU);
    f.push(Ins::BrIf(1));
    f.push(Ins::LocalGet(2));
    f.push(Ins::LocalGet(4));
    f.push(Ins::LocalGet(5));
    f.push(Ins::I32Const(8));
    f.push(Ins::I32Mul);
    f.push(Ins::I32Add);
    f.push(Ins::Call(elem_retain));
    f.push(Ins::LocalGet(5));
    f.push(Ins::I32Const(1));
    f.push(Ins::I32Add);
    f.push(Ins::LocalSet(5));
    f.push(Ins::Br(0));
    f.push(Ins::End);
    f.push(Ins::End);
    push_dec_ref(&mut f, 6);
    f.push(Ins::Drop);
    f.push(Ins::LocalGet(3));
    f.push(Ins::End);
    f.push(Ins::End);
    assert(f.locals() =~= seq![(6u32, ValTy::I32)]);
    f.finish()
}

/// `c` followed by the code that `call_slot` emits.
#[verifier::opaque]
pub open spec fn call_slot_code(c: Seq<Ins>, target: u32) -> Seq<Ins> {
    c
        .push(Ins::LocalGet(1))
        .push(Ins::I32Load(m(0)))
        .push(Ins::Call(target))
}

fn call_slot(f: &mut Builder, target: u32)
    requires
        old(f).wf(),
        old(f).frames().len() >= 1,
        old(f).nlocals() >= 2,
    ensures
        final(f).code() == call_slot_code(old(f).code(), target),
        final(f).wf(),
        final(f).params() == old(f).params(),
        final(f).locals() == old(f).locals(),
        final(f).frames() == old(f).frames(),
{
    proof {
        reveal(call_slot_code);
    }
    f.push(Ins::LocalGet(1));
    f.push(Ins::I32Load(m(0)));
    f.push(Ins::Call(target));
}

/// `c` followed by the code that `push_is_unique` emits.
#[verifier::opaque]
pub open spec fn push_is_unique_code(c: Seq<Ins>) -> Seq<Ins> {
    let c = push_refcount_code(c);
    c
        .push(Ins::I32Const(1))
        .push(Ins::I32Eq)
}

/// Leaves `load(rc(h)-1)` on the stack as the new count.
fn push_is_unique(f: &mut Builder)
    requires
        old(f).wf(),
        old(f).frames().len() >= 1,
        old(f).nlocals() >= 1,
    ensures
        final(f).code() == push_is_unique_code(old(f).code()),
        final(f).wf(),
        final(f).params() == old(f).params(),
        final(f).locals() == old(f).locals(),
        final(f).frames() == old(f).frames(),
{
    proof {
        reveal(push_is_unique_code);
    }
    push_refcount(f);
    f.push(Ins::I32Const(1));
    f.push(Ins::I32Eq);
}

/// `c` followed by the code that `push_dec_ref` emits.
#[verifier::opaque]
pub open spec fn push_dec_ref_code(c: Seq<Ins>, count_local: u32) -> Seq<Ins> {
    let c = push_refcount_addr_code(c);
    let c = push_refcount_code(c);
    c
        .push(Ins::I32Const(1))
        .push(Ins::I32Sub)
        .push(Ins::LocalTee(count_local))
        .push(Ins::I32Store(m(0)))
        .push(Ins::LocalGet(count_local))
}

/// Stores `rc(h) - 1` and leaves it on the stack.
fn push_dec_ref(f: &mut Builder, count_local: u32)
    requires
        old(f).wf(),
        old(f).frames().len() >= 1,
        old(f).nlocals() >= 1,
        count_local < old(f).nlocals(),
    ensures
        final(f).code() == push_dec_ref_code(old(f).code(), count_local),
        final(f).wf(),
        final(f).params() == old(f).params(),
        final(f).locals() == old(f).locals(),
        final(f).frames() == old(f).frames(),
{
    proof {
        reveal(push_dec_ref_code);
    }
    push_refcount_addr(f);
    push_refcount(f);
    f.push(Ins::I32Const(1));
    f.push(Ins::I32Sub);
    f.push(Ins::LocalTee(count_local));
    f.push(Ins::I32Store(m(0)));
    f.push(Ins::LocalGet(count_local));
}

/// `c` followed by the code that `push_refcount_addr` emits.
#[verifier::opaque]
pub open spec fn push_refcount_addr_code(c: Seq<Ins>) -> Seq<Ins> {
    c
        .push(Ins::LocalGet(0))
        .push(Ins::I32Const(8))
        .push(Ins::I32Sub)
}

fn push_refcount_addr(f: &mut Builder)
    requires
        old(f).wf(),
        old(f).frames().len() >= 1,
        old(f).nlocals() >= 1,
    ensures
        final(f).code() == push_refcount_addr_code(old(f).code()),
        final(f).wf(),
        final(f).params() == old(f).params(),
        final(f).locals() == old(f).locals(),
        final(f).frames() == old(f).frames(),
{
    proof {
        reveal(push_refcount_addr_code);
    }
    f.push(Ins::LocalGet(0));
    f.push(Ins::I32Const(8));
    f.push(Ins::I32Sub);
}

/// `c` followed by the code that `push_refcount` emits.
#[verifier::opaque]
pub open spec fn push_refcount_code(c: Seq<Ins>) -> Seq<Ins> {
    let c = push_refcount_addr_code(c);
    c
        .push(Ins::I32Load(m(0)))
}

fn push_refcount(f: &mut Builder)
    requires
        old(f).wf(),
        old(f).frames().len() >= 1,
        old(f).nlocals() >= 1,
    ensures
        final(f).code() == push_refcount_code(old(f).code()),
        final(f).wf(),
        final(f).params() == old(f).params(),
        final(f).locals() == old(f).locals(),
        final(f).frames() == old(f).frames(),
{
    proof {
        reveal(push_refcount_code);
    }
    push_refcount_addr(f);
    f.push(Ins::I32Load(m(0)));
}


} // verus!
