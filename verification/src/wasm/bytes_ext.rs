//! `bytes` runtime helpers for the wasm backend.
//!
//! A bytes handle points at `[len: i32][cap: i32][unused: i32][data: i32]`
//! (16-byte payload) after the shared eight-byte reference-count prefix.
use vstd::prelude::*;
use crate::wasm::builder::{body_views, bodies_fit, signature_views, Body, Builder};
use crate::wasm::model::{m, BlockTy, Ins, ValTy};
use crate::wasm::rt_index as rt;

verus! {


/// Signatures of the `bytes` helpers, in offset order.
pub open spec fn bytes_signatures() -> Seq<(Seq<ValTy>, Seq<ValTy>)> {
    seq![
        (seq![ValTy::I32, ValTy::I32], Seq::<ValTy>::empty()),
        (seq![ValTy::I32], Seq::<ValTy>::empty()),
        (seq![ValTy::I32], seq![ValTy::I32]),
        (seq![ValTy::I32, ValTy::I32], Seq::<ValTy>::empty()),
        (seq![ValTy::I32, ValTy::I32], Seq::<ValTy>::empty()),
        (seq![ValTy::I32, ValTy::I32], Seq::<ValTy>::empty()),
        (seq![ValTy::I32, ValTy::I32], Seq::<ValTy>::empty()),
        (seq![ValTy::I32, ValTy::I32, ValTy::I32], Seq::<ValTy>::empty()),
        (seq![ValTy::I32], seq![ValTy::I32]),
        (seq![ValTy::I32], seq![ValTy::I32]),
        (seq![ValTy::I32, ValTy::I32, ValTy::I32], seq![ValTy::I32]),
        (seq![ValTy::I32, ValTy::I32], seq![ValTy::I64]),
        (seq![ValTy::I32, ValTy::I32], seq![ValTy::I32]),
        (seq![ValTy::I32, ValTy::I32], seq![ValTy::I32]),
        (seq![ValTy::I32, ValTy::I32], seq![ValTy::I64]),
        (seq![ValTy::I32, ValTy::I32, ValTy::I32], seq![ValTy::I32]),
    ]
}

/// Signatures of the `bytes` helpers, in offset order.
pub fn signatures() -> (sigs: Vec<(Vec<ValTy>, Vec<ValTy>)>)
    ensures
        signature_views(sigs@) == bytes_signatures(),
{
    let sigs = vec![
        (vec![ValTy::I32, ValTy::I32], vec![]),
        (vec![ValTy::I32], vec![]),
        (vec![ValTy::I32], vec![ValTy::I32]),
        (vec![ValTy::I32, ValTy::I32], vec![]),
        (vec![ValTy::I32, ValTy::I32], vec![]),
        (vec![ValTy::I32, ValTy::I32], vec![]),
        (vec![ValTy::I32, ValTy::I32], vec![]),
        (vec![ValTy::I32, ValTy::I32, ValTy::I32], vec![]),
        (vec![ValTy::I32], vec![ValTy::I32]),
        (vec![ValTy::I32], vec![ValTy::I32]),
        (vec![ValTy::I32, ValTy::I32, ValTy::I32], vec![ValTy::I32]),
        (vec![ValTy::I32, ValTy::I32], vec![ValTy::I64]),
        (vec![ValTy::I32, ValTy::I32], vec![ValTy::I32]),
        (vec![ValTy::I32, ValTy::I32], vec![ValTy::I32]),
        (vec![ValTy::I32, ValTy::I32], vec![ValTy::I64]),
        (vec![ValTy::I32, ValTy::I32, ValTy::I32], vec![ValTy::I32]),
    ];
    assert(signature_views(sigs@) =~~= bytes_signatures());
    sigs
}

/// The locals and code of each bytes helper, wired to the runtime at `base`, in offset order.
pub open spec fn bytes_body_views(base: u32) -> Seq<(Seq<(u32, ValTy)>, Seq<Ins>)> {
    let alloc = rt::wired(base, rt::ALLOC);
    let rc_new = rt::wired(base, rt::RC_NEW);
    let ensure = rt::wired(base, rt::BT_ENSURE);
    let mem_cmp = rt::wired(base, rt::BT_MEMCMP);
    seq![
        (seq![(4u32, ValTy::I32)], ensure_body_code((alloc))),
        (Seq::<(u32, ValTy)>::empty(), clear_body_code()),
        (Seq::<(u32, ValTy)>::empty(), capacity_body_code()),
        (Seq::<(u32, ValTy)>::empty(), reserve_body_code((ensure))),
        (seq![(1u32, ValTy::I32)], push_body_code((ensure))),
        (seq![(2u32, ValTy::I32)], extend_body_code((ensure))),
        (Seq::<(u32, ValTy)>::empty(), truncate_body_code()),
        (seq![(2u32, ValTy::I32)], resize_body_code((ensure))),
        (Seq::<(u32, ValTy)>::empty(), first_body_code()),
        (Seq::<(u32, ValTy)>::empty(), last_body_code()),
        (seq![(4u32, ValTy::I32)], slice_body_code((rc_new), (alloc))),
        (seq![(4u32, ValTy::I32)], find_body_code()),
        (seq![(2u32, ValTy::I32)], starts_body_code((mem_cmp))),
        (seq![(2u32, ValTy::I32)], ends_body_code((mem_cmp))),
        (seq![(4u32, ValTy::I32)], cmp_body_code((mem_cmp))),
        (seq![(3u32, ValTy::I32)], mem_cmp_body_code()),
    ]
}

/// The `bytes` helper bodies, in offset order.
pub fn bodies(base: u32) -> (bodies: Vec<Body>)
    requires
        base + rt::COUNT <= u32::MAX,
    ensures
        body_views(bodies@) == bytes_body_views(base),
        bodies_fit(bodies@, bytes_signatures()),
{
    let alloc = base + rt::ALLOC;
    let rc_new = base + rt::RC_NEW;
    let ensure = base + rt::BT_ENSURE;
    let mem_cmp = base + rt::BT_MEMCMP;
    let bodies = vec![
        ensure_body(alloc),
        clear_body(),
        capacity_body(),
        reserve_body(ensure),
        push_body(ensure),
        extend_body(ensure),
        truncate_body(),
        resize_body(ensure),
        first_body(),
        last_body(),
        slice_body(rc_new, alloc),
        find_body(),
        starts_body(mem_cmp),
        ends_body(mem_cmp),
        cmp_body(mem_cmp),
        mem_cmp_body(),
    ];
    assert(bodies_fit(bodies@, bytes_signatures()));
    assert(body_views(bodies@) =~= bytes_body_views(base));
    bodies
}

/// Signatures of the trailing `bytes` helpers.
pub open spec fn bytes_extra_signatures() -> Seq<(Seq<ValTy>, Seq<ValTy>)> {
    seq![
        (seq![ValTy::I32], seq![ValTy::I32]),
        (seq![ValTy::I32], seq![ValTy::I32]),
        (seq![ValTy::I32], seq![ValTy::I32]),
        (seq![ValTy::I32, ValTy::I32, ValTy::I32, ValTy::I32], seq![ValTy::I64]),
        (seq![ValTy::I32, ValTy::I32, ValTy::I32, ValTy::I64, ValTy::I32], Seq::<ValTy>::empty()),
    ]
}

/// Signatures of the trailing `bytes` helpers.
pub fn extra_signatures() -> (sigs: Vec<(Vec<ValTy>, Vec<ValTy>)>)
    ensures
        signature_views(sigs@) == bytes_extra_signatures(),
{
    let sigs = vec![
        (vec![ValTy::I32], vec![ValTy::I32]),
        (vec![ValTy::I32], vec![ValTy::I32]),
        (vec![ValTy::I32], vec![ValTy::I32]),
        (vec![ValTy::I32, ValTy::I32, ValTy::I32, ValTy::I32], vec![ValTy::I64]),
        (vec![ValTy::I32, ValTy::I32, ValTy::I32, ValTy::I64, ValTy::I32], vec![]),
    ];
    assert(signature_views(sigs@) =~~= bytes_extra_signatures());
    sigs
}

/// The locals and code of each further bytes helper, wired to the runtime at `base`, in offset order.
pub open spec fn bytes_extra_body_views(base: u32) -> Seq<(Seq<(u32, ValTy)>, Seq<Ins>)> {
    let rc_new = rt::wired(base, rt::RC_NEW);
    let list_new = rt::wired(base, rt::LIST_NEW);
    let list_push = rt::wired(base, rt::LIST_PUSH);
    let bytes_new = rt::wired(base, rt::BYTES_NEW);
    seq![
        (seq![(5u32, ValTy::I32)], to_hex_body_code((rc_new))),
        (seq![(3u32, ValTy::I32)], to_list_body_code((list_new), (list_push))),
        (seq![(3u32, ValTy::I32)], from_list_body_code((bytes_new))),
        (seq![(1u32, ValTy::I64), (3u32, ValTy::I32)], read_int_body_code()),
        (seq![(1u32, ValTy::I32), (1u32, ValTy::I64), (1u32, ValTy::I32)], write_int_body_code()),
    ]
}

/// The trailing `bytes` helper bodies.
pub fn extra_bodies(base: u32) -> (bodies: Vec<Body>)
    requires
        base + rt::COUNT <= u32::MAX,
    ensures
        body_views(bodies@) == bytes_extra_body_views(base),
        bodies_fit(bodies@, bytes_extra_signatures()),
{
    let rc_new = base + rt::RC_NEW;
    let list_new = base + rt::LIST_NEW;
    let list_push = base + rt::LIST_PUSH;
    let bytes_new = base + rt::BYTES_NEW;
    let bodies = vec![
        to_hex_body(rc_new),
        to_list_body(list_new, list_push),
        from_list_body(bytes_new),
        read_int_body(),
        write_int_body(),
    ];
    assert(bodies_fit(bodies@, bytes_extra_signatures()));
    assert(body_views(bodies@) =~= bytes_extra_body_views(base));
    bodies
}

/// The code that `to_hex_body` emits.
#[verifier::opaque]
pub open spec fn to_hex_body_code(rc_new: u32) -> Seq<Ins> {
    let c = Seq::<Ins>::empty();
    let c = c
        .push(Ins::LocalGet(0))
        .push(Ins::I32Load(m(0)))
        .push(Ins::LocalSet(1))
        .push(Ins::LocalGet(1))
        .push(Ins::I32Const(2))
        .push(Ins::I32Mul)
        .push(Ins::I32Const(4))
        .push(Ins::I32Add)
        .push(Ins::Call(rc_new))
        .push(Ins::LocalSet(2))
        .push(Ins::LocalGet(2))
        .push(Ins::LocalGet(1))
        .push(Ins::I32Const(2))
        .push(Ins::I32Mul)
        .push(Ins::I32Store(m(0)))
        .push(Ins::I32Const(0))
        .push(Ins::LocalSet(3))
        .push(Ins::Block(BlockTy::Empty))
        .push(Ins::Loop(BlockTy::Empty))
        .push(Ins::LocalGet(3))
        .push(Ins::LocalGet(1))
        .push(Ins::I32GeU)
        .push(Ins::BrIf(1))
        .push(Ins::LocalGet(0))
        .push(Ins::I32Load(m(12)))
        .push(Ins::LocalGet(3))
        .push(Ins::I32Add)
        .push(Ins::I32Load8U(m(0)))
        .push(Ins::LocalSet(4))
        .push(Ins::LocalGet(2))
        .push(Ins::I32Const(4))
        .push(Ins::I32Add)
        .push(Ins::LocalGet(3))
        .push(Ins::I32Const(2))
        .push(Ins::I32Mul)
        .push(Ins::I32Add);
    let c = hex_digit_code(c, true);
    let c = c
        .push(Ins::I32Store8(m(0)))
        .push(Ins::LocalGet(2))
        .push(Ins::I32Const(4))
        .push(Ins::I32Add)
        .push(Ins::LocalGet(3))
        .push(Ins::I32Const(2))
        .push(Ins::I32Mul)
        .push(Ins::I32Add)
        .push(Ins::I32Const(1))
        .push(Ins::I32Add);
    let c = hex_digit_code(c, false);
    c
        .push(Ins::I32Store8(m(0)))
        .push(Ins::LocalGet(3))
        .push(Ins::I32Const(1))
        .push(Ins::I32Add)
        .push(Ins::LocalSet(3))
        .push(Ins::Br(0))
        .push(Ins::End)
        .push(Ins::End)
        .push(Ins::LocalGet(2))
        .push(Ins::End)
}

pub(crate) fn to_hex_body(rc_new: u32) -> (body: Body)
    ensures
        body.code@ == to_hex_body_code(rc_new),
        body.locals@ == seq![(5u32, ValTy::I32)],
        body.valid(),
        body.params == 1,
{
    proof {
        reveal(to_hex_body_code);
    }
    // locals: 1 = len, 2 = out, 3 = i, 4 = b, 5 = nibble.
    let mut f = Builder::new(1);
    f.declare(5, ValTy::I32);
    f.push(Ins::LocalGet(0));
    f.push(Ins::I32Load(m(0)));
    f.push(Ins::LocalSet(1));
    f.push(Ins::LocalGet(1));
    f.push(Ins::I32Const(2));
    f.push(Ins::I32Mul);
    f.push(Ins::I32Const(4));
    f.push(Ins::I32Add);
    f.push(Ins::Call(rc_new));
    f.push(Ins::LocalSet(2));
    f.push(Ins::LocalGet(2));
    f.push(Ins::LocalGet(1));
    f.push(Ins::I32Const(2));
    f.push(Ins::I32Mul);
    f.push(Ins::I32Store(m(0)));
    f.push(Ins::I32Const(0));
    f.push(Ins::LocalSet(3));
    f.push(Ins::Block(BlockTy::Empty));
    f.push(Ins::Loop(BlockTy::Empty));
    f.push(Ins::LocalGet(3));
    f.push(Ins::LocalGet(1));
    f.push(Ins::I32GeU);
    f.push(Ins::BrIf(1));
    f.push(Ins::LocalGet(0));
    f.push(Ins::I32Load(m(12)));
    f.push(Ins::LocalGet(3));
    f.push(Ins::I32Add);
    f.push(Ins::I32Load8U(m(0)));
    f.push(Ins::LocalSet(4));
    // high nibble
    f.push(Ins::LocalGet(2));
    f.push(Ins::I32Const(4));
    f.push(Ins::I32Add);
    f.push(Ins::LocalGet(3));
    f.push(Ins::I32Const(2));
    f.push(Ins::I32Mul);
    f.push(Ins::I32Add);
    hex_digit(&mut f, true);
    f.push(Ins::I32Store8(m(0)));
    // low nibble
    f.push(Ins::LocalGet(2));
    f.push(Ins::I32Const(4));
    f.push(Ins::I32Add);
    f.push(Ins::LocalGet(3));
    f.push(Ins::I32Const(2));
    f.push(Ins::I32Mul);
    f.push(Ins::I32Add);
    f.push(Ins::I32Const(1));
    f.push(Ins::I32Add);
    hex_digit(&mut f, false);
    f.push(Ins::I32Store8(m(0)));
    f.push(Ins::LocalGet(3));
    f.push(Ins::I32Const(1));
    f.push(Ins::I32Add);
    f.push(Ins::LocalSet(3));
    f.push(Ins::Br(0));
    f.push(Ins::End);
    f.push(Ins::End);
    f.push(Ins::LocalGet(2));
    f.push(Ins::End);
    assert(f.locals() =~= seq![(5u32, ValTy::I32)]);
    f.finish()
}

/// `c` followed by the code that `hex_digit` emits: the ASCII hex digit of the high
/// (`high`) or low nibble of the byte in local `4`.
#[verifier::opaque]
pub open spec fn hex_digit_code(c: Seq<Ins>, high: bool) -> Seq<Ins> {
    let c = if high {
        c
            .push(Ins::LocalGet(4))
            .push(Ins::I32Const(4))
            .push(Ins::I32ShrU)
    } else {
        c
            .push(Ins::LocalGet(4))
            .push(Ins::I32Const(15))
            .push(Ins::I32And)
    };
    c
        .push(Ins::LocalSet(5))
        .push(Ins::LocalGet(5))
        .push(Ins::I32Const(10))
        .push(Ins::I32LtU)
        .push(Ins::If(BlockTy::Result(ValTy::I32)))
        .push(Ins::LocalGet(5))
        .push(Ins::I32Const(48))
        .push(Ins::I32Add)
        .push(Ins::Else)
        .push(Ins::LocalGet(5))
        .push(Ins::I32Const(87))
        .push(Ins::I32Add)
        .push(Ins::End)
}

/// Leaves the hex ASCII code for the high or low nibble of `local4`.
fn hex_digit(f: &mut Builder, high: bool)
    requires
        old(f).wf(),
        old(f).frames().len() >= 1,
        old(f).nlocals() > 5,
    ensures
        final(f).code() == hex_digit_code(old(f).code(), high),
        final(f).wf(),
        final(f).params() == old(f).params(),
        final(f).locals() == old(f).locals(),
        final(f).frames() == old(f).frames(),
{
    proof {
        reveal(hex_digit_code);
    }
    if high {
        f.push(Ins::LocalGet(4));
        f.push(Ins::I32Const(4));
        f.push(Ins::I32ShrU);
    } else {
        f.push(Ins::LocalGet(4));
        f.push(Ins::I32Const(15));
        f.push(Ins::I32And);
    }
    f.push(Ins::LocalSet(5));
    f.push(Ins::LocalGet(5));
    f.push(Ins::I32Const(10));
    f.push(Ins::I32LtU);
    f.push(Ins::If(BlockTy::Result(ValTy::I32)));
    f.push(Ins::LocalGet(5));
    f.push(Ins::I32Const(48));
    f.push(Ins::I32Add);
    f.push(Ins::Else);
    f.push(Ins::LocalGet(5));
    f.push(Ins::I32Const(87));
    f.push(Ins::I32Add);
    f.push(Ins::End);
}

/// The code that `to_list_body` emits.
#[verifier::opaque]
pub open spec fn to_list_body_code(list_new: u32, list_push: u32) -> Seq<Ins> {
    let c = Seq::<Ins>::empty();
    c
        .push(Ins::LocalGet(0))
        .push(Ins::I32Load(m(0)))
        .push(Ins::LocalSet(1))
        .push(Ins::I32Const(0))
        .push(Ins::LocalGet(1))
        .push(Ins::Call(list_new))
        .push(Ins::LocalSet(2))
        .push(Ins::I32Const(0))
        .push(Ins::LocalSet(3))
        .push(Ins::Block(BlockTy::Empty))
        .push(Ins::Loop(BlockTy::Empty))
        .push(Ins::LocalGet(3))
        .push(Ins::LocalGet(1))
        .push(Ins::I32GeU)
        .push(Ins::BrIf(1))
        .push(Ins::LocalGet(2))
        .push(Ins::LocalGet(0))
        .push(Ins::I32Load(m(12)))
        .push(Ins::LocalGet(3))
        .push(Ins::I32Add)
        .push(Ins::I32Load8U(m(0)))
        .push(Ins::I64ExtendI32U)
        .push(Ins::Call(list_push))
        .push(Ins::LocalGet(3))
        .push(Ins::I32Const(1))
        .push(Ins::I32Add)
        .push(Ins::LocalSet(3))
        .push(Ins::Br(0))
        .push(Ins::End)
        .push(Ins::End)
        .push(Ins::LocalGet(2))
        .push(Ins::End)
}

/// `(h) -> list`: each byte as a `u8` element.
pub(crate) fn to_list_body(list_new: u32, list_push: u32) -> (body: Body)
    ensures
        body.code@ == to_list_body_code(list_new, list_push),
        body.locals@ == seq![(3u32, ValTy::I32)],
        body.valid(),
        body.params == 1,
{
    proof {
        reveal(to_list_body_code);
    }
    // locals: 1 = len, 2 = out, 3 = i.
    let mut f = Builder::new(1);
    f.declare(3, ValTy::I32);
    f.push(Ins::LocalGet(0));
    f.push(Ins::I32Load(m(0)));
    f.push(Ins::LocalSet(1));
    f.push(Ins::I32Const(0));
    f.push(Ins::LocalGet(1));
    f.push(Ins::Call(list_new));
    f.push(Ins::LocalSet(2));
    f.push(Ins::I32Const(0));
    f.push(Ins::LocalSet(3));
    f.push(Ins::Block(BlockTy::Empty));
    f.push(Ins::Loop(BlockTy::Empty));
    f.push(Ins::LocalGet(3));
    f.push(Ins::LocalGet(1));
    f.push(Ins::I32GeU);
    f.push(Ins::BrIf(1));
    f.push(Ins::LocalGet(2));
    f.push(Ins::LocalGet(0));
    f.push(Ins::I32Load(m(12)));
    f.push(Ins::LocalGet(3));
    f.push(Ins::I32Add);
    f.push(Ins::I32Load8U(m(0)));
    f.push(Ins::I64ExtendI32U);
    f.push(Ins::Call(list_push));
    f.push(Ins::LocalGet(3));
    f.push(Ins::I32Const(1));
    f.push(Ins::I32Add);
    f.push(Ins::LocalSet(3));
    f.push(Ins::Br(0));
    f.push(Ins::End);
    f.push(Ins::End);
    f.push(Ins::LocalGet(2));
    f.push(Ins::End);
    assert(f.locals() =~= seq![(3u32, ValTy::I32)]);
    f.finish()
}

/// The code that `from_list_body` emits.
#[verifier::opaque]
pub open spec fn from_list_body_code(bytes_new: u32) -> Seq<Ins> {
    let c = Seq::<Ins>::empty();
    c
        .push(Ins::LocalGet(0))
        .push(Ins::I32Load(m(0)))
        .push(Ins::LocalSet(1))
        .push(Ins::LocalGet(1))
        .push(Ins::Call(bytes_new))
        .push(Ins::LocalSet(2))
        .push(Ins::I32Const(0))
        .push(Ins::LocalSet(3))
        .push(Ins::Block(BlockTy::Empty))
        .push(Ins::Loop(BlockTy::Empty))
        .push(Ins::LocalGet(3))
        .push(Ins::LocalGet(1))
        .push(Ins::I32GeU)
        .push(Ins::BrIf(1))
        .push(Ins::LocalGet(2))
        .push(Ins::I32Load(m(12)))
        .push(Ins::LocalGet(3))
        .push(Ins::I32Add)
        .push(Ins::LocalGet(0))
        .push(Ins::I32Load(m(12)))
        .push(Ins::LocalGet(3))
        .push(Ins::I32Const(8))
        .push(Ins::I32Mul)
        .push(Ins::I32Add)
        .push(Ins::I64Load(m(0)))
        .push(Ins::I32WrapI64)
        .push(Ins::I32Store8(m(0)))
        .push(Ins::LocalGet(3))
        .push(Ins::I32Const(1))
        .push(Ins::I32Add)
        .push(Ins::LocalSet(3))
        .push(Ins::Br(0))
        .push(Ins::End)
        .push(Ins::End)
        .push(Ins::LocalGet(2))
        .push(Ins::End)
}

/// `(list) -> bytes`: low byte of every element.
pub(crate) fn from_list_body(bytes_new: u32) -> (body: Body)
    ensures
        body.code@ == from_list_body_code(bytes_new),
        body.locals@ == seq![(3u32, ValTy::I32)],
        body.valid(),
        body.params == 1,
{
    proof {
        reveal(from_list_body_code);
    }
    // locals: 1 = len, 2 = out, 3 = i.
    let mut f = Builder::new(1);
    f.declare(3, ValTy::I32);
    f.push(Ins::LocalGet(0));
    f.push(Ins::I32Load(m(0)));
    f.push(Ins::LocalSet(1));
    f.push(Ins::LocalGet(1));
    f.push(Ins::Call(bytes_new));
    f.push(Ins::LocalSet(2));
    f.push(Ins::I32Const(0));
    f.push(Ins::LocalSet(3));
    f.push(Ins::Block(BlockTy::Empty));
    f.push(Ins::Loop(BlockTy::Empty));
    f.push(Ins::LocalGet(3));
    f.push(Ins::LocalGet(1));
    f.push(Ins::I32GeU);
    f.push(Ins::BrIf(1));
    f.push(Ins::LocalGet(2));
    f.push(Ins::I32Load(m(12)));
    f.push(Ins::LocalGet(3));
    f.push(Ins::I32Add);
    f.push(Ins::LocalGet(0));
    f.push(Ins::I32Load(m(12)));
    f.push(Ins::LocalGet(3));
    f.push(Ins::I32Const(8));
    f.push(Ins::I32Mul);
    f.push(Ins::I32Add);
    f.push(Ins::I64Load(m(0)));
    f.push(Ins::I32WrapI64);
    f.push(Ins::I32Store8(m(0)));
    f.push(Ins::LocalGet(3));
    f.push(Ins::I32Const(1));
    f.push(Ins::I32Add);
    f.push(Ins::LocalSet(3));
    f.push(Ins::Br(0));
    f.push(Ins::End);
    f.push(Ins::End);
    f.push(Ins::LocalGet(2));
    f.push(Ins::End);
    assert(f.locals() =~= seq![(3u32, ValTy::I32)]);
    f.finish()
}

/// The code that `read_int_body` emits.
#[verifier::opaque]
pub open spec fn read_int_body_code() -> Seq<Ins> {
    let c = Seq::<Ins>::empty();
    c
        .push(Ins::I64Const(0))
        .push(Ins::LocalSet(4))
        .push(Ins::LocalGet(3))
        .push(Ins::I32Const(1))
        .push(Ins::I32And)
        .push(Ins::LocalSet(6))
        .push(Ins::I32Const(0))
        .push(Ins::LocalSet(5))
        .push(Ins::Block(BlockTy::Empty))
        .push(Ins::Loop(BlockTy::Empty))
        .push(Ins::LocalGet(5))
        .push(Ins::LocalGet(2))
        .push(Ins::I32GeU)
        .push(Ins::BrIf(1))
        .push(Ins::LocalGet(6))
        .push(Ins::If(BlockTy::Result(ValTy::I64)))
        .push(Ins::LocalGet(4))
        .push(Ins::I64Const(8))
        .push(Ins::I64Shl)
        .push(Ins::LocalGet(0))
        .push(Ins::I32Load(m(12)))
        .push(Ins::LocalGet(1))
        .push(Ins::I32Add)
        .push(Ins::LocalGet(5))
        .push(Ins::I32Add)
        .push(Ins::I32Load8U(m(0)))
        .push(Ins::I64ExtendI32U)
        .push(Ins::I64Or)
        .push(Ins::Else)
        .push(Ins::LocalGet(0))
        .push(Ins::I32Load(m(12)))
        .push(Ins::LocalGet(1))
        .push(Ins::I32Add)
        .push(Ins::LocalGet(5))
        .push(Ins::I32Add)
        .push(Ins::I32Load8U(m(0)))
        .push(Ins::I64ExtendI32U)
        .push(Ins::LocalGet(5))
        .push(Ins::I32Const(8))
        .push(Ins::I32Mul)
        .push(Ins::I64ExtendI32U)
        .push(Ins::I64Shl)
        .push(Ins::LocalGet(4))
        .push(Ins::I64Or)
        .push(Ins::End)
        .push(Ins::LocalSet(4))
        .push(Ins::LocalGet(5))
        .push(Ins::I32Const(1))
        .push(Ins::I32Add)
        .push(Ins::LocalSet(5))
        .push(Ins::Br(0))
        .push(Ins::End)
        .push(Ins::End)
        .push(Ins::LocalGet(3))
        .push(Ins::I32Const(2))
        .push(Ins::I32And)
        .push(Ins::LocalGet(2))
        .push(Ins::I32Const(8))
        .push(Ins::I32LtU)
        .push(Ins::I32And)
        .push(Ins::If(BlockTy::Empty))
        .push(Ins::LocalGet(2))
        .push(Ins::I32Const(8))
        .push(Ins::I32Mul)
        .push(Ins::LocalSet(7))
        .push(Ins::LocalGet(4))
        .push(Ins::I64Const(64))
        .push(Ins::LocalGet(7))
        .push(Ins::I64ExtendI32U)
        .push(Ins::I64Sub)
        .push(Ins::I64Shl)
        .push(Ins::I64Const(64))
        .push(Ins::LocalGet(7))
        .push(Ins::I64ExtendI32U)
        .push(Ins::I64Sub)
        .push(Ins::I64ShrS)
        .push(Ins::LocalSet(4))
        .push(Ins::End)
        .push(Ins::LocalGet(4))
        .push(Ins::End)
}

/// `(h, offset, width, flags) -> i64`; flags bit0 = big-endian, bit1 = signed.
pub(crate) fn read_int_body() -> (body: Body)
    ensures
        body.code@ == read_int_body_code(),
        body.locals@ == seq![(1u32, ValTy::I64), (3u32, ValTy::I32)],
        body.valid(),
        body.params == 4,
{
    proof {
        reveal(read_int_body_code);
    }
    // locals: 4 = value(i64), 5 = k, 6 = big, 7 = bits.
    let mut f = Builder::new(4);
    f.declare(1, ValTy::I64);
    f.declare(3, ValTy::I32);
    f.push(Ins::I64Const(0));
    f.push(Ins::LocalSet(4));
    f.push(Ins::LocalGet(3));
    f.push(Ins::I32Const(1));
    f.push(Ins::I32And);
    f.push(Ins::LocalSet(6));
    f.push(Ins::I32Const(0));
    f.push(Ins::LocalSet(5));
    f.push(Ins::Block(BlockTy::Empty));
    f.push(Ins::Loop(BlockTy::Empty));
    f.push(Ins::LocalGet(5));
    f.push(Ins::LocalGet(2));
    f.push(Ins::I32GeU);
    f.push(Ins::BrIf(1));
    f.push(Ins::LocalGet(6));
    f.push(Ins::If(BlockTy::Result(ValTy::I64)));
    // value = (value << 8) | byte[offset + k]
    f.push(Ins::LocalGet(4));
    f.push(Ins::I64Const(8));
    f.push(Ins::I64Shl);
    f.push(Ins::LocalGet(0));
    f.push(Ins::I32Load(m(12)));
    f.push(Ins::LocalGet(1));
    f.push(Ins::I32Add);
    f.push(Ins::LocalGet(5));
    f.push(Ins::I32Add);
    f.push(Ins::I32Load8U(m(0)));
    f.push(Ins::I64ExtendI32U);
    f.push(Ins::I64Or);
    f.push(Ins::Else);
    // value |= byte[offset + k] << (8 * k)
    f.push(Ins::LocalGet(0));
    f.push(Ins::I32Load(m(12)));
    f.push(Ins::LocalGet(1));
    f.push(Ins::I32Add);
    f.push(Ins::LocalGet(5));
    f.push(Ins::I32Add);
    f.push(Ins::I32Load8U(m(0)));
    f.push(Ins::I64ExtendI32U);
    f.push(Ins::LocalGet(5));
    f.push(Ins::I32Const(8));
    f.push(Ins::I32Mul);
    f.push(Ins::I64ExtendI32U);
    f.push(Ins::I64Shl);
    f.push(Ins::LocalGet(4));
    f.push(Ins::I64Or);
    f.push(Ins::End);
    f.push(Ins::LocalSet(4));
    f.push(Ins::LocalGet(5));
    f.push(Ins::I32Const(1));
    f.push(Ins::I32Add);
    f.push(Ins::LocalSet(5));
    f.push(Ins::Br(0));
    f.push(Ins::End);
    f.push(Ins::End);
    // sign extend when requested and width < 8
    f.push(Ins::LocalGet(3));
    f.push(Ins::I32Const(2));
    f.push(Ins::I32And);
    f.push(Ins::LocalGet(2));
    f.push(Ins::I32Const(8));
    f.push(Ins::I32LtU);
    f.push(Ins::I32And);
    f.push(Ins::If(BlockTy::Empty));
    f.push(Ins::LocalGet(2));
    f.push(Ins::I32Const(8));
    f.push(Ins::I32Mul);
    f.push(Ins::LocalSet(7));
    f.push(Ins::LocalGet(4));
    f.push(Ins::I64Const(64));
    f.push(Ins::LocalGet(7));
    f.push(Ins::I64ExtendI32U);
    f.push(Ins::I64Sub);
    f.push(Ins::I64Shl);
    f.push(Ins::I64Const(64));
    f.push(Ins::LocalGet(7));
    f.push(Ins::I64ExtendI32U);
    f.push(Ins::I64Sub);
    f.push(Ins::I64ShrS);
    f.push(Ins::LocalSet(4));
    f.push(Ins::End);
    f.push(Ins::LocalGet(4));
    f.push(Ins::End);
    assert(f.locals() =~= seq![(1u32, ValTy::I64), (3u32, ValTy::I32)]);
    f.finish()
}

/// The code that `write_int_body` emits.
#[verifier::opaque]
pub open spec fn write_int_body_code() -> Seq<Ins> {
    let c = Seq::<Ins>::empty();
    c
        .push(Ins::LocalGet(3))
        .push(Ins::LocalSet(6))
        .push(Ins::LocalGet(4))
        .push(Ins::I32Const(1))
        .push(Ins::I32And)
        .push(Ins::LocalSet(7))
        .push(Ins::I32Const(0))
        .push(Ins::LocalSet(5))
        .push(Ins::Block(BlockTy::Empty))
        .push(Ins::Loop(BlockTy::Empty))
        .push(Ins::LocalGet(5))
        .push(Ins::LocalGet(2))
        .push(Ins::I32GeU)
        .push(Ins::BrIf(1))
        .push(Ins::LocalGet(0))
        .push(Ins::I32Load(m(12)))
        .push(Ins::LocalGet(1))
        .push(Ins::I32Add)
        .push(Ins::LocalGet(7))
        .push(Ins::If(BlockTy::Result(ValTy::I32)))
        .push(Ins::LocalGet(2))
        .push(Ins::I32Const(1))
        .push(Ins::I32Sub)
        .push(Ins::LocalGet(5))
        .push(Ins::I32Sub)
        .push(Ins::Else)
        .push(Ins::LocalGet(5))
        .push(Ins::End)
        .push(Ins::I32Add)
        .push(Ins::LocalGet(6))
        .push(Ins::I32WrapI64)
        .push(Ins::I32Store8(m(0)))
        .push(Ins::LocalGet(6))
        .push(Ins::I64Const(8))
        .push(Ins::I64ShrU)
        .push(Ins::LocalSet(6))
        .push(Ins::LocalGet(5))
        .push(Ins::I32Const(1))
        .push(Ins::I32Add)
        .push(Ins::LocalSet(5))
        .push(Ins::Br(0))
        .push(Ins::End)
        .push(Ins::End)
        .push(Ins::End)
}

/// `(h, offset, width, value, flags) -> ()`; flags bit0 = big-endian.
pub(crate) fn write_int_body() -> (body: Body)
    ensures
        body.code@ == write_int_body_code(),
        body.locals@ == seq![(1u32, ValTy::I32), (1u32, ValTy::I64), (1u32, ValTy::I32)],
        body.valid(),
        body.params == 5,
{
    proof {
        reveal(write_int_body_code);
    }
    // locals: 5 = k, 6 = v(i64), 7 = big.
    let mut f = Builder::new(5);
    f.declare(1, ValTy::I32);
    f.declare(1, ValTy::I64);
    f.declare(1, ValTy::I32);
    f.push(Ins::LocalGet(3));
    f.push(Ins::LocalSet(6));
    f.push(Ins::LocalGet(4));
    f.push(Ins::I32Const(1));
    f.push(Ins::I32And);
    f.push(Ins::LocalSet(7));
    f.push(Ins::I32Const(0));
    f.push(Ins::LocalSet(5));
    f.push(Ins::Block(BlockTy::Empty));
    f.push(Ins::Loop(BlockTy::Empty));
    f.push(Ins::LocalGet(5));
    f.push(Ins::LocalGet(2));
    f.push(Ins::I32GeU);
    f.push(Ins::BrIf(1));
    // address
    f.push(Ins::LocalGet(0));
    f.push(Ins::I32Load(m(12)));
    f.push(Ins::LocalGet(1));
    f.push(Ins::I32Add);
    f.push(Ins::LocalGet(7));
    f.push(Ins::If(BlockTy::Result(ValTy::I32)));
    f.push(Ins::LocalGet(2));
    f.push(Ins::I32Const(1));
    f.push(Ins::I32Sub);
    f.push(Ins::LocalGet(5));
    f.push(Ins::I32Sub);
    f.push(Ins::Else);
    f.push(Ins::LocalGet(5));
    f.push(Ins::End);
    f.push(Ins::I32Add);
    f.push(Ins::LocalGet(6));
    f.push(Ins::I32WrapI64);
    f.push(Ins::I32Store8(m(0)));
    f.push(Ins::LocalGet(6));
    f.push(Ins::I64Const(8));
    f.push(Ins::I64ShrU);
    f.push(Ins::LocalSet(6));
    f.push(Ins::LocalGet(5));
    f.push(Ins::I32Const(1));
    f.push(Ins::I32Add);
    f.push(Ins::LocalSet(5));
    f.push(Ins::Br(0));
    f.push(Ins::End);
    f.push(Ins::End);
    f.push(Ins::End);
    assert(f.locals() =~= seq![(1u32, ValTy::I32), (1u32, ValTy::I64), (1u32, ValTy::I32)]);
    f.finish()
}

/// The code that `mem_cmp_body` emits.
#[verifier::opaque]
pub open spec fn mem_cmp_body_code() -> Seq<Ins> {
    let c = Seq::<Ins>::empty();
    c
        .push(Ins::I32Const(0))
        .push(Ins::LocalSet(3))
        .push(Ins::Block(BlockTy::Empty))
        .push(Ins::Loop(BlockTy::Empty))
        .push(Ins::LocalGet(3))
        .push(Ins::LocalGet(2))
        .push(Ins::I32GeU)
        .push(Ins::BrIf(1))
        .push(Ins::LocalGet(0))
        .push(Ins::LocalGet(3))
        .push(Ins::I32Add)
        .push(Ins::I32Load8U(m(0)))
        .push(Ins::LocalSet(4))
        .push(Ins::LocalGet(1))
        .push(Ins::LocalGet(3))
        .push(Ins::I32Add)
        .push(Ins::I32Load8U(m(0)))
        .push(Ins::LocalSet(5))
        .push(Ins::LocalGet(4))
        .push(Ins::LocalGet(5))
        .push(Ins::I32Ne)
        .push(Ins::If(BlockTy::Empty))
        .push(Ins::LocalGet(4))
        .push(Ins::LocalGet(5))
        .push(Ins::I32LtU)
        .push(Ins::If(BlockTy::Result(ValTy::I32)))
        .push(Ins::I32Const(-1i32))
        .push(Ins::Else)
        .push(Ins::I32Const(1))
        .push(Ins::End)
        .push(Ins::Return)
        .push(Ins::End)
        .push(Ins::LocalGet(3))
        .push(Ins::I32Const(1))
        .push(Ins::I32Add)
        .push(Ins::LocalSet(3))
        .push(Ins::Br(0))
        .push(Ins::End)
        .push(Ins::End)
        .push(Ins::I32Const(0))
        .push(Ins::End)
}

/// `(a: i32, b: i32, n: i32) -> i32`: first differing byte as -1/1, else 0.
pub(crate) fn mem_cmp_body() -> (body: Body)
    ensures
        body.code@ == mem_cmp_body_code(),
        body.locals@ == seq![(3u32, ValTy::I32)],
        body.valid(),
        body.params == 3,
{
    proof {
        reveal(mem_cmp_body_code);
    }
    // locals: 3 = i, 4 = x, 5 = y.
    let mut f = Builder::new(3);
    f.declare(3, ValTy::I32);
    f.push(Ins::I32Const(0));
    f.push(Ins::LocalSet(3));
    f.push(Ins::Block(BlockTy::Empty));
    f.push(Ins::Loop(BlockTy::Empty));
    f.push(Ins::LocalGet(3));
    f.push(Ins::LocalGet(2));
    f.push(Ins::I32GeU);
    f.push(Ins::BrIf(1));
    f.push(Ins::LocalGet(0));
    f.push(Ins::LocalGet(3));
    f.push(Ins::I32Add);
    f.push(Ins::I32Load8U(m(0)));
    f.push(Ins::LocalSet(4));
    f.push(Ins::LocalGet(1));
    f.push(Ins::LocalGet(3));
    f.push(Ins::I32Add);
    f.push(Ins::I32Load8U(m(0)));
    f.push(Ins::LocalSet(5));
    f.push(Ins::LocalGet(4));
    f.push(Ins::LocalGet(5));
    f.push(Ins::I32Ne);
    f.push(Ins::If(BlockTy::Empty));
    f.push(Ins::LocalGet(4));
    f.push(Ins::LocalGet(5));
    f.push(Ins::I32LtU);
    f.push(Ins::If(BlockTy::Result(ValTy::I32)));
    f.push(Ins::I32Const(-1));
    f.push(Ins::Else);
    f.push(Ins::I32Const(1));
    f.push(Ins::End);
    f.push(Ins::Return);
    f.push(Ins::End);
    f.push(Ins::LocalGet(3));
    f.push(Ins::I32Const(1));
    f.push(Ins::I32Add);
    f.push(Ins::LocalSet(3));
    f.push(Ins::Br(0));
    f.push(Ins::End);
    f.push(Ins::End);
    f.push(Ins::I32Const(0));
    f.push(Ins::End);
    assert(f.locals() =~= seq![(3u32, ValTy::I32)]);
    f.finish()
}

/// The code that `ensure_body` emits.
#[verifier::opaque]
pub open spec fn ensure_body_code(alloc: u32) -> Seq<Ins> {
    let c = Seq::<Ins>::empty();
    c
        .push(Ins::LocalGet(0))
        .push(Ins::I32Load(m(4)))
        .push(Ins::LocalSet(2))
        .push(Ins::LocalGet(2))
        .push(Ins::LocalGet(1))
        .push(Ins::I32GeU)
        .push(Ins::If(BlockTy::Empty))
        .push(Ins::Return)
        .push(Ins::End)
        .push(Ins::LocalGet(0))
        .push(Ins::I32Load(m(0)))
        .push(Ins::LocalSet(3))
        .push(Ins::LocalGet(2))
        .push(Ins::I32Eqz)
        .push(Ins::If(BlockTy::Result(ValTy::I32)))
        .push(Ins::I32Const(4))
        .push(Ins::Else)
        .push(Ins::LocalGet(2))
        .push(Ins::I32Const(2))
        .push(Ins::I32Mul)
        .push(Ins::End)
        .push(Ins::LocalSet(4))
        .push(Ins::Block(BlockTy::Empty))
        .push(Ins::Loop(BlockTy::Empty))
        .push(Ins::LocalGet(4))
        .push(Ins::LocalGet(1))
        .push(Ins::I32GeU)
        .push(Ins::BrIf(1))
        .push(Ins::LocalGet(4))
        .push(Ins::I32Const(2))
        .push(Ins::I32Mul)
        .push(Ins::LocalSet(4))
        .push(Ins::Br(0))
        .push(Ins::End)
        .push(Ins::End)
        .push(Ins::LocalGet(4))
        .push(Ins::Call(alloc))
        .push(Ins::LocalSet(5))
        .push(Ins::LocalGet(5))
        .push(Ins::LocalGet(0))
        .push(Ins::I32Load(m(12)))
        .push(Ins::LocalGet(3))
        .push(Ins::MemoryCopy { src_mem: 0, dst_mem: 0 })
        .push(Ins::LocalGet(0))
        .push(Ins::LocalGet(4))
        .push(Ins::I32Store(m(4)))
        .push(Ins::LocalGet(0))
        .push(Ins::LocalGet(5))
        .push(Ins::I32Store(m(12)))
        .push(Ins::End)
}

/// `(h, needed) -> ()`: grows the data buffer so it holds at least `needed`.
pub(crate) fn ensure_body(alloc: u32) -> (body: Body)
    ensures
        body.code@ == ensure_body_code(alloc),
        body.locals@ == seq![(4u32, ValTy::I32)],
        body.valid(),
        body.params == 2,
{
    proof {
        reveal(ensure_body_code);
    }
    // locals: 2 = cap, 3 = len, 4 = new_cap, 5 = new_data.
    let mut f = Builder::new(2);
    f.declare(4, ValTy::I32);
    f.push(Ins::LocalGet(0));
    f.push(Ins::I32Load(m(4)));
    f.push(Ins::LocalSet(2));
    f.push(Ins::LocalGet(2));
    f.push(Ins::LocalGet(1));
    f.push(Ins::I32GeU);
    f.push(Ins::If(BlockTy::Empty));
    f.push(Ins::Return);
    f.push(Ins::End);
    f.push(Ins::LocalGet(0));
    f.push(Ins::I32Load(m(0)));
    f.push(Ins::LocalSet(3));
    // new_cap = cap == 0 ? 4 : cap * 2, then double until >= needed
    f.push(Ins::LocalGet(2));
    f.push(Ins::I32Eqz);
    f.push(Ins::If(BlockTy::Result(ValTy::I32)));
    f.push(Ins::I32Const(4));
    f.push(Ins::Else);
    f.push(Ins::LocalGet(2));
    f.push(Ins::I32Const(2));
    f.push(Ins::I32Mul);
    f.push(Ins::End);
    f.push(Ins::LocalSet(4));
    f.push(Ins::Block(BlockTy::Empty));
    f.push(Ins::Loop(BlockTy::Empty));
    f.push(Ins::LocalGet(4));
    f.push(Ins::LocalGet(1));
    f.push(Ins::I32GeU);
    f.push(Ins::BrIf(1));
    f.push(Ins::LocalGet(4));
    f.push(Ins::I32Const(2));
    f.push(Ins::I32Mul);
    f.push(Ins::LocalSet(4));
    f.push(Ins::Br(0));
    f.push(Ins::End);
    f.push(Ins::End);
    f.push(Ins::LocalGet(4));
    f.push(Ins::Call(alloc));
    f.push(Ins::LocalSet(5));
    // copy old data
    f.push(Ins::LocalGet(5));
    f.push(Ins::LocalGet(0));
    f.push(Ins::I32Load(m(12)));
    f.push(Ins::LocalGet(3));
    f.push(Ins::MemoryCopy {
        src_mem: 0,
        dst_mem: 0,
    });
    f.push(Ins::LocalGet(0));
    f.push(Ins::LocalGet(4));
    f.push(Ins::I32Store(m(4)));
    f.push(Ins::LocalGet(0));
    f.push(Ins::LocalGet(5));
    f.push(Ins::I32Store(m(12)));
    f.push(Ins::End);
    assert(f.locals() =~= seq![(4u32, ValTy::I32)]);
    f.finish()
}

/// The code that `clear_body` emits.
#[verifier::opaque]
pub open spec fn clear_body_code() -> Seq<Ins> {
    let c = Seq::<Ins>::empty();
    c
        .push(Ins::LocalGet(0))
        .push(Ins::I32Const(0))
        .push(Ins::I32Store(m(0)))
        .push(Ins::End)
}

pub(crate) fn clear_body() -> (body: Body)
    ensures
        body.code@ == clear_body_code(),
        body.locals@ == Seq::<(u32, ValTy)>::empty(),
        body.valid(),
        body.params == 1,
{
    proof {
        reveal(clear_body_code);
    }
    let mut f = Builder::new(1);
    f.push(Ins::LocalGet(0));
    f.push(Ins::I32Const(0));
    f.push(Ins::I32Store(m(0)));
    f.push(Ins::End);
    f.finish()
}

/// The code that `capacity_body` emits.
#[verifier::opaque]
pub open spec fn capacity_body_code() -> Seq<Ins> {
    let c = Seq::<Ins>::empty();
    c
        .push(Ins::LocalGet(0))
        .push(Ins::I32Load(m(4)))
        .push(Ins::End)
}

pub(crate) fn capacity_body() -> (body: Body)
    ensures
        body.code@ == capacity_body_code(),
        body.locals@ == Seq::<(u32, ValTy)>::empty(),
        body.valid(),
        body.params == 1,
{
    proof {
        reveal(capacity_body_code);
    }
    let mut f = Builder::new(1);
    f.push(Ins::LocalGet(0));
    f.push(Ins::I32Load(m(4)));
    f.push(Ins::End);
    f.finish()
}

/// The code that `reserve_body` emits.
#[verifier::opaque]
pub open spec fn reserve_body_code(ensure: u32) -> Seq<Ins> {
    let c = Seq::<Ins>::empty();
    c
        .push(Ins::LocalGet(0))
        .push(Ins::LocalGet(1))
        .push(Ins::Call(ensure))
        .push(Ins::End)
}

pub(crate) fn reserve_body(ensure: u32) -> (body: Body)
    ensures
        body.code@ == reserve_body_code(ensure),
        body.locals@ == Seq::<(u32, ValTy)>::empty(),
        body.valid(),
        body.params == 2,
{
    proof {
        reveal(reserve_body_code);
    }
    let mut f = Builder::new(2);
    f.push(Ins::LocalGet(0));
    f.push(Ins::LocalGet(1));
    f.push(Ins::Call(ensure));
    f.push(Ins::End);
    f.finish()
}

/// The code that `push_body` emits.
#[verifier::opaque]
pub open spec fn push_body_code(ensure: u32) -> Seq<Ins> {
    let c = Seq::<Ins>::empty();
    c
        .push(Ins::LocalGet(0))
        .push(Ins::I32Load(m(0)))
        .push(Ins::LocalSet(2))
        .push(Ins::LocalGet(0))
        .push(Ins::LocalGet(2))
        .push(Ins::I32Const(1))
        .push(Ins::I32Add)
        .push(Ins::Call(ensure))
        .push(Ins::LocalGet(0))
        .push(Ins::I32Load(m(12)))
        .push(Ins::LocalGet(2))
        .push(Ins::I32Add)
        .push(Ins::LocalGet(1))
        .push(Ins::I32Store8(m(0)))
        .push(Ins::LocalGet(0))
        .push(Ins::LocalGet(2))
        .push(Ins::I32Const(1))
        .push(Ins::I32Add)
        .push(Ins::I32Store(m(0)))
        .push(Ins::End)
}

pub(crate) fn push_body(ensure: u32) -> (body: Body)
    ensures
        body.code@ == push_body_code(ensure),
        body.locals@ == seq![(1u32, ValTy::I32)],
        body.valid(),
        body.params == 2,
{
    proof {
        reveal(push_body_code);
    }
    // locals: 2 = len.
    let mut f = Builder::new(2);
    f.declare(1, ValTy::I32);
    f.push(Ins::LocalGet(0));
    f.push(Ins::I32Load(m(0)));
    f.push(Ins::LocalSet(2));
    f.push(Ins::LocalGet(0));
    f.push(Ins::LocalGet(2));
    f.push(Ins::I32Const(1));
    f.push(Ins::I32Add);
    f.push(Ins::Call(ensure));
    f.push(Ins::LocalGet(0));
    f.push(Ins::I32Load(m(12)));
    f.push(Ins::LocalGet(2));
    f.push(Ins::I32Add);
    f.push(Ins::LocalGet(1));
    f.push(Ins::I32Store8(m(0)));
    f.push(Ins::LocalGet(0));
    f.push(Ins::LocalGet(2));
    f.push(Ins::I32Const(1));
    f.push(Ins::I32Add);
    f.push(Ins::I32Store(m(0)));
    f.push(Ins::End);
    assert(f.locals() =~= seq![(1u32, ValTy::I32)]);
    f.finish()
}

/// The code that `extend_body` emits.
#[verifier::opaque]
pub open spec fn extend_body_code(ensure: u32) -> Seq<Ins> {
    let c = Seq::<Ins>::empty();
    c
        .push(Ins::LocalGet(0))
        .push(Ins::I32Load(m(0)))
        .push(Ins::LocalSet(2))
        .push(Ins::LocalGet(1))
        .push(Ins::I32Load(m(0)))
        .push(Ins::LocalSet(3))
        .push(Ins::LocalGet(0))
        .push(Ins::LocalGet(2))
        .push(Ins::LocalGet(3))
        .push(Ins::I32Add)
        .push(Ins::Call(ensure))
        .push(Ins::LocalGet(0))
        .push(Ins::I32Load(m(12)))
        .push(Ins::LocalGet(2))
        .push(Ins::I32Add)
        .push(Ins::LocalGet(1))
        .push(Ins::I32Load(m(12)))
        .push(Ins::LocalGet(3))
        .push(Ins::MemoryCopy { src_mem: 0, dst_mem: 0 })
        .push(Ins::LocalGet(0))
        .push(Ins::LocalGet(2))
        .push(Ins::LocalGet(3))
        .push(Ins::I32Add)
        .push(Ins::I32Store(m(0)))
        .push(Ins::End)
}

pub(crate) fn extend_body(ensure: u32) -> (body: Body)
    ensures
        body.code@ == extend_body_code(ensure),
        body.locals@ == seq![(2u32, ValTy::I32)],
        body.valid(),
        body.params == 2,
{
    proof {
        reveal(extend_body_code);
    }
    // locals: 2 = len, 3 = olen.
    let mut f = Builder::new(2);
    f.declare(2, ValTy::I32);
    f.push(Ins::LocalGet(0));
    f.push(Ins::I32Load(m(0)));
    f.push(Ins::LocalSet(2));
    f.push(Ins::LocalGet(1));
    f.push(Ins::I32Load(m(0)));
    f.push(Ins::LocalSet(3));
    f.push(Ins::LocalGet(0));
    f.push(Ins::LocalGet(2));
    f.push(Ins::LocalGet(3));
    f.push(Ins::I32Add);
    f.push(Ins::Call(ensure));
    f.push(Ins::LocalGet(0));
    f.push(Ins::I32Load(m(12)));
    f.push(Ins::LocalGet(2));
    f.push(Ins::I32Add);
    f.push(Ins::LocalGet(1));
    f.push(Ins::I32Load(m(12)));
    f.push(Ins::LocalGet(3));
    f.push(Ins::MemoryCopy {
        src_mem: 0,
        dst_mem: 0,
    });
    f.push(Ins::LocalGet(0));
    f.push(Ins::LocalGet(2));
    f.push(Ins::LocalGet(3));
    f.push(Ins::I32Add);
    f.push(Ins::I32Store(m(0)));
    f.push(Ins::End);
    assert(f.locals() =~= seq![(2u32, ValTy::I32)]);
    f.finish()
}

/// The code that `truncate_body` emits.
#[verifier::opaque]
pub open spec fn truncate_body_code() -> Seq<Ins> {
    let c = Seq::<Ins>::empty();
    c
        .push(Ins::LocalGet(1))
        .push(Ins::LocalGet(0))
        .push(Ins::I32Load(m(0)))
        .push(Ins::I32LtU)
        .push(Ins::If(BlockTy::Empty))
        .push(Ins::LocalGet(0))
        .push(Ins::LocalGet(1))
        .push(Ins::I32Store(m(0)))
        .push(Ins::End)
        .push(Ins::End)
}

pub(crate) fn truncate_body() -> (body: Body)
    ensures
        body.code@ == truncate_body_code(),
        body.locals@ == Seq::<(u32, ValTy)>::empty(),
        body.valid(),
        body.params == 2,
{
    proof {
        reveal(truncate_body_code);
    }
    let mut f = Builder::new(2);
    f.push(Ins::LocalGet(1));
    f.push(Ins::LocalGet(0));
    f.push(Ins::I32Load(m(0)));
    f.push(Ins::I32LtU);
    f.push(Ins::If(BlockTy::Empty));
    f.push(Ins::LocalGet(0));
    f.push(Ins::LocalGet(1));
    f.push(Ins::I32Store(m(0)));
    f.push(Ins::End);
    f.push(Ins::End);
    f.finish()
}

/// The code that `resize_body` emits.
#[verifier::opaque]
pub open spec fn resize_body_code(ensure: u32) -> Seq<Ins> {
    let c = Seq::<Ins>::empty();
    c
        .push(Ins::LocalGet(0))
        .push(Ins::I32Load(m(0)))
        .push(Ins::LocalSet(3))
        .push(Ins::LocalGet(1))
        .push(Ins::LocalGet(3))
        .push(Ins::I32LtU)
        .push(Ins::If(BlockTy::Empty))
        .push(Ins::LocalGet(0))
        .push(Ins::LocalGet(1))
        .push(Ins::I32Store(m(0)))
        .push(Ins::Return)
        .push(Ins::End)
        .push(Ins::LocalGet(0))
        .push(Ins::LocalGet(1))
        .push(Ins::Call(ensure))
        .push(Ins::LocalGet(3))
        .push(Ins::LocalSet(4))
        .push(Ins::Block(BlockTy::Empty))
        .push(Ins::Loop(BlockTy::Empty))
        .push(Ins::LocalGet(4))
        .push(Ins::LocalGet(1))
        .push(Ins::I32GeU)
        .push(Ins::BrIf(1))
        .push(Ins::LocalGet(0))
        .push(Ins::I32Load(m(12)))
        .push(Ins::LocalGet(4))
        .push(Ins::I32Add)
        .push(Ins::LocalGet(2))
        .push(Ins::I32Store8(m(0)))
        .push(Ins::LocalGet(4))
        .push(Ins::I32Const(1))
        .push(Ins::I32Add)
        .push(Ins::LocalSet(4))
        .push(Ins::Br(0))
        .push(Ins::End)
        .push(Ins::End)
        .push(Ins::LocalGet(0))
        .push(Ins::LocalGet(1))
        .push(Ins::I32Store(m(0)))
        .push(Ins::End)
}

pub(crate) fn resize_body(ensure: u32) -> (body: Body)
    ensures
        body.code@ == resize_body_code(ensure),
        body.locals@ == seq![(2u32, ValTy::I32)],
        body.valid(),
        body.params == 3,
{
    proof {
        reveal(resize_body_code);
    }
    // params: h=0, n=1, v=2; locals: 3 = len, 4 = i.
    let mut f = Builder::new(3);
    f.declare(2, ValTy::I32);
    f.push(Ins::LocalGet(0));
    f.push(Ins::I32Load(m(0)));
    f.push(Ins::LocalSet(3));
    f.push(Ins::LocalGet(1));
    f.push(Ins::LocalGet(3));
    f.push(Ins::I32LtU);
    f.push(Ins::If(BlockTy::Empty));
    f.push(Ins::LocalGet(0));
    f.push(Ins::LocalGet(1));
    f.push(Ins::I32Store(m(0)));
    f.push(Ins::Return);
    f.push(Ins::End);
    f.push(Ins::LocalGet(0));
    f.push(Ins::LocalGet(1));
    f.push(Ins::Call(ensure));
    f.push(Ins::LocalGet(3));
    f.push(Ins::LocalSet(4));
    f.push(Ins::Block(BlockTy::Empty));
    f.push(Ins::Loop(BlockTy::Empty));
    f.push(Ins::LocalGet(4));
    f.push(Ins::LocalGet(1));
    f.push(Ins::I32GeU);
    f.push(Ins::BrIf(1));
    f.push(Ins::LocalGet(0));
    f.push(Ins::I32Load(m(12)));
    f.push(Ins::LocalGet(4));
    f.push(Ins::I32Add);
    f.push(Ins::LocalGet(2));
    f.push(Ins::I32Store8(m(0)));
    f.push(Ins::LocalGet(4));
    f.push(Ins::I32Const(1));
    f.push(Ins::I32Add);
    f.push(Ins::LocalSet(4));
    f.push(Ins::Br(0));
    f.push(Ins::End);
    f.push(Ins::End);
    f.push(Ins::LocalGet(0));
    f.push(Ins::LocalGet(1));
    f.push(Ins::I32Store(m(0)));
    f.push(Ins::End);
    assert(f.locals() =~= seq![(2u32, ValTy::I32)]);
    f.finish()
}

/// The code that `first_body` emits.
#[verifier::opaque]
pub open spec fn first_body_code() -> Seq<Ins> {
    let c = Seq::<Ins>::empty();
    c
        .push(Ins::LocalGet(0))
        .push(Ins::I32Load(m(0)))
        .push(Ins::I32Eqz)
        .push(Ins::If(BlockTy::Empty))
        .push(Ins::Unreachable)
        .push(Ins::End)
        .push(Ins::LocalGet(0))
        .push(Ins::I32Load(m(12)))
        .push(Ins::I32Load8U(m(0)))
        .push(Ins::End)
}

pub(crate) fn first_body() -> (body: Body)
    ensures
        body.code@ == first_body_code(),
        body.locals@ == Seq::<(u32, ValTy)>::empty(),
        body.valid(),
        body.params == 1,
{
    proof {
        reveal(first_body_code);
    }
    let mut f = Builder::new(1);
    f.push(Ins::LocalGet(0));
    f.push(Ins::I32Load(m(0)));
    f.push(Ins::I32Eqz);
    f.push(Ins::If(BlockTy::Empty));
    f.push(Ins::Unreachable);
    f.push(Ins::End);
    f.push(Ins::LocalGet(0));
    f.push(Ins::I32Load(m(12)));
    f.push(Ins::I32Load8U(m(0)));
    f.push(Ins::End);
    f.finish()
}

/// The code that `last_body` emits.
#[verifier::opaque]
pub open spec fn last_body_code() -> Seq<Ins> {
    let c = Seq::<Ins>::empty();
    c
        .push(Ins::LocalGet(0))
        .push(Ins::I32Load(m(0)))
        .push(Ins::I32Eqz)
        .push(Ins::If(BlockTy::Empty))
        .push(Ins::Unreachable)
        .push(Ins::End)
        .push(Ins::LocalGet(0))
        .push(Ins::I32Load(m(12)))
        .push(Ins::LocalGet(0))
        .push(Ins::I32Load(m(0)))
        .push(Ins::I32Const(1))
        .push(Ins::I32Sub)
        .push(Ins::I32Add)
        .push(Ins::I32Load8U(m(0)))
        .push(Ins::End)
}

pub(crate) fn last_body() -> (body: Body)
    ensures
        body.code@ == last_body_code(),
        body.locals@ == Seq::<(u32, ValTy)>::empty(),
        body.valid(),
        body.params == 1,
{
    proof {
        reveal(last_body_code);
    }
    let mut f = Builder::new(1);
    f.push(Ins::LocalGet(0));
    f.push(Ins::I32Load(m(0)));
    f.push(Ins::I32Eqz);
    f.push(Ins::If(BlockTy::Empty));
    f.push(Ins::Unreachable);
    f.push(Ins::End);
    f.push(Ins::LocalGet(0));
    f.push(Ins::I32Load(m(12)));
    f.push(Ins::LocalGet(0));
    f.push(Ins::I32Load(m(0)));
    f.push(Ins::I32Const(1));
    f.push(Ins::I32Sub);
    f.push(Ins::I32Add);
    f.push(Ins::I32Load8U(m(0)));
    f.push(Ins::End);
    f.finish()
}

/// The code that `slice_body` emits.
#[verifier::opaque]
pub open spec fn slice_body_code(rc_new: u32, alloc: u32) -> Seq<Ins> {
    let c = Seq::<Ins>::empty();
    let c = c
        .push(Ins::LocalGet(0))
        .push(Ins::I32Load(m(0)))
        .push(Ins::LocalSet(3));
    let c = clamp_code(c, 1, 3, 4);
    let c = clamp_code(c, 2, 3, 5);
    c
        .push(Ins::LocalGet(5))
        .push(Ins::LocalGet(4))
        .push(Ins::I32LtU)
        .push(Ins::If(BlockTy::Empty))
        .push(Ins::LocalGet(4))
        .push(Ins::LocalSet(5))
        .push(Ins::End)
        .push(Ins::I32Const(16))
        .push(Ins::Call(rc_new))
        .push(Ins::LocalSet(6))
        .push(Ins::LocalGet(6))
        .push(Ins::LocalGet(5))
        .push(Ins::LocalGet(4))
        .push(Ins::I32Sub)
        .push(Ins::I32Store(m(0)))
        .push(Ins::LocalGet(6))
        .push(Ins::LocalGet(5))
        .push(Ins::LocalGet(4))
        .push(Ins::I32Sub)
        .push(Ins::I32Store(m(4)))
        .push(Ins::LocalGet(5))
        .push(Ins::LocalGet(4))
        .push(Ins::I32Sub)
        .push(Ins::Call(alloc))
        .push(Ins::LocalSet(2))
        .push(Ins::LocalGet(6))
        .push(Ins::LocalGet(2))
        .push(Ins::I32Store(m(12)))
        .push(Ins::LocalGet(2))
        .push(Ins::LocalGet(0))
        .push(Ins::I32Load(m(12)))
        .push(Ins::LocalGet(4))
        .push(Ins::I32Add)
        .push(Ins::LocalGet(5))
        .push(Ins::LocalGet(4))
        .push(Ins::I32Sub)
        .push(Ins::MemoryCopy { src_mem: 0, dst_mem: 0 })
        .push(Ins::LocalGet(6))
        .push(Ins::End)
}

/// `(h, start, end) -> bytes`: byte-range slice, clamped.
pub(crate) fn slice_body(rc_new: u32, alloc: u32) -> (body: Body)
    ensures
        body.code@ == slice_body_code(rc_new, alloc),
        body.locals@ == seq![(4u32, ValTy::I32)],
        body.valid(),
        body.params == 3,
{
    proof {
        reveal(slice_body_code);
    }
    // locals: 3 = len, 4 = lo, 5 = hi, 6 = out.
    let mut f = Builder::new(3);
    f.declare(4, ValTy::I32);
    f.push(Ins::LocalGet(0));
    f.push(Ins::I32Load(m(0)));
    f.push(Ins::LocalSet(3));
    clamp(&mut f, 1, 3, 4);
    clamp(&mut f, 2, 3, 5);
    // ensure lo <= hi
    f.push(Ins::LocalGet(5));
    f.push(Ins::LocalGet(4));
    f.push(Ins::I32LtU);
    f.push(Ins::If(BlockTy::Empty));
    f.push(Ins::LocalGet(4));
    f.push(Ins::LocalSet(5));
    f.push(Ins::End);
    f.push(Ins::I32Const(16));
    f.push(Ins::Call(rc_new));
    f.push(Ins::LocalSet(6));
    f.push(Ins::LocalGet(6));
    f.push(Ins::LocalGet(5));
    f.push(Ins::LocalGet(4));
    f.push(Ins::I32Sub);
    f.push(Ins::I32Store(m(0)));
    f.push(Ins::LocalGet(6));
    f.push(Ins::LocalGet(5));
    f.push(Ins::LocalGet(4));
    f.push(Ins::I32Sub);
    f.push(Ins::I32Store(m(4)));
    f.push(Ins::LocalGet(5));
    f.push(Ins::LocalGet(4));
    f.push(Ins::I32Sub);
    f.push(Ins::Call(alloc));
    f.push(Ins::LocalSet(2));
    f.push(Ins::LocalGet(6));
    f.push(Ins::LocalGet(2));
    f.push(Ins::I32Store(m(12)));
    f.push(Ins::LocalGet(2));
    f.push(Ins::LocalGet(0));
    f.push(Ins::I32Load(m(12)));
    f.push(Ins::LocalGet(4));
    f.push(Ins::I32Add);
    f.push(Ins::LocalGet(5));
    f.push(Ins::LocalGet(4));
    f.push(Ins::I32Sub);
    f.push(Ins::MemoryCopy {
        src_mem: 0,
        dst_mem: 0,
    });
    f.push(Ins::LocalGet(6));
    f.push(Ins::End);
    assert(f.locals() =~= seq![(4u32, ValTy::I32)]);
    f.finish()
}

/// The code that `find_body` emits.
#[verifier::opaque]
pub open spec fn find_body_code() -> Seq<Ins> {
    let c = Seq::<Ins>::empty();
    let c = c
        .push(Ins::LocalGet(0))
        .push(Ins::I32Load(m(0)))
        .push(Ins::LocalSet(2))
        .push(Ins::LocalGet(1))
        .push(Ins::I32Load(m(0)))
        .push(Ins::LocalSet(3))
        .push(Ins::LocalGet(3))
        .push(Ins::I32Eqz)
        .push(Ins::If(BlockTy::Empty))
        .push(Ins::I64Const(0))
        .push(Ins::Return)
        .push(Ins::End)
        .push(Ins::I32Const(0))
        .push(Ins::LocalSet(4))
        .push(Ins::Block(BlockTy::Empty))
        .push(Ins::Loop(BlockTy::Empty))
        .push(Ins::LocalGet(4))
        .push(Ins::LocalGet(3))
        .push(Ins::I32Add)
        .push(Ins::LocalGet(2))
        .push(Ins::I32GtU)
        .push(Ins::BrIf(1))
        .push(Ins::I32Const(0))
        .push(Ins::LocalSet(5))
        .push(Ins::Block(BlockTy::Empty))
        .push(Ins::Loop(BlockTy::Empty))
        .push(Ins::LocalGet(5))
        .push(Ins::LocalGet(3))
        .push(Ins::I32GeU)
        .push(Ins::BrIf(1));
    let c = byte_at_code(c, 0, 12, 4, 5);
    let c = byte_at_code(c, 1, 12, 5, 0);
    c
        .push(Ins::I32Ne)
        .push(Ins::BrIf(1))
        .push(Ins::LocalGet(5))
        .push(Ins::I32Const(1))
        .push(Ins::I32Add)
        .push(Ins::LocalSet(5))
        .push(Ins::Br(0))
        .push(Ins::End)
        .push(Ins::End)
        .push(Ins::LocalGet(5))
        .push(Ins::LocalGet(3))
        .push(Ins::I32Eq)
        .push(Ins::If(BlockTy::Empty))
        .push(Ins::LocalGet(4))
        .push(Ins::I64ExtendI32U)
        .push(Ins::Return)
        .push(Ins::End)
        .push(Ins::LocalGet(4))
        .push(Ins::I32Const(1))
        .push(Ins::I32Add)
        .push(Ins::LocalSet(4))
        .push(Ins::Br(0))
        .push(Ins::End)
        .push(Ins::End)
        .push(Ins::I64Const(-1i64))
        .push(Ins::End)
}

/// `(h, needle) -> i64`: first byte index where `needle` occurs, or -1.
pub(crate) fn find_body() -> (body: Body)
    ensures
        body.code@ == find_body_code(),
        body.locals@ == seq![(4u32, ValTy::I32)],
        body.valid(),
        body.params == 2,
{
    proof {
        reveal(find_body_code);
    }
    // locals: 2 = hl, 3 = nl, 4 = i, 5 = j.
    let mut f = Builder::new(2);
    f.declare(4, ValTy::I32);
    f.push(Ins::LocalGet(0));
    f.push(Ins::I32Load(m(0)));
    f.push(Ins::LocalSet(2));
    f.push(Ins::LocalGet(1));
    f.push(Ins::I32Load(m(0)));
    f.push(Ins::LocalSet(3));
    f.push(Ins::LocalGet(3));
    f.push(Ins::I32Eqz);
    f.push(Ins::If(BlockTy::Empty));
    f.push(Ins::I64Const(0));
    f.push(Ins::Return);
    f.push(Ins::End);
    f.push(Ins::I32Const(0));
    f.push(Ins::LocalSet(4));
    f.push(Ins::Block(BlockTy::Empty));
    f.push(Ins::Loop(BlockTy::Empty));
    f.push(Ins::LocalGet(4));
    f.push(Ins::LocalGet(3));
    f.push(Ins::I32Add);
    f.push(Ins::LocalGet(2));
    f.push(Ins::I32GtU);
    f.push(Ins::BrIf(1));
    f.push(Ins::I32Const(0));
    f.push(Ins::LocalSet(5));
    f.push(Ins::Block(BlockTy::Empty));
    f.push(Ins::Loop(BlockTy::Empty));
    f.push(Ins::LocalGet(5));
    f.push(Ins::LocalGet(3));
    f.push(Ins::I32GeU);
    f.push(Ins::BrIf(1));
    byte_at(&mut f, 0, 12, 4, 5);
    byte_at(&mut f, 1, 12, 5, 0);
    f.push(Ins::I32Ne);
    f.push(Ins::BrIf(1));
    f.push(Ins::LocalGet(5));
    f.push(Ins::I32Const(1));
    f.push(Ins::I32Add);
    f.push(Ins::LocalSet(5));
    f.push(Ins::Br(0));
    f.push(Ins::End);
    f.push(Ins::End);
    f.push(Ins::LocalGet(5));
    f.push(Ins::LocalGet(3));
    f.push(Ins::I32Eq);
    f.push(Ins::If(BlockTy::Empty));
    f.push(Ins::LocalGet(4));
    f.push(Ins::I64ExtendI32U);
    f.push(Ins::Return);
    f.push(Ins::End);
    f.push(Ins::LocalGet(4));
    f.push(Ins::I32Const(1));
    f.push(Ins::I32Add);
    f.push(Ins::LocalSet(4));
    f.push(Ins::Br(0));
    f.push(Ins::End);
    f.push(Ins::End);
    f.push(Ins::I64Const(-1));
    f.push(Ins::End);
    assert(f.locals() =~= seq![(4u32, ValTy::I32)]);
    f.finish()
}

/// The code that `starts_body` emits.
#[verifier::opaque]
pub open spec fn starts_body_code(mem_cmp: u32) -> Seq<Ins> {
    let c = Seq::<Ins>::empty();
    c
        .push(Ins::LocalGet(0))
        .push(Ins::I32Load(m(0)))
        .push(Ins::LocalSet(2))
        .push(Ins::LocalGet(1))
        .push(Ins::I32Load(m(0)))
        .push(Ins::LocalSet(3))
        .push(Ins::LocalGet(3))
        .push(Ins::LocalGet(2))
        .push(Ins::I32GtU)
        .push(Ins::If(BlockTy::Empty))
        .push(Ins::I32Const(0))
        .push(Ins::Return)
        .push(Ins::End)
        .push(Ins::LocalGet(0))
        .push(Ins::I32Load(m(12)))
        .push(Ins::LocalGet(1))
        .push(Ins::I32Load(m(12)))
        .push(Ins::LocalGet(3))
        .push(Ins::Call(mem_cmp))
        .push(Ins::I32Eqz)
        .push(Ins::End)
}

pub(crate) fn starts_body(mem_cmp: u32) -> (body: Body)
    ensures
        body.code@ == starts_body_code(mem_cmp),
        body.locals@ == seq![(2u32, ValTy::I32)],
        body.valid(),
        body.params == 2,
{
    proof {
        reveal(starts_body_code);
    }
    // locals: 2 = hl, 3 = pl.
    let mut f = Builder::new(2);
    f.declare(2, ValTy::I32);
    f.push(Ins::LocalGet(0));
    f.push(Ins::I32Load(m(0)));
    f.push(Ins::LocalSet(2));
    f.push(Ins::LocalGet(1));
    f.push(Ins::I32Load(m(0)));
    f.push(Ins::LocalSet(3));
    f.push(Ins::LocalGet(3));
    f.push(Ins::LocalGet(2));
    f.push(Ins::I32GtU);
    f.push(Ins::If(BlockTy::Empty));
    f.push(Ins::I32Const(0));
    f.push(Ins::Return);
    f.push(Ins::End);
    f.push(Ins::LocalGet(0));
    f.push(Ins::I32Load(m(12)));
    f.push(Ins::LocalGet(1));
    f.push(Ins::I32Load(m(12)));
    f.push(Ins::LocalGet(3));
    f.push(Ins::Call(mem_cmp));
    f.push(Ins::I32Eqz);
    f.push(Ins::End);
    assert(f.locals() =~= seq![(2u32, ValTy::I32)]);
    f.finish()
}

/// The code that `ends_body` emits.
#[verifier::opaque]
pub open spec fn ends_body_code(mem_cmp: u32) -> Seq<Ins> {
    let c = Seq::<Ins>::empty();
    c
        .push(Ins::LocalGet(0))
        .push(Ins::I32Load(m(0)))
        .push(Ins::LocalSet(2))
        .push(Ins::LocalGet(1))
        .push(Ins::I32Load(m(0)))
        .push(Ins::LocalSet(3))
        .push(Ins::LocalGet(3))
        .push(Ins::LocalGet(2))
        .push(Ins::I32GtU)
        .push(Ins::If(BlockTy::Empty))
        .push(Ins::I32Const(0))
        .push(Ins::Return)
        .push(Ins::End)
        .push(Ins::LocalGet(0))
        .push(Ins::I32Load(m(12)))
        .push(Ins::LocalGet(2))
        .push(Ins::LocalGet(3))
        .push(Ins::I32Sub)
        .push(Ins::I32Add)
        .push(Ins::LocalGet(1))
        .push(Ins::I32Load(m(12)))
        .push(Ins::LocalGet(3))
        .push(Ins::Call(mem_cmp))
        .push(Ins::I32Eqz)
        .push(Ins::End)
}

pub(crate) fn ends_body(mem_cmp: u32) -> (body: Body)
    ensures
        body.code@ == ends_body_code(mem_cmp),
        body.locals@ == seq![(2u32, ValTy::I32)],
        body.valid(),
        body.params == 2,
{
    proof {
        reveal(ends_body_code);
    }
    // locals: 2 = hl, 3 = sl.
    let mut f = Builder::new(2);
    f.declare(2, ValTy::I32);
    f.push(Ins::LocalGet(0));
    f.push(Ins::I32Load(m(0)));
    f.push(Ins::LocalSet(2));
    f.push(Ins::LocalGet(1));
    f.push(Ins::I32Load(m(0)));
    f.push(Ins::LocalSet(3));
    f.push(Ins::LocalGet(3));
    f.push(Ins::LocalGet(2));
    f.push(Ins::I32GtU);
    f.push(Ins::If(BlockTy::Empty));
    f.push(Ins::I32Const(0));
    f.push(Ins::Return);
    f.push(Ins::End);
    f.push(Ins::LocalGet(0));
    f.push(Ins::I32Load(m(12)));
    f.push(Ins::LocalGet(2));
    f.push(Ins::LocalGet(3));
    f.push(Ins::I32Sub);
    f.push(Ins::I32Add);
    f.push(Ins::LocalGet(1));
    f.push(Ins::I32Load(m(12)));
    f.push(Ins::LocalGet(3));
    f.push(Ins::Call(mem_cmp));
    f.push(Ins::I32Eqz);
    f.push(Ins::End);
    assert(f.locals() =~= seq![(2u32, ValTy::I32)]);
    f.finish()
}

/// The code that `cmp_body` emits.
#[verifier::opaque]
pub open spec fn cmp_body_code(mem_cmp: u32) -> Seq<Ins> {
    let c = Seq::<Ins>::empty();
    c
        .push(Ins::LocalGet(0))
        .push(Ins::I32Load(m(0)))
        .push(Ins::LocalSet(2))
        .push(Ins::LocalGet(1))
        .push(Ins::I32Load(m(0)))
        .push(Ins::LocalSet(3))
        .push(Ins::LocalGet(2))
        .push(Ins::LocalGet(3))
        .push(Ins::I32LtU)
        .push(Ins::If(BlockTy::Result(ValTy::I32)))
        .push(Ins::LocalGet(2))
        .push(Ins::Else)
        .push(Ins::LocalGet(3))
        .push(Ins::End)
        .push(Ins::LocalSet(4))
        .push(Ins::LocalGet(0))
        .push(Ins::I32Load(m(12)))
        .push(Ins::LocalGet(1))
        .push(Ins::I32Load(m(12)))
        .push(Ins::LocalGet(4))
        .push(Ins::Call(mem_cmp))
        .push(Ins::LocalSet(5))
        .push(Ins::LocalGet(5))
        .push(Ins::I32Const(0))
        .push(Ins::I32Ne)
        .push(Ins::If(BlockTy::Result(ValTy::I64)))
        .push(Ins::LocalGet(5))
        .push(Ins::I32Const(0))
        .push(Ins::I32LtS)
        .push(Ins::If(BlockTy::Result(ValTy::I64)))
        .push(Ins::I64Const(-1i64))
        .push(Ins::Else)
        .push(Ins::I64Const(1))
        .push(Ins::End)
        .push(Ins::Else)
        .push(Ins::LocalGet(2))
        .push(Ins::LocalGet(3))
        .push(Ins::I32LtU)
        .push(Ins::If(BlockTy::Result(ValTy::I64)))
        .push(Ins::I64Const(-1i64))
        .push(Ins::Else)
        .push(Ins::LocalGet(2))
        .push(Ins::LocalGet(3))
        .push(Ins::I32GtU)
        .push(Ins::If(BlockTy::Result(ValTy::I64)))
        .push(Ins::I64Const(1))
        .push(Ins::Else)
        .push(Ins::I64Const(0))
        .push(Ins::End)
        .push(Ins::End)
        .push(Ins::End)
        .push(Ins::End)
}

pub(crate) fn cmp_body(mem_cmp: u32) -> (body: Body)
    ensures
        body.code@ == cmp_body_code(mem_cmp),
        body.locals@ == seq![(4u32, ValTy::I32)],
        body.valid(),
        body.params == 2,
{
    proof {
        reveal(cmp_body_code);
    }
    // locals: 2 = la, 3 = lb, 4 = n, 5 = c.
    let mut f = Builder::new(2);
    f.declare(4, ValTy::I32);
    f.push(Ins::LocalGet(0));
    f.push(Ins::I32Load(m(0)));
    f.push(Ins::LocalSet(2));
    f.push(Ins::LocalGet(1));
    f.push(Ins::I32Load(m(0)));
    f.push(Ins::LocalSet(3));
    f.push(Ins::LocalGet(2));
    f.push(Ins::LocalGet(3));
    f.push(Ins::I32LtU);
    f.push(Ins::If(BlockTy::Result(ValTy::I32)));
    f.push(Ins::LocalGet(2));
    f.push(Ins::Else);
    f.push(Ins::LocalGet(3));
    f.push(Ins::End);
    f.push(Ins::LocalSet(4));
    f.push(Ins::LocalGet(0));
    f.push(Ins::I32Load(m(12)));
    f.push(Ins::LocalGet(1));
    f.push(Ins::I32Load(m(12)));
    f.push(Ins::LocalGet(4));
    f.push(Ins::Call(mem_cmp));
    f.push(Ins::LocalSet(5));
    f.push(Ins::LocalGet(5));
    f.push(Ins::I32Const(0));
    f.push(Ins::I32Ne);
    f.push(Ins::If(BlockTy::Result(ValTy::I64)));
    f.push(Ins::LocalGet(5));
    f.push(Ins::I32Const(0));
    f.push(Ins::I32LtS);
    f.push(Ins::If(BlockTy::Result(ValTy::I64)));
    f.push(Ins::I64Const(-1));
    f.push(Ins::Else);
    f.push(Ins::I64Const(1));
    f.push(Ins::End);
    f.push(Ins::Else);
    f.push(Ins::LocalGet(2));
    f.push(Ins::LocalGet(3));
    f.push(Ins::I32LtU);
    f.push(Ins::If(BlockTy::Result(ValTy::I64)));
    f.push(Ins::I64Const(-1));
    f.push(Ins::Else);
    f.push(Ins::LocalGet(2));
    f.push(Ins::LocalGet(3));
    f.push(Ins::I32GtU);
    f.push(Ins::If(BlockTy::Result(ValTy::I64)));
    f.push(Ins::I64Const(1));
    f.push(Ins::Else);
    f.push(Ins::I64Const(0));
    f.push(Ins::End);
    f.push(Ins::End);
    f.push(Ins::End);
    f.push(Ins::End);
    assert(f.locals() =~= seq![(4u32, ValTy::I32)]);
    f.finish()
}

/// `c` followed by the code that `byte_at` emits.
#[verifier::opaque]
pub open spec fn byte_at_code(c: Seq<Ins>, base: u32, data_off: u64, index: u32, _scratch: u32) -> Seq<Ins> {
    c
        .push(Ins::LocalGet(base))
        .push(Ins::I32Load(m(data_off)))
        .push(Ins::LocalGet(index))
        .push(Ins::I32Add)
        .push(Ins::I32Load8U(m(0)))
}

/// Loads byte `index` of buffer `base` (data at `base + 12`) into `dest_local`.
fn byte_at(f: &mut Builder, base: u32, data_off: u64, index: u32, _scratch: u32)
    requires
        old(f).wf(),
        old(f).frames().len() >= 1,
        base < old(f).nlocals(),
        index < old(f).nlocals(),
    ensures
        final(f).code() == byte_at_code(old(f).code(), base, data_off, index, _scratch),
        final(f).wf(),
        final(f).params() == old(f).params(),
        final(f).locals() == old(f).locals(),
        final(f).frames() == old(f).frames(),
{
    proof {
        reveal(byte_at_code);
    }
    f.push(Ins::LocalGet(base));
    f.push(Ins::I32Load(m(data_off)));
    f.push(Ins::LocalGet(index));
    f.push(Ins::I32Add);
    f.push(Ins::I32Load8U(m(0)));
}

/// `c` followed by the code that `clamp` emits.
#[verifier::opaque]
pub open spec fn clamp_code(c: Seq<Ins>, src: u32, len: u32, dest: u32) -> Seq<Ins> {
    c
        .push(Ins::LocalGet(src))
        .push(Ins::I32Const(0))
        .push(Ins::I32LtS)
        .push(Ins::If(BlockTy::Result(ValTy::I32)))
        .push(Ins::I32Const(0))
        .push(Ins::Else)
        .push(Ins::LocalGet(src))
        .push(Ins::LocalGet(len))
        .push(Ins::I32GtS)
        .push(Ins::If(BlockTy::Result(ValTy::I32)))
        .push(Ins::LocalGet(len))
        .push(Ins::Else)
        .push(Ins::LocalGet(src))
        .push(Ins::End)
        .push(Ins::End)
        .push(Ins::LocalSet(dest))
}

/// `local = clamp(local, 0, len_local)` (signed compares).
fn clamp(f: &mut Builder, src: u32, len: u32, dest: u32)
    requires
        old(f).wf(),
        old(f).frames().len() >= 1,
        dest < old(f).nlocals(),
        len < old(f).nlocals(),
        src < old(f).nlocals(),
    ensures
        final(f).code() == clamp_code(old(f).code(), src, len, dest),
        final(f).wf(),
        final(f).params() == old(f).params(),
        final(f).locals() == old(f).locals(),
        final(f).frames() == old(f).frames(),
{
    proof {
        reveal(clamp_code);
    }
    f.push(Ins::LocalGet(src));
    f.push(Ins::I32Const(0));
    f.push(Ins::I32LtS);
    f.push(Ins::If(BlockTy::Result(ValTy::I32)));
    f.push(Ins::I32Const(0));
    f.push(Ins::Else);
    f.push(Ins::LocalGet(src));
    f.push(Ins::LocalGet(len));
    f.push(Ins::I32GtS);
    f.push(Ins::If(BlockTy::Result(ValTy::I32)));
    f.push(Ins::LocalGet(len));
    f.push(Ins::Else);
    f.push(Ins::LocalGet(src));
    f.push(Ins::End);
    f.push(Ins::End);
    f.push(Ins::LocalSet(dest));
}


} // verus!
