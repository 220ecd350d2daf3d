//! String runtime helpers for the wasm backend.
//!
//! A string handle points at `[len: i32][utf-8 bytes]`, preceded by the shared
//! eight-byte reference-count prefix (see `rc`). `find`/`rfind`/`substring` use
//! **byte** indices; `trim` and case conversion here are ASCII.
use vstd::prelude::*;
use crate::wasm::builder::{body_views, bodies_fit, signature_views, Body, Builder, Frame};
use crate::wasm::model::{m, BlockTy, Ins, ValTy};
use crate::wasm::rt_index as rt;

verus! {


/// String helper signatures, in offset order.
pub open spec fn string_signatures() -> Seq<(Seq<ValTy>, Seq<ValTy>)> {
    seq![
        (seq![ValTy::I32, ValTy::I32, ValTy::I32], seq![ValTy::I32]),
        (seq![ValTy::I32, ValTy::I32, ValTy::I32], seq![ValTy::I32]),
        (seq![ValTy::I32], seq![ValTy::I32]),
        (seq![ValTy::I32, ValTy::I32], seq![ValTy::I32]),
        (seq![ValTy::I32, ValTy::I32], seq![ValTy::I64]),
        (seq![ValTy::I32, ValTy::I32], seq![ValTy::I32]),
        (seq![ValTy::I32, ValTy::I32], seq![ValTy::I32]),
        (seq![ValTy::I32, ValTy::I32], seq![ValTy::I32]),
        (seq![ValTy::I32, ValTy::I32], seq![ValTy::I64]),
        (seq![ValTy::I32, ValTy::I32], seq![ValTy::I64]),
        (seq![ValTy::I32, ValTy::I32, ValTy::I32], seq![ValTy::I32]),
        (seq![ValTy::I32, ValTy::I32], seq![ValTy::I32]),
        (seq![ValTy::I32, ValTy::I32], seq![ValTy::I32]),
        (seq![ValTy::I32, ValTy::I32], seq![ValTy::I32]),
        (seq![ValTy::I32], seq![ValTy::I32]),
        (seq![ValTy::I32], seq![ValTy::I32]),
        (seq![ValTy::I32], seq![ValTy::I32]),
        (seq![ValTy::I32], seq![ValTy::I32]),
    ]
}

/// String helper signatures, in offset order.
pub fn signatures() -> (sigs: Vec<(Vec<ValTy>, Vec<ValTy>)>)
    ensures
        signature_views(sigs@) == string_signatures(),
{
    let sigs = vec![
        (vec![ValTy::I32, ValTy::I32, ValTy::I32], vec![ValTy::I32]),
        (vec![ValTy::I32, ValTy::I32, ValTy::I32], vec![ValTy::I32]),
        (vec![ValTy::I32], vec![ValTy::I32]),
        (vec![ValTy::I32, ValTy::I32], vec![ValTy::I32]),
        (vec![ValTy::I32, ValTy::I32], vec![ValTy::I64]),
        (vec![ValTy::I32, ValTy::I32], vec![ValTy::I32]),
        (vec![ValTy::I32, ValTy::I32], vec![ValTy::I32]),
        (vec![ValTy::I32, ValTy::I32], vec![ValTy::I32]),
        (vec![ValTy::I32, ValTy::I32], vec![ValTy::I64]),
        (vec![ValTy::I32, ValTy::I32], vec![ValTy::I64]),
        (vec![ValTy::I32, ValTy::I32, ValTy::I32], vec![ValTy::I32]),
        (vec![ValTy::I32, ValTy::I32], vec![ValTy::I32]),
        (vec![ValTy::I32, ValTy::I32], vec![ValTy::I32]),
        (vec![ValTy::I32, ValTy::I32], vec![ValTy::I32]),
        (vec![ValTy::I32], vec![ValTy::I32]),
        (vec![ValTy::I32], vec![ValTy::I32]),
        (vec![ValTy::I32], vec![ValTy::I32]),
        (vec![ValTy::I32], vec![ValTy::I32]),
    ];
    assert(signature_views(sigs@) =~~= string_signatures());
    sigs
}

/// The locals and code of each string helper, wired to the runtime at `base`, in offset order.
pub open spec fn string_body_views(base: u32) -> Seq<(Seq<(u32, ValTy)>, Seq<Ins>)> {
    let rc_new = rt::wired(base, rt::RC_NEW);
    let copy = rt::wired(base, rt::STR_COPY);
    let eq_at = rt::wired(base, rt::STR_EQ_AT);
    let ascii_ws = rt::wired(base, rt::STR_IS_WS);
    seq![
        (seq![(2u32, ValTy::I32)], copy_body_code((rc_new))),
        (seq![(2u32, ValTy::I32)], eq_at_body_code()),
        (seq![(1u32, ValTy::I32)], is_ws_body_code()),
        (seq![(1u32, ValTy::I32)], eq_body_code((eq_at))),
        (seq![(4u32, ValTy::I32)], cmp_body_code()),
        (seq![(3u32, ValTy::I32)], contains_body_code((eq_at))),
        (seq![(2u32, ValTy::I32)], starts_body_code((eq_at))),
        (seq![(2u32, ValTy::I32)], ends_body_code((eq_at))),
        (seq![(3u32, ValTy::I32)], find_body_code((eq_at))),
        (seq![(3u32, ValTy::I32)], rfind_body_code((eq_at))),
        (seq![(3u32, ValTy::I32)], substring_body_code((copy))),
        (seq![(4u32, ValTy::I32)], repeat_body_code((rc_new))),
        (seq![(2u32, ValTy::I32)], strip_prefix_body_code((eq_at), (copy))),
        (seq![(2u32, ValTy::I32)], strip_suffix_body_code((eq_at), (copy))),
        (seq![(3u32, ValTy::I32)], trim_start_body_code((copy), (ascii_ws))),
        (seq![(3u32, ValTy::I32)], trim_end_body_code((copy), (ascii_ws))),
        (seq![(5u32, ValTy::I32)], map_bytes_body_code((rc_new), (32))),
        (seq![(5u32, ValTy::I32)], map_bytes_body_code((rc_new), -32i32)),
    ]
}

/// String helper bodies, in offset order.
pub fn bodies(base: u32) -> (bodies: Vec<Body>)
    requires
        base + rt::COUNT <= u32::MAX,
    ensures
        body_views(bodies@) == string_body_views(base),
        bodies_fit(bodies@, string_signatures()),
{
    let rc_new = base + rt::RC_NEW;
    let copy = base + rt::STR_COPY;
    let eq_at = base + rt::STR_EQ_AT;
    let ascii_ws = base + rt::STR_IS_WS;
    let bodies = vec![
        copy_body(rc_new),
        eq_at_body(),
        is_ws_body(),
        eq_body(eq_at),
        cmp_body(),
        contains_body(eq_at),
        starts_body(eq_at),
        ends_body(eq_at),
        find_body(eq_at),
        rfind_body(eq_at),
        substring_body(copy),
        repeat_body(rc_new),
        strip_prefix_body(eq_at, copy),
        strip_suffix_body(eq_at, copy),
        trim_start_body(copy, ascii_ws),
        trim_end_body(copy, ascii_ws),
        map_bytes_body(rc_new, 32),
        map_bytes_body(rc_new, -32),
    ];
    assert(bodies_fit(bodies@, string_signatures()));
    assert(body_views(bodies@) =~= string_body_views(base));
    bodies
}

/// Signatures of the parsing helpers appended after the other modules.
pub open spec fn string_extra_signatures() -> Seq<(Seq<ValTy>, Seq<ValTy>)> {
    seq![
        (seq![ValTy::I32], seq![ValTy::I64]),
        (seq![ValTy::I32], seq![ValTy::F64]),
    ]
}

/// Signatures of the parsing helpers appended after the other modules.
pub fn extra_signatures() -> (sigs: Vec<(Vec<ValTy>, Vec<ValTy>)>)
    ensures
        signature_views(sigs@) == string_extra_signatures(),
{
    let sigs = vec![
        (vec![ValTy::I32], vec![ValTy::I64]),
        (vec![ValTy::I32], vec![ValTy::F64]),
    ];
    assert(signature_views(sigs@) =~~= string_extra_signatures());
    sigs
}

/// The locals and code of the two parsing helpers, wired to the runtime at `base`.
pub open spec fn string_extra_body_views(base: u32) -> Seq<(Seq<(u32, ValTy)>, Seq<Ins>)> {
    let is_ws = rt::wired(base, rt::SO_IS_WS);
    seq![
        (seq![(4u32, ValTy::I32), (1u32, ValTy::I64), (1u32, ValTy::I32), (1u32, ValTy::I64), (1u32, ValTy::I32)], to_i64_body_code((is_ws))),
        (seq![(3u32, ValTy::I32), (1u32, ValTy::I32), (2u32, ValTy::F64), (1u32, ValTy::I32), (1u32, ValTy::I64), (1u32, ValTy::I32), (1u32, ValTy::I64)], to_f64_body_code((is_ws))),
    ]
}

/// The parsing helper bodies; both use the whitespace test at `SO_IS_WS`.
pub fn extra_bodies(base: u32) -> (bodies: Vec<Body>)
    requires
        base + rt::COUNT <= u32::MAX,
    ensures
        body_views(bodies@) == string_extra_body_views(base),
        bodies_fit(bodies@, string_extra_signatures()),
{
    let is_ws = base + rt::SO_IS_WS;
    let bodies = vec![to_i64_body(is_ws), to_f64_body(is_ws)];
    assert(bodies_fit(bodies@, string_extra_signatures()));
    assert(body_views(bodies@) =~= string_extra_body_views(base));
    bodies
}

/// The bytes that `is_ws_body` counts as whitespace, in the order it tests them.
pub open spec fn whitespace_bytes() -> Seq<i32> {
    seq![32i32, 9, 10, 13, 12, 11]
}

/// `c` followed by one early-return test for each of the first `k` whitespace bytes.
pub open spec fn whitespace_tests_code(c: Seq<Ins>, k: nat) -> Seq<Ins>
    decreases k,
{
    if k == 0 {
        c
    } else {
        whitespace_tests_code(c, (k - 1) as nat)
            .push(Ins::LocalGet(0))
            .push(Ins::I32Const(whitespace_bytes()[k - 1]))
            .push(Ins::I32Eq)
            .push(Ins::If(BlockTy::Empty))
            .push(Ins::I32Const(1))
            .push(Ins::Return)
            .push(Ins::End)
    }
}

/// The code that `is_ws_body` emits.
pub open spec fn is_ws_body_code() -> Seq<Ins> {
    whitespace_tests_code(Seq::<Ins>::empty(), 6).push(Ins::I32Const(0)).push(Ins::End)
}

pub(crate) fn is_ws_body() -> (body: Body)
    ensures
        body.code@ == is_ws_body_code(),
        body.locals@ == seq![(1u32, ValTy::I32)],
        body.valid(),
        body.params == 1,
{
    let mut f = Builder::new(1);
    f.declare(1, ValTy::I32);
    let whitespace: [i32; 6] = [32, 9, 10, 13, 12, 11];
    assert(whitespace@ =~= whitespace_bytes());
    let mut k: usize = 0;
    while k < 6
        invariant
            whitespace@ == whitespace_bytes(),
            k <= 6,
            f.code() == whitespace_tests_code(Seq::<Ins>::empty(), k as nat),
            f.locals() == seq![(1u32, ValTy::I32)],
            f.wf(),
            f.frames() == seq![Frame::Func],
            f.params() == 1,
            f.nlocals() == 2,
        decreases 6 - k,
    {
        f.push(Ins::LocalGet(0));
        f.push(Ins::I32Const(whitespace[k]));
        f.push(Ins::I32Eq);
        f.push(Ins::If(BlockTy::Empty));
        f.push(Ins::I32Const(1));
        f.push(Ins::Return);
        f.push(Ins::End);
        assert(f.frames() =~= seq![Frame::Func]);
        k = k + 1;
    }
    f.push(Ins::I32Const(0));
    f.push(Ins::End);
    assert(f.locals() =~= seq![(1u32, ValTy::I32)]);
    f.finish()
}

/// The code that `contains_body` emits.
#[verifier::opaque]
pub open spec fn contains_body_code(eq_at: u32) -> Seq<Ins> {
    let c = Seq::<Ins>::empty();
    let c = push_len_code(c, 1);
    let c = c
        .push(Ins::LocalSet(3))
        .push(Ins::LocalGet(3))
        .push(Ins::I32Eqz)
        .push(Ins::If(BlockTy::Empty))
        .push(Ins::I32Const(1))
        .push(Ins::Return)
        .push(Ins::End);
    let c = push_len_code(c, 0);
    c
        .push(Ins::LocalSet(2))
        .push(Ins::I32Const(0))
        .push(Ins::LocalSet(4))
        .push(Ins::Block(BlockTy::Empty))
        .push(Ins::Loop(BlockTy::Empty))
        .push(Ins::LocalGet(4))
        .push(Ins::LocalGet(3))
        .push(Ins::I32Add)
        .push(Ins::LocalGet(2))
        .push(Ins::I32GtU)
        .push(Ins::BrIf(1))
        .push(Ins::LocalGet(0))
        .push(Ins::LocalGet(4))
        .push(Ins::LocalGet(1))
        .push(Ins::Call(eq_at))
        .push(Ins::If(BlockTy::Empty))
        .push(Ins::I32Const(1))
        .push(Ins::Return)
        .push(Ins::End)
        .push(Ins::LocalGet(4))
        .push(Ins::I32Const(1))
        .push(Ins::I32Add)
        .push(Ins::LocalSet(4))
        .push(Ins::Br(0))
        .push(Ins::End)
        .push(Ins::End)
        .push(Ins::I32Const(0))
        .push(Ins::End)
}

/// `(haystack, needle) -> i32`: substring presence.
pub(crate) fn contains_body(eq_at: u32) -> (body: Body)
    ensures
        body.code@ == contains_body_code(eq_at),
        body.locals@ == seq![(3u32, ValTy::I32)],
        body.valid(),
        body.params == 2,
{
    proof {
        reveal(contains_body_code);
    }
    // locals: 2 = hl, 3 = nl, 4 = i.
    let mut f = Builder::new(2);
    f.declare(3, ValTy::I32);
    push_len(&mut f, 1);
    f.push(Ins::LocalSet(3));
    f.push(Ins::LocalGet(3));
    f.push(Ins::I32Eqz);
    f.push(Ins::If(BlockTy::Empty));
    f.push(Ins::I32Const(1));
    f.push(Ins::Return);
    f.push(Ins::End);
    push_len(&mut f, 0);
    f.push(Ins::LocalSet(2));
    f.push(Ins::I32Const(0));
    f.push(Ins::LocalSet(4));
    f.push(Ins::Block(BlockTy::Empty));
    f.push(Ins::Loop(BlockTy::Empty));
    f.push(Ins::LocalGet(4));
    f.push(Ins::LocalGet(3));
    f.push(Ins::I32Add);
    f.push(Ins::LocalGet(2));
    f.push(Ins::I32GtU);
    f.push(Ins::BrIf(1));
    f.push(Ins::LocalGet(0));
    f.push(Ins::LocalGet(4));
    f.push(Ins::LocalGet(1));
    f.push(Ins::Call(eq_at));
    f.push(Ins::If(BlockTy::Empty));
    f.push(Ins::I32Const(1));
    f.push(Ins::Return);
    f.push(Ins::End);
    f.push(Ins::LocalGet(4));
    f.push(Ins::I32Const(1));
    f.push(Ins::I32Add);
    f.push(Ins::LocalSet(4));
    f.push(Ins::Br(0));
    f.push(Ins::End);
    f.push(Ins::End);
    f.push(Ins::I32Const(0));
    f.push(Ins::End);
    assert(f.locals() =~= seq![(3u32, ValTy::I32)]);
    f.finish()
}

/// The code that `copy_body` emits.
#[verifier::opaque]
pub open spec fn copy_body_code(rc_new: u32) -> Seq<Ins> {
    let c = Seq::<Ins>::empty();
    c
        .push(Ins::LocalGet(2))
        .push(Ins::I32Const(4))
        .push(Ins::I32Add)
        .push(Ins::Call(rc_new))
        .push(Ins::LocalSet(3))
        .push(Ins::LocalGet(3))
        .push(Ins::LocalGet(2))
        .push(Ins::I32Store(m(0)))
        .push(Ins::I32Const(0))
        .push(Ins::LocalSet(4))
        .push(Ins::Block(BlockTy::Empty))
        .push(Ins::Loop(BlockTy::Empty))
        .push(Ins::LocalGet(4))
        .push(Ins::LocalGet(2))
        .push(Ins::I32GeU)
        .push(Ins::BrIf(1))
        .push(Ins::LocalGet(3))
        .push(Ins::I32Const(4))
        .push(Ins::I32Add)
        .push(Ins::LocalGet(4))
        .push(Ins::I32Add)
        .push(Ins::LocalGet(0))
        .push(Ins::I32Const(4))
        .push(Ins::I32Add)
        .push(Ins::LocalGet(1))
        .push(Ins::I32Add)
        .push(Ins::LocalGet(4))
        .push(Ins::I32Add)
        .push(Ins::I32Load8U(m(0)))
        .push(Ins::I32Store8(m(0)))
        .push(Ins::LocalGet(4))
        .push(Ins::I32Const(1))
        .push(Ins::I32Add)
        .push(Ins::LocalSet(4))
        .push(Ins::Br(0))
        .push(Ins::End)
        .push(Ins::End)
        .push(Ins::LocalGet(3))
        .push(Ins::End)
}

/// `(src, start, len) -> handle`: copies `len` bytes of `src` from `start`.
pub(crate) fn copy_body(rc_new: u32) -> (body: Body)
    ensures
        body.code@ == copy_body_code(rc_new),
        body.locals@ == seq![(2u32, ValTy::I32)],
        body.valid(),
        body.params == 3,
{
    proof {
        reveal(copy_body_code);
    }
    // locals: 3 = dest, 4 = i.
    let mut f = Builder::new(3);
    f.declare(2, ValTy::I32);
    f.push(Ins::LocalGet(2));
    f.push(Ins::I32Const(4));
    f.push(Ins::I32Add);
    f.push(Ins::Call(rc_new));
    f.push(Ins::LocalSet(3));
    f.push(Ins::LocalGet(3));
    f.push(Ins::LocalGet(2));
    f.push(Ins::I32Store(m(0)));
    f.push(Ins::I32Const(0));
    f.push(Ins::LocalSet(4));
    f.push(Ins::Block(BlockTy::Empty));
    f.push(Ins::Loop(BlockTy::Empty));
    f.push(Ins::LocalGet(4));
    f.push(Ins::LocalGet(2));
    f.push(Ins::I32GeU);
    f.push(Ins::BrIf(1));
    f.push(Ins::LocalGet(3));
    f.push(Ins::I32Const(4));
    f.push(Ins::I32Add);
    f.push(Ins::LocalGet(4));
    f.push(Ins::I32Add);
    f.push(Ins::LocalGet(0));
    f.push(Ins::I32Const(4));
    f.push(Ins::I32Add);
    f.push(Ins::LocalGet(1));
    f.push(Ins::I32Add);
    f.push(Ins::LocalGet(4));
    f.push(Ins::I32Add);
    f.push(Ins::I32Load8U(m(0)));
    f.push(Ins::I32Store8(m(0)));
    f.push(Ins::LocalGet(4));
    f.push(Ins::I32Const(1));
    f.push(Ins::I32Add);
    f.push(Ins::LocalSet(4));
    f.push(Ins::Br(0));
    f.push(Ins::End);
    f.push(Ins::End);
    f.push(Ins::LocalGet(3));
    f.push(Ins::End);
    assert(f.locals() =~= seq![(2u32, ValTy::I32)]);
    f.finish()
}

/// The code that `eq_at_body` emits.
#[verifier::opaque]
pub open spec fn eq_at_body_code() -> Seq<Ins> {
    let c = Seq::<Ins>::empty();
    c
        .push(Ins::LocalGet(2))
        .push(Ins::I32Load(m(0)))
        .push(Ins::LocalSet(4))
        .push(Ins::I32Const(0))
        .push(Ins::LocalSet(3))
        .push(Ins::Block(BlockTy::Empty))
        .push(Ins::Loop(BlockTy::Empty))
        .push(Ins::LocalGet(3))
        .push(Ins::LocalGet(4))
        .push(Ins::I32GeU)
        .push(Ins::BrIf(1))
        .push(Ins::LocalGet(0))
        .push(Ins::I32Const(4))
        .push(Ins::I32Add)
        .push(Ins::LocalGet(1))
        .push(Ins::I32Add)
        .push(Ins::LocalGet(3))
        .push(Ins::I32Add)
        .push(Ins::I32Load8U(m(0)))
        .push(Ins::LocalGet(2))
        .push(Ins::I32Const(4))
        .push(Ins::I32Add)
        .push(Ins::LocalGet(3))
        .push(Ins::I32Add)
        .push(Ins::I32Load8U(m(0)))
        .push(Ins::I32Ne)
        .push(Ins::If(BlockTy::Empty))
        .push(Ins::I32Const(0))
        .push(Ins::Return)
        .push(Ins::End)
        .push(Ins::LocalGet(3))
        .push(Ins::I32Const(1))
        .push(Ins::I32Add)
        .push(Ins::LocalSet(3))
        .push(Ins::Br(0))
        .push(Ins::End)
        .push(Ins::End)
        .push(Ins::I32Const(1))
        .push(Ins::End)
}

/// `(haystack, offset, needle) -> i32`: whether `needle` matches at `offset`.
/// Assumes `offset + len(needle) <= len(haystack)`.
pub(crate) fn eq_at_body() -> (body: Body)
    ensures
        body.code@ == eq_at_body_code(),
        body.locals@ == seq![(2u32, ValTy::I32)],
        body.valid(),
        body.params == 3,
{
    proof {
        reveal(eq_at_body_code);
    }
    // locals: 3 = i, 4 = nlen.
    let mut f = Builder::new(3);
    f.declare(2, ValTy::I32);
    f.push(Ins::LocalGet(2));
    f.push(Ins::I32Load(m(0)));
    f.push(Ins::LocalSet(4));
    f.push(Ins::I32Const(0));
    f.push(Ins::LocalSet(3));
    f.push(Ins::Block(BlockTy::Empty));
    f.push(Ins::Loop(BlockTy::Empty));
    f.push(Ins::LocalGet(3));
    f.push(Ins::LocalGet(4));
    f.push(Ins::I32GeU);
    f.push(Ins::BrIf(1));
    f.push(Ins::LocalGet(0));
    f.push(Ins::I32Const(4));
    f.push(Ins::I32Add);
    f.push(Ins::LocalGet(1));
    f.push(Ins::I32Add);
    f.push(Ins::LocalGet(3));
    f.push(Ins::I32Add);
    f.push(Ins::I32Load8U(m(0)));
    f.push(Ins::LocalGet(2));
    f.push(Ins::I32Const(4));
    f.push(Ins::I32Add);
    f.push(Ins::LocalGet(3));
    f.push(Ins::I32Add);
    f.push(Ins::I32Load8U(m(0)));
    f.push(Ins::I32Ne);
    f.push(Ins::If(BlockTy::Empty));
    f.push(Ins::I32Const(0));
    f.push(Ins::Return);
    f.push(Ins::End);
    f.push(Ins::LocalGet(3));
    f.push(Ins::I32Const(1));
    f.push(Ins::I32Add);
    f.push(Ins::LocalSet(3));
    f.push(Ins::Br(0));
    f.push(Ins::End);
    f.push(Ins::End);
    f.push(Ins::I32Const(1));
    f.push(Ins::End);
    assert(f.locals() =~= seq![(2u32, ValTy::I32)]);
    f.finish()
}

/// The code that `eq_body` emits.
#[verifier::opaque]
pub open spec fn eq_body_code(eq_at: u32) -> Seq<Ins> {
    let c = Seq::<Ins>::empty();
    c
        .push(Ins::LocalGet(0))
        .push(Ins::I32Load(m(0)))
        .push(Ins::LocalGet(1))
        .push(Ins::I32Load(m(0)))
        .push(Ins::I32Ne)
        .push(Ins::If(BlockTy::Empty))
        .push(Ins::I32Const(0))
        .push(Ins::Return)
        .push(Ins::End)
        .push(Ins::LocalGet(0))
        .push(Ins::I32Const(0))
        .push(Ins::LocalGet(1))
        .push(Ins::Call(eq_at))
        .push(Ins::End)
}

/// `(a, b) -> i32`: byte equality.
pub(crate) fn eq_body(eq_at: u32) -> (body: Body)
    ensures
        body.code@ == eq_body_code(eq_at),
        body.locals@ == seq![(1u32, ValTy::I32)],
        body.valid(),
        body.params == 2,
{
    proof {
        reveal(eq_body_code);
    }
    let mut f = Builder::new(2);
    f.declare(1, ValTy::I32);
    // lengths differ -> 0
    f.push(Ins::LocalGet(0));
    f.push(Ins::I32Load(m(0)));
    f.push(Ins::LocalGet(1));
    f.push(Ins::I32Load(m(0)));
    f.push(Ins::I32Ne);
    f.push(Ins::If(BlockTy::Empty));
    f.push(Ins::I32Const(0));
    f.push(Ins::Return);
    f.push(Ins::End);
    f.push(Ins::LocalGet(0));
    f.push(Ins::I32Const(0));
    f.push(Ins::LocalGet(1));
    f.push(Ins::Call(eq_at));
    f.push(Ins::End);
    assert(f.locals() =~= seq![(1u32, ValTy::I32)]);
    f.finish()
}

/// The code that `cmp_body` emits.
#[verifier::opaque]
pub open spec fn cmp_body_code() -> Seq<Ins> {
    let c = Seq::<Ins>::empty();
    let c = push_len_code(c, 0);
    let c = c
        .push(Ins::LocalSet(2));
    let c = push_len_code(c, 1);
    c
        .push(Ins::LocalSet(3))
        .push(Ins::I32Const(0))
        .push(Ins::LocalSet(4))
        .push(Ins::LocalGet(2))
        .push(Ins::LocalGet(3))
        .push(Ins::I32LtU)
        .push(Ins::If(BlockTy::Result(ValTy::I32)))
        .push(Ins::LocalGet(2))
        .push(Ins::Else)
        .push(Ins::LocalGet(3))
        .push(Ins::End)
        .push(Ins::LocalSet(5))
        .push(Ins::Block(BlockTy::Empty))
        .push(Ins::Loop(BlockTy::Empty))
        .push(Ins::LocalGet(4))
        .push(Ins::LocalGet(5))
        .push(Ins::I32GeU)
        .push(Ins::BrIf(1))
        .push(Ins::LocalGet(0))
        .push(Ins::I32Const(4))
        .push(Ins::I32Add)
        .push(Ins::LocalGet(4))
        .push(Ins::I32Add)
        .push(Ins::I32Load8U(m(0)))
        .push(Ins::LocalGet(1))
        .push(Ins::I32Const(4))
        .push(Ins::I32Add)
        .push(Ins::LocalGet(4))
        .push(Ins::I32Add)
        .push(Ins::I32Load8U(m(0)))
        .push(Ins::I32Ne)
        .push(Ins::If(BlockTy::Empty))
        .push(Ins::LocalGet(0))
        .push(Ins::I32Const(4))
        .push(Ins::I32Add)
        .push(Ins::LocalGet(4))
        .push(Ins::I32Add)
        .push(Ins::I32Load8U(m(0)))
        .push(Ins::LocalGet(1))
        .push(Ins::I32Const(4))
        .push(Ins::I32Add)
        .push(Ins::LocalGet(4))
        .push(Ins::I32Add)
        .push(Ins::I32Load8U(m(0)))
        .push(Ins::I32LtU)
        .push(Ins::If(BlockTy::Result(ValTy::I64)))
        .push(Ins::I64Const(-1i64))
        .push(Ins::Else)
        .push(Ins::I64Const(1))
        .push(Ins::End)
        .push(Ins::Return)
        .push(Ins::End)
        .push(Ins::LocalGet(4))
        .push(Ins::I32Const(1))
        .push(Ins::I32Add)
        .push(Ins::LocalSet(4))
        .push(Ins::Br(0))
        .push(Ins::End)
        .push(Ins::End)
        .push(Ins::LocalGet(2))
        .push(Ins::LocalGet(3))
        .push(Ins::I32LtU)
        .push(Ins::If(BlockTy::Result(ValTy::I64)))
        .push(Ins::I64Const(-1i64))
        .push(Ins::Else)
        .push(Ins::LocalGet(2))
        .push(Ins::LocalGet(3))
        .push(Ins::I32GtU)
        .push(Ins::If(BlockTy::Result(ValTy::I64)))
        .push(Ins::I64Const(1))
        .push(Ins::Else)
        .push(Ins::I64Const(0))
        .push(Ins::End)
        .push(Ins::End)
        .push(Ins::End)
}

/// `(a, b) -> i64`: lexicographic comparison (-1, 0, 1).
pub(crate) fn cmp_body() -> (body: Body)
    ensures
        body.code@ == cmp_body_code(),
        body.locals@ == seq![(4u32, ValTy::I32)],
        body.valid(),
        body.params == 2,
{
    proof {
        reveal(cmp_body_code);
    }
    // locals: 2 = la, 3 = lb, 4 = i, 5 = n.
    let mut f = Builder::new(2);
    f.declare(4, ValTy::I32);
    push_len(&mut f, 0);
    f.push(Ins::LocalSet(2));
    push_len(&mut f, 1);
    f.push(Ins::LocalSet(3));
    f.push(Ins::I32Const(0));
    f.push(Ins::LocalSet(4));
    f.push(Ins::LocalGet(2));
    f.push(Ins::LocalGet(3));
    f.push(Ins::I32LtU);
    f.push(Ins::If(BlockTy::Result(ValTy::I32)));
    f.push(Ins::LocalGet(2));
    f.push(Ins::Else);
    f.push(Ins::LocalGet(3));
    f.push(Ins::End);
    f.push(Ins::LocalSet(5));
    f.push(Ins::Block(BlockTy::Empty));
    f.push(Ins::Loop(BlockTy::Empty));
    f.push(Ins::LocalGet(4));
    f.push(Ins::LocalGet(5));
    f.push(Ins::I32GeU);
    f.push(Ins::BrIf(1));
    // x, y
    f.push(Ins::LocalGet(0));
    f.push(Ins::I32Const(4));
    f.push(Ins::I32Add);
    f.push(Ins::LocalGet(4));
    f.push(Ins::I32Add);
    f.push(Ins::I32Load8U(m(0)));
    f.push(Ins::LocalGet(1));
    f.push(Ins::I32Const(4));
    f.push(Ins::I32Add);
    f.push(Ins::LocalGet(4));
    f.push(Ins::I32Add);
    f.push(Ins::I32Load8U(m(0)));
    f.push(Ins::I32Ne);
    f.push(Ins::If(BlockTy::Empty));
    f.push(Ins::LocalGet(0));
    f.push(Ins::I32Const(4));
    f.push(Ins::I32Add);
    f.push(Ins::LocalGet(4));
    f.push(Ins::I32Add);
    f.push(Ins::I32Load8U(m(0)));
    f.push(Ins::LocalGet(1));
    f.push(Ins::I32Const(4));
    f.push(Ins::I32Add);
    f.push(Ins::LocalGet(4));
    f.push(Ins::I32Add);
    f.push(Ins::I32Load8U(m(0)));
    f.push(Ins::I32LtU);
    f.push(Ins::If(BlockTy::Result(ValTy::I64)));
    f.push(Ins::I64Const(-1));
    f.push(Ins::Else);
    f.push(Ins::I64Const(1));
    f.push(Ins::End);
    f.push(Ins::Return);
    f.push(Ins::End);
    f.push(Ins::LocalGet(4));
    f.push(Ins::I32Const(1));
    f.push(Ins::I32Add);
    f.push(Ins::LocalSet(4));
    f.push(Ins::Br(0));
    f.push(Ins::End);
    f.push(Ins::End);
    // lengths decide
    f.push(Ins::LocalGet(2));
    f.push(Ins::LocalGet(3));
    f.push(Ins::I32LtU);
    f.push(Ins::If(BlockTy::Result(ValTy::I64)));
    f.push(Ins::I64Const(-1));
    f.push(Ins::Else);
    f.push(Ins::LocalGet(2));
    f.push(Ins::LocalGet(3));
    f.push(Ins::I32GtU);
    f.push(Ins::If(BlockTy::Result(ValTy::I64)));
    f.push(Ins::I64Const(1));
    f.push(Ins::Else);
    f.push(Ins::I64Const(0));
    f.push(Ins::End);
    f.push(Ins::End);
    f.push(Ins::End);
    assert(f.locals() =~= seq![(4u32, ValTy::I32)]);
    f.finish()
}

/// The code that `find_body` emits.
#[verifier::opaque]
pub open spec fn find_body_code(eq_at: u32) -> Seq<Ins> {
    let c = Seq::<Ins>::empty();
    let c = push_len_code(c, 1);
    let c = c
        .push(Ins::LocalSet(3))
        .push(Ins::LocalGet(3))
        .push(Ins::I32Eqz)
        .push(Ins::If(BlockTy::Empty))
        .push(Ins::I64Const(0))
        .push(Ins::Return)
        .push(Ins::End);
    let c = push_len_code(c, 0);
    c
        .push(Ins::LocalSet(2))
        .push(Ins::I32Const(0))
        .push(Ins::LocalSet(4))
        .push(Ins::Block(BlockTy::Empty))
        .push(Ins::Loop(BlockTy::Empty))
        .push(Ins::LocalGet(4))
        .push(Ins::LocalGet(3))
        .push(Ins::I32Add)
        .push(Ins::LocalGet(2))
        .push(Ins::I32GtU)
        .push(Ins::BrIf(1))
        .push(Ins::LocalGet(0))
        .push(Ins::LocalGet(4))
        .push(Ins::LocalGet(1))
        .push(Ins::Call(eq_at))
        .push(Ins::If(BlockTy::Empty))
        .push(Ins::LocalGet(4))
        .push(Ins::I64ExtendI32U)
        .push(Ins::Return)
        .push(Ins::End)
        .push(Ins::LocalGet(4))
        .push(Ins::I32Const(1))
        .push(Ins::I32Add)
        .push(Ins::LocalSet(4))
        .push(Ins::Br(0))
        .push(Ins::End)
        .push(Ins::End)
        .push(Ins::I64Const(-1i64))
        .push(Ins::End)
}

/// `(haystack, needle) -> i64`: first byte index, or -1.
pub(crate) fn find_body(eq_at: u32) -> (body: Body)
    ensures
        body.code@ == find_body_code(eq_at),
        body.locals@ == seq![(3u32, ValTy::I32)],
        body.valid(),
        body.params == 2,
{
    proof {
        reveal(find_body_code);
    }
    // locals: 2 = hl, 3 = nl, 4 = i.
    let mut f = Builder::new(2);
    f.declare(3, ValTy::I32);
    push_len(&mut f, 1);
    f.push(Ins::LocalSet(3));
    f.push(Ins::LocalGet(3));
    f.push(Ins::I32Eqz);
    f.push(Ins::If(BlockTy::Empty));
    f.push(Ins::I64Const(0));
    f.push(Ins::Return);
    f.push(Ins::End);
    push_len(&mut f, 0);
    f.push(Ins::LocalSet(2));
    f.push(Ins::I32Const(0));
    f.push(Ins::LocalSet(4));
    f.push(Ins::Block(BlockTy::Empty));
    f.push(Ins::Loop(BlockTy::Empty));
    f.push(Ins::LocalGet(4));
    f.push(Ins::LocalGet(3));
    f.push(Ins::I32Add);
    f.push(Ins::LocalGet(2));
    f.push(Ins::I32GtU);
    f.push(Ins::BrIf(1));
    f.push(Ins::LocalGet(0));
    f.push(Ins::LocalGet(4));
    f.push(Ins::LocalGet(1));
    f.push(Ins::Call(eq_at));
    f.push(Ins::If(BlockTy::Empty));
    f.push(Ins::LocalGet(4));
    f.push(Ins::I64ExtendI32U);
    f.push(Ins::Return);
    f.push(Ins::End);
    f.push(Ins::LocalGet(4));
    f.push(Ins::I32Const(1));
    f.push(Ins::I32Add);
    f.push(Ins::LocalSet(4));
    f.push(Ins::Br(0));
    f.push(Ins::End);
    f.push(Ins::End);
    f.push(Ins::I64Const(-1));
    f.push(Ins::End);
    assert(f.locals() =~= seq![(3u32, ValTy::I32)]);
    f.finish()
}

/// The code that `starts_body` emits.
#[verifier::opaque]
pub open spec fn starts_body_code(eq_at: u32) -> Seq<Ins> {
    let c = Seq::<Ins>::empty();
    let c = push_len_code(c, 0);
    let c = c
        .push(Ins::LocalSet(2));
    let c = push_len_code(c, 1);
    c
        .push(Ins::LocalSet(3))
        .push(Ins::LocalGet(3))
        .push(Ins::LocalGet(2))
        .push(Ins::I32GtU)
        .push(Ins::If(BlockTy::Empty))
        .push(Ins::I32Const(0))
        .push(Ins::Return)
        .push(Ins::End)
        .push(Ins::LocalGet(0))
        .push(Ins::I32Const(0))
        .push(Ins::LocalGet(1))
        .push(Ins::Call(eq_at))
        .push(Ins::End)
}

/// `(haystack, needle) -> i64`: first byte index, or -1.
pub(crate) fn starts_body(eq_at: u32) -> (body: Body)
    ensures
        body.code@ == starts_body_code(eq_at),
        body.locals@ == seq![(2u32, ValTy::I32)],
        body.valid(),
        body.params == 2,
{
    proof {
        reveal(starts_body_code);
    }
    // locals: 2 = hl, 3 = nl.
    let mut f = Builder::new(2);
    f.declare(2, ValTy::I32);
    push_len(&mut f, 0);
    f.push(Ins::LocalSet(2));
    push_len(&mut f, 1);
    f.push(Ins::LocalSet(3));
    f.push(Ins::LocalGet(3));
    f.push(Ins::LocalGet(2));
    f.push(Ins::I32GtU);
    f.push(Ins::If(BlockTy::Empty));
    f.push(Ins::I32Const(0));
    f.push(Ins::Return);
    f.push(Ins::End);
    f.push(Ins::LocalGet(0));
    f.push(Ins::I32Const(0));
    f.push(Ins::LocalGet(1));
    f.push(Ins::Call(eq_at));
    f.push(Ins::End);
    assert(f.locals() =~= seq![(2u32, ValTy::I32)]);
    f.finish()
}

/// The code that `ends_body` emits.
#[verifier::opaque]
pub open spec fn ends_body_code(eq_at: u32) -> Seq<Ins> {
    let c = Seq::<Ins>::empty();
    let c = push_len_code(c, 0);
    let c = c
        .push(Ins::LocalSet(2));
    let c = push_len_code(c, 1);
    c
        .push(Ins::LocalSet(3))
        .push(Ins::LocalGet(3))
        .push(Ins::LocalGet(2))
        .push(Ins::I32GtU)
        .push(Ins::If(BlockTy::Empty))
        .push(Ins::I32Const(0))
        .push(Ins::Return)
        .push(Ins::End)
        .push(Ins::LocalGet(0))
        .push(Ins::LocalGet(2))
        .push(Ins::LocalGet(3))
        .push(Ins::I32Sub)
        .push(Ins::LocalGet(1))
        .push(Ins::Call(eq_at))
        .push(Ins::End)
}

pub(crate) fn ends_body(eq_at: u32) -> (body: Body)
    ensures
        body.code@ == ends_body_code(eq_at),
        body.locals@ == seq![(2u32, ValTy::I32)],
        body.valid(),
        body.params == 2,
{
    proof {
        reveal(ends_body_code);
    }
    // locals: 2 = hl, 3 = nl.
    let mut f = Builder::new(2);
    f.declare(2, ValTy::I32);
    push_len(&mut f, 0);
    f.push(Ins::LocalSet(2));
    push_len(&mut f, 1);
    f.push(Ins::LocalSet(3));
    f.push(Ins::LocalGet(3));
    f.push(Ins::LocalGet(2));
    f.push(Ins::I32GtU);
    f.push(Ins::If(BlockTy::Empty));
    f.push(Ins::I32Const(0));
    f.push(Ins::Return);
    f.push(Ins::End);
    f.push(Ins::LocalGet(0));
    f.push(Ins::LocalGet(2));
    f.push(Ins::LocalGet(3));
    f.push(Ins::I32Sub);
    f.push(Ins::LocalGet(1));
    f.push(Ins::Call(eq_at));
    f.push(Ins::End);
    assert(f.locals() =~= seq![(2u32, ValTy::I32)]);
    f.finish()
}

/// The code that `rfind_body` emits.
#[verifier::opaque]
pub open spec fn rfind_body_code(eq_at: u32) -> Seq<Ins> {
    let c = Seq::<Ins>::empty();
    let c = push_len_code(c, 1);
    let c = c
        .push(Ins::LocalSet(3))
        .push(Ins::LocalGet(3))
        .push(Ins::I32Eqz)
        .push(Ins::If(BlockTy::Empty));
    let c = push_len_code(c, 0);
    let c = c
        .push(Ins::I64ExtendI32U)
        .push(Ins::Return)
        .push(Ins::End);
    let c = push_len_code(c, 0);
    c
        .push(Ins::LocalSet(2))
        .push(Ins::LocalGet(3))
        .push(Ins::LocalGet(2))
        .push(Ins::I32GtU)
        .push(Ins::If(BlockTy::Result(ValTy::I32)))
        .push(Ins::I32Const(-1i32))
        .push(Ins::Else)
        .push(Ins::LocalGet(2))
        .push(Ins::LocalGet(3))
        .push(Ins::I32Sub)
        .push(Ins::End)
        .push(Ins::LocalSet(4))
        .push(Ins::Block(BlockTy::Empty))
        .push(Ins::Loop(BlockTy::Empty))
        .push(Ins::LocalGet(4))
        .push(Ins::I32Const(0))
        .push(Ins::I32LtS)
        .push(Ins::BrIf(1))
        .push(Ins::LocalGet(0))
        .push(Ins::LocalGet(4))
        .push(Ins::LocalGet(1))
        .push(Ins::Call(eq_at))
        .push(Ins::If(BlockTy::Empty))
        .push(Ins::LocalGet(4))
        .push(Ins::I64ExtendI32U)
        .push(Ins::Return)
        .push(Ins::End)
        .push(Ins::LocalGet(4))
        .push(Ins::I32Const(1))
        .push(Ins::I32Sub)
        .push(Ins::LocalSet(4))
        .push(Ins::Br(0))
        .push(Ins::End)
        .push(Ins::End)
        .push(Ins::I64Const(-1i64))
        .push(Ins::End)
}

pub(crate) fn rfind_body(eq_at: u32) -> (body: Body)
    ensures
        body.code@ == rfind_body_code(eq_at),
        body.locals@ == seq![(3u32, ValTy::I32)],
        body.valid(),
        body.params == 2,
{
    proof {
        reveal(rfind_body_code);
    }
    // locals: 2 = hl, 3 = nl, 4 = i.
    let mut f = Builder::new(2);
    f.declare(3, ValTy::I32);
    push_len(&mut f, 1);
    f.push(Ins::LocalSet(3));
    f.push(Ins::LocalGet(3));
    f.push(Ins::I32Eqz);
    f.push(Ins::If(BlockTy::Empty));
    push_len(&mut f, 0);
    f.push(Ins::I64ExtendI32U);
    f.push(Ins::Return);
    f.push(Ins::End);
    push_len(&mut f, 0);
    f.push(Ins::LocalSet(2));
    // i = hl - nl (or -1 if nl > hl)
    f.push(Ins::LocalGet(3));
    f.push(Ins::LocalGet(2));
    f.push(Ins::I32GtU);
    f.push(Ins::If(BlockTy::Result(ValTy::I32)));
    f.push(Ins::I32Const(-1));
    f.push(Ins::Else);
    f.push(Ins::LocalGet(2));
    f.push(Ins::LocalGet(3));
    f.push(Ins::I32Sub);
    f.push(Ins::End);
    f.push(Ins::LocalSet(4));
    f.push(Ins::Block(BlockTy::Empty));
    f.push(Ins::Loop(BlockTy::Empty));
    f.push(Ins::LocalGet(4));
    f.push(Ins::I32Const(0));
    f.push(Ins::I32LtS);
    f.push(Ins::BrIf(1));
    f.push(Ins::LocalGet(0));
    f.push(Ins::LocalGet(4));
    f.push(Ins::LocalGet(1));
    f.push(Ins::Call(eq_at));
    f.push(Ins::If(BlockTy::Empty));
    f.push(Ins::LocalGet(4));
    f.push(Ins::I64ExtendI32U);
    f.push(Ins::Return);
    f.push(Ins::End);
    f.push(Ins::LocalGet(4));
    f.push(Ins::I32Const(1));
    f.push(Ins::I32Sub);
    f.push(Ins::LocalSet(4));
    f.push(Ins::Br(0));
    f.push(Ins::End);
    f.push(Ins::End);
    f.push(Ins::I64Const(-1));
    f.push(Ins::End);
    assert(f.locals() =~= seq![(3u32, ValTy::I32)]);
    f.finish()
}

/// The code that `substring_body` emits.
#[verifier::opaque]
pub open spec fn substring_body_code(copy: u32) -> Seq<Ins> {
    let c = Seq::<Ins>::empty();
    let c = push_len_code(c, 0);
    c
        .push(Ins::LocalSet(3))
        .push(Ins::LocalGet(1))
        .push(Ins::I32Const(0))
        .push(Ins::I32LtS)
        .push(Ins::If(BlockTy::Result(ValTy::I32)))
        .push(Ins::I32Const(0))
        .push(Ins::Else)
        .push(Ins::LocalGet(1))
        .push(Ins::LocalGet(3))
        .push(Ins::I32GtS)
        .push(Ins::If(BlockTy::Result(ValTy::I32)))
        .push(Ins::LocalGet(3))
        .push(Ins::Else)
        .push(Ins::LocalGet(1))
        .push(Ins::End)
        .push(Ins::End)
        .push(Ins::LocalSet(4))
        .push(Ins::LocalGet(2))
        .push(Ins::LocalGet(4))
        .push(Ins::I32LtS)
        .push(Ins::If(BlockTy::Result(ValTy::I32)))
        .push(Ins::LocalGet(4))
        .push(Ins::Else)
        .push(Ins::LocalGet(2))
        .push(Ins::LocalGet(3))
        .push(Ins::I32GtS)
        .push(Ins::If(BlockTy::Result(ValTy::I32)))
        .push(Ins::LocalGet(3))
        .push(Ins::Else)
        .push(Ins::LocalGet(2))
        .push(Ins::End)
        .push(Ins::End)
        .push(Ins::LocalSet(5))
        .push(Ins::LocalGet(0))
        .push(Ins::LocalGet(4))
        .push(Ins::LocalGet(5))
        .push(Ins::LocalGet(4))
        .push(Ins::I32Sub)
        .push(Ins::Call(copy))
        .push(Ins::End)
}

/// `(s, start, end) -> handle`: byte-range slice, clamped.
pub(crate) fn substring_body(copy: u32) -> (body: Body)
    ensures
        body.code@ == substring_body_code(copy),
        body.locals@ == seq![(3u32, ValTy::I32)],
        body.valid(),
        body.params == 3,
{
    proof {
        reveal(substring_body_code);
    }
    // locals: 3 = len, 4 = lo, 5 = hi.
    let mut f = Builder::new(3);
    f.declare(3, ValTy::I32);
    push_len(&mut f, 0);
    f.push(Ins::LocalSet(3));
    // lo = clamp(start, 0, len)
    f.push(Ins::LocalGet(1));
    f.push(Ins::I32Const(0));
    f.push(Ins::I32LtS);
    f.push(Ins::If(BlockTy::Result(ValTy::I32)));
    f.push(Ins::I32Const(0));
    f.push(Ins::Else);
    f.push(Ins::LocalGet(1));
    f.push(Ins::LocalGet(3));
    f.push(Ins::I32GtS);
    f.push(Ins::If(BlockTy::Result(ValTy::I32)));
    f.push(Ins::LocalGet(3));
    f.push(Ins::Else);
    f.push(Ins::LocalGet(1));
    f.push(Ins::End);
    f.push(Ins::End);
    f.push(Ins::LocalSet(4));
    // hi = clamp(end, lo, len)
    f.push(Ins::LocalGet(2));
    f.push(Ins::LocalGet(4));
    f.push(Ins::I32LtS);
    f.push(Ins::If(BlockTy::Result(ValTy::I32)));
    f.push(Ins::LocalGet(4));
    f.push(Ins::Else);
    f.push(Ins::LocalGet(2));
    f.push(Ins::LocalGet(3));
    f.push(Ins::I32GtS);
    f.push(Ins::If(BlockTy::Result(ValTy::I32)));
    f.push(Ins::LocalGet(3));
    f.push(Ins::Else);
    f.push(Ins::LocalGet(2));
    f.push(Ins::End);
    f.push(Ins::End);
    f.push(Ins::LocalSet(5));
    f.push(Ins::LocalGet(0));
    f.push(Ins::LocalGet(4));
    f.push(Ins::LocalGet(5));
    f.push(Ins::LocalGet(4));
    f.push(Ins::I32Sub);
    f.push(Ins::Call(copy));
    f.push(Ins::End);
    assert(f.locals() =~= seq![(3u32, ValTy::I32)]);
    f.finish()
}

/// The code that `repeat_body` emits.
#[verifier::opaque]
pub open spec fn repeat_body_code(rc_new: u32) -> Seq<Ins> {
    let c = Seq::<Ins>::empty();
    let c = push_len_code(c, 0);
    c
        .push(Ins::LocalSet(2))
        .push(Ins::LocalGet(2))
        .push(Ins::LocalGet(1))
        .push(Ins::I32Mul)
        .push(Ins::I32Const(4))
        .push(Ins::I32Add)
        .push(Ins::Call(rc_new))
        .push(Ins::LocalSet(3))
        .push(Ins::LocalGet(3))
        .push(Ins::LocalGet(2))
        .push(Ins::LocalGet(1))
        .push(Ins::I32Mul)
        .push(Ins::I32Store(m(0)))
        .push(Ins::I32Const(0))
        .push(Ins::LocalSet(4))
        .push(Ins::Block(BlockTy::Empty))
        .push(Ins::Loop(BlockTy::Empty))
        .push(Ins::LocalGet(4))
        .push(Ins::LocalGet(1))
        .push(Ins::I32GeU)
        .push(Ins::BrIf(1))
        .push(Ins::I32Const(0))
        .push(Ins::LocalSet(5))
        .push(Ins::Block(BlockTy::Empty))
        .push(Ins::Loop(BlockTy::Empty))
        .push(Ins::LocalGet(5))
        .push(Ins::LocalGet(2))
        .push(Ins::I32GeU)
        .push(Ins::BrIf(1))
        .push(Ins::LocalGet(3))
        .push(Ins::I32Const(4))
        .push(Ins::I32Add)
        .push(Ins::LocalGet(4))
        .push(Ins::LocalGet(2))
        .push(Ins::I32Mul)
        .push(Ins::I32Add)
        .push(Ins::LocalGet(5))
        .push(Ins::I32Add)
        .push(Ins::LocalGet(0))
        .push(Ins::I32Const(4))
        .push(Ins::I32Add)
        .push(Ins::LocalGet(5))
        .push(Ins::I32Add)
        .push(Ins::I32Load8U(m(0)))
        .push(Ins::I32Store8(m(0)))
        .push(Ins::LocalGet(5))
        .push(Ins::I32Const(1))
        .push(Ins::I32Add)
        .push(Ins::LocalSet(5))
        .push(Ins::Br(0))
        .push(Ins::End)
        .push(Ins::End)
        .push(Ins::LocalGet(4))
        .push(Ins::I32Const(1))
        .push(Ins::I32Add)
        .push(Ins::LocalSet(4))
        .push(Ins::Br(0))
        .push(Ins::End)
        .push(Ins::End)
        .push(Ins::LocalGet(3))
        .push(Ins::End)
}

/// `(s, n) -> handle`: repeat the string `n` times (n >= 0).
pub(crate) fn repeat_body(rc_new: u32) -> (body: Body)
    ensures
        body.code@ == repeat_body_code(rc_new),
        body.locals@ == seq![(4u32, ValTy::I32)],
        body.valid(),
        body.params == 2,
{
    proof {
        reveal(repeat_body_code);
    }
    // locals: 2 = slen, 3 = dest, 4 = i, 5 = j.
    let mut f = Builder::new(2);
    f.declare(4, ValTy::I32);
    push_len(&mut f, 0);
    f.push(Ins::LocalSet(2));
    f.push(Ins::LocalGet(2));
    f.push(Ins::LocalGet(1));
    f.push(Ins::I32Mul);
    f.push(Ins::I32Const(4));
    f.push(Ins::I32Add);
    f.push(Ins::Call(rc_new));
    f.push(Ins::LocalSet(3));
    f.push(Ins::LocalGet(3));
    f.push(Ins::LocalGet(2));
    f.push(Ins::LocalGet(1));
    f.push(Ins::I32Mul);
    f.push(Ins::I32Store(m(0)));
    f.push(Ins::I32Const(0));
    f.push(Ins::LocalSet(4));
    f.push(Ins::Block(BlockTy::Empty));
    f.push(Ins::Loop(BlockTy::Empty));
    f.push(Ins::LocalGet(4));
    f.push(Ins::LocalGet(1));
    f.push(Ins::I32GeU);
    f.push(Ins::BrIf(1));
    f.push(Ins::I32Const(0));
    f.push(Ins::LocalSet(5));
    f.push(Ins::Block(BlockTy::Empty));
    f.push(Ins::Loop(BlockTy::Empty));
    f.push(Ins::LocalGet(5));
    f.push(Ins::LocalGet(2));
    f.push(Ins::I32GeU);
    f.push(Ins::BrIf(1));
    f.push(Ins::LocalGet(3));
    f.push(Ins::I32Const(4));
    f.push(Ins::I32Add);
    f.push(Ins::LocalGet(4));
    f.push(Ins::LocalGet(2));
    f.push(Ins::I32Mul);
    f.push(Ins::I32Add);
    f.push(Ins::LocalGet(5));
    f.push(Ins::I32Add);
    f.push(Ins::LocalGet(0));
    f.push(Ins::I32Const(4));
    f.push(Ins::I32Add);
    f.push(Ins::LocalGet(5));
    f.push(Ins::I32Add);
    f.push(Ins::I32Load8U(m(0)));
    f.push(Ins::I32Store8(m(0)));
    f.push(Ins::LocalGet(5));
    f.push(Ins::I32Const(1));
    f.push(Ins::I32Add);
    f.push(Ins::LocalSet(5));
    f.push(Ins::Br(0));
    f.push(Ins::End);
    f.push(Ins::End);
    f.push(Ins::LocalGet(4));
    f.push(Ins::I32Const(1));
    f.push(Ins::I32Add);
    f.push(Ins::LocalSet(4));
    f.push(Ins::Br(0));
    f.push(Ins::End);
    f.push(Ins::End);
    f.push(Ins::LocalGet(3));
    f.push(Ins::End);
    assert(f.locals() =~= seq![(4u32, ValTy::I32)]);
    f.finish()
}

/// The code that `strip_prefix_body` emits.
#[verifier::opaque]
pub open spec fn strip_prefix_body_code(eq_at: u32, copy: u32) -> Seq<Ins> {
    let c = Seq::<Ins>::empty();
    let c = push_len_code(c, 0);
    let c = c
        .push(Ins::LocalSet(2));
    let c = push_len_code(c, 1);
    c
        .push(Ins::LocalSet(3))
        .push(Ins::LocalGet(3))
        .push(Ins::LocalGet(2))
        .push(Ins::I32LeU)
        .push(Ins::If(BlockTy::Empty))
        .push(Ins::LocalGet(0))
        .push(Ins::I32Const(0))
        .push(Ins::LocalGet(1))
        .push(Ins::Call(eq_at))
        .push(Ins::If(BlockTy::Empty))
        .push(Ins::LocalGet(0))
        .push(Ins::LocalGet(3))
        .push(Ins::LocalGet(2))
        .push(Ins::LocalGet(3))
        .push(Ins::I32Sub)
        .push(Ins::Call(copy))
        .push(Ins::Return)
        .push(Ins::End)
        .push(Ins::End)
        .push(Ins::LocalGet(0))
        .push(Ins::I32Const(0))
        .push(Ins::LocalGet(2))
        .push(Ins::Call(copy))
        .push(Ins::End)
}

/// `(s, prefix) -> handle`: `s` without `prefix`, or a copy of `s`.
pub(crate) fn strip_prefix_body(eq_at: u32, copy: u32) -> (body: Body)
    ensures
        body.code@ == strip_prefix_body_code(eq_at, copy),
        body.locals@ == seq![(2u32, ValTy::I32)],
        body.valid(),
        body.params == 2,
{
    proof {
        reveal(strip_prefix_body_code);
    }
    // locals: 2 = hl, 3 = pl.
    let mut f = Builder::new(2);
    f.declare(2, ValTy::I32);
    push_len(&mut f, 0);
    f.push(Ins::LocalSet(2));
    push_len(&mut f, 1);
    f.push(Ins::LocalSet(3));
    f.push(Ins::LocalGet(3));
    f.push(Ins::LocalGet(2));
    f.push(Ins::I32LeU);
    f.push(Ins::If(BlockTy::Empty));
    f.push(Ins::LocalGet(0));
    f.push(Ins::I32Const(0));
    f.push(Ins::LocalGet(1));
    f.push(Ins::Call(eq_at));
    f.push(Ins::If(BlockTy::Empty));
    f.push(Ins::LocalGet(0));
    f.push(Ins::LocalGet(3));
    f.push(Ins::LocalGet(2));
    f.push(Ins::LocalGet(3));
    f.push(Ins::I32Sub);
    f.push(Ins::Call(copy));
    f.push(Ins::Return);
    f.push(Ins::End);
    f.push(Ins::End);
    f.push(Ins::LocalGet(0));
    f.push(Ins::I32Const(0));
    f.push(Ins::LocalGet(2));
    f.push(Ins::Call(copy));
    f.push(Ins::End);
    assert(f.locals() =~= seq![(2u32, ValTy::I32)]);
    f.finish()
}

/// The code that `strip_suffix_body` emits.
#[verifier::opaque]
pub open spec fn strip_suffix_body_code(eq_at: u32, copy: u32) -> Seq<Ins> {
    let c = Seq::<Ins>::empty();
    let c = push_len_code(c, 0);
    let c = c
        .push(Ins::LocalSet(2));
    let c = push_len_code(c, 1);
    c
        .push(Ins::LocalSet(3))
        .push(Ins::LocalGet(3))
        .push(Ins::LocalGet(2))
        .push(Ins::I32LeU)
        .push(Ins::If(BlockTy::Empty))
        .push(Ins::LocalGet(0))
        .push(Ins::LocalGet(2))
        .push(Ins::LocalGet(3))
        .push(Ins::I32Sub)
        .push(Ins::LocalGet(1))
        .push(Ins::Call(eq_at))
        .push(Ins::If(BlockTy::Empty))
        .push(Ins::LocalGet(0))
        .push(Ins::I32Const(0))
        .push(Ins::LocalGet(2))
        .push(Ins::LocalGet(3))
        .push(Ins::I32Sub)
        .push(Ins::Call(copy))
        .push(Ins::Return)
        .push(Ins::End)
        .push(Ins::End)
        .push(Ins::LocalGet(0))
        .push(Ins::I32Const(0))
        .push(Ins::LocalGet(2))
        .push(Ins::Call(copy))
        .push(Ins::End)
}

pub(crate) fn strip_suffix_body(eq_at: u32, copy: u32) -> (body: Body)
    ensures
        body.code@ == strip_suffix_body_code(eq_at, copy),
        body.locals@ == seq![(2u32, ValTy::I32)],
        body.valid(),
        body.params == 2,
{
    proof {
        reveal(strip_suffix_body_code);
    }
    // locals: 2 = hl, 3 = sl.
    let mut f = Builder::new(2);
    f.declare(2, ValTy::I32);
    push_len(&mut f, 0);
    f.push(Ins::LocalSet(2));
    push_len(&mut f, 1);
    f.push(Ins::LocalSet(3));
    f.push(Ins::LocalGet(3));
    f.push(Ins::LocalGet(2));
    f.push(Ins::I32LeU);
    f.push(Ins::If(BlockTy::Empty));
    f.push(Ins::LocalGet(0));
    f.push(Ins::LocalGet(2));
    f.push(Ins::LocalGet(3));
    f.push(Ins::I32Sub);
    f.push(Ins::LocalGet(1));
    f.push(Ins::Call(eq_at));
    f.push(Ins::If(BlockTy::Empty));
    f.push(Ins::LocalGet(0));
    f.push(Ins::I32Const(0));
    f.push(Ins::LocalGet(2));
    f.push(Ins::LocalGet(3));
    f.push(Ins::I32Sub);
    f.push(Ins::Call(copy));
    f.push(Ins::Return);
    f.push(Ins::End);
    f.push(Ins::End);
    f.push(Ins::LocalGet(0));
    f.push(Ins::I32Const(0));
    f.push(Ins::LocalGet(2));
    f.push(Ins::Call(copy));
    f.push(Ins::End);
    assert(f.locals() =~= seq![(2u32, ValTy::I32)]);
    f.finish()
}

/// The code that `trim_start_body` emits.
#[verifier::opaque]
pub open spec fn trim_start_body_code(copy: u32, is_ws: u32) -> Seq<Ins> {
    let c = Seq::<Ins>::empty();
    let c = push_len_code(c, 0);
    c
        .push(Ins::LocalSet(2))
        .push(Ins::I32Const(0))
        .push(Ins::LocalSet(3))
        .push(Ins::Block(BlockTy::Empty))
        .push(Ins::Loop(BlockTy::Empty))
        .push(Ins::LocalGet(3))
        .push(Ins::LocalGet(2))
        .push(Ins::I32GeU)
        .push(Ins::BrIf(1))
        .push(Ins::LocalGet(0))
        .push(Ins::I32Const(4))
        .push(Ins::I32Add)
        .push(Ins::LocalGet(3))
        .push(Ins::I32Add)
        .push(Ins::I32Load8U(m(0)))
        .push(Ins::Call(is_ws))
        .push(Ins::I32Eqz)
        .push(Ins::BrIf(1))
        .push(Ins::LocalGet(3))
        .push(Ins::I32Const(1))
        .push(Ins::I32Add)
        .push(Ins::LocalSet(3))
        .push(Ins::Br(0))
        .push(Ins::End)
        .push(Ins::End)
        .push(Ins::LocalGet(0))
        .push(Ins::LocalGet(3))
        .push(Ins::LocalGet(2))
        .push(Ins::LocalGet(3))
        .push(Ins::I32Sub)
        .push(Ins::Call(copy))
        .push(Ins::End)
}

/// `(s) -> handle`: drop leading ASCII whitespace.
pub(crate) fn trim_start_body(copy: u32, is_ws: u32) -> (body: Body)
    ensures
        body.code@ == trim_start_body_code(copy, is_ws),
        body.locals@ == seq![(3u32, ValTy::I32)],
        body.valid(),
        body.params == 1,
{
    proof {
        reveal(trim_start_body_code);
    }
    // locals: 2 = len, 3 = i.
    let mut f = Builder::new(1);
    f.declare(3, ValTy::I32);
    push_len(&mut f, 0);
    f.push(Ins::LocalSet(2));
    f.push(Ins::I32Const(0));
    f.push(Ins::LocalSet(3));
    f.push(Ins::Block(BlockTy::Empty));
    f.push(Ins::Loop(BlockTy::Empty));
    f.push(Ins::LocalGet(3));
    f.push(Ins::LocalGet(2));
    f.push(Ins::I32GeU);
    f.push(Ins::BrIf(1));
    f.push(Ins::LocalGet(0));
    f.push(Ins::I32Const(4));
    f.push(Ins::I32Add);
    f.push(Ins::LocalGet(3));
    f.push(Ins::I32Add);
    f.push(Ins::I32Load8U(m(0)));
    f.push(Ins::Call(is_ws));
    f.push(Ins::I32Eqz);
    f.push(Ins::BrIf(1));
    f.push(Ins::LocalGet(3));
    f.push(Ins::I32Const(1));
    f.push(Ins::I32Add);
    f.push(Ins::LocalSet(3));
    f.push(Ins::Br(0));
    f.push(Ins::End);
    f.push(Ins::End);
    // copy(s, i, len - i)
    f.push(Ins::LocalGet(0));
    f.push(Ins::LocalGet(3));
    f.push(Ins::LocalGet(2));
    f.push(Ins::LocalGet(3));
    f.push(Ins::I32Sub);
    f.push(Ins::Call(copy));
    f.push(Ins::End);
    assert(f.locals() =~= seq![(3u32, ValTy::I32)]);
    f.finish()
}

/// The code that `trim_end_body` emits.
#[verifier::opaque]
pub open spec fn trim_end_body_code(copy: u32, is_ws: u32) -> Seq<Ins> {
    let c = Seq::<Ins>::empty();
    let c = push_len_code(c, 0);
    c
        .push(Ins::LocalSet(2))
        .push(Ins::LocalGet(2))
        .push(Ins::LocalSet(3))
        .push(Ins::Block(BlockTy::Empty))
        .push(Ins::Loop(BlockTy::Empty))
        .push(Ins::LocalGet(3))
        .push(Ins::I32Eqz)
        .push(Ins::BrIf(1))
        .push(Ins::LocalGet(0))
        .push(Ins::I32Const(4))
        .push(Ins::I32Add)
        .push(Ins::LocalGet(3))
        .push(Ins::I32Const(1))
        .push(Ins::I32Sub)
        .push(Ins::I32Add)
        .push(Ins::I32Load8U(m(0)))
        .push(Ins::Call(is_ws))
        .push(Ins::I32Eqz)
        .push(Ins::BrIf(1))
        .push(Ins::LocalGet(3))
        .push(Ins::I32Const(1))
        .push(Ins::I32Sub)
        .push(Ins::LocalSet(3))
        .push(Ins::Br(0))
        .push(Ins::End)
        .push(Ins::End)
        .push(Ins::LocalGet(0))
        .push(Ins::I32Const(0))
        .push(Ins::LocalGet(3))
        .push(Ins::Call(copy))
        .push(Ins::End)
}

/// `(s) -> handle`: drop trailing ASCII whitespace.
pub(crate) fn trim_end_body(copy: u32, is_ws: u32) -> (body: Body)
    ensures
        body.code@ == trim_end_body_code(copy, is_ws),
        body.locals@ == seq![(3u32, ValTy::I32)],
        body.valid(),
        body.params == 1,
{
    proof {
        reveal(trim_end_body_code);
    }
    // locals: 2 = len, 3 = end.
    let mut f = Builder::new(1);
    f.declare(3, ValTy::I32);
    push_len(&mut f, 0);
    f.push(Ins::LocalSet(2));
    f.push(Ins::LocalGet(2));
    f.push(Ins::LocalSet(3));
    f.push(Ins::Block(BlockTy::Empty));
    f.push(Ins::Loop(BlockTy::Empty));
    f.push(Ins::LocalGet(3));
    f.push(Ins::I32Eqz);
    f.push(Ins::BrIf(1));
    f.push(Ins::LocalGet(0));
    f.push(Ins::I32Const(4));
    f.push(Ins::I32Add);
    f.push(Ins::LocalGet(3));
    f.push(Ins::I32Const(1));
    f.push(Ins::I32Sub);
    f.push(Ins::I32Add);
    f.push(Ins::I32Load8U(m(0)));
    f.push(Ins::Call(is_ws));
    f.push(Ins::I32Eqz);
    f.push(Ins::BrIf(1));
    f.push(Ins::LocalGet(3));
    f.push(Ins::I32Const(1));
    f.push(Ins::I32Sub);
    f.push(Ins::LocalSet(3));
    f.push(Ins::Br(0));
    f.push(Ins::End);
    f.push(Ins::End);
    f.push(Ins::LocalGet(0));
    f.push(Ins::I32Const(0));
    f.push(Ins::LocalGet(3));
    f.push(Ins::Call(copy));
    f.push(Ins::End);
    assert(f.locals() =~= seq![(3u32, ValTy::I32)]);
    f.finish()
}

/// The code that `map_bytes_body` emits.
#[verifier::opaque]
pub open spec fn map_bytes_body_code(rc_new: u32, delta: i32) -> Seq<Ins> {
    let c = Seq::<Ins>::empty();
    let c = push_len_code(c, 0);
    c
        .push(Ins::LocalSet(2))
        .push(Ins::LocalGet(2))
        .push(Ins::I32Const(4))
        .push(Ins::I32Add)
        .push(Ins::Call(rc_new))
        .push(Ins::LocalSet(3))
        .push(Ins::LocalGet(3))
        .push(Ins::LocalGet(2))
        .push(Ins::I32Store(m(0)))
        .push(Ins::I32Const(0))
        .push(Ins::LocalSet(4))
        .push(Ins::Block(BlockTy::Empty))
        .push(Ins::Loop(BlockTy::Empty))
        .push(Ins::LocalGet(4))
        .push(Ins::LocalGet(2))
        .push(Ins::I32GeU)
        .push(Ins::BrIf(1))
        .push(Ins::LocalGet(0))
        .push(Ins::I32Const(4))
        .push(Ins::I32Add)
        .push(Ins::LocalGet(4))
        .push(Ins::I32Add)
        .push(Ins::I32Load8U(m(0)))
        .push(Ins::LocalSet(5))
        .push(Ins::LocalGet(5))
        .push(Ins::I32Const(if delta == 32 { 65 } else { 97 }))
        .push(Ins::I32GeU)
        .push(Ins::LocalGet(5))
        .push(Ins::I32Const(if delta == 32 { 90 } else { 122 }))
        .push(Ins::I32LeU)
        .push(Ins::I32And)
        .push(Ins::If(BlockTy::Empty))
        .push(Ins::LocalGet(5))
        .push(Ins::I32Const(delta))
        .push(Ins::I32Add)
        .push(Ins::LocalSet(5))
        .push(Ins::End)
        .push(Ins::LocalGet(3))
        .push(Ins::I32Const(4))
        .push(Ins::I32Add)
        .push(Ins::LocalGet(4))
        .push(Ins::I32Add)
        .push(Ins::LocalGet(5))
        .push(Ins::I32Store8(m(0)))
        .push(Ins::LocalGet(4))
        .push(Ins::I32Const(1))
        .push(Ins::I32Add)
        .push(Ins::LocalSet(4))
        .push(Ins::Br(0))
        .push(Ins::End)
        .push(Ins::End)
        .push(Ins::LocalGet(3))
        .push(Ins::End)
}

/// `(s, delta) -> handle`: copy with each ASCII letter shifted (`delta` = ±32).
pub(crate) fn map_bytes_body(rc_new: u32, delta: i32) -> (body: Body)
    ensures
        body.code@ == map_bytes_body_code(rc_new, delta),
        body.locals@ == seq![(5u32, ValTy::I32)],
        body.valid(),
        body.params == 1,
{
    proof {
        reveal(map_bytes_body_code);
    }
    // locals: 2 = len, 3 = dest, 4 = i, 5 = b.
    let mut f = Builder::new(1);
    f.declare(5, ValTy::I32);
    push_len(&mut f, 0);
    f.push(Ins::LocalSet(2));
    f.push(Ins::LocalGet(2));
    f.push(Ins::I32Const(4));
    f.push(Ins::I32Add);
    f.push(Ins::Call(rc_new));
    f.push(Ins::LocalSet(3));
    f.push(Ins::LocalGet(3));
    f.push(Ins::LocalGet(2));
    f.push(Ins::I32Store(m(0)));
    f.push(Ins::I32Const(0));
    f.push(Ins::LocalSet(4));
    f.push(Ins::Block(BlockTy::Empty));
    f.push(Ins::Loop(BlockTy::Empty));
    f.push(Ins::LocalGet(4));
    f.push(Ins::LocalGet(2));
    f.push(Ins::I32GeU);
    f.push(Ins::BrIf(1));
    f.push(Ins::LocalGet(0));
    f.push(Ins::I32Const(4));
    f.push(Ins::I32Add);
    f.push(Ins::LocalGet(4));
    f.push(Ins::I32Add);
    f.push(Ins::I32Load8U(m(0)));
    f.push(Ins::LocalSet(5));
    // if 'A'..='Z' (for lower) or 'a'..='z' (for upper) shift
    f.push(Ins::LocalGet(5));
    f.push(Ins::I32Const(if delta == 32 { 65 } else { 97 }));
    f.push(Ins::I32GeU);
    f.push(Ins::LocalGet(5));
    f.push(Ins::I32Const(if delta == 32 { 90 } else { 122 }));
    f.push(Ins::I32LeU);
    f.push(Ins::I32And);
    f.push(Ins::If(BlockTy::Empty));
    f.push(Ins::LocalGet(5));
    f.push(Ins::I32Const(delta));
    f.push(Ins::I32Add);
    f.push(Ins::LocalSet(5));
    f.push(Ins::End);
    f.push(Ins::LocalGet(3));
    f.push(Ins::I32Const(4));
    f.push(Ins::I32Add);
    f.push(Ins::LocalGet(4));
    f.push(Ins::I32Add);
    f.push(Ins::LocalGet(5));
    f.push(Ins::I32Store8(m(0)));
    f.push(Ins::LocalGet(4));
    f.push(Ins::I32Const(1));
    f.push(Ins::I32Add);
    f.push(Ins::LocalSet(4));
    f.push(Ins::Br(0));
    f.push(Ins::End);
    f.push(Ins::End);
    f.push(Ins::LocalGet(3));
    f.push(Ins::End);
    assert(f.locals() =~= seq![(5u32, ValTy::I32)]);
    f.finish()
}

/// `c` followed by the code that `push_len` emits.
#[verifier::opaque]
pub open spec fn push_len_code(c: Seq<Ins>, local: u32) -> Seq<Ins> {
    c
        .push(Ins::LocalGet(local))
        .push(Ins::I32Load(m(0)))
}

fn push_len(f: &mut Builder, local: u32)
    requires
        old(f).wf(),
        old(f).frames().len() >= 1,
        local < old(f).nlocals(),
    ensures
        final(f).code() == push_len_code(old(f).code(), local),
        final(f).wf(),
        final(f).params() == old(f).params(),
        final(f).locals() == old(f).locals(),
        final(f).frames() == old(f).frames(),
{
    proof {
        reveal(push_len_code);
    }
    f.push(Ins::LocalGet(local));
    f.push(Ins::I32Load(m(0)));
}

/// `c` followed by the code that `push_byte` emits.
#[verifier::opaque]
pub open spec fn push_byte_code(c: Seq<Ins>, base: u32, offset: u32) -> Seq<Ins> {
    c
        .push(Ins::LocalGet(base))
        .push(Ins::I32Const(4))
        .push(Ins::I32Add)
        .push(Ins::LocalGet(offset))
        .push(Ins::I32Add)
        .push(Ins::I32Load8U(m(0)))
}

fn push_byte(f: &mut Builder, base: u32, offset: u32)
    requires
        old(f).wf(),
        old(f).frames().len() >= 1,
        base < old(f).nlocals(),
        offset < old(f).nlocals(),
    ensures
        final(f).code() == push_byte_code(old(f).code(), base, offset),
        final(f).wf(),
        final(f).params() == old(f).params(),
        final(f).locals() == old(f).locals(),
        final(f).frames() == old(f).frames(),
{
    proof {
        reveal(push_byte_code);
    }
    f.push(Ins::LocalGet(base));
    f.push(Ins::I32Const(4));
    f.push(Ins::I32Add);
    f.push(Ins::LocalGet(offset));
    f.push(Ins::I32Add);
    f.push(Ins::I32Load8U(m(0)));
}



/// `c` followed by the code that `trim_bounds` emits.
#[verifier::opaque]
pub open spec fn trim_bounds_code(c: Seq<Ins>, is_ws: u32) -> Seq<Ins> {
    let c = push_len_code(c, 0);
    c
        .push(Ins::LocalSet(1))
        .push(Ins::LocalGet(1))
        .push(Ins::LocalSet(3))
        .push(Ins::I32Const(0))
        .push(Ins::LocalSet(2))
        .push(Ins::Block(BlockTy::Empty))
        .push(Ins::Loop(BlockTy::Empty))
        .push(Ins::LocalGet(2))
        .push(Ins::LocalGet(1))
        .push(Ins::I32GeU)
        .push(Ins::BrIf(1))
        .push(Ins::LocalGet(0))
        .push(Ins::I32Const(4))
        .push(Ins::I32Add)
        .push(Ins::LocalGet(2))
        .push(Ins::I32Add)
        .push(Ins::Call(is_ws))
        .push(Ins::I32Eqz)
        .push(Ins::BrIf(1))
        .push(Ins::LocalGet(2))
        .push(Ins::I32Const(1))
        .push(Ins::I32Add)
        .push(Ins::LocalSet(2))
        .push(Ins::Br(0))
        .push(Ins::End)
        .push(Ins::End)
        .push(Ins::Block(BlockTy::Empty))
        .push(Ins::Loop(BlockTy::Empty))
        .push(Ins::LocalGet(3))
        .push(Ins::LocalGet(2))
        .push(Ins::I32LeU)
        .push(Ins::BrIf(1))
        .push(Ins::LocalGet(0))
        .push(Ins::I32Const(4))
        .push(Ins::I32Add)
        .push(Ins::LocalGet(3))
        .push(Ins::I32Add)
        .push(Ins::I32Const(1))
        .push(Ins::I32Sub)
        .push(Ins::Call(is_ws))
        .push(Ins::I32Eqz)
        .push(Ins::BrIf(1))
        .push(Ins::LocalGet(3))
        .push(Ins::I32Const(1))
        .push(Ins::I32Sub)
        .push(Ins::LocalSet(3))
        .push(Ins::Br(0))
        .push(Ins::End)
        .push(Ins::End)
}

/// Locals used by the parsers: 1 = len, 2 = start, 3 = end.
fn trim_bounds(f: &mut Builder, is_ws: u32)
    requires
        old(f).wf(),
        old(f).frames().len() >= 1,
        old(f).nlocals() > 3,
    ensures
        final(f).code() == trim_bounds_code(old(f).code(), is_ws),
        final(f).wf(),
        final(f).params() == old(f).params(),
        final(f).locals() == old(f).locals(),
        final(f).frames() == old(f).frames(),
{
    proof {
        reveal(trim_bounds_code);
    }
    // end = len
    push_len(f, 0);
    f.push(Ins::LocalSet(1));
    f.push(Ins::LocalGet(1));
    f.push(Ins::LocalSet(3));
    // start = 0
    f.push(Ins::I32Const(0));
    f.push(Ins::LocalSet(2));
    // while start < len && ws(byte[start]) start++
    f.push(Ins::Block(BlockTy::Empty));
    f.push(Ins::Loop(BlockTy::Empty));
    f.push(Ins::LocalGet(2));
    f.push(Ins::LocalGet(1));
    f.push(Ins::I32GeU);
    f.push(Ins::BrIf(1));
    f.push(Ins::LocalGet(0));
    f.push(Ins::I32Const(4));
    f.push(Ins::I32Add);
    f.push(Ins::LocalGet(2));
    f.push(Ins::I32Add);
    f.push(Ins::Call(is_ws));
    f.push(Ins::I32Eqz);
    f.push(Ins::BrIf(1));
    f.push(Ins::LocalGet(2));
    f.push(Ins::I32Const(1));
    f.push(Ins::I32Add);
    f.push(Ins::LocalSet(2));
    f.push(Ins::Br(0));
    f.push(Ins::End);
    f.push(Ins::End);
    // while end > start && ws(byte[end-1]) end--
    f.push(Ins::Block(BlockTy::Empty));
    f.push(Ins::Loop(BlockTy::Empty));
    f.push(Ins::LocalGet(3));
    f.push(Ins::LocalGet(2));
    f.push(Ins::I32LeU);
    f.push(Ins::BrIf(1));
    f.push(Ins::LocalGet(0));
    f.push(Ins::I32Const(4));
    f.push(Ins::I32Add);
    f.push(Ins::LocalGet(3));
    f.push(Ins::I32Add);
    f.push(Ins::I32Const(1));
    f.push(Ins::I32Sub);
    f.push(Ins::Call(is_ws));
    f.push(Ins::I32Eqz);
    f.push(Ins::BrIf(1));
    f.push(Ins::LocalGet(3));
    f.push(Ins::I32Const(1));
    f.push(Ins::I32Sub);
    f.push(Ins::LocalSet(3));
    f.push(Ins::Br(0));
    f.push(Ins::End);
    f.push(Ins::End);
}

/// The code that `to_i64_body` emits.
#[verifier::opaque]
pub open spec fn to_i64_body_code(is_ws: u32) -> Seq<Ins> {
    let c = Seq::<Ins>::empty();
    let c = trim_bounds_code(c, is_ws);
    let c = c
        .push(Ins::LocalGet(2))
        .push(Ins::LocalGet(3))
        .push(Ins::I32GeU)
        .push(Ins::If(BlockTy::Empty))
        .push(Ins::I64Const(0))
        .push(Ins::Return)
        .push(Ins::End)
        .push(Ins::I32Const(0))
        .push(Ins::LocalSet(4));
    let c = push_byte_code(c, 0, 2);
    let c = c
        .push(Ins::LocalSet(6))
        .push(Ins::LocalGet(6))
        .push(Ins::I32Const(45))
        .push(Ins::I32Eq)
        .push(Ins::If(BlockTy::Empty))
        .push(Ins::I32Const(1))
        .push(Ins::LocalSet(4))
        .push(Ins::LocalGet(2))
        .push(Ins::I32Const(1))
        .push(Ins::I32Add)
        .push(Ins::LocalSet(2))
        .push(Ins::Else)
        .push(Ins::LocalGet(6))
        .push(Ins::I32Const(43))
        .push(Ins::I32Eq)
        .push(Ins::If(BlockTy::Empty))
        .push(Ins::LocalGet(2))
        .push(Ins::I32Const(1))
        .push(Ins::I32Add)
        .push(Ins::LocalSet(2))
        .push(Ins::End)
        .push(Ins::End)
        .push(Ins::LocalGet(2))
        .push(Ins::LocalGet(3))
        .push(Ins::I32GeU)
        .push(Ins::If(BlockTy::Empty))
        .push(Ins::I64Const(0))
        .push(Ins::Return)
        .push(Ins::End)
        .push(Ins::I64Const(0))
        .push(Ins::LocalSet(5))
        .push(Ins::I32Const(0))
        .push(Ins::LocalSet(8))
        .push(Ins::Block(BlockTy::Empty))
        .push(Ins::Loop(BlockTy::Empty))
        .push(Ins::LocalGet(2))
        .push(Ins::LocalGet(3))
        .push(Ins::I32GeU)
        .push(Ins::BrIf(1));
    let c = push_byte_code(c, 0, 2);
    c
        .push(Ins::LocalSet(6))
        .push(Ins::LocalGet(6))
        .push(Ins::I32Const(48))
        .push(Ins::I32LtU)
        .push(Ins::LocalGet(6))
        .push(Ins::I32Const(57))
        .push(Ins::I32GtU)
        .push(Ins::I32Or)
        .push(Ins::If(BlockTy::Empty))
        .push(Ins::I64Const(0))
        .push(Ins::Return)
        .push(Ins::End)
        .push(Ins::LocalGet(6))
        .push(Ins::I32Const(48))
        .push(Ins::I32Sub)
        .push(Ins::I64ExtendI32U)
        .push(Ins::LocalSet(7))
        .push(Ins::LocalGet(5))
        .push(Ins::I64Const(9_223_372_036_854_775_807))
        .push(Ins::LocalGet(7))
        .push(Ins::I64Sub)
        .push(Ins::I64Const(10))
        .push(Ins::I64DivS)
        .push(Ins::I64GtS)
        .push(Ins::If(BlockTy::Empty))
        .push(Ins::I32Const(1))
        .push(Ins::LocalSet(8))
        .push(Ins::Br(2))
        .push(Ins::End)
        .push(Ins::LocalGet(5))
        .push(Ins::I64Const(10))
        .push(Ins::I64Mul)
        .push(Ins::LocalGet(7))
        .push(Ins::I64Add)
        .push(Ins::LocalSet(5))
        .push(Ins::LocalGet(2))
        .push(Ins::I32Const(1))
        .push(Ins::I32Add)
        .push(Ins::LocalSet(2))
        .push(Ins::Br(0))
        .push(Ins::End)
        .push(Ins::End)
        .push(Ins::LocalGet(8))
        .push(Ins::If(BlockTy::Empty))
        .push(Ins::I64Const(0))
        .push(Ins::Return)
        .push(Ins::End)
        .push(Ins::LocalGet(4))
        .push(Ins::If(BlockTy::Result(ValTy::I64)))
        .push(Ins::I64Const(0))
        .push(Ins::LocalGet(5))
        .push(Ins::I64Sub)
        .push(Ins::Else)
        .push(Ins::LocalGet(5))
        .push(Ins::End)
        .push(Ins::End)
}

pub(crate) fn to_i64_body(is_ws: u32) -> (body: Body)
    ensures
        body.code@ == to_i64_body_code(is_ws),
        body.locals@ == seq![(4u32, ValTy::I32), (1u32, ValTy::I64), (1u32, ValTy::I32), (1u32, ValTy::I64), (1u32, ValTy::I32)],
        body.valid(),
        body.params == 1,
{
    proof {
        reveal(to_i64_body_code);
    }
    // locals: 1 = len, 2 = start, 3 = end, 4 = neg, 5 = acc(i64), 6 = b, 7 = d(i64), 8 = overflow.
    let mut f = Builder::new(1);
    f.declare(4, ValTy::I32);
    f.declare(1, ValTy::I64);
    f.declare(1, ValTy::I32);
    f.declare(1, ValTy::I64);
    f.declare(1, ValTy::I32);
    trim_bounds(&mut f, is_ws);
    f.push(Ins::LocalGet(2));
    f.push(Ins::LocalGet(3));
    f.push(Ins::I32GeU);
    f.push(Ins::If(BlockTy::Empty));
    f.push(Ins::I64Const(0));
    f.push(Ins::Return);
    f.push(Ins::End);
    f.push(Ins::I32Const(0));
    f.push(Ins::LocalSet(4));
    push_byte(&mut f, 0, 2);
    f.push(Ins::LocalSet(6));
    f.push(Ins::LocalGet(6));
    f.push(Ins::I32Const(45));
    f.push(Ins::I32Eq);
    f.push(Ins::If(BlockTy::Empty));
    f.push(Ins::I32Const(1));
    f.push(Ins::LocalSet(4));
    f.push(Ins::LocalGet(2));
    f.push(Ins::I32Const(1));
    f.push(Ins::I32Add);
    f.push(Ins::LocalSet(2));
    f.push(Ins::Else);
    f.push(Ins::LocalGet(6));
    f.push(Ins::I32Const(43));
    f.push(Ins::I32Eq);
    f.push(Ins::If(BlockTy::Empty));
    f.push(Ins::LocalGet(2));
    f.push(Ins::I32Const(1));
    f.push(Ins::I32Add);
    f.push(Ins::LocalSet(2));
    f.push(Ins::End);
    f.push(Ins::End);
    f.push(Ins::LocalGet(2));
    f.push(Ins::LocalGet(3));
    f.push(Ins::I32GeU);
    f.push(Ins::If(BlockTy::Empty));
    f.push(Ins::I64Const(0));
    f.push(Ins::Return);
    f.push(Ins::End);
    f.push(Ins::I64Const(0));
    f.push(Ins::LocalSet(5));
    f.push(Ins::I32Const(0));
    f.push(Ins::LocalSet(8));
    f.push(Ins::Block(BlockTy::Empty));
    f.push(Ins::Loop(BlockTy::Empty));
    f.push(Ins::LocalGet(2));
    f.push(Ins::LocalGet(3));
    f.push(Ins::I32GeU);
    f.push(Ins::BrIf(1));
    push_byte(&mut f, 0, 2);
    f.push(Ins::LocalSet(6));
    f.push(Ins::LocalGet(6));
    f.push(Ins::I32Const(48));
    f.push(Ins::I32LtU);
    f.push(Ins::LocalGet(6));
    f.push(Ins::I32Const(57));
    f.push(Ins::I32GtU);
    f.push(Ins::I32Or);
    f.push(Ins::If(BlockTy::Empty));
    f.push(Ins::I64Const(0));
    f.push(Ins::Return);
    f.push(Ins::End);
    f.push(Ins::LocalGet(6));
    f.push(Ins::I32Const(48));
    f.push(Ins::I32Sub);
    f.push(Ins::I64ExtendI32U);
    f.push(Ins::LocalSet(7));
    // overflow: acc > (MAX - d)/10
    f.push(Ins::LocalGet(5));
    f.push(Ins::I64Const(9_223_372_036_854_775_807));
    f.push(Ins::LocalGet(7));
    f.push(Ins::I64Sub);
    f.push(Ins::I64Const(10));
    f.push(Ins::I64DivS);
    f.push(Ins::I64GtS);
    f.push(Ins::If(BlockTy::Empty));
    f.push(Ins::I32Const(1));
    f.push(Ins::LocalSet(8));
    f.push(Ins::Br(2));
    f.push(Ins::End);
    f.push(Ins::LocalGet(5));
    f.push(Ins::I64Const(10));
    f.push(Ins::I64Mul);
    f.push(Ins::LocalGet(7));
    f.push(Ins::I64Add);
    f.push(Ins::LocalSet(5));
    f.push(Ins::LocalGet(2));
    f.push(Ins::I32Const(1));
    f.push(Ins::I32Add);
    f.push(Ins::LocalSet(2));
    f.push(Ins::Br(0));
    f.push(Ins::End);
    f.push(Ins::End);
    f.push(Ins::LocalGet(8));
    f.push(Ins::If(BlockTy::Empty));
    f.push(Ins::I64Const(0));
    f.push(Ins::Return);
    f.push(Ins::End);
    f.push(Ins::LocalGet(4));
    f.push(Ins::If(BlockTy::Result(ValTy::I64)));
    f.push(Ins::I64Const(0));
    f.push(Ins::LocalGet(5));
    f.push(Ins::I64Sub);
    f.push(Ins::Else);
    f.push(Ins::LocalGet(5));
    f.push(Ins::End);
    f.push(Ins::End);
    assert(f.locals() =~= seq![(4u32, ValTy::I32), (1u32, ValTy::I64), (1u32, ValTy::I32), (1u32, ValTy::I64), (1u32, ValTy::I32)]);
    f.finish()
}

/// The code that `to_f64_body` emits.
#[verifier::opaque]
pub open spec fn to_f64_body_code(is_ws: u32) -> Seq<Ins> {
    let c = Seq::<Ins>::empty();
    let c = trim_bounds_code(c, is_ws);
    let c = c
        .push(Ins::I32Const(0))
        .push(Ins::LocalSet(4));
    let c = push_byte_code(c, 0, 2);
    let c = c
        .push(Ins::LocalSet(7))
        .push(Ins::LocalGet(7))
        .push(Ins::I32Const(45))
        .push(Ins::I32Eq)
        .push(Ins::If(BlockTy::Empty))
        .push(Ins::I32Const(1))
        .push(Ins::LocalSet(4))
        .push(Ins::LocalGet(2))
        .push(Ins::I32Const(1))
        .push(Ins::I32Add)
        .push(Ins::LocalSet(2))
        .push(Ins::Else)
        .push(Ins::LocalGet(7))
        .push(Ins::I32Const(43))
        .push(Ins::I32Eq)
        .push(Ins::If(BlockTy::Empty))
        .push(Ins::LocalGet(2))
        .push(Ins::I32Const(1))
        .push(Ins::I32Add)
        .push(Ins::LocalSet(2))
        .push(Ins::End)
        .push(Ins::End)
        .push(Ins::F64Const(0x0000000000000000))
        .push(Ins::LocalSet(5))
        .push(Ins::Block(BlockTy::Empty))
        .push(Ins::Loop(BlockTy::Empty))
        .push(Ins::LocalGet(2))
        .push(Ins::LocalGet(3))
        .push(Ins::I32GeU)
        .push(Ins::BrIf(1))
        .push(Ins::LocalGet(2));
    let c = digit_or_break_code(c);
    let c = c
        .push(Ins::BrIf(1))
        .push(Ins::LocalGet(2))
        .push(Ins::LocalGet(0))
        .push(Ins::I32Const(4))
        .push(Ins::I32Add)
        .push(Ins::I32Add)
        .push(Ins::I32Load8U(m(0)))
        .push(Ins::I32Const(48))
        .push(Ins::I32Sub)
        .push(Ins::I64ExtendI32U)
        .push(Ins::LocalSet(10))
        .push(Ins::LocalGet(5))
        .push(Ins::F64Const(0x4024000000000000))
        .push(Ins::F64Mul)
        .push(Ins::LocalGet(10))
        .push(Ins::F64ConvertI64S)
        .push(Ins::F64Add)
        .push(Ins::LocalSet(5))
        .push(Ins::LocalGet(2))
        .push(Ins::I32Const(1))
        .push(Ins::I32Add)
        .push(Ins::LocalSet(2))
        .push(Ins::Br(0))
        .push(Ins::End)
        .push(Ins::End)
        .push(Ins::LocalGet(2))
        .push(Ins::LocalGet(3))
        .push(Ins::I32LtU)
        .push(Ins::If(BlockTy::Empty))
        .push(Ins::LocalGet(2))
        .push(Ins::LocalGet(0))
        .push(Ins::I32Const(4))
        .push(Ins::I32Add)
        .push(Ins::I32Add)
        .push(Ins::I32Load8U(m(0)))
        .push(Ins::I32Const(46))
        .push(Ins::I32Eq)
        .push(Ins::If(BlockTy::Empty))
        .push(Ins::LocalGet(2))
        .push(Ins::I32Const(1))
        .push(Ins::I32Add)
        .push(Ins::LocalSet(2))
        .push(Ins::F64Const(0x3fb999999999999a))
        .push(Ins::LocalSet(6))
        .push(Ins::Block(BlockTy::Empty))
        .push(Ins::Loop(BlockTy::Empty))
        .push(Ins::LocalGet(2))
        .push(Ins::LocalGet(3))
        .push(Ins::I32GeU)
        .push(Ins::BrIf(1))
        .push(Ins::LocalGet(2));
    let c = digit_or_break_code(c);
    let c = c
        .push(Ins::BrIf(1))
        .push(Ins::LocalGet(2))
        .push(Ins::LocalGet(0))
        .push(Ins::I32Const(4))
        .push(Ins::I32Add)
        .push(Ins::I32Add)
        .push(Ins::I32Load8U(m(0)))
        .push(Ins::I32Const(48))
        .push(Ins::I32Sub)
        .push(Ins::I64ExtendI32U)
        .push(Ins::F64ConvertI64S)
        .push(Ins::LocalGet(6))
        .push(Ins::F64Mul)
        .push(Ins::LocalGet(5))
        .push(Ins::F64Add)
        .push(Ins::LocalSet(5))
        .push(Ins::LocalGet(6))
        .push(Ins::F64Const(0x4024000000000000))
        .push(Ins::F64Div)
        .push(Ins::LocalSet(6))
        .push(Ins::LocalGet(2))
        .push(Ins::I32Const(1))
        .push(Ins::I32Add)
        .push(Ins::LocalSet(2))
        .push(Ins::Br(0))
        .push(Ins::End)
        .push(Ins::End)
        .push(Ins::End)
        .push(Ins::End)
        .push(Ins::LocalGet(2))
        .push(Ins::LocalGet(3))
        .push(Ins::I32LtU)
        .push(Ins::If(BlockTy::Empty))
        .push(Ins::LocalGet(2))
        .push(Ins::LocalGet(0))
        .push(Ins::I32Const(4))
        .push(Ins::I32Add)
        .push(Ins::I32Add)
        .push(Ins::I32Load8U(m(0)))
        .push(Ins::LocalSet(7))
        .push(Ins::LocalGet(7))
        .push(Ins::I32Const(101))
        .push(Ins::I32Eq)
        .push(Ins::LocalGet(7))
        .push(Ins::I32Const(69))
        .push(Ins::I32Eq)
        .push(Ins::I32Or)
        .push(Ins::If(BlockTy::Empty))
        .push(Ins::LocalGet(2))
        .push(Ins::I32Const(1))
        .push(Ins::I32Add)
        .push(Ins::LocalSet(2))
        .push(Ins::I32Const(0))
        .push(Ins::LocalSet(9));
    let c = push_byte_code(c, 0, 2);
    let c = c
        .push(Ins::I32Const(45))
        .push(Ins::I32Eq)
        .push(Ins::If(BlockTy::Empty))
        .push(Ins::I32Const(1))
        .push(Ins::LocalSet(9))
        .push(Ins::LocalGet(2))
        .push(Ins::I32Const(1))
        .push(Ins::I32Add)
        .push(Ins::LocalSet(2))
        .push(Ins::Else);
    let c = push_byte_code(c, 0, 2);
    let c = c
        .push(Ins::I32Const(43))
        .push(Ins::I32Eq)
        .push(Ins::If(BlockTy::Empty))
        .push(Ins::LocalGet(2))
        .push(Ins::I32Const(1))
        .push(Ins::I32Add)
        .push(Ins::LocalSet(2))
        .push(Ins::End)
        .push(Ins::End)
        .push(Ins::I64Const(0))
        .push(Ins::LocalSet(8))
        .push(Ins::Block(BlockTy::Empty))
        .push(Ins::Loop(BlockTy::Empty))
        .push(Ins::LocalGet(2))
        .push(Ins::LocalGet(3))
        .push(Ins::I32GeU)
        .push(Ins::BrIf(1))
        .push(Ins::LocalGet(2));
    let c = digit_or_break_code(c);
    c
        .push(Ins::BrIf(1))
        .push(Ins::LocalGet(2))
        .push(Ins::LocalGet(0))
        .push(Ins::I32Const(4))
        .push(Ins::I32Add)
        .push(Ins::I32Add)
        .push(Ins::I32Load8U(m(0)))
        .push(Ins::I32Const(48))
        .push(Ins::I32Sub)
        .push(Ins::I64ExtendI32U)
        .push(Ins::LocalSet(10))
        .push(Ins::LocalGet(8))
        .push(Ins::I64Const(10))
        .push(Ins::I64Mul)
        .push(Ins::LocalGet(10))
        .push(Ins::I64Add)
        .push(Ins::LocalSet(8))
        .push(Ins::LocalGet(2))
        .push(Ins::I32Const(1))
        .push(Ins::I32Add)
        .push(Ins::LocalSet(2))
        .push(Ins::Br(0))
        .push(Ins::End)
        .push(Ins::End)
        .push(Ins::LocalGet(9))
        .push(Ins::If(BlockTy::Empty))
        .push(Ins::I64Const(0))
        .push(Ins::LocalGet(8))
        .push(Ins::I64Sub)
        .push(Ins::LocalSet(8))
        .push(Ins::End)
        .push(Ins::Block(BlockTy::Empty))
        .push(Ins::Loop(BlockTy::Empty))
        .push(Ins::LocalGet(8))
        .push(Ins::I64Eqz)
        .push(Ins::BrIf(1))
        .push(Ins::LocalGet(8))
        .push(Ins::I64Const(0))
        .push(Ins::I64GtS)
        .push(Ins::If(BlockTy::Empty))
        .push(Ins::LocalGet(5))
        .push(Ins::F64Const(0x4024000000000000))
        .push(Ins::F64Mul)
        .push(Ins::LocalSet(5))
        .push(Ins::LocalGet(8))
        .push(Ins::I64Const(1))
        .push(Ins::I64Sub)
        .push(Ins::LocalSet(8))
        .push(Ins::Else)
        .push(Ins::LocalGet(5))
        .push(Ins::F64Const(0x4024000000000000))
        .push(Ins::F64Div)
        .push(Ins::LocalSet(5))
        .push(Ins::LocalGet(8))
        .push(Ins::I64Const(1))
        .push(Ins::I64Add)
        .push(Ins::LocalSet(8))
        .push(Ins::End)
        .push(Ins::Br(0))
        .push(Ins::End)
        .push(Ins::End)
        .push(Ins::End)
        .push(Ins::End)
        .push(Ins::LocalGet(4))
        .push(Ins::If(BlockTy::Result(ValTy::F64)))
        .push(Ins::F64Const(0x0000000000000000))
        .push(Ins::LocalGet(5))
        .push(Ins::F64Sub)
        .push(Ins::Else)
        .push(Ins::LocalGet(5))
        .push(Ins::End)
        .push(Ins::End)
}

pub(crate) fn to_f64_body(is_ws: u32) -> (body: Body)
    ensures
        body.code@ == to_f64_body_code(is_ws),
        body.locals@ == seq![(3u32, ValTy::I32), (1u32, ValTy::I32), (2u32, ValTy::F64), (1u32, ValTy::I32), (1u32, ValTy::I64), (1u32, ValTy::I32), (1u32, ValTy::I64)],
        body.valid(),
        body.params == 1,
{
    proof {
        reveal(to_f64_body_code);
    }
    // locals: 1 = len, 2 = start, 3 = end, 4 = neg, 5 = acc(f64),
    // 6 = scale(f64), 7 = b(i32), 8 = exp(i64), 9 = esign(i32), 10 = digit(i64).
    let mut f = Builder::new(1);
    f.declare(3, ValTy::I32);
    f.declare(1, ValTy::I32);
    f.declare(2, ValTy::F64);
    f.declare(1, ValTy::I32);
    f.declare(1, ValTy::I64);
    f.declare(1, ValTy::I32);
    f.declare(1, ValTy::I64);
    trim_bounds(&mut f, is_ws);
    f.push(Ins::I32Const(0));
    f.push(Ins::LocalSet(4));
    push_byte(&mut f, 0, 2);
    f.push(Ins::LocalSet(7));
    f.push(Ins::LocalGet(7));
    f.push(Ins::I32Const(45));
    f.push(Ins::I32Eq);
    f.push(Ins::If(BlockTy::Empty));
    f.push(Ins::I32Const(1));
    f.push(Ins::LocalSet(4));
    f.push(Ins::LocalGet(2));
    f.push(Ins::I32Const(1));
    f.push(Ins::I32Add);
    f.push(Ins::LocalSet(2));
    f.push(Ins::Else);
    f.push(Ins::LocalGet(7));
    f.push(Ins::I32Const(43));
    f.push(Ins::I32Eq);
    f.push(Ins::If(BlockTy::Empty));
    f.push(Ins::LocalGet(2));
    f.push(Ins::I32Const(1));
    f.push(Ins::I32Add);
    f.push(Ins::LocalSet(2));
    f.push(Ins::End);
    f.push(Ins::End);
    f.push(Ins::F64Const(0x0000000000000000));
    f.push(Ins::LocalSet(5));
    // integer digits
    f.push(Ins::Block(BlockTy::Empty));
    f.push(Ins::Loop(BlockTy::Empty));
    f.push(Ins::LocalGet(2));
    f.push(Ins::LocalGet(3));
    f.push(Ins::I32GeU);
    f.push(Ins::BrIf(1));
    f.push(Ins::LocalGet(2));
    digit_or_break(&mut f);
    f.push(Ins::BrIf(1));
    f.push(Ins::LocalGet(2));
    f.push(Ins::LocalGet(0));
    f.push(Ins::I32Const(4));
    f.push(Ins::I32Add);
    f.push(Ins::I32Add);
    f.push(Ins::I32Load8U(m(0)));
    f.push(Ins::I32Const(48));
    f.push(Ins::I32Sub);
    f.push(Ins::I64ExtendI32U);
    f.push(Ins::LocalSet(10));
    f.push(Ins::LocalGet(5));
    f.push(Ins::F64Const(0x4024000000000000));
    f.push(Ins::F64Mul);
    f.push(Ins::LocalGet(10));
    f.push(Ins::F64ConvertI64S);
    f.push(Ins::F64Add);
    f.push(Ins::LocalSet(5));
    f.push(Ins::LocalGet(2));
    f.push(Ins::I32Const(1));
    f.push(Ins::I32Add);
    f.push(Ins::LocalSet(2));
    f.push(Ins::Br(0));
    f.push(Ins::End);
    f.push(Ins::End);
    // fraction
    f.push(Ins::LocalGet(2));
    f.push(Ins::LocalGet(3));
    f.push(Ins::I32LtU);
    f.push(Ins::If(BlockTy::Empty));
    f.push(Ins::LocalGet(2));
    f.push(Ins::LocalGet(0));
    f.push(Ins::I32Const(4));
    f.push(Ins::I32Add);
    f.push(Ins::I32Add);
    f.push(Ins::I32Load8U(m(0)));
    f.push(Ins::I32Const(46));
    f.push(Ins::I32Eq);
    f.push(Ins::If(BlockTy::Empty));
    f.push(Ins::LocalGet(2));
    f.push(Ins::I32Const(1));
    f.push(Ins::I32Add);
    f.push(Ins::LocalSet(2));
    f.push(Ins::F64Const(0x3fb999999999999a));
    f.push(Ins::LocalSet(6));
    f.push(Ins::Block(BlockTy::Empty));
    f.push(Ins::Loop(BlockTy::Empty));
    f.push(Ins::LocalGet(2));
    f.push(Ins::LocalGet(3));
    f.push(Ins::I32GeU);
    f.push(Ins::BrIf(1));
    f.push(Ins::LocalGet(2));
    digit_or_break(&mut f);
    f.push(Ins::BrIf(1));
    f.push(Ins::LocalGet(2));
    f.push(Ins::LocalGet(0));
    f.push(Ins::I32Const(4));
    f.push(Ins::I32Add);
    f.push(Ins::I32Add);
    f.push(Ins::I32Load8U(m(0)));
    f.push(Ins::I32Const(48));
    f.push(Ins::I32Sub);
    f.push(Ins::I64ExtendI32U);
    f.push(Ins::F64ConvertI64S);
    f.push(Ins::LocalGet(6));
    f.push(Ins::F64Mul);
    f.push(Ins::LocalGet(5));
    f.push(Ins::F64Add);
    f.push(Ins::LocalSet(5));
    f.push(Ins::LocalGet(6));
    f.push(Ins::F64Const(0x4024000000000000));
    f.push(Ins::F64Div);
    f.push(Ins::LocalSet(6));
    f.push(Ins::LocalGet(2));
    f.push(Ins::I32Const(1));
    f.push(Ins::I32Add);
    f.push(Ins::LocalSet(2));
    f.push(Ins::Br(0));
    f.push(Ins::End);
    f.push(Ins::End);
    f.push(Ins::End);
    f.push(Ins::End);
    // exponent
    f.push(Ins::LocalGet(2));
    f.push(Ins::LocalGet(3));
    f.push(Ins::I32LtU);
    f.push(Ins::If(BlockTy::Empty));
    f.push(Ins::LocalGet(2));
    f.push(Ins::LocalGet(0));
    f.push(Ins::I32Const(4));
    f.push(Ins::I32Add);
    f.push(Ins::I32Add);
    f.push(Ins::I32Load8U(m(0)));
    f.push(Ins::LocalSet(7));
    f.push(Ins::LocalGet(7));
    f.push(Ins::I32Const(101));
    f.push(Ins::I32Eq);
    f.push(Ins::LocalGet(7));
    f.push(Ins::I32Const(69));
    f.push(Ins::I32Eq);
    f.push(Ins::I32Or);
    f.push(Ins::If(BlockTy::Empty));
    f.push(Ins::LocalGet(2));
    f.push(Ins::I32Const(1));
    f.push(Ins::I32Add);
    f.push(Ins::LocalSet(2));
    f.push(Ins::I32Const(0));
    f.push(Ins::LocalSet(9));
    push_byte(&mut f, 0, 2);
    f.push(Ins::I32Const(45));
    f.push(Ins::I32Eq);
    f.push(Ins::If(BlockTy::Empty));
    f.push(Ins::I32Const(1));
    f.push(Ins::LocalSet(9));
    f.push(Ins::LocalGet(2));
    f.push(Ins::I32Const(1));
    f.push(Ins::I32Add);
    f.push(Ins::LocalSet(2));
    f.push(Ins::Else);
    push_byte(&mut f, 0, 2);
    f.push(Ins::I32Const(43));
    f.push(Ins::I32Eq);
    f.push(Ins::If(BlockTy::Empty));
    f.push(Ins::LocalGet(2));
    f.push(Ins::I32Const(1));
    f.push(Ins::I32Add);
    f.push(Ins::LocalSet(2));
    f.push(Ins::End);
    f.push(Ins::End);
    f.push(Ins::I64Const(0));
    f.push(Ins::LocalSet(8));
    f.push(Ins::Block(BlockTy::Empty));
    f.push(Ins::Loop(BlockTy::Empty));
    f.push(Ins::LocalGet(2));
    f.push(Ins::LocalGet(3));
    f.push(Ins::I32GeU);
    f.push(Ins::BrIf(1));
    f.push(Ins::LocalGet(2));
    digit_or_break(&mut f);
    f.push(Ins::BrIf(1));
    f.push(Ins::LocalGet(2));
    f.push(Ins::LocalGet(0));
    f.push(Ins::I32Const(4));
    f.push(Ins::I32Add);
    f.push(Ins::I32Add);
    f.push(Ins::I32Load8U(m(0)));
    f.push(Ins::I32Const(48));
    f.push(Ins::I32Sub);
    f.push(Ins::I64ExtendI32U);
    f.push(Ins::LocalSet(10));
    f.push(Ins::LocalGet(8));
    f.push(Ins::I64Const(10));
    f.push(Ins::I64Mul);
    f.push(Ins::LocalGet(10));
    f.push(Ins::I64Add);
    f.push(Ins::LocalSet(8));
    f.push(Ins::LocalGet(2));
    f.push(Ins::I32Const(1));
    f.push(Ins::I32Add);
    f.push(Ins::LocalSet(2));
    f.push(Ins::Br(0));
    f.push(Ins::End);
    f.push(Ins::End);
    f.push(Ins::LocalGet(9));
    f.push(Ins::If(BlockTy::Empty));
    f.push(Ins::I64Const(0));
    f.push(Ins::LocalGet(8));
    f.push(Ins::I64Sub);
    f.push(Ins::LocalSet(8));
    f.push(Ins::End);
    // scale by 10^exp
    f.push(Ins::Block(BlockTy::Empty));
    f.push(Ins::Loop(BlockTy::Empty));
    f.push(Ins::LocalGet(8));
    f.push(Ins::I64Eqz);
    f.push(Ins::BrIf(1));
    f.push(Ins::LocalGet(8));
    f.push(Ins::I64Const(0));
    f.push(Ins::I64GtS);
    f.push(Ins::If(BlockTy::Empty));
    f.push(Ins::LocalGet(5));
    f.push(Ins::F64Const(0x4024000000000000));
    f.push(Ins::F64Mul);
    f.push(Ins::LocalSet(5));
    f.push(Ins::LocalGet(8));
    f.push(Ins::I64Const(1));
    f.push(Ins::I64Sub);
    f.push(Ins::LocalSet(8));
    f.push(Ins::Else);
    f.push(Ins::LocalGet(5));
    f.push(Ins::F64Const(0x4024000000000000));
    f.push(Ins::F64Div);
    f.push(Ins::LocalSet(5));
    f.push(Ins::LocalGet(8));
    f.push(Ins::I64Const(1));
    f.push(Ins::I64Add);
    f.push(Ins::LocalSet(8));
    f.push(Ins::End);
    f.push(Ins::Br(0));
    f.push(Ins::End);
    f.push(Ins::End);
    f.push(Ins::End);
    f.push(Ins::End);
    f.push(Ins::LocalGet(4));
    f.push(Ins::If(BlockTy::Result(ValTy::F64)));
    f.push(Ins::F64Const(0x0000000000000000));
    f.push(Ins::LocalGet(5));
    f.push(Ins::F64Sub);
    f.push(Ins::Else);
    f.push(Ins::LocalGet(5));
    f.push(Ins::End);
    f.push(Ins::End);
    assert(f.locals() =~= seq![(3u32, ValTy::I32), (1u32, ValTy::I32), (2u32, ValTy::F64), (1u32, ValTy::I32), (1u32, ValTy::I64), (1u32, ValTy::I32), (1u32, ValTy::I64)]);
    f.finish()
}

/// `c` followed by the code that `digit_or_break` emits.
#[verifier::opaque]
pub open spec fn digit_or_break_code(c: Seq<Ins>) -> Seq<Ins> {
    c
        .push(Ins::LocalGet(0))
        .push(Ins::I32Const(4))
        .push(Ins::I32Add)
        .push(Ins::LocalGet(2))
        .push(Ins::I32Add)
        .push(Ins::I32Load8U(m(0)))
        .push(Ins::I32Const(48))
        .push(Ins::I32LtU)
        .push(Ins::LocalGet(0))
        .push(Ins::I32Const(4))
        .push(Ins::I32Add)
        .push(Ins::LocalGet(2))
        .push(Ins::I32Add)
        .push(Ins::I32Load8U(m(0)))
        .push(Ins::I32Const(57))
        .push(Ins::I32GtU)
        .push(Ins::I32Or)
}

/// Leaves `1` on the stack (branch out) when `byte[start]` (local 2) is not a digit.
fn digit_or_break(f: &mut Builder)
    requires
        old(f).wf(),
        old(f).frames().len() >= 1,
        old(f).nlocals() > 2,
    ensures
        final(f).code() == digit_or_break_code(old(f).code()),
        final(f).wf(),
        final(f).params() == old(f).params(),
        final(f).locals() == old(f).locals(),
        final(f).frames() == old(f).frames(),
{
    proof {
        reveal(digit_or_break_code);
    }
    f.push(Ins::LocalGet(0));
    f.push(Ins::I32Const(4));
    f.push(Ins::I32Add);
    f.push(Ins::LocalGet(2));
    f.push(Ins::I32Add);
    f.push(Ins::I32Load8U(m(0)));
    f.push(Ins::I32Const(48));
    f.push(Ins::I32LtU);
    f.push(Ins::LocalGet(0));
    f.push(Ins::I32Const(4));
    f.push(Ins::I32Add);
    f.push(Ins::LocalGet(2));
    f.push(Ins::I32Add);
    f.push(Ins::I32Load8U(m(0)));
    f.push(Ins::I32Const(57));
    f.push(Ins::I32GtU);
    f.push(Ins::I32Or);
}


} // verus!
