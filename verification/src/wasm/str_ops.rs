//! Remaining `str` operations for the wasm backend: byte-based `split`/`lines`/
//! `replace`, and Unicode-scalar `char_at`/`chars`/`pad_left`/`pad_right`/
//! `split_whitespace`. Trailing runtime helpers (see `runtime`).
use vstd::prelude::*;
use crate::wasm::builder::{body_views, bodies_fit, signature_views, Body, Builder, Frame};
use crate::wasm::model::{m, BlockTy, Ins, ValTy};
use crate::wasm::rc::{KIND_STRING};
use crate::wasm::rt_index as rt;

verus! {


/// Signatures of the remaining `str` operations, in offset order.
pub open spec fn str_op_signatures() -> Seq<(Seq<ValTy>, Seq<ValTy>)> {
    seq![
        (seq![ValTy::I32, ValTy::I32], seq![ValTy::I32]),
        (seq![ValTy::I32], seq![ValTy::I32]),
        (seq![ValTy::I32, ValTy::I32, ValTy::I32], seq![ValTy::I32]),
        (seq![ValTy::I32, ValTy::I64], seq![ValTy::I32]),
        (seq![ValTy::I32], seq![ValTy::I32]),
        (seq![ValTy::I32, ValTy::I64, ValTy::I32], seq![ValTy::I32]),
        (seq![ValTy::I32, ValTy::I64, ValTy::I32], seq![ValTy::I32]),
        (seq![ValTy::I32], seq![ValTy::I32]),
        (seq![ValTy::I32], seq![ValTy::I32]),
        (seq![ValTy::I32], seq![ValTy::I32]),
        (seq![ValTy::I32], seq![ValTy::I32]),
    ]
}

/// Signatures of the remaining `str` operations, in offset order.
pub fn signatures() -> (sigs: Vec<(Vec<ValTy>, Vec<ValTy>)>)
    ensures
        signature_views(sigs@) == str_op_signatures(),
{
    let sigs = vec![
        (vec![ValTy::I32, ValTy::I32], vec![ValTy::I32]),
        (vec![ValTy::I32], vec![ValTy::I32]),
        (vec![ValTy::I32, ValTy::I32, ValTy::I32], vec![ValTy::I32]),
        (vec![ValTy::I32, ValTy::I64], vec![ValTy::I32]),
        (vec![ValTy::I32], vec![ValTy::I32]),
        (vec![ValTy::I32, ValTy::I64, ValTy::I32], vec![ValTy::I32]),
        (vec![ValTy::I32, ValTy::I64, ValTy::I32], vec![ValTy::I32]),
        (vec![ValTy::I32], vec![ValTy::I32]),
        (vec![ValTy::I32], vec![ValTy::I32]),
        (vec![ValTy::I32], vec![ValTy::I32]),
        (vec![ValTy::I32], vec![ValTy::I32]),
    ];
    assert(signature_views(sigs@) =~~= str_op_signatures());
    sigs
}

/// The locals and code of each string-operation helper, wired to the runtime at `base`, in offset order.
pub open spec fn str_op_body_views(base: u32) -> Seq<(Seq<(u32, ValTy)>, Seq<Ins>)> {
    let rc_new = rt::wired(base, rt::RC_NEW);
    let list_new = rt::wired(base, rt::LIST_NEW);
    let list_push = rt::wired(base, rt::LIST_PUSH);
    let copy = rt::wired(base, rt::STR_COPY);
    let eq_at = rt::wired(base, rt::STR_EQ_AT);
    let utf8_len = rt::wired(base, rt::SO_UTF8_LEN);
    let scalar_count = rt::wired(base, rt::SO_SCALAR_COUNT);
    let is_ws = rt::wired(base, rt::SO_IS_WS);
    seq![
        (seq![(6u32, ValTy::I32)], split_body_code((list_new), (list_push), (copy), (eq_at))),
        (seq![(7u32, ValTy::I32)], lines_body_code((list_new), (list_push), (copy))),
        (seq![(7u32, ValTy::I32)], replace_body_code((rc_new), (eq_at))),
        (seq![(5u32, ValTy::I32)], char_at_body_code((rc_new), (copy), (utf8_len), (scalar_count))),
        (seq![(7u32, ValTy::I32)], chars_body_code((list_new), (list_push), (copy), (utf8_len), (scalar_count))),
        (seq![(7u32, ValTy::I32)], pad_left_body_code((rc_new), (scalar_count))),
        (seq![(7u32, ValTy::I32)], pad_right_body_code((rc_new), (scalar_count))),
        (seq![(7u32, ValTy::I32)], split_ws_body_code((list_new), (list_push), (copy), (utf8_len), (is_ws))),
        (seq![(1u32, ValTy::I32)], utf8_len_body_code()),
        (seq![(3u32, ValTy::I32)], scalar_count_body_code((utf8_len))),
        (seq![(2u32, ValTy::I32)], is_ws_body_code()),
    ]
}

/// The remaining `str` operation bodies, in offset order.
pub fn bodies(base: u32) -> (bodies: Vec<Body>)
    requires
        base + rt::COUNT <= u32::MAX,
    ensures
        body_views(bodies@) == str_op_body_views(base),
        bodies_fit(bodies@, str_op_signatures()),
{
    let rc_new = base + rt::RC_NEW;
    let list_new = base + rt::LIST_NEW;
    let list_push = base + rt::LIST_PUSH;
    let copy = base + rt::STR_COPY;
    let eq_at = base + rt::STR_EQ_AT;
    let utf8_len = base + rt::SO_UTF8_LEN;
    let scalar_count = base + rt::SO_SCALAR_COUNT;
    let is_ws = base + rt::SO_IS_WS;
    let bodies = vec![
        split_body(list_new, list_push, copy, eq_at),
        lines_body(list_new, list_push, copy),
        replace_body(rc_new, eq_at),
        char_at_body(rc_new, copy, utf8_len, scalar_count),
        chars_body(list_new, list_push, copy, utf8_len, scalar_count),
        pad_left_body(rc_new, scalar_count),
        pad_right_body(rc_new, scalar_count),
        split_ws_body(list_new, list_push, copy, utf8_len, is_ws),
        utf8_len_body(),
        scalar_count_body(utf8_len),
        is_ws_body(),
    ];
    assert(bodies_fit(bodies@, str_op_signatures()));
    assert(body_views(bodies@) =~= str_op_body_views(base));
    bodies
}

/// The code that `split_body` emits.
#[verifier::opaque]
pub open spec fn split_body_code(list_new: u32, list_push: u32, copy: u32, eq_at: u32) -> Seq<Ins> {
    let c = Seq::<Ins>::empty();
    let c = push_len_code(c, 0);
    let c = c
        .push(Ins::LocalSet(2));
    let c = push_len_code(c, 1);
    let c = c
        .push(Ins::LocalSet(3))
        .push(Ins::I32Const(KIND_STRING))
        .push(Ins::I32Const(0))
        .push(Ins::Call(list_new))
        .push(Ins::LocalSet(4))
        .push(Ins::I32Const(0))
        .push(Ins::LocalSet(5))
        .push(Ins::I32Const(0))
        .push(Ins::LocalSet(6))
        .push(Ins::LocalGet(3))
        .push(Ins::I32Eqz)
        .push(Ins::If(BlockTy::Empty));
    let c = push_segment_code(c, copy, list_push, 4, 7, 6, 2);
    let c = c
        .push(Ins::LocalGet(4))
        .push(Ins::Return)
        .push(Ins::End)
        .push(Ins::Block(BlockTy::Empty))
        .push(Ins::Loop(BlockTy::Empty))
        .push(Ins::LocalGet(5))
        .push(Ins::LocalGet(3))
        .push(Ins::I32Add)
        .push(Ins::LocalGet(2))
        .push(Ins::I32GtU)
        .push(Ins::BrIf(1))
        .push(Ins::LocalGet(0))
        .push(Ins::LocalGet(5))
        .push(Ins::LocalGet(1))
        .push(Ins::Call(eq_at))
        .push(Ins::If(BlockTy::Empty));
    let c = push_segment_code(c, copy, list_push, 4, 7, 6, 5);
    let c = c
        .push(Ins::LocalGet(5))
        .push(Ins::LocalGet(3))
        .push(Ins::I32Add)
        .push(Ins::LocalSet(6))
        .push(Ins::LocalGet(5))
        .push(Ins::LocalGet(3))
        .push(Ins::I32Add)
        .push(Ins::LocalSet(5))
        .push(Ins::Else)
        .push(Ins::LocalGet(5))
        .push(Ins::I32Const(1))
        .push(Ins::I32Add)
        .push(Ins::LocalSet(5))
        .push(Ins::End)
        .push(Ins::Br(0))
        .push(Ins::End)
        .push(Ins::End);
    let c = push_segment_code(c, copy, list_push, 4, 7, 6, 2);
    c
        .push(Ins::LocalGet(4))
        .push(Ins::End)
}

pub(crate) fn split_body(list_new: u32, list_push: u32, copy: u32, eq_at: u32) -> (body: Body)
    ensures
        body.code@ == split_body_code(list_new, list_push, copy, eq_at),
        body.locals@ == seq![(6u32, ValTy::I32)],
        body.valid(),
        body.params == 2,
{
    proof {
        reveal(split_body_code);
    }
    // locals: 2 = hlen, 3 = slen, 4 = out, 5 = i, 6 = start, 7 = scratch.
    let mut f = Builder::new(2);
    f.declare(6, ValTy::I32);
    push_len(&mut f, 0);
    f.push(Ins::LocalSet(2));
    push_len(&mut f, 1);
    f.push(Ins::LocalSet(3));
    f.push(Ins::I32Const(KIND_STRING));
    f.push(Ins::I32Const(0));
    f.push(Ins::Call(list_new));
    f.push(Ins::LocalSet(4));
    f.push(Ins::I32Const(0));
    f.push(Ins::LocalSet(5));
    f.push(Ins::I32Const(0));
    f.push(Ins::LocalSet(6));
    f.push(Ins::LocalGet(3));
    f.push(Ins::I32Eqz);
    f.push(Ins::If(BlockTy::Empty));
    push_segment(&mut f, copy, list_push, 4, 7, 6, 2);
    f.push(Ins::LocalGet(4));
    f.push(Ins::Return);
    f.push(Ins::End);
    f.push(Ins::Block(BlockTy::Empty));
    f.push(Ins::Loop(BlockTy::Empty));
    f.push(Ins::LocalGet(5));
    f.push(Ins::LocalGet(3));
    f.push(Ins::I32Add);
    f.push(Ins::LocalGet(2));
    f.push(Ins::I32GtU);
    f.push(Ins::BrIf(1));
    f.push(Ins::LocalGet(0));
    f.push(Ins::LocalGet(5));
    f.push(Ins::LocalGet(1));
    f.push(Ins::Call(eq_at));
    f.push(Ins::If(BlockTy::Empty));
    push_segment(&mut f, copy, list_push, 4, 7, 6, 5);
    f.push(Ins::LocalGet(5));
    f.push(Ins::LocalGet(3));
    f.push(Ins::I32Add);
    f.push(Ins::LocalSet(6));
    f.push(Ins::LocalGet(5));
    f.push(Ins::LocalGet(3));
    f.push(Ins::I32Add);
    f.push(Ins::LocalSet(5));
    f.push(Ins::Else);
    f.push(Ins::LocalGet(5));
    f.push(Ins::I32Const(1));
    f.push(Ins::I32Add);
    f.push(Ins::LocalSet(5));
    f.push(Ins::End);
    f.push(Ins::Br(0));
    f.push(Ins::End);
    f.push(Ins::End);
    push_segment(&mut f, copy, list_push, 4, 7, 6, 2);
    f.push(Ins::LocalGet(4));
    f.push(Ins::End);
    assert(f.locals() =~= seq![(6u32, ValTy::I32)]);
    f.finish()
}

/// The code that `lines_body` emits.
#[verifier::opaque]
pub open spec fn lines_body_code(list_new: u32, list_push: u32, copy: u32) -> Seq<Ins> {
    let c = Seq::<Ins>::empty();
    let c = push_len_code(c, 0);
    let c = c
        .push(Ins::LocalSet(1))
        .push(Ins::I32Const(KIND_STRING))
        .push(Ins::I32Const(0))
        .push(Ins::Call(list_new))
        .push(Ins::LocalSet(2))
        .push(Ins::I32Const(0))
        .push(Ins::LocalSet(3))
        .push(Ins::I32Const(0))
        .push(Ins::LocalSet(4))
        .push(Ins::Block(BlockTy::Empty))
        .push(Ins::Loop(BlockTy::Empty))
        .push(Ins::LocalGet(3))
        .push(Ins::LocalGet(1))
        .push(Ins::I32GeU)
        .push(Ins::BrIf(1));
    let c = push_byte_code(c, 0, 3);
    let c = c
        .push(Ins::I32Const(10))
        .push(Ins::I32Eq)
        .push(Ins::If(BlockTy::Empty))
        .push(Ins::LocalGet(3))
        .push(Ins::LocalSet(5));
    let c = push_line_code(c, copy, list_push, 2, 7, 4, 5);
    let c = c
        .push(Ins::LocalGet(3))
        .push(Ins::I32Const(1))
        .push(Ins::I32Add)
        .push(Ins::LocalSet(4))
        .push(Ins::End)
        .push(Ins::LocalGet(3))
        .push(Ins::I32Const(1))
        .push(Ins::I32Add)
        .push(Ins::LocalSet(3))
        .push(Ins::Br(0))
        .push(Ins::End)
        .push(Ins::End)
        .push(Ins::LocalGet(4))
        .push(Ins::LocalGet(1))
        .push(Ins::I32LtU)
        .push(Ins::If(BlockTy::Empty))
        .push(Ins::LocalGet(1))
        .push(Ins::LocalSet(5));
    let c = push_line_code(c, copy, list_push, 2, 7, 4, 5);
    c
        .push(Ins::End)
        .push(Ins::LocalGet(2))
        .push(Ins::End)
}

/// `(h) -> list`: split on `\n`, dropping a trailing `\r` per line.
pub(crate) fn lines_body(list_new: u32, list_push: u32, copy: u32) -> (body: Body)
    ensures
        body.code@ == lines_body_code(list_new, list_push, copy),
        body.locals@ == seq![(7u32, ValTy::I32)],
        body.valid(),
        body.params == 1,
{
    proof {
        reveal(lines_body_code);
    }
    // locals: 1 = len, 2 = out, 3 = i, 4 = start, 7 = scratch.
    let mut f = Builder::new(1);
    f.declare(7, ValTy::I32);
    push_len(&mut f, 0);
    f.push(Ins::LocalSet(1));
    f.push(Ins::I32Const(KIND_STRING));
    f.push(Ins::I32Const(0));
    f.push(Ins::Call(list_new));
    f.push(Ins::LocalSet(2));
    f.push(Ins::I32Const(0));
    f.push(Ins::LocalSet(3));
    f.push(Ins::I32Const(0));
    f.push(Ins::LocalSet(4));
    f.push(Ins::Block(BlockTy::Empty));
    f.push(Ins::Loop(BlockTy::Empty));
    f.push(Ins::LocalGet(3));
    f.push(Ins::LocalGet(1));
    f.push(Ins::I32GeU);
    f.push(Ins::BrIf(1));
    push_byte(&mut f, 0, 3);
    f.push(Ins::I32Const(10));
    f.push(Ins::I32Eq);
    f.push(Ins::If(BlockTy::Empty));
    f.push(Ins::LocalGet(3));
    f.push(Ins::LocalSet(5));
    push_line(&mut f, copy, list_push, 2, 7, 4, 5);
    f.push(Ins::LocalGet(3));
    f.push(Ins::I32Const(1));
    f.push(Ins::I32Add);
    f.push(Ins::LocalSet(4));
    f.push(Ins::End);
    f.push(Ins::LocalGet(3));
    f.push(Ins::I32Const(1));
    f.push(Ins::I32Add);
    f.push(Ins::LocalSet(3));
    f.push(Ins::Br(0));
    f.push(Ins::End);
    f.push(Ins::End);
    f.push(Ins::LocalGet(4));
    f.push(Ins::LocalGet(1));
    f.push(Ins::I32LtU);
    f.push(Ins::If(BlockTy::Empty));
    f.push(Ins::LocalGet(1));
    f.push(Ins::LocalSet(5));
    push_line(&mut f, copy, list_push, 2, 7, 4, 5);
    f.push(Ins::End);
    f.push(Ins::LocalGet(2));
    f.push(Ins::End);
    assert(f.locals() =~= seq![(7u32, ValTy::I32)]);
    f.finish()
}

/// The code that `replace_body` emits.
#[verifier::opaque]
pub open spec fn replace_body_code(rc_new: u32, eq_at: u32) -> Seq<Ins> {
    let c = Seq::<Ins>::empty();
    let c = push_len_code(c, 0);
    let c = c
        .push(Ins::LocalSet(3));
    let c = push_len_code(c, 1);
    let c = c
        .push(Ins::LocalSet(4));
    let c = push_len_code(c, 2);
    c
        .push(Ins::LocalSet(5))
        .push(Ins::LocalGet(4))
        .push(Ins::I32Eqz)
        .push(Ins::If(BlockTy::Empty))
        .push(Ins::LocalGet(3))
        .push(Ins::I32Const(4))
        .push(Ins::I32Add)
        .push(Ins::Call(rc_new))
        .push(Ins::LocalSet(8))
        .push(Ins::LocalGet(8))
        .push(Ins::LocalGet(3))
        .push(Ins::I32Store(m(0)))
        .push(Ins::LocalGet(8))
        .push(Ins::I32Const(4))
        .push(Ins::I32Add)
        .push(Ins::LocalGet(0))
        .push(Ins::I32Const(4))
        .push(Ins::I32Add)
        .push(Ins::LocalGet(3))
        .push(Ins::MemoryCopy { src_mem: 0, dst_mem: 0 })
        .push(Ins::LocalGet(8))
        .push(Ins::Return)
        .push(Ins::End)
        .push(Ins::I32Const(0))
        .push(Ins::LocalSet(6))
        .push(Ins::I32Const(0))
        .push(Ins::LocalSet(7))
        .push(Ins::Block(BlockTy::Empty))
        .push(Ins::Loop(BlockTy::Empty))
        .push(Ins::LocalGet(6))
        .push(Ins::LocalGet(4))
        .push(Ins::I32Add)
        .push(Ins::LocalGet(3))
        .push(Ins::I32GtU)
        .push(Ins::BrIf(1))
        .push(Ins::LocalGet(0))
        .push(Ins::LocalGet(6))
        .push(Ins::LocalGet(1))
        .push(Ins::Call(eq_at))
        .push(Ins::If(BlockTy::Empty))
        .push(Ins::LocalGet(7))
        .push(Ins::LocalGet(5))
        .push(Ins::I32Add)
        .push(Ins::LocalSet(7))
        .push(Ins::LocalGet(6))
        .push(Ins::LocalGet(4))
        .push(Ins::I32Add)
        .push(Ins::LocalSet(6))
        .push(Ins::Else)
        .push(Ins::LocalGet(7))
        .push(Ins::I32Const(1))
        .push(Ins::I32Add)
        .push(Ins::LocalSet(7))
        .push(Ins::LocalGet(6))
        .push(Ins::I32Const(1))
        .push(Ins::I32Add)
        .push(Ins::LocalSet(6))
        .push(Ins::End)
        .push(Ins::Br(0))
        .push(Ins::End)
        .push(Ins::End)
        .push(Ins::LocalGet(6))
        .push(Ins::LocalGet(3))
        .push(Ins::I32LtU)
        .push(Ins::If(BlockTy::Empty))
        .push(Ins::LocalGet(7))
        .push(Ins::LocalGet(3))
        .push(Ins::LocalGet(6))
        .push(Ins::I32Sub)
        .push(Ins::I32Add)
        .push(Ins::LocalSet(7))
        .push(Ins::End)
        .push(Ins::LocalGet(7))
        .push(Ins::I32Const(4))
        .push(Ins::I32Add)
        .push(Ins::Call(rc_new))
        .push(Ins::LocalSet(8))
        .push(Ins::LocalGet(8))
        .push(Ins::LocalGet(7))
        .push(Ins::I32Store(m(0)))
        .push(Ins::I32Const(0))
        .push(Ins::LocalSet(6))
        .push(Ins::I32Const(0))
        .push(Ins::LocalSet(9))
        .push(Ins::Block(BlockTy::Empty))
        .push(Ins::Loop(BlockTy::Empty))
        .push(Ins::LocalGet(6))
        .push(Ins::LocalGet(4))
        .push(Ins::I32Add)
        .push(Ins::LocalGet(3))
        .push(Ins::I32GtU)
        .push(Ins::BrIf(1))
        .push(Ins::LocalGet(0))
        .push(Ins::LocalGet(6))
        .push(Ins::LocalGet(1))
        .push(Ins::Call(eq_at))
        .push(Ins::If(BlockTy::Empty))
        .push(Ins::LocalGet(8))
        .push(Ins::I32Const(4))
        .push(Ins::I32Add)
        .push(Ins::LocalGet(9))
        .push(Ins::I32Add)
        .push(Ins::LocalGet(2))
        .push(Ins::I32Const(4))
        .push(Ins::I32Add)
        .push(Ins::LocalGet(5))
        .push(Ins::MemoryCopy { src_mem: 0, dst_mem: 0 })
        .push(Ins::LocalGet(9))
        .push(Ins::LocalGet(5))
        .push(Ins::I32Add)
        .push(Ins::LocalSet(9))
        .push(Ins::LocalGet(6))
        .push(Ins::LocalGet(4))
        .push(Ins::I32Add)
        .push(Ins::LocalSet(6))
        .push(Ins::Else)
        .push(Ins::LocalGet(8))
        .push(Ins::I32Const(4))
        .push(Ins::I32Add)
        .push(Ins::LocalGet(9))
        .push(Ins::I32Add)
        .push(Ins::LocalGet(0))
        .push(Ins::I32Const(4))
        .push(Ins::I32Add)
        .push(Ins::LocalGet(6))
        .push(Ins::I32Add)
        .push(Ins::I32Load8U(m(0)))
        .push(Ins::I32Store8(m(0)))
        .push(Ins::LocalGet(9))
        .push(Ins::I32Const(1))
        .push(Ins::I32Add)
        .push(Ins::LocalSet(9))
        .push(Ins::LocalGet(6))
        .push(Ins::I32Const(1))
        .push(Ins::I32Add)
        .push(Ins::LocalSet(6))
        .push(Ins::End)
        .push(Ins::Br(0))
        .push(Ins::End)
        .push(Ins::End)
        .push(Ins::LocalGet(6))
        .push(Ins::LocalGet(3))
        .push(Ins::I32LtU)
        .push(Ins::If(BlockTy::Empty))
        .push(Ins::LocalGet(8))
        .push(Ins::I32Const(4))
        .push(Ins::I32Add)
        .push(Ins::LocalGet(9))
        .push(Ins::I32Add)
        .push(Ins::LocalGet(0))
        .push(Ins::I32Const(4))
        .push(Ins::I32Add)
        .push(Ins::LocalGet(6))
        .push(Ins::I32Add)
        .push(Ins::LocalGet(3))
        .push(Ins::LocalGet(6))
        .push(Ins::I32Sub)
        .push(Ins::MemoryCopy { src_mem: 0, dst_mem: 0 })
        .push(Ins::End)
        .push(Ins::LocalGet(8))
        .push(Ins::End)
}

/// `(h, from, to) -> str`: replace all non-overlapping occurrences.
pub(crate) fn replace_body(rc_new: u32, eq_at: u32) -> (body: Body)
    ensures
        body.code@ == replace_body_code(rc_new, eq_at),
        body.locals@ == seq![(7u32, ValTy::I32)],
        body.valid(),
        body.params == 3,
{
    proof {
        reveal(replace_body_code);
    }
    // locals: 3 = hlen, 4 = flen, 5 = tlen, 6 = i, 7 = out_len, 8 = out, 9 = cursor.
    let mut f = Builder::new(3);
    f.declare(7, ValTy::I32);
    push_len(&mut f, 0);
    f.push(Ins::LocalSet(3));
    push_len(&mut f, 1);
    f.push(Ins::LocalSet(4));
    push_len(&mut f, 2);
    f.push(Ins::LocalSet(5));
    f.push(Ins::LocalGet(4));
    f.push(Ins::I32Eqz);
    f.push(Ins::If(BlockTy::Empty));
    f.push(Ins::LocalGet(3));
    f.push(Ins::I32Const(4));
    f.push(Ins::I32Add);
    f.push(Ins::Call(rc_new));
    f.push(Ins::LocalSet(8));
    f.push(Ins::LocalGet(8));
    f.push(Ins::LocalGet(3));
    f.push(Ins::I32Store(m(0)));
    f.push(Ins::LocalGet(8));
    f.push(Ins::I32Const(4));
    f.push(Ins::I32Add);
    f.push(Ins::LocalGet(0));
    f.push(Ins::I32Const(4));
    f.push(Ins::I32Add);
    f.push(Ins::LocalGet(3));
    f.push(Ins::MemoryCopy {
        src_mem: 0,
        dst_mem: 0,
    });
    f.push(Ins::LocalGet(8));
    f.push(Ins::Return);
    f.push(Ins::End);
    f.push(Ins::I32Const(0));
    f.push(Ins::LocalSet(6));
    f.push(Ins::I32Const(0));
    f.push(Ins::LocalSet(7));
    f.push(Ins::Block(BlockTy::Empty));
    f.push(Ins::Loop(BlockTy::Empty));
    f.push(Ins::LocalGet(6));
    f.push(Ins::LocalGet(4));
    f.push(Ins::I32Add);
    f.push(Ins::LocalGet(3));
    f.push(Ins::I32GtU);
    f.push(Ins::BrIf(1));
    f.push(Ins::LocalGet(0));
    f.push(Ins::LocalGet(6));
    f.push(Ins::LocalGet(1));
    f.push(Ins::Call(eq_at));
    f.push(Ins::If(BlockTy::Empty));
    f.push(Ins::LocalGet(7));
    f.push(Ins::LocalGet(5));
    f.push(Ins::I32Add);
    f.push(Ins::LocalSet(7));
    f.push(Ins::LocalGet(6));
    f.push(Ins::LocalGet(4));
    f.push(Ins::I32Add);
    f.push(Ins::LocalSet(6));
    f.push(Ins::Else);
    f.push(Ins::LocalGet(7));
    f.push(Ins::I32Const(1));
    f.push(Ins::I32Add);
    f.push(Ins::LocalSet(7));
    f.push(Ins::LocalGet(6));
    f.push(Ins::I32Const(1));
    f.push(Ins::I32Add);
    f.push(Ins::LocalSet(6));
    f.push(Ins::End);
    f.push(Ins::Br(0));
    f.push(Ins::End);
    f.push(Ins::End);
    f.push(Ins::LocalGet(6));
    f.push(Ins::LocalGet(3));
    f.push(Ins::I32LtU);
    f.push(Ins::If(BlockTy::Empty));
    f.push(Ins::LocalGet(7));
    f.push(Ins::LocalGet(3));
    f.push(Ins::LocalGet(6));
    f.push(Ins::I32Sub);
    f.push(Ins::I32Add);
    f.push(Ins::LocalSet(7));
    f.push(Ins::End);
    f.push(Ins::LocalGet(7));
    f.push(Ins::I32Const(4));
    f.push(Ins::I32Add);
    f.push(Ins::Call(rc_new));
    f.push(Ins::LocalSet(8));
    f.push(Ins::LocalGet(8));
    f.push(Ins::LocalGet(7));
    f.push(Ins::I32Store(m(0)));
    f.push(Ins::I32Const(0));
    f.push(Ins::LocalSet(6));
    f.push(Ins::I32Const(0));
    f.push(Ins::LocalSet(9));
    f.push(Ins::Block(BlockTy::Empty));
    f.push(Ins::Loop(BlockTy::Empty));
    f.push(Ins::LocalGet(6));
    f.push(Ins::LocalGet(4));
    f.push(Ins::I32Add);
    f.push(Ins::LocalGet(3));
    f.push(Ins::I32GtU);
    f.push(Ins::BrIf(1));
    f.push(Ins::LocalGet(0));
    f.push(Ins::LocalGet(6));
    f.push(Ins::LocalGet(1));
    f.push(Ins::Call(eq_at));
    f.push(Ins::If(BlockTy::Empty));
    f.push(Ins::LocalGet(8));
    f.push(Ins::I32Const(4));
    f.push(Ins::I32Add);
    f.push(Ins::LocalGet(9));
    f.push(Ins::I32Add);
    f.push(Ins::LocalGet(2));
    f.push(Ins::I32Const(4));
    f.push(Ins::I32Add);
    f.push(Ins::LocalGet(5));
    f.push(Ins::MemoryCopy {
        src_mem: 0,
        dst_mem: 0,
    });
    f.push(Ins::LocalGet(9));
    f.push(Ins::LocalGet(5));
    f.push(Ins::I32Add);
    f.push(Ins::LocalSet(9));
    f.push(Ins::LocalGet(6));
    f.push(Ins::LocalGet(4));
    f.push(Ins::I32Add);
    f.push(Ins::LocalSet(6));
    f.push(Ins::Else);
    f.push(Ins::LocalGet(8));
    f.push(Ins::I32Const(4));
    f.push(Ins::I32Add);
    f.push(Ins::LocalGet(9));
    f.push(Ins::I32Add);
    f.push(Ins::LocalGet(0));
    f.push(Ins::I32Const(4));
    f.push(Ins::I32Add);
    f.push(Ins::LocalGet(6));
    f.push(Ins::I32Add);
    f.push(Ins::I32Load8U(m(0)));
    f.push(Ins::I32Store8(m(0)));
    f.push(Ins::LocalGet(9));
    f.push(Ins::I32Const(1));
    f.push(Ins::I32Add);
    f.push(Ins::LocalSet(9));
    f.push(Ins::LocalGet(6));
    f.push(Ins::I32Const(1));
    f.push(Ins::I32Add);
    f.push(Ins::LocalSet(6));
    f.push(Ins::End);
    f.push(Ins::Br(0));
    f.push(Ins::End);
    f.push(Ins::End);
    f.push(Ins::LocalGet(6));
    f.push(Ins::LocalGet(3));
    f.push(Ins::I32LtU);
    f.push(Ins::If(BlockTy::Empty));
    f.push(Ins::LocalGet(8));
    f.push(Ins::I32Const(4));
    f.push(Ins::I32Add);
    f.push(Ins::LocalGet(9));
    f.push(Ins::I32Add);
    f.push(Ins::LocalGet(0));
    f.push(Ins::I32Const(4));
    f.push(Ins::I32Add);
    f.push(Ins::LocalGet(6));
    f.push(Ins::I32Add);
    f.push(Ins::LocalGet(3));
    f.push(Ins::LocalGet(6));
    f.push(Ins::I32Sub);
    f.push(Ins::MemoryCopy {
        src_mem: 0,
        dst_mem: 0,
    });
    f.push(Ins::End);
    f.push(Ins::LocalGet(8));
    f.push(Ins::End);
    assert(f.locals() =~= seq![(7u32, ValTy::I32)]);
    f.finish()
}

/// The code that `char_at_body` emits.
#[verifier::opaque]
pub open spec fn char_at_body_code(rc_new: u32, copy: u32, utf8_len: u32, scalar_count: u32) -> Seq<Ins> {
    let c = Seq::<Ins>::empty();
    let c = c
        .push(Ins::LocalGet(0))
        .push(Ins::Call(scalar_count))
        .push(Ins::LocalSet(2))
        .push(Ins::LocalGet(1))
        .push(Ins::I64Const(0))
        .push(Ins::I64LtS)
        .push(Ins::If(BlockTy::Empty));
    let c = empty_str_code(c, rc_new, 6);
    let c = c
        .push(Ins::End)
        .push(Ins::LocalGet(1))
        .push(Ins::LocalGet(2))
        .push(Ins::I64ExtendI32U)
        .push(Ins::I64GeS)
        .push(Ins::If(BlockTy::Empty));
    let c = empty_str_code(c, rc_new, 6);
    let c = c
        .push(Ins::End)
        .push(Ins::I32Const(0))
        .push(Ins::LocalSet(3))
        .push(Ins::I32Const(0))
        .push(Ins::LocalSet(4))
        .push(Ins::Block(BlockTy::Empty))
        .push(Ins::Loop(BlockTy::Empty))
        .push(Ins::LocalGet(4))
        .push(Ins::LocalGet(1))
        .push(Ins::I32WrapI64)
        .push(Ins::I32GeU)
        .push(Ins::BrIf(1));
    let c = push_at_code(c, 0, 3);
    let c = c
        .push(Ins::Call(utf8_len))
        .push(Ins::LocalGet(3))
        .push(Ins::I32Add)
        .push(Ins::LocalSet(3))
        .push(Ins::LocalGet(4))
        .push(Ins::I32Const(1))
        .push(Ins::I32Add)
        .push(Ins::LocalSet(4))
        .push(Ins::Br(0))
        .push(Ins::End)
        .push(Ins::End);
    let c = push_at_code(c, 0, 3);
    c
        .push(Ins::Call(utf8_len))
        .push(Ins::LocalSet(5))
        .push(Ins::LocalGet(0))
        .push(Ins::LocalGet(3))
        .push(Ins::LocalGet(5))
        .push(Ins::Call(copy))
        .push(Ins::End)
}

/// `(h, idx) -> str`: the `idx`-th Unicode scalar, or `""` when out of range.
pub(crate) fn char_at_body(rc_new: u32, copy: u32, utf8_len: u32, scalar_count: u32) -> (body: Body)
    ensures
        body.code@ == char_at_body_code(rc_new, copy, utf8_len, scalar_count),
        body.locals@ == seq![(5u32, ValTy::I32)],
        body.valid(),
        body.params == 2,
{
    proof {
        reveal(char_at_body_code);
    }
    // locals: 2 = count, 3 = off, 4 = k, 5 = ch_len, 6 = scratch.
    let mut f = Builder::new(2);
    f.declare(5, ValTy::I32);
    f.push(Ins::LocalGet(0));
    f.push(Ins::Call(scalar_count));
    f.push(Ins::LocalSet(2));
    f.push(Ins::LocalGet(1));
    f.push(Ins::I64Const(0));
    f.push(Ins::I64LtS);
    f.push(Ins::If(BlockTy::Empty));
    empty_str(&mut f, rc_new, 6);
    f.push(Ins::End);
    f.push(Ins::LocalGet(1));
    f.push(Ins::LocalGet(2));
    f.push(Ins::I64ExtendI32U);
    f.push(Ins::I64GeS);
    f.push(Ins::If(BlockTy::Empty));
    empty_str(&mut f, rc_new, 6);
    f.push(Ins::End);
    f.push(Ins::I32Const(0));
    f.push(Ins::LocalSet(3));
    f.push(Ins::I32Const(0));
    f.push(Ins::LocalSet(4));
    f.push(Ins::Block(BlockTy::Empty));
    f.push(Ins::Loop(BlockTy::Empty));
    f.push(Ins::LocalGet(4));
    f.push(Ins::LocalGet(1));
    f.push(Ins::I32WrapI64);
    f.push(Ins::I32GeU);
    f.push(Ins::BrIf(1));
    push_at(&mut f, 0, 3);
    f.push(Ins::Call(utf8_len));
    f.push(Ins::LocalGet(3));
    f.push(Ins::I32Add);
    f.push(Ins::LocalSet(3));
    f.push(Ins::LocalGet(4));
    f.push(Ins::I32Const(1));
    f.push(Ins::I32Add);
    f.push(Ins::LocalSet(4));
    f.push(Ins::Br(0));
    f.push(Ins::End);
    f.push(Ins::End);
    push_at(&mut f, 0, 3);
    f.push(Ins::Call(utf8_len));
    f.push(Ins::LocalSet(5));
    f.push(Ins::LocalGet(0));
    f.push(Ins::LocalGet(3));
    f.push(Ins::LocalGet(5));
    f.push(Ins::Call(copy));
    f.push(Ins::End);
    assert(f.locals() =~= seq![(5u32, ValTy::I32)]);
    f.finish()
}

/// The code that `chars_body` emits.
#[verifier::opaque]
pub open spec fn chars_body_code(list_new: u32, list_push: u32, copy: u32, utf8_len: u32, scalar_count: u32) -> Seq<Ins> {
    let c = Seq::<Ins>::empty();
    let c = push_len_code(c, 0);
    let c = c
        .push(Ins::LocalSet(1))
        .push(Ins::LocalGet(0))
        .push(Ins::Call(scalar_count))
        .push(Ins::LocalSet(2))
        .push(Ins::I32Const(KIND_STRING))
        .push(Ins::LocalGet(2))
        .push(Ins::Call(list_new))
        .push(Ins::LocalSet(3))
        .push(Ins::I32Const(0))
        .push(Ins::LocalSet(4))
        .push(Ins::I32Const(0))
        .push(Ins::LocalSet(5))
        .push(Ins::Block(BlockTy::Empty))
        .push(Ins::Loop(BlockTy::Empty))
        .push(Ins::LocalGet(4))
        .push(Ins::LocalGet(1))
        .push(Ins::I32GeU)
        .push(Ins::BrIf(1));
    let c = push_at_code(c, 0, 4);
    let c = c
        .push(Ins::Call(utf8_len))
        .push(Ins::LocalSet(6))
        .push(Ins::LocalGet(0))
        .push(Ins::LocalGet(4))
        .push(Ins::LocalGet(6))
        .push(Ins::Call(copy));
    let c = list_into_code(c, list_push, 3, 7);
    c
        .push(Ins::LocalGet(4))
        .push(Ins::LocalGet(6))
        .push(Ins::I32Add)
        .push(Ins::LocalSet(4))
        .push(Ins::LocalGet(5))
        .push(Ins::I32Const(1))
        .push(Ins::I32Add)
        .push(Ins::LocalSet(5))
        .push(Ins::Br(0))
        .push(Ins::End)
        .push(Ins::End)
        .push(Ins::LocalGet(3))
        .push(Ins::End)
}

pub(crate) fn chars_body(list_new: u32, list_push: u32, copy: u32, utf8_len: u32, scalar_count: u32) -> (body: Body)
    ensures
        body.code@ == chars_body_code(list_new, list_push, copy, utf8_len, scalar_count),
        body.locals@ == seq![(7u32, ValTy::I32)],
        body.valid(),
        body.params == 1,
{
    proof {
        reveal(chars_body_code);
    }
    // locals: 1 = len, 2 = count, 3 = out, 4 = off, 5 = i, 6 = ch_len, 7 = scratch.
    let mut f = Builder::new(1);
    f.declare(7, ValTy::I32);
    push_len(&mut f, 0);
    f.push(Ins::LocalSet(1));
    f.push(Ins::LocalGet(0));
    f.push(Ins::Call(scalar_count));
    f.push(Ins::LocalSet(2));
    f.push(Ins::I32Const(KIND_STRING));
    f.push(Ins::LocalGet(2));
    f.push(Ins::Call(list_new));
    f.push(Ins::LocalSet(3));
    f.push(Ins::I32Const(0));
    f.push(Ins::LocalSet(4));
    f.push(Ins::I32Const(0));
    f.push(Ins::LocalSet(5));
    f.push(Ins::Block(BlockTy::Empty));
    f.push(Ins::Loop(BlockTy::Empty));
    f.push(Ins::LocalGet(4));
    f.push(Ins::LocalGet(1));
    f.push(Ins::I32GeU);
    f.push(Ins::BrIf(1));
    push_at(&mut f, 0, 4);
    f.push(Ins::Call(utf8_len));
    f.push(Ins::LocalSet(6));
    f.push(Ins::LocalGet(0));
    f.push(Ins::LocalGet(4));
    f.push(Ins::LocalGet(6));
    f.push(Ins::Call(copy));
    list_into(&mut f, list_push, 3, 7);
    f.push(Ins::LocalGet(4));
    f.push(Ins::LocalGet(6));
    f.push(Ins::I32Add);
    f.push(Ins::LocalSet(4));
    f.push(Ins::LocalGet(5));
    f.push(Ins::I32Const(1));
    f.push(Ins::I32Add);
    f.push(Ins::LocalSet(5));
    f.push(Ins::Br(0));
    f.push(Ins::End);
    f.push(Ins::End);
    f.push(Ins::LocalGet(3));
    f.push(Ins::End);
    assert(f.locals() =~= seq![(7u32, ValTy::I32)]);
    f.finish()
}

/// The code that `pad_left_body` emits.
pub open spec fn pad_left_body_code(rc_new: u32, scalar_count: u32) -> Seq<Ins> {
    emit_pad_code(Seq::<Ins>::empty(), rc_new, scalar_count, true)
}

pub(crate) fn pad_left_body(rc_new: u32, scalar_count: u32) -> (body: Body)
    ensures
        body.code@ == pad_left_body_code(rc_new, scalar_count),
        body.locals@ == seq![(7u32, ValTy::I32)],
        body.valid(),
        body.params == 3,
{
    // locals: 3 = count, 4 = hlen, 5 = flen, 6 = pad, 7 = need, 8 = out, 9 = i.
    let mut f = Builder::new(3);
    f.declare(7, ValTy::I32);
    emit_pad(&mut f, rc_new, scalar_count, true);
    assert(f.locals() =~= seq![(7u32, ValTy::I32)]);
    f.finish()
}

/// The code that `pad_right_body` emits.
pub open spec fn pad_right_body_code(rc_new: u32, scalar_count: u32) -> Seq<Ins> {
    emit_pad_code(Seq::<Ins>::empty(), rc_new, scalar_count, false)
}

pub(crate) fn pad_right_body(rc_new: u32, scalar_count: u32) -> (body: Body)
    ensures
        body.code@ == pad_right_body_code(rc_new, scalar_count),
        body.locals@ == seq![(7u32, ValTy::I32)],
        body.valid(),
        body.params == 3,
{
    // locals: 3 = count, 4 = hlen, 5 = flen, 6 = pad, 7 = need, 8 = out, 9 = i.
    let mut f = Builder::new(3);
    f.declare(7, ValTy::I32);
    emit_pad(&mut f, rc_new, scalar_count, false);
    assert(f.locals() =~= seq![(7u32, ValTy::I32)]);
    f.finish()
}

/// `c` followed by the code that `emit_pad` emits; `left` puts the padding before the value.
#[verifier::opaque]
pub open spec fn emit_pad_code(c: Seq<Ins>, rc_new: u32, scalar_count: u32, left: bool) -> Seq<Ins> {
    let c = c
        .push(Ins::LocalGet(0))
        .push(Ins::Call(scalar_count))
        .push(Ins::LocalSet(3));
    let c = push_len_code(c, 0);
    let c = c
        .push(Ins::LocalSet(4));
    let c = push_len_code(c, 2);
    let c = c
        .push(Ins::LocalSet(5))
        .push(Ins::LocalGet(1))
        .push(Ins::I32WrapI64)
        .push(Ins::LocalGet(3))
        .push(Ins::I32GtU)
        .push(Ins::If(BlockTy::Result(ValTy::I32)))
        .push(Ins::LocalGet(1))
        .push(Ins::I32WrapI64)
        .push(Ins::LocalGet(3))
        .push(Ins::I32Sub)
        .push(Ins::Else)
        .push(Ins::I32Const(0))
        .push(Ins::End)
        .push(Ins::LocalSet(6))
        .push(Ins::LocalGet(6))
        .push(Ins::LocalGet(5))
        .push(Ins::I32Mul)
        .push(Ins::LocalGet(4))
        .push(Ins::I32Add)
        .push(Ins::LocalSet(7))
        .push(Ins::LocalGet(7))
        .push(Ins::I32Const(4))
        .push(Ins::I32Add)
        .push(Ins::Call(rc_new))
        .push(Ins::LocalSet(8))
        .push(Ins::LocalGet(8))
        .push(Ins::LocalGet(7))
        .push(Ins::I32Store(m(0)));
    let c = if left {
        c
            .push(Ins::LocalGet(8))
            .push(Ins::I32Const(4))
            .push(Ins::I32Add)
            .push(Ins::LocalGet(6))
            .push(Ins::LocalGet(5))
            .push(Ins::I32Mul)
            .push(Ins::I32Add)
            .push(Ins::LocalGet(0))
            .push(Ins::I32Const(4))
            .push(Ins::I32Add)
            .push(Ins::LocalGet(4))
            .push(Ins::MemoryCopy { src_mem: 0, dst_mem: 0 })
    } else {
        c
            .push(Ins::LocalGet(8))
            .push(Ins::I32Const(4))
            .push(Ins::I32Add)
            .push(Ins::LocalGet(0))
            .push(Ins::I32Const(4))
            .push(Ins::I32Add)
            .push(Ins::LocalGet(4))
            .push(Ins::MemoryCopy { src_mem: 0, dst_mem: 0 })
            .push(Ins::LocalGet(4))
            .push(Ins::LocalSet(9))
    };
    let c = c
        .push(Ins::I32Const(0))
        .push(Ins::LocalSet(9))
        .push(Ins::Block(BlockTy::Empty))
        .push(Ins::Loop(BlockTy::Empty))
        .push(Ins::LocalGet(9))
        .push(Ins::LocalGet(6))
        .push(Ins::I32GeU)
        .push(Ins::BrIf(1))
        .push(Ins::LocalGet(8))
        .push(Ins::I32Const(4))
        .push(Ins::I32Add);
    let c = if left {
        c
            .push(Ins::LocalGet(9))
            .push(Ins::LocalGet(5))
            .push(Ins::I32Mul)
    } else {
        c
            .push(Ins::LocalGet(4))
            .push(Ins::I32Add)
            .push(Ins::LocalGet(9))
            .push(Ins::LocalGet(5))
            .push(Ins::I32Mul)
    };
    c
        .push(Ins::I32Add)
        .push(Ins::LocalGet(2))
        .push(Ins::I32Const(4))
        .push(Ins::I32Add)
        .push(Ins::LocalGet(5))
        .push(Ins::MemoryCopy { src_mem: 0, dst_mem: 0 })
        .push(Ins::LocalGet(9))
        .push(Ins::I32Const(1))
        .push(Ins::I32Add)
        .push(Ins::LocalSet(9))
        .push(Ins::Br(0))
        .push(Ins::End)
        .push(Ins::End)
        .push(Ins::LocalGet(8))
        .push(Ins::End)
}

fn emit_pad(f: &mut Builder, rc_new: u32, scalar_count: u32, left: bool)
    requires
        old(f).wf(),
        old(f).frames().len() >= 1,
        old(f).nlocals() > 9,
        old(f).frames() == seq![Frame::Func],
    ensures
        final(f).code() == emit_pad_code(old(f).code(), rc_new, scalar_count, left),
        final(f).wf(),
        final(f).params() == old(f).params(),
        final(f).locals() == old(f).locals(),
        final(f).frames().len() == 0,
{
    proof {
        reveal(emit_pad_code);
    }
    f.push(Ins::LocalGet(0));
    f.push(Ins::Call(scalar_count));
    f.push(Ins::LocalSet(3));
    push_len(f, 0);
    f.push(Ins::LocalSet(4));
    push_len(f, 2);
    f.push(Ins::LocalSet(5));
    f.push(Ins::LocalGet(1));
    f.push(Ins::I32WrapI64);
    f.push(Ins::LocalGet(3));
    f.push(Ins::I32GtU);
    f.push(Ins::If(BlockTy::Result(ValTy::I32)));
    f.push(Ins::LocalGet(1));
    f.push(Ins::I32WrapI64);
    f.push(Ins::LocalGet(3));
    f.push(Ins::I32Sub);
    f.push(Ins::Else);
    f.push(Ins::I32Const(0));
    f.push(Ins::End);
    f.push(Ins::LocalSet(6));
    f.push(Ins::LocalGet(6));
    f.push(Ins::LocalGet(5));
    f.push(Ins::I32Mul);
    f.push(Ins::LocalGet(4));
    f.push(Ins::I32Add);
    f.push(Ins::LocalSet(7));
    f.push(Ins::LocalGet(7));
    f.push(Ins::I32Const(4));
    f.push(Ins::I32Add);
    f.push(Ins::Call(rc_new));
    f.push(Ins::LocalSet(8));
    f.push(Ins::LocalGet(8));
    f.push(Ins::LocalGet(7));
    f.push(Ins::I32Store(m(0)));
    // Copy the value either before (right) or after (left) the padding.
    let value_at = if left {
        // value after pad: dst = out+4+pad*flen
        f.push(Ins::LocalGet(8));
        f.push(Ins::I32Const(4));
        f.push(Ins::I32Add);
        f.push(Ins::LocalGet(6));
        f.push(Ins::LocalGet(5));
        f.push(Ins::I32Mul);
        f.push(Ins::I32Add);
        f.push(Ins::LocalGet(0));
        f.push(Ins::I32Const(4));
        f.push(Ins::I32Add);
        f.push(Ins::LocalGet(4));
        f.push(Ins::MemoryCopy {
            src_mem: 0,
            dst_mem: 0,
        });
        0
    } else {
        // value first
        f.push(Ins::LocalGet(8));
        f.push(Ins::I32Const(4));
        f.push(Ins::I32Add);
        f.push(Ins::LocalGet(0));
        f.push(Ins::I32Const(4));
        f.push(Ins::I32Add);
        f.push(Ins::LocalGet(4));
        f.push(Ins::MemoryCopy {
            src_mem: 0,
            dst_mem: 0,
        });
        f.push(Ins::LocalGet(4));
        f.push(Ins::LocalSet(9));
        4
    };
    let _ = value_at;
    f.push(Ins::I32Const(0));
    f.push(Ins::LocalSet(9));
    // pad loop
    f.push(Ins::Block(BlockTy::Empty));
    f.push(Ins::Loop(BlockTy::Empty));
    f.push(Ins::LocalGet(9));
    f.push(Ins::LocalGet(6));
    f.push(Ins::I32GeU);
    f.push(Ins::BrIf(1));
    f.push(Ins::LocalGet(8));
    f.push(Ins::I32Const(4));
    f.push(Ins::I32Add);
    if left {
        f.push(Ins::LocalGet(9));
        f.push(Ins::LocalGet(5));
        f.push(Ins::I32Mul);
    } else {
        f.push(Ins::LocalGet(4));
        f.push(Ins::I32Add);
        f.push(Ins::LocalGet(9));
        f.push(Ins::LocalGet(5));
        f.push(Ins::I32Mul);
    }
    f.push(Ins::I32Add);
    f.push(Ins::LocalGet(2));
    f.push(Ins::I32Const(4));
    f.push(Ins::I32Add);
    f.push(Ins::LocalGet(5));
    f.push(Ins::MemoryCopy {
        src_mem: 0,
        dst_mem: 0,
    });
    f.push(Ins::LocalGet(9));
    f.push(Ins::I32Const(1));
    f.push(Ins::I32Add);
    f.push(Ins::LocalSet(9));
    f.push(Ins::Br(0));
    f.push(Ins::End);
    f.push(Ins::End);
    f.push(Ins::LocalGet(8));
    f.push(Ins::End);
}

/// The code that `split_ws_body` emits.
#[verifier::opaque]
pub open spec fn split_ws_body_code(list_new: u32, list_push: u32, copy: u32, utf8_len: u32, is_ws: u32) -> Seq<Ins> {
    let c = Seq::<Ins>::empty();
    let c = push_len_code(c, 0);
    let c = c
        .push(Ins::LocalSet(1))
        .push(Ins::I32Const(KIND_STRING))
        .push(Ins::I32Const(0))
        .push(Ins::Call(list_new))
        .push(Ins::LocalSet(2))
        .push(Ins::I32Const(0))
        .push(Ins::LocalSet(3))
        .push(Ins::I32Const(0))
        .push(Ins::LocalSet(4))
        .push(Ins::I32Const(0))
        .push(Ins::LocalSet(6))
        .push(Ins::Block(BlockTy::Empty))
        .push(Ins::Loop(BlockTy::Empty))
        .push(Ins::LocalGet(3))
        .push(Ins::LocalGet(1))
        .push(Ins::I32GeU)
        .push(Ins::BrIf(1));
    let c = push_at_code(c, 0, 3);
    let c = c
        .push(Ins::Call(is_ws))
        .push(Ins::LocalSet(5))
        .push(Ins::LocalGet(5))
        .push(Ins::If(BlockTy::Empty))
        .push(Ins::LocalGet(6))
        .push(Ins::If(BlockTy::Empty));
    let c = push_segment_code(c, copy, list_push, 2, 7, 4, 3);
    let c = c
        .push(Ins::End)
        .push(Ins::I32Const(0))
        .push(Ins::LocalSet(6))
        .push(Ins::Else)
        .push(Ins::LocalGet(6))
        .push(Ins::I32Eqz)
        .push(Ins::If(BlockTy::Empty))
        .push(Ins::LocalGet(3))
        .push(Ins::LocalSet(4))
        .push(Ins::I32Const(1))
        .push(Ins::LocalSet(6))
        .push(Ins::End)
        .push(Ins::End);
    let c = push_at_code(c, 0, 3);
    let c = c
        .push(Ins::Call(utf8_len))
        .push(Ins::LocalGet(3))
        .push(Ins::I32Add)
        .push(Ins::LocalSet(3))
        .push(Ins::Br(0))
        .push(Ins::End)
        .push(Ins::End)
        .push(Ins::LocalGet(6))
        .push(Ins::If(BlockTy::Empty));
    let c = push_segment_code(c, copy, list_push, 2, 7, 4, 1);
    c
        .push(Ins::End)
        .push(Ins::LocalGet(2))
        .push(Ins::End)
}

pub(crate) fn split_ws_body(list_new: u32, list_push: u32, copy: u32, utf8_len: u32, is_ws: u32) -> (body: Body)
    ensures
        body.code@ == split_ws_body_code(list_new, list_push, copy, utf8_len, is_ws),
        body.locals@ == seq![(7u32, ValTy::I32)],
        body.valid(),
        body.params == 1,
{
    proof {
        reveal(split_ws_body_code);
    }
    // locals: 1 = len, 2 = out, 3 = i, 4 = start, 5 = ch, 6 = in_run, 7 = scratch.
    let mut f = Builder::new(1);
    f.declare(7, ValTy::I32);
    push_len(&mut f, 0);
    f.push(Ins::LocalSet(1));
    f.push(Ins::I32Const(KIND_STRING));
    f.push(Ins::I32Const(0));
    f.push(Ins::Call(list_new));
    f.push(Ins::LocalSet(2));
    f.push(Ins::I32Const(0));
    f.push(Ins::LocalSet(3));
    f.push(Ins::I32Const(0));
    f.push(Ins::LocalSet(4));
    f.push(Ins::I32Const(0));
    f.push(Ins::LocalSet(6));
    f.push(Ins::Block(BlockTy::Empty));
    f.push(Ins::Loop(BlockTy::Empty));
    f.push(Ins::LocalGet(3));
    f.push(Ins::LocalGet(1));
    f.push(Ins::I32GeU);
    f.push(Ins::BrIf(1));
    push_at(&mut f, 0, 3);
    f.push(Ins::Call(is_ws));
    f.push(Ins::LocalSet(5));
    f.push(Ins::LocalGet(5));
    f.push(Ins::If(BlockTy::Empty));
    f.push(Ins::LocalGet(6));
    f.push(Ins::If(BlockTy::Empty));
    push_segment(&mut f, copy, list_push, 2, 7, 4, 3);
    f.push(Ins::End);
    f.push(Ins::I32Const(0));
    f.push(Ins::LocalSet(6));
    f.push(Ins::Else);
    f.push(Ins::LocalGet(6));
    f.push(Ins::I32Eqz);
    f.push(Ins::If(BlockTy::Empty));
    f.push(Ins::LocalGet(3));
    f.push(Ins::LocalSet(4));
    f.push(Ins::I32Const(1));
    f.push(Ins::LocalSet(6));
    f.push(Ins::End);
    f.push(Ins::End);
    push_at(&mut f, 0, 3);
    f.push(Ins::Call(utf8_len));
    f.push(Ins::LocalGet(3));
    f.push(Ins::I32Add);
    f.push(Ins::LocalSet(3));
    f.push(Ins::Br(0));
    f.push(Ins::End);
    f.push(Ins::End);
    f.push(Ins::LocalGet(6));
    f.push(Ins::If(BlockTy::Empty));
    push_segment(&mut f, copy, list_push, 2, 7, 4, 1);
    f.push(Ins::End);
    f.push(Ins::LocalGet(2));
    f.push(Ins::End);
    assert(f.locals() =~= seq![(7u32, ValTy::I32)]);
    f.finish()
}

/// The code that `utf8_len_body` emits.
#[verifier::opaque]
pub open spec fn utf8_len_body_code() -> Seq<Ins> {
    let c = Seq::<Ins>::empty();
    c
        .push(Ins::LocalGet(0))
        .push(Ins::I32Load8U(m(0)))
        .push(Ins::LocalSet(1))
        .push(Ins::LocalGet(1))
        .push(Ins::I32Const(128))
        .push(Ins::I32LtU)
        .push(Ins::If(BlockTy::Result(ValTy::I32)))
        .push(Ins::I32Const(1))
        .push(Ins::Else)
        .push(Ins::LocalGet(1))
        .push(Ins::I32Const(224))
        .push(Ins::I32And)
        .push(Ins::I32Const(192))
        .push(Ins::I32Eq)
        .push(Ins::If(BlockTy::Result(ValTy::I32)))
        .push(Ins::I32Const(2))
        .push(Ins::Else)
        .push(Ins::LocalGet(1))
        .push(Ins::I32Const(240))
        .push(Ins::I32And)
        .push(Ins::I32Const(224))
        .push(Ins::I32Eq)
        .push(Ins::If(BlockTy::Result(ValTy::I32)))
        .push(Ins::I32Const(3))
        .push(Ins::Else)
        .push(Ins::I32Const(4))
        .push(Ins::End)
        .push(Ins::End)
        .push(Ins::End)
        .push(Ins::End)
}

/// `(ptr: i32) -> i32`: UTF-8 sequence length from the lead byte.
pub(crate) fn utf8_len_body() -> (body: Body)
    ensures
        body.code@ == utf8_len_body_code(),
        body.locals@ == seq![(1u32, ValTy::I32)],
        body.valid(),
        body.params == 1,
{
    proof {
        reveal(utf8_len_body_code);
    }
    let mut f = Builder::new(1);
    f.declare(1, ValTy::I32);
    f.push(Ins::LocalGet(0));
    f.push(Ins::I32Load8U(m(0)));
    f.push(Ins::LocalSet(1));
    f.push(Ins::LocalGet(1));
    f.push(Ins::I32Const(128));
    f.push(Ins::I32LtU);
    f.push(Ins::If(BlockTy::Result(ValTy::I32)));
    f.push(Ins::I32Const(1));
    f.push(Ins::Else);
    f.push(Ins::LocalGet(1));
    f.push(Ins::I32Const(224));
    f.push(Ins::I32And);
    f.push(Ins::I32Const(192));
    f.push(Ins::I32Eq);
    f.push(Ins::If(BlockTy::Result(ValTy::I32)));
    f.push(Ins::I32Const(2));
    f.push(Ins::Else);
    f.push(Ins::LocalGet(1));
    f.push(Ins::I32Const(240));
    f.push(Ins::I32And);
    f.push(Ins::I32Const(224));
    f.push(Ins::I32Eq);
    f.push(Ins::If(BlockTy::Result(ValTy::I32)));
    f.push(Ins::I32Const(3));
    f.push(Ins::Else);
    f.push(Ins::I32Const(4));
    f.push(Ins::End);
    f.push(Ins::End);
    f.push(Ins::End);
    f.push(Ins::End);
    assert(f.locals() =~= seq![(1u32, ValTy::I32)]);
    f.finish()
}

/// The code that `scalar_count_body` emits.
#[verifier::opaque]
pub open spec fn scalar_count_body_code(utf8_len: u32) -> Seq<Ins> {
    let c = Seq::<Ins>::empty();
    let c = push_len_code(c, 0);
    let c = c
        .push(Ins::LocalSet(1))
        .push(Ins::I32Const(0))
        .push(Ins::LocalSet(2))
        .push(Ins::Block(BlockTy::Empty))
        .push(Ins::Loop(BlockTy::Empty))
        .push(Ins::LocalGet(2))
        .push(Ins::LocalGet(1))
        .push(Ins::I32GeU)
        .push(Ins::BrIf(1));
    let c = push_at_code(c, 0, 2);
    c
        .push(Ins::Call(utf8_len))
        .push(Ins::LocalGet(2))
        .push(Ins::I32Add)
        .push(Ins::LocalSet(2))
        .push(Ins::LocalGet(3))
        .push(Ins::I32Const(1))
        .push(Ins::I32Add)
        .push(Ins::LocalSet(3))
        .push(Ins::Br(0))
        .push(Ins::End)
        .push(Ins::End)
        .push(Ins::LocalGet(3))
        .push(Ins::End)
}

/// `(h) -> i32`: number of Unicode scalars.
pub(crate) fn scalar_count_body(utf8_len: u32) -> (body: Body)
    ensures
        body.code@ == scalar_count_body_code(utf8_len),
        body.locals@ == seq![(3u32, ValTy::I32)],
        body.valid(),
        body.params == 1,
{
    proof {
        reveal(scalar_count_body_code);
    }
    // locals: 1 = len, 2 = off, 3 = count.
    let mut f = Builder::new(1);
    f.declare(3, ValTy::I32);
    push_len(&mut f, 0);
    f.push(Ins::LocalSet(1));
    f.push(Ins::I32Const(0));
    f.push(Ins::LocalSet(2));
    f.push(Ins::Block(BlockTy::Empty));
    f.push(Ins::Loop(BlockTy::Empty));
    f.push(Ins::LocalGet(2));
    f.push(Ins::LocalGet(1));
    f.push(Ins::I32GeU);
    f.push(Ins::BrIf(1));
    push_at(&mut f, 0, 2);
    f.push(Ins::Call(utf8_len));
    f.push(Ins::LocalGet(2));
    f.push(Ins::I32Add);
    f.push(Ins::LocalSet(2));
    f.push(Ins::LocalGet(3));
    f.push(Ins::I32Const(1));
    f.push(Ins::I32Add);
    f.push(Ins::LocalSet(3));
    f.push(Ins::Br(0));
    f.push(Ins::End);
    f.push(Ins::End);
    f.push(Ins::LocalGet(3));
    f.push(Ins::End);
    assert(f.locals() =~= seq![(3u32, ValTy::I32)]);
    f.finish()
}

/// The code that `is_ws_body` emits.
#[verifier::opaque]
pub open spec fn is_ws_body_code() -> Seq<Ins> {
    let c = Seq::<Ins>::empty();
    let c = c
        .push(Ins::LocalGet(0))
        .push(Ins::I32Load8U(m(0)))
        .push(Ins::LocalSet(1))
        .push(Ins::LocalGet(1))
        .push(Ins::I32Const(9))
        .push(Ins::I32Eq)
        .push(Ins::LocalGet(1))
        .push(Ins::I32Const(10))
        .push(Ins::I32Eq)
        .push(Ins::I32Or)
        .push(Ins::LocalGet(1))
        .push(Ins::I32Const(11))
        .push(Ins::I32Eq)
        .push(Ins::I32Or)
        .push(Ins::LocalGet(1))
        .push(Ins::I32Const(12))
        .push(Ins::I32Eq)
        .push(Ins::I32Or)
        .push(Ins::LocalGet(1))
        .push(Ins::I32Const(13))
        .push(Ins::I32Eq)
        .push(Ins::I32Or)
        .push(Ins::LocalGet(1))
        .push(Ins::I32Const(32))
        .push(Ins::I32Eq)
        .push(Ins::I32Or)
        .push(Ins::If(BlockTy::Result(ValTy::I32)))
        .push(Ins::I32Const(1))
        .push(Ins::Else)
        .push(Ins::LocalGet(1))
        .push(Ins::I32Const(194))
        .push(Ins::I32Eq)
        .push(Ins::If(BlockTy::Result(ValTy::I32)))
        .push(Ins::LocalGet(0))
        .push(Ins::I32Load8U(m(1)))
        .push(Ins::I32Const(133))
        .push(Ins::I32Eq)
        .push(Ins::LocalGet(0))
        .push(Ins::I32Load8U(m(1)))
        .push(Ins::I32Const(160))
        .push(Ins::I32Eq)
        .push(Ins::I32Or)
        .push(Ins::Else);
    let c = decode_cp_code(c);
    c
        .push(Ins::LocalGet(2))
        .push(Ins::I32Const(0x1680))
        .push(Ins::I32Eq)
        .push(Ins::LocalGet(2))
        .push(Ins::I32Const(0x2000))
        .push(Ins::I32GeU)
        .push(Ins::LocalGet(2))
        .push(Ins::I32Const(0x200A))
        .push(Ins::I32LeU)
        .push(Ins::I32And)
        .push(Ins::I32Or)
        .push(Ins::LocalGet(2))
        .push(Ins::I32Const(0x2028))
        .push(Ins::I32Eq)
        .push(Ins::I32Or)
        .push(Ins::LocalGet(2))
        .push(Ins::I32Const(0x2029))
        .push(Ins::I32Eq)
        .push(Ins::I32Or)
        .push(Ins::LocalGet(2))
        .push(Ins::I32Const(0x202F))
        .push(Ins::I32Eq)
        .push(Ins::I32Or)
        .push(Ins::LocalGet(2))
        .push(Ins::I32Const(0x205F))
        .push(Ins::I32Eq)
        .push(Ins::I32Or)
        .push(Ins::LocalGet(2))
        .push(Ins::I32Const(0x3000))
        .push(Ins::I32Eq)
        .push(Ins::I32Or)
        .push(Ins::End)
        .push(Ins::End)
        .push(Ins::End)
}

/// `(ptr: i32) -> i32`: whether the UTF-8 scalar at `ptr` is Unicode `White_Space`.
pub(crate) fn is_ws_body() -> (body: Body)
    ensures
        body.code@ == is_ws_body_code(),
        body.locals@ == seq![(2u32, ValTy::I32)],
        body.valid(),
        body.params == 1,
{
    proof {
        reveal(is_ws_body_code);
    }
    // locals: 1 = lead, 2 = cp.
    let mut f = Builder::new(1);
    f.declare(2, ValTy::I32);
    f.push(Ins::LocalGet(0));
    f.push(Ins::I32Load8U(m(0)));
    f.push(Ins::LocalSet(1));
    f.push(Ins::LocalGet(1));
    f.push(Ins::I32Const(9));
    f.push(Ins::I32Eq);
    f.push(Ins::LocalGet(1));
    f.push(Ins::I32Const(10));
    f.push(Ins::I32Eq);
    f.push(Ins::I32Or);
    f.push(Ins::LocalGet(1));
    f.push(Ins::I32Const(11));
    f.push(Ins::I32Eq);
    f.push(Ins::I32Or);
    f.push(Ins::LocalGet(1));
    f.push(Ins::I32Const(12));
    f.push(Ins::I32Eq);
    f.push(Ins::I32Or);
    f.push(Ins::LocalGet(1));
    f.push(Ins::I32Const(13));
    f.push(Ins::I32Eq);
    f.push(Ins::I32Or);
    f.push(Ins::LocalGet(1));
    f.push(Ins::I32Const(32));
    f.push(Ins::I32Eq);
    f.push(Ins::I32Or);
    f.push(Ins::If(BlockTy::Result(ValTy::I32)));
    f.push(Ins::I32Const(1));
    f.push(Ins::Else);
    f.push(Ins::LocalGet(1));
    f.push(Ins::I32Const(194));
    f.push(Ins::I32Eq);
    f.push(Ins::If(BlockTy::Result(ValTy::I32)));
    f.push(Ins::LocalGet(0));
    f.push(Ins::I32Load8U(m(1)));
    f.push(Ins::I32Const(133));
    f.push(Ins::I32Eq);
    f.push(Ins::LocalGet(0));
    f.push(Ins::I32Load8U(m(1)));
    f.push(Ins::I32Const(160));
    f.push(Ins::I32Eq);
    f.push(Ins::I32Or);
    f.push(Ins::Else);
    decode_cp(&mut f);
    f.push(Ins::LocalGet(2));
    f.push(Ins::I32Const(0x1680));
    f.push(Ins::I32Eq);
    f.push(Ins::LocalGet(2));
    f.push(Ins::I32Const(0x2000));
    f.push(Ins::I32GeU);
    f.push(Ins::LocalGet(2));
    f.push(Ins::I32Const(0x200A));
    f.push(Ins::I32LeU);
    f.push(Ins::I32And);
    f.push(Ins::I32Or);
    f.push(Ins::LocalGet(2));
    f.push(Ins::I32Const(0x2028));
    f.push(Ins::I32Eq);
    f.push(Ins::I32Or);
    f.push(Ins::LocalGet(2));
    f.push(Ins::I32Const(0x2029));
    f.push(Ins::I32Eq);
    f.push(Ins::I32Or);
    f.push(Ins::LocalGet(2));
    f.push(Ins::I32Const(0x202F));
    f.push(Ins::I32Eq);
    f.push(Ins::I32Or);
    f.push(Ins::LocalGet(2));
    f.push(Ins::I32Const(0x205F));
    f.push(Ins::I32Eq);
    f.push(Ins::I32Or);
    f.push(Ins::LocalGet(2));
    f.push(Ins::I32Const(0x3000));
    f.push(Ins::I32Eq);
    f.push(Ins::I32Or);
    f.push(Ins::End);
    f.push(Ins::End);
    f.push(Ins::End);
    assert(f.locals() =~= seq![(2u32, ValTy::I32)]);
    f.finish()
}

/// `c` followed by the code that `decode_cp` emits.
#[verifier::opaque]
pub open spec fn decode_cp_code(c: Seq<Ins>) -> Seq<Ins> {
    c
        .push(Ins::LocalGet(1))
        .push(Ins::I32Const(224))
        .push(Ins::I32And)
        .push(Ins::I32Const(192))
        .push(Ins::I32Eq)
        .push(Ins::If(BlockTy::Result(ValTy::I32)))
        .push(Ins::LocalGet(1))
        .push(Ins::I32Const(31))
        .push(Ins::I32And)
        .push(Ins::I32Const(6))
        .push(Ins::I32Shl)
        .push(Ins::LocalGet(0))
        .push(Ins::I32Load8U(m(1)))
        .push(Ins::I32Const(63))
        .push(Ins::I32And)
        .push(Ins::I32Or)
        .push(Ins::Else)
        .push(Ins::LocalGet(1))
        .push(Ins::I32Const(240))
        .push(Ins::I32And)
        .push(Ins::I32Const(224))
        .push(Ins::I32Eq)
        .push(Ins::If(BlockTy::Result(ValTy::I32)))
        .push(Ins::LocalGet(1))
        .push(Ins::I32Const(15))
        .push(Ins::I32And)
        .push(Ins::I32Const(12))
        .push(Ins::I32Shl)
        .push(Ins::LocalGet(0))
        .push(Ins::I32Load8U(m(1)))
        .push(Ins::I32Const(63))
        .push(Ins::I32And)
        .push(Ins::I32Const(6))
        .push(Ins::I32Shl)
        .push(Ins::I32Or)
        .push(Ins::LocalGet(0))
        .push(Ins::I32Load8U(m(2)))
        .push(Ins::I32Const(63))
        .push(Ins::I32And)
        .push(Ins::I32Or)
        .push(Ins::Else)
        .push(Ins::I32Const(0))
        .push(Ins::End)
        .push(Ins::End)
        .push(Ins::LocalSet(2))
}

fn decode_cp(f: &mut Builder)
    requires
        old(f).wf(),
        old(f).frames().len() >= 1,
        old(f).nlocals() > 2,
    ensures
        final(f).code() == decode_cp_code(old(f).code()),
        final(f).wf(),
        final(f).params() == old(f).params(),
        final(f).locals() == old(f).locals(),
        final(f).frames() == old(f).frames(),
{
    proof {
        reveal(decode_cp_code);
    }
    f.push(Ins::LocalGet(1));
    f.push(Ins::I32Const(224));
    f.push(Ins::I32And);
    f.push(Ins::I32Const(192));
    f.push(Ins::I32Eq);
    f.push(Ins::If(BlockTy::Result(ValTy::I32)));
    f.push(Ins::LocalGet(1));
    f.push(Ins::I32Const(31));
    f.push(Ins::I32And);
    f.push(Ins::I32Const(6));
    f.push(Ins::I32Shl);
    f.push(Ins::LocalGet(0));
    f.push(Ins::I32Load8U(m(1)));
    f.push(Ins::I32Const(63));
    f.push(Ins::I32And);
    f.push(Ins::I32Or);
    f.push(Ins::Else);
    f.push(Ins::LocalGet(1));
    f.push(Ins::I32Const(240));
    f.push(Ins::I32And);
    f.push(Ins::I32Const(224));
    f.push(Ins::I32Eq);
    f.push(Ins::If(BlockTy::Result(ValTy::I32)));
    f.push(Ins::LocalGet(1));
    f.push(Ins::I32Const(15));
    f.push(Ins::I32And);
    f.push(Ins::I32Const(12));
    f.push(Ins::I32Shl);
    f.push(Ins::LocalGet(0));
    f.push(Ins::I32Load8U(m(1)));
    f.push(Ins::I32Const(63));
    f.push(Ins::I32And);
    f.push(Ins::I32Const(6));
    f.push(Ins::I32Shl);
    f.push(Ins::I32Or);
    f.push(Ins::LocalGet(0));
    f.push(Ins::I32Load8U(m(2)));
    f.push(Ins::I32Const(63));
    f.push(Ins::I32And);
    f.push(Ins::I32Or);
    f.push(Ins::Else);
    f.push(Ins::I32Const(0));
    f.push(Ins::End);
    f.push(Ins::End);
    f.push(Ins::LocalSet(2));
}

/// `c` followed by the code that `empty_str` emits.
#[verifier::opaque]
pub open spec fn empty_str_code(c: Seq<Ins>, rc_new: u32, scratch: u32) -> Seq<Ins> {
    c
        .push(Ins::I32Const(4))
        .push(Ins::Call(rc_new))
        .push(Ins::LocalTee(scratch))
        .push(Ins::I32Const(0))
        .push(Ins::I32Store(m(0)))
        .push(Ins::LocalGet(scratch))
        .push(Ins::Return)
}

fn empty_str(f: &mut Builder, rc_new: u32, scratch: u32)
    requires
        old(f).wf(),
        old(f).frames().len() >= 1,
        scratch < old(f).nlocals(),
    ensures
        final(f).code() == empty_str_code(old(f).code(), rc_new, scratch),
        final(f).wf(),
        final(f).params() == old(f).params(),
        final(f).locals() == old(f).locals(),
        final(f).frames() == old(f).frames(),
{
    proof {
        reveal(empty_str_code);
    }
    f.push(Ins::I32Const(4));
    f.push(Ins::Call(rc_new));
    f.push(Ins::LocalTee(scratch));
    f.push(Ins::I32Const(0));
    f.push(Ins::I32Store(m(0)));
    f.push(Ins::LocalGet(scratch));
    f.push(Ins::Return);
}

/// `c` followed by the code that `push_segment` emits.
#[verifier::opaque]
pub open spec fn push_segment_code(c: Seq<Ins>, copy: u32, list_push: u32, out_local: u32, scratch: u32, start: u32, end: u32) -> Seq<Ins> {
    let c = c
        .push(Ins::LocalGet(0))
        .push(Ins::LocalGet(start))
        .push(Ins::LocalGet(end))
        .push(Ins::LocalGet(start))
        .push(Ins::I32Sub)
        .push(Ins::Call(copy));
    list_into_code(c, list_push, out_local, scratch)
}

/// Copies `[start, end)` of `local0` and pushes the resulting string into the
/// list at `out_local` (transferring ownership).
fn push_segment(f: &mut Builder, copy: u32, list_push: u32, out_local: u32, scratch: u32, start: u32, end: u32)
    requires
        old(f).wf(),
        old(f).frames().len() >= 1,
        old(f).nlocals() > 0,
        end < old(f).nlocals(),
        start < old(f).nlocals(),
        out_local < old(f).nlocals(),
        scratch < old(f).nlocals(),
    ensures
        final(f).code() == push_segment_code(old(f).code(), copy, list_push, out_local, scratch, start, end),
        final(f).wf(),
        final(f).params() == old(f).params(),
        final(f).locals() == old(f).locals(),
        final(f).frames() == old(f).frames(),
{
    proof {
        reveal(push_segment_code);
    }
    f.push(Ins::LocalGet(0));
    f.push(Ins::LocalGet(start));
    f.push(Ins::LocalGet(end));
    f.push(Ins::LocalGet(start));
    f.push(Ins::I32Sub);
    f.push(Ins::Call(copy));
    list_into(f, list_push, out_local, scratch);
}

/// `c` followed by the code that `push_line` emits.
#[verifier::opaque]
pub open spec fn push_line_code(c: Seq<Ins>, copy: u32, list_push: u32, out_local: u32, scratch: u32, start: u32, end: u32) -> Seq<Ins> {
    let c = c
        .push(Ins::LocalGet(end))
        .push(Ins::LocalGet(start))
        .push(Ins::I32GtU)
        .push(Ins::If(BlockTy::Empty))
        .push(Ins::LocalGet(0))
        .push(Ins::I32Const(4))
        .push(Ins::I32Add)
        .push(Ins::LocalGet(end))
        .push(Ins::I32Add)
        .push(Ins::I32Const(1))
        .push(Ins::I32Sub)
        .push(Ins::I32Load8U(m(0)))
        .push(Ins::I32Const(13))
        .push(Ins::I32Eq)
        .push(Ins::If(BlockTy::Empty))
        .push(Ins::LocalGet(end))
        .push(Ins::I32Const(1))
        .push(Ins::I32Sub)
        .push(Ins::LocalSet(end))
        .push(Ins::End)
        .push(Ins::End);
    push_segment_code(c, copy, list_push, out_local, scratch, start, end)
}

/// Pushes a `\n`-delimited line `[start, end)` (trimming a trailing `\r`).
fn push_line(f: &mut Builder, copy: u32, list_push: u32, out_local: u32, scratch: u32, start: u32, end: u32)
    requires
        old(f).wf(),
        old(f).frames().len() >= 1,
        old(f).nlocals() > 0,
        end < old(f).nlocals(),
        start < old(f).nlocals(),
        out_local < old(f).nlocals(),
        scratch < old(f).nlocals(),
    ensures
        final(f).code() == push_line_code(old(f).code(), copy, list_push, out_local, scratch, start, end),
        final(f).wf(),
        final(f).params() == old(f).params(),
        final(f).locals() == old(f).locals(),
        final(f).frames() == old(f).frames(),
{
    proof {
        reveal(push_line_code);
    }
    f.push(Ins::LocalGet(end));
    f.push(Ins::LocalGet(start));
    f.push(Ins::I32GtU);
    f.push(Ins::If(BlockTy::Empty));
    f.push(Ins::LocalGet(0));
    f.push(Ins::I32Const(4));
    f.push(Ins::I32Add);
    f.push(Ins::LocalGet(end));
    f.push(Ins::I32Add);
    f.push(Ins::I32Const(1));
    f.push(Ins::I32Sub);
    f.push(Ins::I32Load8U(m(0)));
    f.push(Ins::I32Const(13));
    f.push(Ins::I32Eq);
    f.push(Ins::If(BlockTy::Empty));
    f.push(Ins::LocalGet(end));
    f.push(Ins::I32Const(1));
    f.push(Ins::I32Sub);
    f.push(Ins::LocalSet(end));
    f.push(Ins::End);
    f.push(Ins::End);
    push_segment(f, copy, list_push, out_local, scratch, start, end);
}

/// `c` followed by the code that `list_into` emits.
#[verifier::opaque]
pub open spec fn list_into_code(c: Seq<Ins>, list_push: u32, out_local: u32, scratch: u32) -> Seq<Ins> {
    c
        .push(Ins::LocalSet(scratch))
        .push(Ins::LocalGet(out_local))
        .push(Ins::LocalGet(scratch))
        .push(Ins::I64ExtendI32U)
        .push(Ins::Call(list_push))
}

/// Pushes the i32 handle on the stack into the list at `out_local`.
fn list_into(f: &mut Builder, list_push: u32, out_local: u32, scratch: u32)
    requires
        old(f).wf(),
        old(f).frames().len() >= 1,
        out_local < old(f).nlocals(),
        scratch < old(f).nlocals(),
    ensures
        final(f).code() == list_into_code(old(f).code(), list_push, out_local, scratch),
        final(f).wf(),
        final(f).params() == old(f).params(),
        final(f).locals() == old(f).locals(),
        final(f).frames() == old(f).frames(),
{
    proof {
        reveal(list_into_code);
    }
    f.push(Ins::LocalSet(scratch));
    f.push(Ins::LocalGet(out_local));
    f.push(Ins::LocalGet(scratch));
    f.push(Ins::I64ExtendI32U);
    f.push(Ins::Call(list_push));
}

/// `c` followed by the code that `push_at` emits.
#[verifier::opaque]
pub open spec fn push_at_code(c: Seq<Ins>, base: u32, offset: u32) -> Seq<Ins> {
    c
        .push(Ins::LocalGet(base))
        .push(Ins::I32Const(4))
        .push(Ins::I32Add)
        .push(Ins::LocalGet(offset))
        .push(Ins::I32Add)
}

fn push_at(f: &mut Builder, base: u32, offset: u32)
    requires
        old(f).wf(),
        old(f).frames().len() >= 1,
        base < old(f).nlocals(),
        offset < old(f).nlocals(),
    ensures
        final(f).code() == push_at_code(old(f).code(), base, offset),
        final(f).wf(),
        final(f).params() == old(f).params(),
        final(f).locals() == old(f).locals(),
        final(f).frames() == old(f).frames(),
{
    proof {
        reveal(push_at_code);
    }
    f.push(Ins::LocalGet(base));
    f.push(Ins::I32Const(4));
    f.push(Ins::I32Add);
    f.push(Ins::LocalGet(offset));
    f.push(Ins::I32Add);
}

/// `c` followed by the code that `push_len` emits.
#[verifier::opaque]
pub open spec fn push_len_code(c: Seq<Ins>, local: u32) -> Seq<Ins> {
    c
        .push(Ins::LocalGet(local))
        .push(Ins::I32Load(m(0)))
}

fn push_len(f: &mut Builder, local: u32)
    requires
        old(f).wf(),
        old(f).frames().len() >= 1,
        local < old(f).nlocals(),
    ensures
        final(f).code() == push_len_code(old(f).code(), local),
        final(f).wf(),
        final(f).params() == old(f).params(),
        final(f).locals() == old(f).locals(),
        final(f).frames() == old(f).frames(),
{
    proof {
        reveal(push_len_code);
    }
    f.push(Ins::LocalGet(local));
    f.push(Ins::I32Load(m(0)));
}

/// `c` followed by the code that `push_byte` emits.
#[verifier::opaque]
pub open spec fn push_byte_code(c: Seq<Ins>, base: u32, offset: u32) -> Seq<Ins> {
    let c = push_at_code(c, base, offset);
    c
        .push(Ins::I32Load8U(m(0)))
}

fn push_byte(f: &mut Builder, base: u32, offset: u32)
    requires
        old(f).wf(),
        old(f).frames().len() >= 1,
        base < old(f).nlocals(),
        offset < old(f).nlocals(),
    ensures
        final(f).code() == push_byte_code(old(f).code(), base, offset),
        final(f).wf(),
        final(f).params() == old(f).params(),
        final(f).locals() == old(f).locals(),
        final(f).frames() == old(f).frames(),
{
    proof {
        reveal(push_byte_code);
    }
    push_at(f, base, offset);
    f.push(Ins::I32Load8U(m(0)));
}


} // verus!
