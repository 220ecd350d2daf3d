//! Core runtime helpers: allocation, printing, strings, lists, bytes, maps.
use vstd::prelude::*;
use crate::wasm::builder::{
    append_bodies, append_signatures, body_views, bodies_fit, signature_views, Body, Builder,
};
use crate::wasm::model::{m, BlockTy, Ins, ValTy};
use crate::wasm::rt_index as rt;
use crate::wasm::{bytes_ext, fmt, listx, mapx, rc, str_ops, strings};

verus! {

/// Signatures of the core helpers (allocation through maps), in offset order.
pub open spec fn core_signatures() -> Seq<(Seq<ValTy>, Seq<ValTy>)> {
    seq![
        (seq![ValTy::I32], seq![ValTy::I32]),
        (seq![ValTy::I32], Seq::<ValTy>::empty()),
        (seq![ValTy::I32], Seq::<ValTy>::empty()),
        (seq![ValTy::I64], seq![ValTy::I32]),
        (seq![ValTy::I32, ValTy::I32], seq![ValTy::I32]),
        (seq![ValTy::I32, ValTy::I32], seq![ValTy::I32]),
        (seq![ValTy::I32], seq![ValTy::I32]),
        (seq![ValTy::I32, ValTy::I64], Seq::<ValTy>::empty()),
        (seq![ValTy::I32, ValTy::I32], seq![ValTy::I64]),
        (seq![ValTy::I32, ValTy::I32, ValTy::I64], Seq::<ValTy>::empty()),
        (seq![ValTy::I32], seq![ValTy::I64]),
        (seq![ValTy::I32], Seq::<ValTy>::empty()),
        (seq![ValTy::I32], seq![ValTy::I32]),
        (seq![ValTy::I32], seq![ValTy::I32]),
        (seq![ValTy::I32, ValTy::I32], seq![ValTy::I32]),
        (seq![ValTy::I32, ValTy::I32, ValTy::I32], Seq::<ValTy>::empty()),
        (seq![ValTy::I32], seq![ValTy::I32]),
        (seq![ValTy::I32], seq![ValTy::I32]),
        (Seq::<ValTy>::empty(), seq![ValTy::I32]),
        (seq![ValTy::I32], seq![ValTy::I32]),
        (seq![ValTy::I32, ValTy::I64, ValTy::I64], Seq::<ValTy>::empty()),
        (seq![ValTy::I32, ValTy::I64], seq![ValTy::I64]),
        (seq![ValTy::I32, ValTy::I64], seq![ValTy::I32]),
        (seq![ValTy::I32, ValTy::I64], seq![ValTy::I64]),
        (seq![ValTy::I32], Seq::<ValTy>::empty()),
        (seq![ValTy::I32, ValTy::I64], seq![ValTy::I32]),
    ]
}

/// Signatures of the core helpers, in offset order.
pub fn core_signatures_vec() -> (sigs: Vec<(Vec<ValTy>, Vec<ValTy>)>)
    ensures
        signature_views(sigs@) == core_signatures(),
{
    let sigs = vec![
        (vec![ValTy::I32], vec![ValTy::I32]),
        (vec![ValTy::I32], vec![]),
        (vec![ValTy::I32], vec![]),
        (vec![ValTy::I64], vec![ValTy::I32]),
        (vec![ValTy::I32, ValTy::I32], vec![ValTy::I32]),
        (vec![ValTy::I32, ValTy::I32], vec![ValTy::I32]),
        (vec![ValTy::I32], vec![ValTy::I32]),
        (vec![ValTy::I32, ValTy::I64], vec![]),
        (vec![ValTy::I32, ValTy::I32], vec![ValTy::I64]),
        (vec![ValTy::I32, ValTy::I32, ValTy::I64], vec![]),
        (vec![ValTy::I32], vec![ValTy::I64]),
        (vec![ValTy::I32], vec![]),
        (vec![ValTy::I32], vec![ValTy::I32]),
        (vec![ValTy::I32], vec![ValTy::I32]),
        (vec![ValTy::I32, ValTy::I32], vec![ValTy::I32]),
        (vec![ValTy::I32, ValTy::I32, ValTy::I32], vec![]),
        (vec![ValTy::I32], vec![ValTy::I32]),
        (vec![ValTy::I32], vec![ValTy::I32]),
        (vec![], vec![ValTy::I32]),
        (vec![ValTy::I32], vec![ValTy::I32]),
        (vec![ValTy::I32, ValTy::I64, ValTy::I64], vec![]),
        (vec![ValTy::I32, ValTy::I64], vec![ValTy::I64]),
        (vec![ValTy::I32, ValTy::I64], vec![ValTy::I32]),
        (vec![ValTy::I32, ValTy::I64], vec![ValTy::I64]),
        (vec![ValTy::I32], vec![]),
        (vec![ValTy::I32, ValTy::I64], vec![ValTy::I32]),
    ];
    assert(signature_views(sigs@) =~~= core_signatures());
    sigs
}

/// Signatures of every runtime helper, in offset order.
pub open spec fn runtime_signatures() -> Seq<(Seq<ValTy>, Seq<ValTy>)> {
    core_signatures() + rc::rc_signatures() + strings::string_signatures()
        + bytes_ext::bytes_signatures() + listx::list_signatures()
        + strings::string_extra_signatures() + str_ops::str_op_signatures()
        + bytes_ext::bytes_extra_signatures() + seq![fmt::float_signature()]
        + mapx::map_signatures()
}

/// The runtime has exactly one helper (signature and body) per runtime
/// index: its table is as long as the index space `[0, COUNT)`.
pub proof fn lemma_runtime_table_complete()
    ensures
        runtime_signatures().len() == rt::COUNT,
{
}

/// Signatures of every runtime helper, in the same order as [`bodies`].
pub fn signatures() -> (sigs: Vec<(Vec<ValTy>, Vec<ValTy>)>)
    ensures
        signature_views(sigs@) == runtime_signatures(),
        sigs@.len() == rt::COUNT,
{
    proof {
        lemma_runtime_table_complete();
    }
    let mut sigs = core_signatures_vec();
    append_signatures(&mut sigs, rc::signatures());
    append_signatures(&mut sigs, strings::signatures());
    append_signatures(&mut sigs, bytes_ext::signatures());
    append_signatures(&mut sigs, listx::signatures());
    append_signatures(&mut sigs, strings::extra_signatures());
    append_signatures(&mut sigs, str_ops::signatures());
    append_signatures(&mut sigs, bytes_ext::extra_signatures());
    let float = fmt::signature();
    append_signatures(&mut sigs, vec![float]);
    append_signatures(&mut sigs, mapx::signatures());
    assert(signature_views(sigs@) =~= runtime_signatures());
    sigs
}

/// The locals and code of each core runtime helper, wired to the runtime at `base`, in offset order.
pub open spec fn core_body_views(base: u32) -> Seq<(Seq<(u32, ValTy)>, Seq<Ins>)> {
    let alloc = rt::wired(base, rt::ALLOC);
    let rc_new = rt::wired(base, rt::RC_NEW);
    let elem_release = rt::wired(base, rt::ELEM_RELEASE);
    seq![
        (seq![(2u32, ValTy::I32)], alloc_body_code()),
        (Seq::<(u32, ValTy)>::empty(), print_body_code((0))),
        (Seq::<(u32, ValTy)>::empty(), out_body_code((0), rt::wired(base, rt::PRINT))),
        (seq![(1u32, ValTy::I64), (5u32, ValTy::I32)], format_body_code((rc_new))),
        (seq![(4u32, ValTy::I32)], concat_body_code((rc_new))),
        (seq![(2u32, ValTy::I32)], list_new_body_code((rc_new), (alloc))),
        (Seq::<(u32, ValTy)>::empty(), list_len_body_code()),
        (seq![(4u32, ValTy::I32)], list_push_body_code((alloc))),
        (Seq::<(u32, ValTy)>::empty(), list_at_body_code()),
        (seq![(2u32, ValTy::I32)], list_set_body_code((elem_release))),
        (seq![(1u32, ValTy::I32)], list_pop_body_code()),
        (seq![(4u32, ValTy::I32)], list_clear_body_code((elem_release))),
        (seq![(1u32, ValTy::I32)], bytes_new_body_code((rc_new), (alloc))),
        (Seq::<(u32, ValTy)>::empty(), bytes_len_body_code()),
        (Seq::<(u32, ValTy)>::empty(), bytes_at_body_code()),
        (Seq::<(u32, ValTy)>::empty(), bytes_set_body_code()),
        (seq![(2u32, ValTy::I32)], bytes_from_str_body_code((rc_new), (alloc))),
        (seq![(2u32, ValTy::I32)], bytes_to_str_body_code((rc_new))),
        (seq![(2u32, ValTy::I32)], map_new_body_code((rc_new))),
        (Seq::<(u32, ValTy)>::empty(), map_len_body_code()),
        (seq![(4u32, ValTy::I32)], map_set_body_code((alloc), rt::wired(base, rt::MAP_FIND))),
        (seq![(3u32, ValTy::I32)], map_get_body_code(rt::wired(base, rt::MAP_FIND))),
        (seq![(3u32, ValTy::I32)], map_contains_body_code(rt::wired(base, rt::MAP_FIND))),
        (seq![(6u32, ValTy::I32), (1u32, ValTy::I64)], map_remove_body_code(rt::wired(base, rt::MAP_FIND))),
        (Seq::<(u32, ValTy)>::empty(), map_clear_body_code()),
        (seq![(2u32, ValTy::I32)], map_find_body_code()),
    ]
}

fn core_bodies(base: u32) -> (bodies: Vec<Body>)
    requires
        base + rt::COUNT <= u32::MAX,
    ensures
        body_views(bodies@) == core_body_views(base),
        bodies_fit(bodies@, core_signatures()),
{
    let alloc = base + rt::ALLOC;
    let rc_new = base + rt::RC_NEW;
    let elem_release = base + rt::ELEM_RELEASE;
    let bodies = vec![
        alloc_body(),
        print_body(0),
        out_body(0, base + rt::PRINT),
        format_body(rc_new),
        concat_body(rc_new),
        list_new_body(rc_new, alloc),
        list_len_body(),
        list_push_body(alloc),
        list_at_body(),
        list_set_body(elem_release),
        list_pop_body(),
        list_clear_body(elem_release),
        bytes_new_body(rc_new, alloc),
        bytes_len_body(),
        bytes_at_body(),
        bytes_set_body(),
        bytes_from_str_body(rc_new, alloc),
        bytes_to_str_body(rc_new),
        map_new_body(rc_new),
        map_len_body(),
        map_set_body(alloc, base + rt::MAP_FIND),
        map_get_body(base + rt::MAP_FIND),
        map_contains_body(base + rt::MAP_FIND),
        map_remove_body(base + rt::MAP_FIND),
        map_clear_body(),
        map_find_body(),
    ];
    assert(bodies_fit(bodies@, core_signatures()));
    assert(body_views(bodies@) =~= core_body_views(base));
    bodies
}

/// The locals and code of every runtime helper, wired to the runtime at
/// `base`, in offset order: the core helpers, reference counting, strings,
/// bytes, lists, string parsing, string operations, further bytes helpers,
/// the float formatter and the map helpers.
pub open spec fn runtime_body_views(base: u32) -> Seq<(Seq<(u32, ValTy)>, Seq<Ins>)> {
    core_body_views(base) + rc::rc_body_views(base) + strings::string_body_views(base) + bytes_ext::bytes_body_views(base)
        + listx::list_body_views(base) + strings::string_extra_body_views(base) + str_ops::str_op_body_views(base)
        + bytes_ext::bytes_extra_body_views(base) + seq![(
        seq![(1u32, ValTy::F64), (1u32, ValTy::I32), (1u32, ValTy::I64), (1u32, ValTy::F64), (1u32, ValTy::I64), (9u32, ValTy::I32), (3u32, ValTy::F64), (3u32, ValTy::I32)],
        fmt::float_body_code(rt::wired(base, rt::RC_NEW), rt::wired(base, rt::FORMAT)),
    )] + mapx::map_body_views(base)
}

/// Runtime helper bodies in offset order, for runtime bodies starting at
/// function index `base`.
pub fn bodies(base: u32) -> (bodies: Vec<Body>)
    requires
        base + rt::COUNT <= u32::MAX,
    ensures
        bodies_fit(bodies@, runtime_signatures()),
        bodies@.len() == rt::COUNT,
        body_views(bodies@) == runtime_body_views(base),
{
    proof {
        lemma_runtime_table_complete();
    }
    let mut funcs = core_bodies(base);
    let ghost v = core_body_views(base);
    append_bodies(&mut funcs, rc::bodies(base), Ghost(core_signatures()), Ghost(rc::rc_signatures()));
    proof { v = v + rc::rc_body_views(base); assert(body_views(funcs@) =~= v); }
    let ghost s1 = core_signatures() + rc::rc_signatures();
    append_bodies(&mut funcs, strings::bodies(base), Ghost(s1), Ghost(strings::string_signatures()));
    proof { v = v + strings::string_body_views(base); assert(body_views(funcs@) =~= v); }
    let ghost s2 = s1 + strings::string_signatures();
    append_bodies(&mut funcs, bytes_ext::bodies(base), Ghost(s2), Ghost(bytes_ext::bytes_signatures()));
    proof { v = v + bytes_ext::bytes_body_views(base); assert(body_views(funcs@) =~= v); }
    let ghost s3 = s2 + bytes_ext::bytes_signatures();
    append_bodies(&mut funcs, listx::bodies(base), Ghost(s3), Ghost(listx::list_signatures()));
    proof { v = v + listx::list_body_views(base); assert(body_views(funcs@) =~= v); }
    let ghost s4 = s3 + listx::list_signatures();
    append_bodies(&mut funcs, strings::extra_bodies(base), Ghost(s4), Ghost(strings::string_extra_signatures()));
    proof { v = v + strings::string_extra_body_views(base); assert(body_views(funcs@) =~= v); }
    let ghost s5 = s4 + strings::string_extra_signatures();
    append_bodies(&mut funcs, str_ops::bodies(base), Ghost(s5), Ghost(str_ops::str_op_signatures()));
    proof { v = v + str_ops::str_op_body_views(base); assert(body_views(funcs@) =~= v); }
    let ghost s6 = s5 + str_ops::str_op_signatures();
    append_bodies(&mut funcs, bytes_ext::extra_bodies(base), Ghost(s6), Ghost(bytes_ext::bytes_extra_signatures()));
    proof { v = v + bytes_ext::bytes_extra_body_views(base); assert(body_views(funcs@) =~= v); }
    let ghost s7 = s6 + bytes_ext::bytes_extra_signatures();
    let float = fmt::body(base);
    let ghost one = seq![fmt::float_signature()];
    let floats = vec![float];
    assert(bodies_fit(floats@, one));
    append_bodies(&mut funcs, floats, Ghost(s7), Ghost(one));
    proof { v = v + seq![(float.locals@, float.code@)]; assert(body_views(funcs@) =~= v); }
    let ghost s8 = s7 + one;
    append_bodies(&mut funcs, mapx::bodies(base), Ghost(s8), Ghost(mapx::map_signatures()));
    proof { v = v + mapx::map_body_views(base); assert(body_views(funcs@) =~= v); assert(v =~= runtime_body_views(base)); }
    funcs
}

/// The code that `alloc_body` emits.
#[verifier::opaque]
pub open spec fn alloc_body_code() -> Seq<Ins> {
    let c = Seq::<Ins>::empty();
    c
        .push(Ins::GlobalGet(0))
        .push(Ins::LocalSet(1))
        .push(Ins::LocalGet(1))
        .push(Ins::LocalGet(0))
        .push(Ins::I32Add)
        .push(Ins::LocalSet(2))
        .push(Ins::LocalGet(2))
        .push(Ins::MemorySize(0))
        .push(Ins::I32Const(65536))
        .push(Ins::I32Mul)
        .push(Ins::I32GtU)
        .push(Ins::If(BlockTy::Empty))
        .push(Ins::LocalGet(2))
        .push(Ins::MemorySize(0))
        .push(Ins::I32Const(65536))
        .push(Ins::I32Mul)
        .push(Ins::I32Sub)
        .push(Ins::I32Const(65535))
        .push(Ins::I32Add)
        .push(Ins::I32Const(65536))
        .push(Ins::I32DivU)
        .push(Ins::MemoryGrow(0))
        .push(Ins::Drop)
        .push(Ins::End)
        .push(Ins::LocalGet(2))
        .push(Ins::GlobalSet(0))
        .push(Ins::LocalGet(1))
        .push(Ins::End)
}

pub(crate) fn alloc_body() -> (body: Body)
    ensures
        body.code@ == alloc_body_code(),
        body.locals@ == seq![(2u32, ValTy::I32)],
        body.valid(),
        body.params == 1,
{
    proof {
        reveal(alloc_body_code);
    }
    let mut f = Builder::new(1);
    f.declare(2, ValTy::I32);
    f.push(Ins::GlobalGet(0));
    f.push(Ins::LocalSet(1));
    f.push(Ins::LocalGet(1));
    f.push(Ins::LocalGet(0));
    f.push(Ins::I32Add);
    f.push(Ins::LocalSet(2));
    f.push(Ins::LocalGet(2));
    f.push(Ins::MemorySize(0));
    f.push(Ins::I32Const(65536));
    f.push(Ins::I32Mul);
    f.push(Ins::I32GtU);
    f.push(Ins::If(BlockTy::Empty));
    f.push(Ins::LocalGet(2));
    f.push(Ins::MemorySize(0));
    f.push(Ins::I32Const(65536));
    f.push(Ins::I32Mul);
    f.push(Ins::I32Sub);
    f.push(Ins::I32Const(65535));
    f.push(Ins::I32Add);
    f.push(Ins::I32Const(65536));
    f.push(Ins::I32DivU);
    f.push(Ins::MemoryGrow(0));
    f.push(Ins::Drop);
    f.push(Ins::End);
    f.push(Ins::LocalGet(2));
    f.push(Ins::GlobalSet(0));
    f.push(Ins::LocalGet(1));
    f.push(Ins::End);
    assert(f.locals() =~= seq![(2u32, ValTy::I32)]);
    f.finish()
}

/// The code that `print_body` emits.
#[verifier::opaque]
pub open spec fn print_body_code(fd: u32) -> Seq<Ins> {
    let c = Seq::<Ins>::empty();
    c
        .push(Ins::I32Const(0))
        .push(Ins::LocalGet(0))
        .push(Ins::I32Const(4))
        .push(Ins::I32Add)
        .push(Ins::I32Store(m(0)))
        .push(Ins::I32Const(4))
        .push(Ins::LocalGet(0))
        .push(Ins::I32Load(m(0)))
        .push(Ins::I32Store(m(0)))
        .push(Ins::I32Const(1))
        .push(Ins::I32Const(0))
        .push(Ins::I32Const(1))
        .push(Ins::I32Const(8))
        .push(Ins::Call(fd))
        .push(Ins::Drop)
        .push(Ins::End)
}

pub(crate) fn print_body(fd: u32) -> (body: Body)
    ensures
        body.code@ == print_body_code(fd),
        body.locals@ == Seq::<(u32, ValTy)>::empty(),
        body.valid(),
        body.params == 1,
{
    proof {
        reveal(print_body_code);
    }
    let mut f = Builder::new(1);
    // iovec.buf = handle + 4
    f.push(Ins::I32Const(0));
    f.push(Ins::LocalGet(0));
    f.push(Ins::I32Const(4));
    f.push(Ins::I32Add);
    f.push(Ins::I32Store(m(0)));
    f.push(Ins::I32Const(4));
    f.push(Ins::LocalGet(0));
    f.push(Ins::I32Load(m(0)));
    f.push(Ins::I32Store(m(0)));
    f.push(Ins::I32Const(1));
    f.push(Ins::I32Const(0));
    f.push(Ins::I32Const(1));
    f.push(Ins::I32Const(8));
    f.push(Ins::Call(fd));
    f.push(Ins::Drop);
    f.push(Ins::End);
    f.finish()
}

/// The code that `out_body` emits.
#[verifier::opaque]
pub open spec fn out_body_code(fd: u32, print: u32) -> Seq<Ins> {
    let c = Seq::<Ins>::empty();
    c
        .push(Ins::LocalGet(0))
        .push(Ins::Call(print))
        .push(Ins::I32Const(0))
        .push(Ins::I32Const(12))
        .push(Ins::I32Store(m(0)))
        .push(Ins::I32Const(4))
        .push(Ins::I32Const(1))
        .push(Ins::I32Store(m(0)))
        .push(Ins::I32Const(1))
        .push(Ins::I32Const(0))
        .push(Ins::I32Const(1))
        .push(Ins::I32Const(8))
        .push(Ins::Call(fd))
        .push(Ins::Drop)
        .push(Ins::End)
}

pub(crate) fn out_body(fd: u32, print: u32) -> (body: Body)
    ensures
        body.code@ == out_body_code(fd, print),
        body.locals@ == Seq::<(u32, ValTy)>::empty(),
        body.valid(),
        body.params == 1,
{
    proof {
        reveal(out_body_code);
    }
    let mut f = Builder::new(1);
    f.push(Ins::LocalGet(0));
    f.push(Ins::Call(print));
    f.push(Ins::I32Const(0));
    f.push(Ins::I32Const(12));
    f.push(Ins::I32Store(m(0)));
    f.push(Ins::I32Const(4));
    f.push(Ins::I32Const(1));
    f.push(Ins::I32Store(m(0)));
    f.push(Ins::I32Const(1));
    f.push(Ins::I32Const(0));
    f.push(Ins::I32Const(1));
    f.push(Ins::I32Const(8));
    f.push(Ins::Call(fd));
    f.push(Ins::Drop);
    f.push(Ins::End);
    f.finish()
}

/// The code that `format_body` emits.
#[verifier::opaque]
pub open spec fn format_body_code(rc_new: u32) -> Seq<Ins> {
    let c = Seq::<Ins>::empty();
    c
        .push(Ins::LocalGet(0))
        .push(Ins::I64Const(0))
        .push(Ins::I64LtS)
        .push(Ins::LocalSet(3))
        .push(Ins::LocalGet(3))
        .push(Ins::If(BlockTy::Result(ValTy::I64)))
        .push(Ins::I64Const(0))
        .push(Ins::LocalGet(0))
        .push(Ins::I64Sub)
        .push(Ins::Else)
        .push(Ins::LocalGet(0))
        .push(Ins::End)
        .push(Ins::LocalSet(1))
        .push(Ins::I32Const(128))
        .push(Ins::LocalSet(2))
        .push(Ins::LocalGet(1))
        .push(Ins::I64Eqz)
        .push(Ins::If(BlockTy::Empty))
        .push(Ins::LocalGet(2))
        .push(Ins::I32Const(1))
        .push(Ins::I32Sub)
        .push(Ins::LocalTee(2))
        .push(Ins::I32Const(48))
        .push(Ins::I32Store8(m(0)))
        .push(Ins::End)
        .push(Ins::Block(BlockTy::Empty))
        .push(Ins::Loop(BlockTy::Empty))
        .push(Ins::LocalGet(1))
        .push(Ins::I64Eqz)
        .push(Ins::BrIf(1))
        .push(Ins::LocalGet(1))
        .push(Ins::I64Const(10))
        .push(Ins::I64RemU)
        .push(Ins::I32WrapI64)
        .push(Ins::LocalSet(4))
        .push(Ins::LocalGet(1))
        .push(Ins::I64Const(10))
        .push(Ins::I64DivU)
        .push(Ins::LocalSet(1))
        .push(Ins::LocalGet(2))
        .push(Ins::I32Const(1))
        .push(Ins::I32Sub)
        .push(Ins::LocalTee(2))
        .push(Ins::LocalGet(4))
        .push(Ins::I32Const(48))
        .push(Ins::I32Add)
        .push(Ins::I32Store8(m(0)))
        .push(Ins::Br(0))
        .push(Ins::End)
        .push(Ins::End)
        .push(Ins::LocalGet(3))
        .push(Ins::If(BlockTy::Empty))
        .push(Ins::LocalGet(2))
        .push(Ins::I32Const(1))
        .push(Ins::I32Sub)
        .push(Ins::LocalTee(2))
        .push(Ins::I32Const(45))
        .push(Ins::I32Store8(m(0)))
        .push(Ins::End)
        .push(Ins::I32Const(128))
        .push(Ins::LocalGet(2))
        .push(Ins::I32Sub)
        .push(Ins::LocalSet(6))
        .push(Ins::LocalGet(6))
        .push(Ins::I32Const(4))
        .push(Ins::I32Add)
        .push(Ins::Call(rc_new))
        .push(Ins::LocalSet(5))
        .push(Ins::LocalGet(5))
        .push(Ins::LocalGet(6))
        .push(Ins::I32Store(m(0)))
        .push(Ins::LocalGet(5))
        .push(Ins::I32Const(4))
        .push(Ins::I32Add)
        .push(Ins::LocalGet(2))
        .push(Ins::LocalGet(6))
        .push(Ins::MemoryCopy { src_mem: 0, dst_mem: 0 })
        .push(Ins::LocalGet(5))
        .push(Ins::End)
}

pub(crate) fn format_body(rc_new: u32) -> (body: Body)
    ensures
        body.code@ == format_body_code(rc_new),
        body.locals@ == seq![(1u32, ValTy::I64), (5u32, ValTy::I32)],
        body.valid(),
        body.params == 1,
{
    proof {
        reveal(format_body_code);
    }
    let mut f = Builder::new(1);
    f.declare(1, ValTy::I64);
    f.declare(5, ValTy::I32);
    // neg = v < 0
    f.push(Ins::LocalGet(0));
    f.push(Ins::I64Const(0));
    f.push(Ins::I64LtS);
    f.push(Ins::LocalSet(3));
    // u = neg ? -v : v
    f.push(Ins::LocalGet(3));
    f.push(Ins::If(BlockTy::Result(ValTy::I64)));
    f.push(Ins::I64Const(0));
    f.push(Ins::LocalGet(0));
    f.push(Ins::I64Sub);
    f.push(Ins::Else);
    f.push(Ins::LocalGet(0));
    f.push(Ins::End);
    f.push(Ins::LocalSet(1));
    f.push(Ins::I32Const(128));
    f.push(Ins::LocalSet(2));
    f.push(Ins::LocalGet(1));
    f.push(Ins::I64Eqz);
    f.push(Ins::If(BlockTy::Empty));
    f.push(Ins::LocalGet(2));
    f.push(Ins::I32Const(1));
    f.push(Ins::I32Sub);
    f.push(Ins::LocalTee(2));
    f.push(Ins::I32Const(48));
    f.push(Ins::I32Store8(m(0)));
    f.push(Ins::End);
    f.push(Ins::Block(BlockTy::Empty));
    f.push(Ins::Loop(BlockTy::Empty));
    f.push(Ins::LocalGet(1));
    f.push(Ins::I64Eqz);
    f.push(Ins::BrIf(1));
    f.push(Ins::LocalGet(1));
    f.push(Ins::I64Const(10));
    f.push(Ins::I64RemU);
    f.push(Ins::I32WrapI64);
    f.push(Ins::LocalSet(4));
    f.push(Ins::LocalGet(1));
    f.push(Ins::I64Const(10));
    f.push(Ins::I64DivU);
    f.push(Ins::LocalSet(1));
    f.push(Ins::LocalGet(2));
    f.push(Ins::I32Const(1));
    f.push(Ins::I32Sub);
    f.push(Ins::LocalTee(2));
    f.push(Ins::LocalGet(4));
    f.push(Ins::I32Const(48));
    f.push(Ins::I32Add);
    f.push(Ins::I32Store8(m(0)));
    f.push(Ins::Br(0));
    f.push(Ins::End);
    f.push(Ins::End);
    f.push(Ins::LocalGet(3));
    f.push(Ins::If(BlockTy::Empty));
    f.push(Ins::LocalGet(2));
    f.push(Ins::I32Const(1));
    f.push(Ins::I32Sub);
    f.push(Ins::LocalTee(2));
    f.push(Ins::I32Const(45));
    f.push(Ins::I32Store8(m(0)));
    f.push(Ins::End);
    f.push(Ins::I32Const(128));
    f.push(Ins::LocalGet(2));
    f.push(Ins::I32Sub);
    f.push(Ins::LocalSet(6));
    f.push(Ins::LocalGet(6));
    f.push(Ins::I32Const(4));
    f.push(Ins::I32Add);
    f.push(Ins::Call(rc_new));
    f.push(Ins::LocalSet(5));
    f.push(Ins::LocalGet(5));
    f.push(Ins::LocalGet(6));
    f.push(Ins::I32Store(m(0)));
    f.push(Ins::LocalGet(5));
    f.push(Ins::I32Const(4));
    f.push(Ins::I32Add);
    f.push(Ins::LocalGet(2));
    f.push(Ins::LocalGet(6));
    f.push(Ins::MemoryCopy {
        src_mem: 0,
        dst_mem: 0,
    });
    f.push(Ins::LocalGet(5));
    f.push(Ins::End);
    assert(f.locals() =~= seq![(1u32, ValTy::I64), (5u32, ValTy::I32)]);
    f.finish()
}

/// The code that `concat_body` emits.
#[verifier::opaque]
pub open spec fn concat_body_code(rc_new: u32) -> Seq<Ins> {
    let c = Seq::<Ins>::empty();
    c
        .push(Ins::LocalGet(0))
        .push(Ins::I32Load(m(0)))
        .push(Ins::LocalSet(2))
        .push(Ins::LocalGet(1))
        .push(Ins::I32Load(m(0)))
        .push(Ins::LocalSet(3))
        .push(Ins::LocalGet(2))
        .push(Ins::LocalGet(3))
        .push(Ins::I32Add)
        .push(Ins::LocalSet(4))
        .push(Ins::LocalGet(4))
        .push(Ins::I32Const(4))
        .push(Ins::I32Add)
        .push(Ins::Call(rc_new))
        .push(Ins::LocalSet(5))
        .push(Ins::LocalGet(5))
        .push(Ins::LocalGet(4))
        .push(Ins::I32Store(m(0)))
        .push(Ins::LocalGet(5))
        .push(Ins::I32Const(4))
        .push(Ins::I32Add)
        .push(Ins::LocalGet(0))
        .push(Ins::I32Const(4))
        .push(Ins::I32Add)
        .push(Ins::LocalGet(2))
        .push(Ins::MemoryCopy { src_mem: 0, dst_mem: 0 })
        .push(Ins::LocalGet(5))
        .push(Ins::I32Const(4))
        .push(Ins::I32Add)
        .push(Ins::LocalGet(2))
        .push(Ins::I32Add)
        .push(Ins::LocalGet(1))
        .push(Ins::I32Const(4))
        .push(Ins::I32Add)
        .push(Ins::LocalGet(3))
        .push(Ins::MemoryCopy { src_mem: 0, dst_mem: 0 })
        .push(Ins::LocalGet(5))
        .push(Ins::End)
}

pub(crate) fn concat_body(rc_new: u32) -> (body: Body)
    ensures
        body.code@ == concat_body_code(rc_new),
        body.locals@ == seq![(4u32, ValTy::I32)],
        body.valid(),
        body.params == 2,
{
    proof {
        reveal(concat_body_code);
    }
    let mut f = Builder::new(2);
    f.declare(4, ValTy::I32);
    f.push(Ins::LocalGet(0));
    f.push(Ins::I32Load(m(0)));
    f.push(Ins::LocalSet(2));
    f.push(Ins::LocalGet(1));
    f.push(Ins::I32Load(m(0)));
    f.push(Ins::LocalSet(3));
    f.push(Ins::LocalGet(2));
    f.push(Ins::LocalGet(3));
    f.push(Ins::I32Add);
    f.push(Ins::LocalSet(4));
    f.push(Ins::LocalGet(4));
    f.push(Ins::I32Const(4));
    f.push(Ins::I32Add);
    f.push(Ins::Call(rc_new));
    f.push(Ins::LocalSet(5));
    f.push(Ins::LocalGet(5));
    f.push(Ins::LocalGet(4));
    f.push(Ins::I32Store(m(0)));
    f.push(Ins::LocalGet(5));
    f.push(Ins::I32Const(4));
    f.push(Ins::I32Add);
    f.push(Ins::LocalGet(0));
    f.push(Ins::I32Const(4));
    f.push(Ins::I32Add);
    f.push(Ins::LocalGet(2));
    f.push(Ins::MemoryCopy {
        src_mem: 0,
        dst_mem: 0,
    });
    f.push(Ins::LocalGet(5));
    f.push(Ins::I32Const(4));
    f.push(Ins::I32Add);
    f.push(Ins::LocalGet(2));
    f.push(Ins::I32Add);
    f.push(Ins::LocalGet(1));
    f.push(Ins::I32Const(4));
    f.push(Ins::I32Add);
    f.push(Ins::LocalGet(3));
    f.push(Ins::MemoryCopy {
        src_mem: 0,
        dst_mem: 0,
    });
    f.push(Ins::LocalGet(5));
    f.push(Ins::End);
    assert(f.locals() =~= seq![(4u32, ValTy::I32)]);
    f.finish()
}

// ---- list: header [len][cap][0][data]; 8-byte elements ----

/// The code that `list_new_body` emits.
#[verifier::opaque]
pub open spec fn list_new_body_code(rc_new: u32, alloc: u32) -> Seq<Ins> {
    let c = Seq::<Ins>::empty();
    c
        .push(Ins::I32Const(16))
        .push(Ins::Call(rc_new))
        .push(Ins::LocalSet(2))
        .push(Ins::LocalGet(2))
        .push(Ins::I32Const(0))
        .push(Ins::I32Store(m(0)))
        .push(Ins::LocalGet(2))
        .push(Ins::LocalGet(1))
        .push(Ins::I32Store(m(4)))
        .push(Ins::LocalGet(2))
        .push(Ins::LocalGet(0))
        .push(Ins::I32Store(m(8)))
        .push(Ins::LocalGet(2))
        .push(Ins::LocalGet(1))
        .push(Ins::I32Const(0))
        .push(Ins::I32GtS)
        .push(Ins::If(BlockTy::Result(ValTy::I32)))
        .push(Ins::LocalGet(1))
        .push(Ins::I32Const(8))
        .push(Ins::I32Mul)
        .push(Ins::Call(alloc))
        .push(Ins::Else)
        .push(Ins::I32Const(0))
        .push(Ins::End)
        .push(Ins::I32Store(m(12)))
        .push(Ins::LocalGet(2))
        .push(Ins::End)
}

pub(crate) fn list_new_body(rc_new: u32, alloc: u32) -> (body: Body)
    ensures
        body.code@ == list_new_body_code(rc_new, alloc),
        body.locals@ == seq![(2u32, ValTy::I32)],
        body.valid(),
        body.params == 2,
{
    proof {
        reveal(list_new_body_code);
    }
    // (elem_kind: i32, capacity: i32) -> handle
    let mut f = Builder::new(2);
    f.declare(2, ValTy::I32);
    f.push(Ins::I32Const(16));
    f.push(Ins::Call(rc_new));
    f.push(Ins::LocalSet(2));
    f.push(Ins::LocalGet(2));
    f.push(Ins::I32Const(0));
    f.push(Ins::I32Store(m(0))); // len = 0
    f.push(Ins::LocalGet(2));
    f.push(Ins::LocalGet(1));
    f.push(Ins::I32Store(m(4))); // cap = capacity
    f.push(Ins::LocalGet(2));
    f.push(Ins::LocalGet(0));
    f.push(Ins::I32Store(m(8))); // elem_kind
    f.push(Ins::LocalGet(2));
    f.push(Ins::LocalGet(1));
    f.push(Ins::I32Const(0));
    f.push(Ins::I32GtS);
    f.push(Ins::If(BlockTy::Result(ValTy::I32)));
    f.push(Ins::LocalGet(1));
    f.push(Ins::I32Const(8));
    f.push(Ins::I32Mul);
    f.push(Ins::Call(alloc));
    f.push(Ins::Else);
    f.push(Ins::I32Const(0));
    f.push(Ins::End);
    f.push(Ins::I32Store(m(12))); // data
    f.push(Ins::LocalGet(2));
    f.push(Ins::End);
    assert(f.locals() =~= seq![(2u32, ValTy::I32)]);
    f.finish()
}

/// The code that `list_len_body` emits.
#[verifier::opaque]
pub open spec fn list_len_body_code() -> Seq<Ins> {
    let c = Seq::<Ins>::empty();
    c
        .push(Ins::LocalGet(0))
        .push(Ins::I32Load(m(0)))
        .push(Ins::End)
}

pub(crate) fn list_len_body() -> (body: Body)
    ensures
        body.code@ == list_len_body_code(),
        body.locals@ == Seq::<(u32, ValTy)>::empty(),
        body.valid(),
        body.params == 1,
{
    proof {
        reveal(list_len_body_code);
    }
    let mut f = Builder::new(1);
    f.push(Ins::LocalGet(0));
    f.push(Ins::I32Load(m(0)));
    f.push(Ins::End);
    f.finish()
}

/// The code that `list_push_body` emits.
#[verifier::opaque]
pub open spec fn list_push_body_code(alloc: u32) -> Seq<Ins> {
    let c = Seq::<Ins>::empty();
    c
        .push(Ins::LocalGet(0))
        .push(Ins::I32Load(m(0)))
        .push(Ins::LocalSet(2))
        .push(Ins::LocalGet(0))
        .push(Ins::I32Load(m(4)))
        .push(Ins::LocalSet(3))
        .push(Ins::LocalGet(2))
        .push(Ins::LocalGet(3))
        .push(Ins::I32Eq)
        .push(Ins::If(BlockTy::Empty))
        .push(Ins::LocalGet(3))
        .push(Ins::I32Eqz)
        .push(Ins::If(BlockTy::Result(ValTy::I32)))
        .push(Ins::I32Const(4))
        .push(Ins::Else)
        .push(Ins::LocalGet(3))
        .push(Ins::I32Const(2))
        .push(Ins::I32Mul)
        .push(Ins::End)
        .push(Ins::LocalSet(4))
        .push(Ins::LocalGet(4))
        .push(Ins::I32Const(8))
        .push(Ins::I32Mul)
        .push(Ins::Call(alloc))
        .push(Ins::LocalSet(5))
        .push(Ins::LocalGet(5))
        .push(Ins::LocalGet(0))
        .push(Ins::I32Load(m(12)))
        .push(Ins::LocalGet(2))
        .push(Ins::I32Const(8))
        .push(Ins::I32Mul)
        .push(Ins::MemoryCopy { src_mem: 0, dst_mem: 0 })
        .push(Ins::LocalGet(0))
        .push(Ins::LocalGet(4))
        .push(Ins::I32Store(m(4)))
        .push(Ins::LocalGet(0))
        .push(Ins::LocalGet(5))
        .push(Ins::I32Store(m(12)))
        .push(Ins::End)
        .push(Ins::LocalGet(0))
        .push(Ins::I32Load(m(12)))
        .push(Ins::LocalGet(2))
        .push(Ins::I32Const(8))
        .push(Ins::I32Mul)
        .push(Ins::I32Add)
        .push(Ins::LocalGet(1))
        .push(Ins::I64Store(m(0)))
        .push(Ins::LocalGet(0))
        .push(Ins::LocalGet(2))
        .push(Ins::I32Const(1))
        .push(Ins::I32Add)
        .push(Ins::I32Store(m(0)))
        .push(Ins::End)
}

pub(crate) fn list_push_body(alloc: u32) -> (body: Body)
    ensures
        body.code@ == list_push_body_code(alloc),
        body.locals@ == seq![(4u32, ValTy::I32)],
        body.valid(),
        body.params == 2,
{
    proof {
        reveal(list_push_body_code);
    }
    // (h: i32, v: i64) -> (); locals 2..5 = len, cap, new_cap, new_data.
    let mut f = Builder::new(2);
    f.declare(4, ValTy::I32);
    // len=local2, cap=local3
    f.push(Ins::LocalGet(0));
    f.push(Ins::I32Load(m(0)));
    f.push(Ins::LocalSet(2));
    f.push(Ins::LocalGet(0));
    f.push(Ins::I32Load(m(4)));
    f.push(Ins::LocalSet(3));
    // if len == cap { grow }
    f.push(Ins::LocalGet(2));
    f.push(Ins::LocalGet(3));
    f.push(Ins::I32Eq);
    f.push(Ins::If(BlockTy::Empty));
    // new_cap = cap == 0 ? 4 : cap * 2
    f.push(Ins::LocalGet(3));
    f.push(Ins::I32Eqz);
    f.push(Ins::If(BlockTy::Result(ValTy::I32)));
    f.push(Ins::I32Const(4));
    f.push(Ins::Else);
    f.push(Ins::LocalGet(3));
    f.push(Ins::I32Const(2));
    f.push(Ins::I32Mul);
    f.push(Ins::End);
    f.push(Ins::LocalSet(4));
    // new_data = alloc(new_cap * 8)
    f.push(Ins::LocalGet(4));
    f.push(Ins::I32Const(8));
    f.push(Ins::I32Mul);
    f.push(Ins::Call(alloc));
    f.push(Ins::LocalSet(5));
    // memory.copy(new_data, old_data, len*8)
    f.push(Ins::LocalGet(5));
    f.push(Ins::LocalGet(0));
    f.push(Ins::I32Load(m(12)));
    f.push(Ins::LocalGet(2));
    f.push(Ins::I32Const(8));
    f.push(Ins::I32Mul);
    f.push(Ins::MemoryCopy {
        src_mem: 0,
        dst_mem: 0,
    });
    // store new data/cap
    f.push(Ins::LocalGet(0));
    f.push(Ins::LocalGet(4));
    f.push(Ins::I32Store(m(4)));
    f.push(Ins::LocalGet(0));
    f.push(Ins::LocalGet(5));
    f.push(Ins::I32Store(m(12)));
    f.push(Ins::End);
    // data[len*8] = v
    f.push(Ins::LocalGet(0));
    f.push(Ins::I32Load(m(12)));
    f.push(Ins::LocalGet(2));
    f.push(Ins::I32Const(8));
    f.push(Ins::I32Mul);
    f.push(Ins::I32Add);
    f.push(Ins::LocalGet(1));
    f.push(Ins::I64Store(m(0)));
    // len++
    f.push(Ins::LocalGet(0));
    f.push(Ins::LocalGet(2));
    f.push(Ins::I32Const(1));
    f.push(Ins::I32Add);
    f.push(Ins::I32Store(m(0)));
    f.push(Ins::End);
    assert(f.locals() =~= seq![(4u32, ValTy::I32)]);
    f.finish()
}

/// The code that `list_at_body` emits.
#[verifier::opaque]
pub open spec fn list_at_body_code() -> Seq<Ins> {
    let c = Seq::<Ins>::empty();
    c
        .push(Ins::LocalGet(1))
        .push(Ins::LocalGet(0))
        .push(Ins::I32Load(m(0)))
        .push(Ins::I32GeU)
        .push(Ins::If(BlockTy::Empty))
        .push(Ins::Unreachable)
        .push(Ins::End)
        .push(Ins::LocalGet(0))
        .push(Ins::I32Load(m(12)))
        .push(Ins::LocalGet(1))
        .push(Ins::I32Const(8))
        .push(Ins::I32Mul)
        .push(Ins::I32Add)
        .push(Ins::I64Load(m(0)))
        .push(Ins::End)
}

pub(crate) fn list_at_body() -> (body: Body)
    ensures
        body.code@ == list_at_body_code(),
        body.locals@ == Seq::<(u32, ValTy)>::empty(),
        body.valid(),
        body.params == 2,
{
    proof {
        reveal(list_at_body_code);
    }
    // (h: i32, i: i32) -> i64; traps when out of bounds (Vut semantics).
    let mut f = Builder::new(2);
    f.push(Ins::LocalGet(1));
    f.push(Ins::LocalGet(0));
    f.push(Ins::I32Load(m(0)));
    f.push(Ins::I32GeU);
    f.push(Ins::If(BlockTy::Empty));
    f.push(Ins::Unreachable);
    f.push(Ins::End);
    f.push(Ins::LocalGet(0));
    f.push(Ins::I32Load(m(12)));
    f.push(Ins::LocalGet(1));
    f.push(Ins::I32Const(8));
    f.push(Ins::I32Mul);
    f.push(Ins::I32Add);
    f.push(Ins::I64Load(m(0)));
    f.push(Ins::End);
    f.finish()
}

/// The code that `list_set_body` emits.
#[verifier::opaque]
pub open spec fn list_set_body_code(elem_release: u32) -> Seq<Ins> {
    let c = Seq::<Ins>::empty();
    c
        .push(Ins::LocalGet(1))
        .push(Ins::LocalGet(0))
        .push(Ins::I32Load(m(0)))
        .push(Ins::I32GeU)
        .push(Ins::If(BlockTy::Empty))
        .push(Ins::Unreachable)
        .push(Ins::End)
        .push(Ins::LocalGet(0))
        .push(Ins::I32Load(m(12)))
        .push(Ins::LocalGet(1))
        .push(Ins::I32Const(8))
        .push(Ins::I32Mul)
        .push(Ins::I32Add)
        .push(Ins::LocalSet(3))
        .push(Ins::LocalGet(0))
        .push(Ins::I32Load(m(8)))
        .push(Ins::LocalSet(4))
        .push(Ins::LocalGet(4))
        .push(Ins::LocalGet(3))
        .push(Ins::Call(elem_release))
        .push(Ins::LocalGet(3))
        .push(Ins::LocalGet(2))
        .push(Ins::I64Store(m(0)))
        .push(Ins::End)
}

pub(crate) fn list_set_body(elem_release: u32) -> (body: Body)
    ensures
        body.code@ == list_set_body_code(elem_release),
        body.locals@ == seq![(2u32, ValTy::I32)],
        body.valid(),
        body.params == 3,
{
    proof {
        reveal(list_set_body_code);
    }
    // (h, i, v: i64); locals 3 = slot, 4 = kind.
    let mut f = Builder::new(3);
    f.declare(2, ValTy::I32);
    f.push(Ins::LocalGet(1));
    f.push(Ins::LocalGet(0));
    f.push(Ins::I32Load(m(0)));
    f.push(Ins::I32GeU);
    f.push(Ins::If(BlockTy::Empty));
    f.push(Ins::Unreachable);
    f.push(Ins::End);
    f.push(Ins::LocalGet(0));
    f.push(Ins::I32Load(m(12)));
    f.push(Ins::LocalGet(1));
    f.push(Ins::I32Const(8));
    f.push(Ins::I32Mul);
    f.push(Ins::I32Add);
    f.push(Ins::LocalSet(3));
    f.push(Ins::LocalGet(0));
    f.push(Ins::I32Load(m(8)));
    f.push(Ins::LocalSet(4));
    f.push(Ins::LocalGet(4));
    f.push(Ins::LocalGet(3));
    f.push(Ins::Call(elem_release));
    f.push(Ins::LocalGet(3));
    f.push(Ins::LocalGet(2));
    f.push(Ins::I64Store(m(0)));
    f.push(Ins::End);
    assert(f.locals() =~= seq![(2u32, ValTy::I32)]);
    f.finish()
}

/// The code that `list_pop_body` emits.
#[verifier::opaque]
pub open spec fn list_pop_body_code() -> Seq<Ins> {
    let c = Seq::<Ins>::empty();
    c
        .push(Ins::LocalGet(0))
        .push(Ins::I32Load(m(0)))
        .push(Ins::LocalSet(1))
        .push(Ins::LocalGet(1))
        .push(Ins::I32Eqz)
        .push(Ins::If(BlockTy::Empty))
        .push(Ins::I64Const(0))
        .push(Ins::Return)
        .push(Ins::End)
        .push(Ins::LocalGet(0))
        .push(Ins::LocalGet(1))
        .push(Ins::I32Const(1))
        .push(Ins::I32Sub)
        .push(Ins::I32Store(m(0)))
        .push(Ins::LocalGet(0))
        .push(Ins::I32Load(m(12)))
        .push(Ins::LocalGet(1))
        .push(Ins::I32Const(1))
        .push(Ins::I32Sub)
        .push(Ins::I32Const(8))
        .push(Ins::I32Mul)
        .push(Ins::I32Add)
        .push(Ins::I64Load(m(0)))
        .push(Ins::End)
}

pub(crate) fn list_pop_body() -> (body: Body)
    ensures
        body.code@ == list_pop_body_code(),
        body.locals@ == seq![(1u32, ValTy::I32)],
        body.valid(),
        body.params == 1,
{
    proof {
        reveal(list_pop_body_code);
    }
    // (h) -> i64
    let mut f = Builder::new(1);
    f.declare(1, ValTy::I32);
    f.push(Ins::LocalGet(0));
    f.push(Ins::I32Load(m(0)));
    f.push(Ins::LocalSet(1));
    f.push(Ins::LocalGet(1));
    f.push(Ins::I32Eqz);
    f.push(Ins::If(BlockTy::Empty));
    f.push(Ins::I64Const(0));
    f.push(Ins::Return);
    f.push(Ins::End);
    f.push(Ins::LocalGet(0));
    f.push(Ins::LocalGet(1));
    f.push(Ins::I32Const(1));
    f.push(Ins::I32Sub);
    f.push(Ins::I32Store(m(0)));
    f.push(Ins::LocalGet(0));
    f.push(Ins::I32Load(m(12)));
    f.push(Ins::LocalGet(1));
    f.push(Ins::I32Const(1));
    f.push(Ins::I32Sub);
    f.push(Ins::I32Const(8));
    f.push(Ins::I32Mul);
    f.push(Ins::I32Add);
    f.push(Ins::I64Load(m(0)));
    f.push(Ins::End);
    assert(f.locals() =~= seq![(1u32, ValTy::I32)]);
    f.finish()
}

/// The code that `list_clear_body` emits.
#[verifier::opaque]
pub open spec fn list_clear_body_code(elem_release: u32) -> Seq<Ins> {
    let c = Seq::<Ins>::empty();
    c
        .push(Ins::LocalGet(0))
        .push(Ins::I32Load(m(12)))
        .push(Ins::LocalSet(2))
        .push(Ins::LocalGet(0))
        .push(Ins::I32Load(m(8)))
        .push(Ins::LocalSet(3))
        .push(Ins::LocalGet(0))
        .push(Ins::I32Load(m(0)))
        .push(Ins::LocalSet(4))
        .push(Ins::I32Const(0))
        .push(Ins::LocalSet(1))
        .push(Ins::Block(BlockTy::Empty))
        .push(Ins::Loop(BlockTy::Empty))
        .push(Ins::LocalGet(1))
        .push(Ins::LocalGet(4))
        .push(Ins::I32GeU)
        .push(Ins::BrIf(1))
        .push(Ins::LocalGet(3))
        .push(Ins::LocalGet(2))
        .push(Ins::LocalGet(1))
        .push(Ins::I32Const(8))
        .push(Ins::I32Mul)
        .push(Ins::I32Add)
        .push(Ins::Call(elem_release))
        .push(Ins::LocalGet(1))
        .push(Ins::I32Const(1))
        .push(Ins::I32Add)
        .push(Ins::LocalSet(1))
        .push(Ins::Br(0))
        .push(Ins::End)
        .push(Ins::End)
        .push(Ins::LocalGet(0))
        .push(Ins::I32Const(0))
        .push(Ins::I32Store(m(0)))
        .push(Ins::End)
}

pub(crate) fn list_clear_body(elem_release: u32) -> (body: Body)
    ensures
        body.code@ == list_clear_body_code(elem_release),
        body.locals@ == seq![(4u32, ValTy::I32)],
        body.valid(),
        body.params == 1,
{
    proof {
        reveal(list_clear_body_code);
    }
    // locals 1 = i, 2 = data, 3 = kind, 4 = len.
    let mut f = Builder::new(1);
    f.declare(4, ValTy::I32);
    f.push(Ins::LocalGet(0));
    f.push(Ins::I32Load(m(12)));
    f.push(Ins::LocalSet(2));
    f.push(Ins::LocalGet(0));
    f.push(Ins::I32Load(m(8)));
    f.push(Ins::LocalSet(3));
    f.push(Ins::LocalGet(0));
    f.push(Ins::I32Load(m(0)));
    f.push(Ins::LocalSet(4));
    f.push(Ins::I32Const(0));
    f.push(Ins::LocalSet(1));
    f.push(Ins::Block(BlockTy::Empty));
    f.push(Ins::Loop(BlockTy::Empty));
    f.push(Ins::LocalGet(1));
    f.push(Ins::LocalGet(4));
    f.push(Ins::I32GeU);
    f.push(Ins::BrIf(1));
    f.push(Ins::LocalGet(3));
    f.push(Ins::LocalGet(2));
    f.push(Ins::LocalGet(1));
    f.push(Ins::I32Const(8));
    f.push(Ins::I32Mul);
    f.push(Ins::I32Add);
    f.push(Ins::Call(elem_release));
    f.push(Ins::LocalGet(1));
    f.push(Ins::I32Const(1));
    f.push(Ins::I32Add);
    f.push(Ins::LocalSet(1));
    f.push(Ins::Br(0));
    f.push(Ins::End);
    f.push(Ins::End);
    f.push(Ins::LocalGet(0));
    f.push(Ins::I32Const(0));
    f.push(Ins::I32Store(m(0)));
    f.push(Ins::End);
    assert(f.locals() =~= seq![(4u32, ValTy::I32)]);
    f.finish()
}

// ---- bytes: header [len][cap][0][data]; 1-byte elements ----

/// The code that `bytes_new_body` emits.
#[verifier::opaque]
pub open spec fn bytes_new_body_code(rc_new: u32, alloc: u32) -> Seq<Ins> {
    let c = Seq::<Ins>::empty();
    c
        .push(Ins::I32Const(16))
        .push(Ins::Call(rc_new))
        .push(Ins::LocalSet(1))
        .push(Ins::LocalGet(1))
        .push(Ins::LocalGet(0))
        .push(Ins::I32Store(m(0)))
        .push(Ins::LocalGet(1))
        .push(Ins::LocalGet(0))
        .push(Ins::I32Store(m(4)))
        .push(Ins::LocalGet(1))
        .push(Ins::I32Const(0))
        .push(Ins::I64ExtendI32U)
        .push(Ins::I64Store(m(8)))
        .push(Ins::LocalGet(1))
        .push(Ins::LocalGet(0))
        .push(Ins::Call(alloc))
        .push(Ins::I32Store(m(12)))
        .push(Ins::LocalGet(1))
        .push(Ins::End)
}

pub(crate) fn bytes_new_body(rc_new: u32, alloc: u32) -> (body: Body)
    ensures
        body.code@ == bytes_new_body_code(rc_new, alloc),
        body.locals@ == seq![(1u32, ValTy::I32)],
        body.valid(),
        body.params == 1,
{
    proof {
        reveal(bytes_new_body_code);
    }
    // (len: i32) -> handle
    let mut f = Builder::new(1);
    f.declare(1, ValTy::I32);
    f.push(Ins::I32Const(16));
    f.push(Ins::Call(rc_new));
    f.push(Ins::LocalSet(1));
    f.push(Ins::LocalGet(1));
    f.push(Ins::LocalGet(0));
    f.push(Ins::I32Store(m(0))); // len
    f.push(Ins::LocalGet(1));
    f.push(Ins::LocalGet(0));
    f.push(Ins::I32Store(m(4))); // cap = len
    f.push(Ins::LocalGet(1));
    f.push(Ins::I32Const(0));
    f.push(Ins::I64ExtendI32U);
    f.push(Ins::I64Store(m(8)));
    // data = alloc(len)
    f.push(Ins::LocalGet(1));
    f.push(Ins::LocalGet(0));
    f.push(Ins::Call(alloc));
    f.push(Ins::I32Store(m(12)));
    f.push(Ins::LocalGet(1));
    f.push(Ins::End);
    assert(f.locals() =~= seq![(1u32, ValTy::I32)]);
    f.finish()
}

/// The code that `bytes_len_body` emits.
#[verifier::opaque]
pub open spec fn bytes_len_body_code() -> Seq<Ins> {
    let c = Seq::<Ins>::empty();
    c
        .push(Ins::LocalGet(0))
        .push(Ins::I32Load(m(0)))
        .push(Ins::End)
}

pub(crate) fn bytes_len_body() -> (body: Body)
    ensures
        body.code@ == bytes_len_body_code(),
        body.locals@ == Seq::<(u32, ValTy)>::empty(),
        body.valid(),
        body.params == 1,
{
    proof {
        reveal(bytes_len_body_code);
    }
    let mut f = Builder::new(1);
    f.push(Ins::LocalGet(0));
    f.push(Ins::I32Load(m(0)));
    f.push(Ins::End);
    f.finish()
}

/// The code that `bytes_at_body` emits.
#[verifier::opaque]
pub open spec fn bytes_at_body_code() -> Seq<Ins> {
    let c = Seq::<Ins>::empty();
    c
        .push(Ins::LocalGet(1))
        .push(Ins::LocalGet(0))
        .push(Ins::I32Load(m(0)))
        .push(Ins::I32GeU)
        .push(Ins::If(BlockTy::Empty))
        .push(Ins::Unreachable)
        .push(Ins::End)
        .push(Ins::LocalGet(0))
        .push(Ins::I32Load(m(12)))
        .push(Ins::LocalGet(1))
        .push(Ins::I32Add)
        .push(Ins::I32Load8U(m(0)))
        .push(Ins::End)
}

pub(crate) fn bytes_at_body() -> (body: Body)
    ensures
        body.code@ == bytes_at_body_code(),
        body.locals@ == Seq::<(u32, ValTy)>::empty(),
        body.valid(),
        body.params == 2,
{
    proof {
        reveal(bytes_at_body_code);
    }
    let mut f = Builder::new(2);
    f.push(Ins::LocalGet(1));
    f.push(Ins::LocalGet(0));
    f.push(Ins::I32Load(m(0)));
    f.push(Ins::I32GeU);
    f.push(Ins::If(BlockTy::Empty));
    f.push(Ins::Unreachable);
    f.push(Ins::End);
    f.push(Ins::LocalGet(0));
    f.push(Ins::I32Load(m(12)));
    f.push(Ins::LocalGet(1));
    f.push(Ins::I32Add);
    f.push(Ins::I32Load8U(m(0)));
    f.push(Ins::End);
    f.finish()
}

/// The code that `bytes_set_body` emits.
#[verifier::opaque]
pub open spec fn bytes_set_body_code() -> Seq<Ins> {
    let c = Seq::<Ins>::empty();
    c
        .push(Ins::LocalGet(1))
        .push(Ins::LocalGet(0))
        .push(Ins::I32Load(m(0)))
        .push(Ins::I32GeU)
        .push(Ins::If(BlockTy::Empty))
        .push(Ins::Unreachable)
        .push(Ins::End)
        .push(Ins::LocalGet(0))
        .push(Ins::I32Load(m(12)))
        .push(Ins::LocalGet(1))
        .push(Ins::I32Add)
        .push(Ins::LocalGet(2))
        .push(Ins::I32Store8(m(0)))
        .push(Ins::End)
}

pub(crate) fn bytes_set_body() -> (body: Body)
    ensures
        body.code@ == bytes_set_body_code(),
        body.locals@ == Seq::<(u32, ValTy)>::empty(),
        body.valid(),
        body.params == 3,
{
    proof {
        reveal(bytes_set_body_code);
    }
    // (h, i, b)
    let mut f = Builder::new(3);
    f.push(Ins::LocalGet(1));
    f.push(Ins::LocalGet(0));
    f.push(Ins::I32Load(m(0)));
    f.push(Ins::I32GeU);
    f.push(Ins::If(BlockTy::Empty));
    f.push(Ins::Unreachable);
    f.push(Ins::End);
    f.push(Ins::LocalGet(0));
    f.push(Ins::I32Load(m(12)));
    f.push(Ins::LocalGet(1));
    f.push(Ins::I32Add);
    f.push(Ins::LocalGet(2));
    f.push(Ins::I32Store8(m(0)));
    f.push(Ins::End);
    f.finish()
}

/// The code that `bytes_from_str_body` emits.
#[verifier::opaque]
pub open spec fn bytes_from_str_body_code(rc_new: u32, alloc: u32) -> Seq<Ins> {
    let c = Seq::<Ins>::empty();
    c
        .push(Ins::LocalGet(0))
        .push(Ins::I32Load(m(0)))
        .push(Ins::LocalSet(1))
        .push(Ins::I32Const(16))
        .push(Ins::Call(rc_new))
        .push(Ins::LocalSet(2))
        .push(Ins::LocalGet(2))
        .push(Ins::LocalGet(1))
        .push(Ins::I32Store(m(0)))
        .push(Ins::LocalGet(2))
        .push(Ins::LocalGet(1))
        .push(Ins::I32Store(m(4)))
        .push(Ins::LocalGet(2))
        .push(Ins::LocalGet(1))
        .push(Ins::Call(alloc))
        .push(Ins::I32Store(m(12)))
        .push(Ins::LocalGet(2))
        .push(Ins::I32Load(m(12)))
        .push(Ins::LocalGet(0))
        .push(Ins::I32Const(4))
        .push(Ins::I32Add)
        .push(Ins::LocalGet(1))
        .push(Ins::MemoryCopy { src_mem: 0, dst_mem: 0 })
        .push(Ins::LocalGet(2))
        .push(Ins::End)
}

pub(crate) fn bytes_from_str_body(rc_new: u32, alloc: u32) -> (body: Body)
    ensures
        body.code@ == bytes_from_str_body_code(rc_new, alloc),
        body.locals@ == seq![(2u32, ValTy::I32)],
        body.valid(),
        body.params == 1,
{
    proof {
        reveal(bytes_from_str_body_code);
    }
    // (str_handle) -> bytes_handle
    let mut f = Builder::new(1);
    f.declare(2, ValTy::I32);
    f.push(Ins::LocalGet(0));
    f.push(Ins::I32Load(m(0)));
    f.push(Ins::LocalSet(1)); // len
    f.push(Ins::I32Const(16));
    f.push(Ins::Call(rc_new));
    f.push(Ins::LocalSet(2));
    f.push(Ins::LocalGet(2));
    f.push(Ins::LocalGet(1));
    f.push(Ins::I32Store(m(0)));
    f.push(Ins::LocalGet(2));
    f.push(Ins::LocalGet(1));
    f.push(Ins::I32Store(m(4)));
    f.push(Ins::LocalGet(2));
    f.push(Ins::LocalGet(1));
    f.push(Ins::Call(alloc));
    f.push(Ins::I32Store(m(12)));
    // copy
    f.push(Ins::LocalGet(2));
    f.push(Ins::I32Load(m(12)));
    f.push(Ins::LocalGet(0));
    f.push(Ins::I32Const(4));
    f.push(Ins::I32Add);
    f.push(Ins::LocalGet(1));
    f.push(Ins::MemoryCopy {
        src_mem: 0,
        dst_mem: 0,
    });
    f.push(Ins::LocalGet(2));
    f.push(Ins::End);
    assert(f.locals() =~= seq![(2u32, ValTy::I32)]);
    f.finish()
}

/// The code that `bytes_to_str_body` emits.
#[verifier::opaque]
pub open spec fn bytes_to_str_body_code(rc_new: u32) -> Seq<Ins> {
    let c = Seq::<Ins>::empty();
    c
        .push(Ins::LocalGet(0))
        .push(Ins::I32Load(m(0)))
        .push(Ins::LocalSet(1))
        .push(Ins::LocalGet(1))
        .push(Ins::I32Const(4))
        .push(Ins::I32Add)
        .push(Ins::Call(rc_new))
        .push(Ins::LocalSet(2))
        .push(Ins::LocalGet(2))
        .push(Ins::LocalGet(1))
        .push(Ins::I32Store(m(0)))
        .push(Ins::LocalGet(2))
        .push(Ins::I32Const(4))
        .push(Ins::I32Add)
        .push(Ins::LocalGet(0))
        .push(Ins::I32Load(m(12)))
        .push(Ins::LocalGet(1))
        .push(Ins::MemoryCopy { src_mem: 0, dst_mem: 0 })
        .push(Ins::LocalGet(2))
        .push(Ins::End)
}

pub(crate) fn bytes_to_str_body(rc_new: u32) -> (body: Body)
    ensures
        body.code@ == bytes_to_str_body_code(rc_new),
        body.locals@ == seq![(2u32, ValTy::I32)],
        body.valid(),
        body.params == 1,
{
    proof {
        reveal(bytes_to_str_body_code);
    }
    // (bytes_handle) -> str_handle ([len][bytes])
    let mut f = Builder::new(1);
    f.declare(2, ValTy::I32);
    f.push(Ins::LocalGet(0));
    f.push(Ins::I32Load(m(0)));
    f.push(Ins::LocalSet(1));
    f.push(Ins::LocalGet(1));
    f.push(Ins::I32Const(4));
    f.push(Ins::I32Add);
    f.push(Ins::Call(rc_new));
    f.push(Ins::LocalSet(2));
    f.push(Ins::LocalGet(2));
    f.push(Ins::LocalGet(1));
    f.push(Ins::I32Store(m(0)));
    f.push(Ins::LocalGet(2));
    f.push(Ins::I32Const(4));
    f.push(Ins::I32Add);
    f.push(Ins::LocalGet(0));
    f.push(Ins::I32Load(m(12)));
    f.push(Ins::LocalGet(1));
    f.push(Ins::MemoryCopy {
        src_mem: 0,
        dst_mem: 0,
    });
    f.push(Ins::LocalGet(2));
    f.push(Ins::End);
    assert(f.locals() =~= seq![(2u32, ValTy::I32)]);
    f.finish()
}

// ---- map: header [len][cap][0][data]; entries are 16 bytes (key i64, value i64) ----

/// The code that `map_new_body` emits.
#[verifier::opaque]
pub open spec fn map_new_body_code(rc_new: u32) -> Seq<Ins> {
    let c = Seq::<Ins>::empty();
    c
        .push(Ins::I32Const(16))
        .push(Ins::Call(rc_new))
        .push(Ins::LocalSet(1))
        .push(Ins::LocalGet(1))
        .push(Ins::I64Const(0))
        .push(Ins::I64Store(m(0)))
        .push(Ins::LocalGet(1))
        .push(Ins::I64Const(0))
        .push(Ins::I64Store(m(8)))
        .push(Ins::LocalGet(1))
        .push(Ins::End)
}

pub(crate) fn map_new_body(rc_new: u32) -> (body: Body)
    ensures
        body.code@ == map_new_body_code(rc_new),
        body.locals@ == seq![(2u32, ValTy::I32)],
        body.valid(),
        body.params == 0,
{
    proof {
        reveal(map_new_body_code);
    }
    // No parameters; locals 0 (unused) and 1 (handle).
    let mut f = Builder::new(0);
    f.declare(2, ValTy::I32);
    f.push(Ins::I32Const(16));
    f.push(Ins::Call(rc_new));
    f.push(Ins::LocalSet(1));
    f.push(Ins::LocalGet(1));
    f.push(Ins::I64Const(0));
    f.push(Ins::I64Store(m(0)));
    f.push(Ins::LocalGet(1));
    f.push(Ins::I64Const(0));
    f.push(Ins::I64Store(m(8)));
    f.push(Ins::LocalGet(1));
    f.push(Ins::End);
    assert(f.locals() =~= seq![(2u32, ValTy::I32)]);
    f.finish()
}

/// The code that `map_len_body` emits.
#[verifier::opaque]
pub open spec fn map_len_body_code() -> Seq<Ins> {
    let c = Seq::<Ins>::empty();
    c
        .push(Ins::LocalGet(0))
        .push(Ins::I32Load(m(0)))
        .push(Ins::End)
}

pub(crate) fn map_len_body() -> (body: Body)
    ensures
        body.code@ == map_len_body_code(),
        body.locals@ == Seq::<(u32, ValTy)>::empty(),
        body.valid(),
        body.params == 1,
{
    proof {
        reveal(map_len_body_code);
    }
    let mut f = Builder::new(1);
    f.push(Ins::LocalGet(0));
    f.push(Ins::I32Load(m(0)));
    f.push(Ins::End);
    f.finish()
}

/// `c` followed by the code that `map_find` emits.
#[verifier::opaque]
pub open spec fn map_find_code(c: Seq<Ins>) -> Seq<Ins> {
    c
        .push(Ins::LocalGet(0))
        .push(Ins::I32Load(m(12)))
        .push(Ins::LocalSet(3))
        .push(Ins::I32Const(0))
        .push(Ins::LocalSet(2))
        .push(Ins::Block(BlockTy::Empty))
        .push(Ins::Loop(BlockTy::Empty))
        .push(Ins::LocalGet(2))
        .push(Ins::LocalGet(0))
        .push(Ins::I32Load(m(0)))
        .push(Ins::I32GeU)
        .push(Ins::BrIf(1))
        .push(Ins::LocalGet(3))
        .push(Ins::LocalGet(2))
        .push(Ins::I32Const(4))
        .push(Ins::I32Shl)
        .push(Ins::I32Add)
        .push(Ins::I64Load(m(0)))
        .push(Ins::LocalGet(1))
        .push(Ins::I64Eq)
        .push(Ins::If(BlockTy::Empty))
        .push(Ins::LocalGet(3))
        .push(Ins::LocalGet(2))
        .push(Ins::I32Const(4))
        .push(Ins::I32Shl)
        .push(Ins::I32Add)
        .push(Ins::Return)
        .push(Ins::End)
        .push(Ins::LocalGet(2))
        .push(Ins::I32Const(1))
        .push(Ins::I32Add)
        .push(Ins::LocalSet(2))
        .push(Ins::Br(0))
        .push(Ins::End)
        .push(Ins::End)
        .push(Ins::I32Const(0))
        .push(Ins::Return)
}

/// Linear scan for `key`; returns the entry pointer or 0.
fn map_find(f: &mut Builder)
    requires
        old(f).wf(),
        old(f).frames().len() >= 1,
        old(f).nlocals() >= 4,
    ensures
        final(f).code() == map_find_code(old(f).code()),
        final(f).wf(),
        final(f).params() == old(f).params(),
        final(f).locals() == old(f).locals(),
        final(f).frames() == old(f).frames(),
{
    proof {
        reveal(map_find_code);
    }
    // locals: 2 = i (index), 3 = data
    f.push(Ins::LocalGet(0));
    f.push(Ins::I32Load(m(12)));
    f.push(Ins::LocalSet(3));
    f.push(Ins::I32Const(0));
    f.push(Ins::LocalSet(2));
    f.push(Ins::Block(BlockTy::Empty));
    f.push(Ins::Loop(BlockTy::Empty));
    f.push(Ins::LocalGet(2));
    f.push(Ins::LocalGet(0));
    f.push(Ins::I32Load(m(0)));
    f.push(Ins::I32GeU);
    f.push(Ins::BrIf(1));
    f.push(Ins::LocalGet(3));
    f.push(Ins::LocalGet(2));
    f.push(Ins::I32Const(4));
    f.push(Ins::I32Shl);
    f.push(Ins::I32Add);
    f.push(Ins::I64Load(m(0))); // entry.key
    f.push(Ins::LocalGet(1)); // key
    f.push(Ins::I64Eq);
    f.push(Ins::If(BlockTy::Empty));
    f.push(Ins::LocalGet(3));
    f.push(Ins::LocalGet(2));
    f.push(Ins::I32Const(4));
    f.push(Ins::I32Shl);
    f.push(Ins::I32Add);
    f.push(Ins::Return);
    f.push(Ins::End);
    f.push(Ins::LocalGet(2));
    f.push(Ins::I32Const(1));
    f.push(Ins::I32Add);
    f.push(Ins::LocalSet(2));
    f.push(Ins::Br(0));
    f.push(Ins::End);
    f.push(Ins::End);
    f.push(Ins::I32Const(0));
    f.push(Ins::Return);
}

/// The code that `map_set_body` emits.
#[verifier::opaque]
pub open spec fn map_set_body_code(alloc: u32, find: u32) -> Seq<Ins> {
    let c = Seq::<Ins>::empty();
    c
        .push(Ins::LocalGet(0))
        .push(Ins::LocalGet(1))
        .push(Ins::Call(find))
        .push(Ins::LocalSet(4))
        .push(Ins::LocalGet(4))
        .push(Ins::If(BlockTy::Empty))
        .push(Ins::LocalGet(4))
        .push(Ins::LocalGet(2))
        .push(Ins::I64Store(m(8)))
        .push(Ins::Else)
        .push(Ins::LocalGet(0))
        .push(Ins::I32Load(m(0)))
        .push(Ins::LocalGet(0))
        .push(Ins::I32Load(m(4)))
        .push(Ins::I32Eq)
        .push(Ins::If(BlockTy::Empty))
        .push(Ins::LocalGet(0))
        .push(Ins::I32Load(m(4)))
        .push(Ins::I32Eqz)
        .push(Ins::If(BlockTy::Result(ValTy::I32)))
        .push(Ins::I32Const(4))
        .push(Ins::Else)
        .push(Ins::LocalGet(0))
        .push(Ins::I32Load(m(4)))
        .push(Ins::I32Const(2))
        .push(Ins::I32Mul)
        .push(Ins::End)
        .push(Ins::LocalSet(5))
        .push(Ins::LocalGet(5))
        .push(Ins::I32Const(16))
        .push(Ins::I32Mul)
        .push(Ins::Call(alloc))
        .push(Ins::LocalSet(6))
        .push(Ins::LocalGet(6))
        .push(Ins::LocalGet(0))
        .push(Ins::I32Load(m(12)))
        .push(Ins::LocalGet(0))
        .push(Ins::I32Load(m(0)))
        .push(Ins::I32Const(16))
        .push(Ins::I32Mul)
        .push(Ins::MemoryCopy { src_mem: 0, dst_mem: 0 })
        .push(Ins::LocalGet(0))
        .push(Ins::LocalGet(5))
        .push(Ins::I32Store(m(4)))
        .push(Ins::LocalGet(0))
        .push(Ins::LocalGet(6))
        .push(Ins::I32Store(m(12)))
        .push(Ins::End)
        .push(Ins::LocalGet(0))
        .push(Ins::I32Load(m(12)))
        .push(Ins::LocalGet(0))
        .push(Ins::I32Load(m(0)))
        .push(Ins::I32Const(4))
        .push(Ins::I32Shl)
        .push(Ins::I32Add)
        .push(Ins::LocalGet(1))
        .push(Ins::I64Store(m(0)))
        .push(Ins::LocalGet(0))
        .push(Ins::I32Load(m(12)))
        .push(Ins::LocalGet(0))
        .push(Ins::I32Load(m(0)))
        .push(Ins::I32Const(4))
        .push(Ins::I32Shl)
        .push(Ins::I32Add)
        .push(Ins::LocalGet(2))
        .push(Ins::I64Store(m(8)))
        .push(Ins::LocalGet(0))
        .push(Ins::LocalGet(0))
        .push(Ins::I32Load(m(0)))
        .push(Ins::I32Const(1))
        .push(Ins::I32Add)
        .push(Ins::I32Store(m(0)))
        .push(Ins::End)
        .push(Ins::End)
}

pub(crate) fn map_set_body(alloc: u32, find: u32) -> (body: Body)
    ensures
        body.code@ == map_set_body_code(alloc, find),
        body.locals@ == seq![(4u32, ValTy::I32)],
        body.valid(),
        body.params == 3,
{
    proof {
        reveal(map_set_body_code);
    }
    // (h, k: i64, v: i64); locals 3..6 = scratch, entry, new_cap, new_data.
    let mut f = Builder::new(3);
    f.declare(4, ValTy::I32);
    f.push(Ins::LocalGet(0));
    f.push(Ins::LocalGet(1));
    f.push(Ins::Call(find));
    f.push(Ins::LocalSet(4)); // entry ptr (0 if absent)
    f.push(Ins::LocalGet(4));
    f.push(Ins::If(BlockTy::Empty));
    f.push(Ins::LocalGet(4));
    f.push(Ins::LocalGet(2));
    f.push(Ins::I64Store(m(8)));
    f.push(Ins::Else);
    // grow if needed
    f.push(Ins::LocalGet(0));
    f.push(Ins::I32Load(m(0)));
    f.push(Ins::LocalGet(0));
    f.push(Ins::I32Load(m(4)));
    f.push(Ins::I32Eq);
    f.push(Ins::If(BlockTy::Empty));
    f.push(Ins::LocalGet(0));
    f.push(Ins::I32Load(m(4)));
    f.push(Ins::I32Eqz);
    f.push(Ins::If(BlockTy::Result(ValTy::I32)));
    f.push(Ins::I32Const(4));
    f.push(Ins::Else);
    f.push(Ins::LocalGet(0));
    f.push(Ins::I32Load(m(4)));
    f.push(Ins::I32Const(2));
    f.push(Ins::I32Mul);
    f.push(Ins::End);
    f.push(Ins::LocalSet(5));
    f.push(Ins::LocalGet(5));
    f.push(Ins::I32Const(16));
    f.push(Ins::I32Mul);
    f.push(Ins::Call(alloc));
    f.push(Ins::LocalSet(6));
    f.push(Ins::LocalGet(6));
    f.push(Ins::LocalGet(0));
    f.push(Ins::I32Load(m(12)));
    f.push(Ins::LocalGet(0));
    f.push(Ins::I32Load(m(0)));
    f.push(Ins::I32Const(16));
    f.push(Ins::I32Mul);
    f.push(Ins::MemoryCopy {
        src_mem: 0,
        dst_mem: 0,
    });
    f.push(Ins::LocalGet(0));
    f.push(Ins::LocalGet(5));
    f.push(Ins::I32Store(m(4)));
    f.push(Ins::LocalGet(0));
    f.push(Ins::LocalGet(6));
    f.push(Ins::I32Store(m(12)));
    f.push(Ins::End);
    // data[len] = k; data[len].value = v
    f.push(Ins::LocalGet(0));
    f.push(Ins::I32Load(m(12)));
    f.push(Ins::LocalGet(0));
    f.push(Ins::I32Load(m(0)));
    f.push(Ins::I32Const(4));
    f.push(Ins::I32Shl);
    f.push(Ins::I32Add);
    f.push(Ins::LocalGet(1));
    f.push(Ins::I64Store(m(0)));
    f.push(Ins::LocalGet(0));
    f.push(Ins::I32Load(m(12)));
    f.push(Ins::LocalGet(0));
    f.push(Ins::I32Load(m(0)));
    f.push(Ins::I32Const(4));
    f.push(Ins::I32Shl);
    f.push(Ins::I32Add);
    f.push(Ins::LocalGet(2));
    f.push(Ins::I64Store(m(8)));
    f.push(Ins::LocalGet(0));
    f.push(Ins::LocalGet(0));
    f.push(Ins::I32Load(m(0)));
    f.push(Ins::I32Const(1));
    f.push(Ins::I32Add);
    f.push(Ins::I32Store(m(0)));
    f.push(Ins::End);
    f.push(Ins::End);
    assert(f.locals() =~= seq![(4u32, ValTy::I32)]);
    f.finish()
}

/// The code that `map_get_body` emits.
#[verifier::opaque]
pub open spec fn map_get_body_code(find: u32) -> Seq<Ins> {
    let c = Seq::<Ins>::empty();
    c
        .push(Ins::LocalGet(0))
        .push(Ins::LocalGet(1))
        .push(Ins::Call(find))
        .push(Ins::LocalSet(4))
        .push(Ins::LocalGet(4))
        .push(Ins::If(BlockTy::Result(ValTy::I64)))
        .push(Ins::LocalGet(4))
        .push(Ins::I64Load(m(8)))
        .push(Ins::Else)
        .push(Ins::I64Const(0))
        .push(Ins::End)
        .push(Ins::End)
}

pub(crate) fn map_get_body(find: u32) -> (body: Body)
    ensures
        body.code@ == map_get_body_code(find),
        body.locals@ == seq![(3u32, ValTy::I32)],
        body.valid(),
        body.params == 2,
{
    proof {
        reveal(map_get_body_code);
    }
    let mut f = Builder::new(2);
    f.declare(3, ValTy::I32);
    f.push(Ins::LocalGet(0));
    f.push(Ins::LocalGet(1));
    f.push(Ins::Call(find));
    f.push(Ins::LocalSet(4));
    f.push(Ins::LocalGet(4));
    f.push(Ins::If(BlockTy::Result(ValTy::I64)));
    f.push(Ins::LocalGet(4));
    f.push(Ins::I64Load(m(8)));
    f.push(Ins::Else);
    f.push(Ins::I64Const(0));
    f.push(Ins::End);
    f.push(Ins::End);
    assert(f.locals() =~= seq![(3u32, ValTy::I32)]);
    f.finish()
}

/// The code that `map_contains_body` emits.
#[verifier::opaque]
pub open spec fn map_contains_body_code(find: u32) -> Seq<Ins> {
    let c = Seq::<Ins>::empty();
    c
        .push(Ins::LocalGet(0))
        .push(Ins::LocalGet(1))
        .push(Ins::Call(find))
        .push(Ins::I32Const(0))
        .push(Ins::I32Ne)
        .push(Ins::End)
}

pub(crate) fn map_contains_body(find: u32) -> (body: Body)
    ensures
        body.code@ == map_contains_body_code(find),
        body.locals@ == seq![(3u32, ValTy::I32)],
        body.valid(),
        body.params == 2,
{
    proof {
        reveal(map_contains_body_code);
    }
    let mut f = Builder::new(2);
    f.declare(3, ValTy::I32);
    f.push(Ins::LocalGet(0));
    f.push(Ins::LocalGet(1));
    f.push(Ins::Call(find));
    f.push(Ins::I32Const(0));
    f.push(Ins::I32Ne);
    f.push(Ins::End);
    assert(f.locals() =~= seq![(3u32, ValTy::I32)]);
    f.finish()
}

/// The code that `map_remove_body` emits.
#[verifier::opaque]
pub open spec fn map_remove_body_code(find: u32) -> Seq<Ins> {
    let c = Seq::<Ins>::empty();
    c
        .push(Ins::LocalGet(0))
        .push(Ins::LocalGet(1))
        .push(Ins::Call(find))
        .push(Ins::LocalSet(4))
        .push(Ins::LocalGet(4))
        .push(Ins::I32Eqz)
        .push(Ins::If(BlockTy::Empty))
        .push(Ins::I64Const(0))
        .push(Ins::Return)
        .push(Ins::End)
        .push(Ins::LocalGet(4))
        .push(Ins::I64Load(m(8)))
        .push(Ins::LocalSet(8))
        .push(Ins::LocalGet(0))
        .push(Ins::I32Load(m(0)))
        .push(Ins::I32Const(1))
        .push(Ins::I32Sub)
        .push(Ins::LocalSet(5))
        .push(Ins::LocalGet(4))
        .push(Ins::LocalGet(0))
        .push(Ins::I32Load(m(12)))
        .push(Ins::LocalGet(5))
        .push(Ins::I32Const(4))
        .push(Ins::I32Shl)
        .push(Ins::I32Add)
        .push(Ins::I32Ne)
        .push(Ins::If(BlockTy::Empty))
        .push(Ins::LocalGet(4))
        .push(Ins::LocalGet(0))
        .push(Ins::I32Load(m(12)))
        .push(Ins::LocalGet(5))
        .push(Ins::I32Const(4))
        .push(Ins::I32Shl)
        .push(Ins::I32Add)
        .push(Ins::I64Load(m(0)))
        .push(Ins::I64Store(m(0)))
        .push(Ins::LocalGet(4))
        .push(Ins::LocalGet(0))
        .push(Ins::I32Load(m(12)))
        .push(Ins::LocalGet(5))
        .push(Ins::I32Const(4))
        .push(Ins::I32Shl)
        .push(Ins::I32Add)
        .push(Ins::I64Load(m(8)))
        .push(Ins::I64Store(m(8)))
        .push(Ins::End)
        .push(Ins::LocalGet(0))
        .push(Ins::LocalGet(0))
        .push(Ins::I32Load(m(0)))
        .push(Ins::I32Const(1))
        .push(Ins::I32Sub)
        .push(Ins::I32Store(m(0)))
        .push(Ins::LocalGet(8))
        .push(Ins::End)
}

pub(crate) fn map_remove_body(find: u32) -> (body: Body)
    ensures
        body.code@ == map_remove_body_code(find),
        body.locals@ == seq![(6u32, ValTy::I32), (1u32, ValTy::I64)],
        body.valid(),
        body.params == 2,
{
    proof {
        reveal(map_remove_body_code);
    }
    // (h, k: i64) -> i64; locals 2..7 i32 (entry = 4, last = 5), 8 i64 (old).
    let mut f = Builder::new(2);
    f.declare(6, ValTy::I32);
    f.declare(1, ValTy::I64);
    f.push(Ins::LocalGet(0));
    f.push(Ins::LocalGet(1));
    f.push(Ins::Call(find));
    f.push(Ins::LocalSet(4));
    f.push(Ins::LocalGet(4));
    f.push(Ins::I32Eqz);
    f.push(Ins::If(BlockTy::Empty));
    f.push(Ins::I64Const(0));
    f.push(Ins::Return);
    f.push(Ins::End);
    f.push(Ins::LocalGet(4));
    f.push(Ins::I64Load(m(8)));
    f.push(Ins::LocalSet(8));
    f.push(Ins::LocalGet(0));
    f.push(Ins::I32Load(m(0)));
    f.push(Ins::I32Const(1));
    f.push(Ins::I32Sub);
    f.push(Ins::LocalSet(5));
    f.push(Ins::LocalGet(4));
    f.push(Ins::LocalGet(0));
    f.push(Ins::I32Load(m(12)));
    f.push(Ins::LocalGet(5));
    f.push(Ins::I32Const(4));
    f.push(Ins::I32Shl);
    f.push(Ins::I32Add);
    f.push(Ins::I32Ne);
    f.push(Ins::If(BlockTy::Empty));
    f.push(Ins::LocalGet(4));
    f.push(Ins::LocalGet(0));
    f.push(Ins::I32Load(m(12)));
    f.push(Ins::LocalGet(5));
    f.push(Ins::I32Const(4));
    f.push(Ins::I32Shl);
    f.push(Ins::I32Add);
    f.push(Ins::I64Load(m(0)));
    f.push(Ins::I64Store(m(0)));
    f.push(Ins::LocalGet(4));
    f.push(Ins::LocalGet(0));
    f.push(Ins::I32Load(m(12)));
    f.push(Ins::LocalGet(5));
    f.push(Ins::I32Const(4));
    f.push(Ins::I32Shl);
    f.push(Ins::I32Add);
    f.push(Ins::I64Load(m(8)));
    f.push(Ins::I64Store(m(8)));
    f.push(Ins::End);
    f.push(Ins::LocalGet(0));
    f.push(Ins::LocalGet(0));
    f.push(Ins::I32Load(m(0)));
    f.push(Ins::I32Const(1));
    f.push(Ins::I32Sub);
    f.push(Ins::I32Store(m(0)));
    f.push(Ins::LocalGet(8));
    f.push(Ins::End);
    assert(f.locals() =~= seq![(6u32, ValTy::I32), (1u32, ValTy::I64)]);
    f.finish()
}

/// The code that `map_clear_body` emits.
#[verifier::opaque]
pub open spec fn map_clear_body_code() -> Seq<Ins> {
    let c = Seq::<Ins>::empty();
    c
        .push(Ins::LocalGet(0))
        .push(Ins::I32Const(0))
        .push(Ins::I32Store(m(0)))
        .push(Ins::End)
}

pub(crate) fn map_clear_body() -> (body: Body)
    ensures
        body.code@ == map_clear_body_code(),
        body.locals@ == Seq::<(u32, ValTy)>::empty(),
        body.valid(),
        body.params == 1,
{
    proof {
        reveal(map_clear_body_code);
    }
    let mut f = Builder::new(1);
    f.push(Ins::LocalGet(0));
    f.push(Ins::I32Const(0));
    f.push(Ins::I32Store(m(0)));
    f.push(Ins::End);
    f.finish()
}

/// The code that `map_find_body` emits.
#[verifier::opaque]
pub open spec fn map_find_body_code() -> Seq<Ins> {
    let c = Seq::<Ins>::empty();
    let c = map_find_code(c);
    c
        .push(Ins::End)
}

pub(crate) fn map_find_body() -> (body: Body)
    ensures
        body.code@ == map_find_body_code(),
        body.locals@ == seq![(2u32, ValTy::I32)],
        body.valid(),
        body.params == 2,
{
    proof {
        reveal(map_find_body_code);
    }
    let mut f = Builder::new(2);
    f.declare(2, ValTy::I32);
    map_find(&mut f);
    f.push(Ins::End);
    assert(f.locals() =~= seq![(2u32, ValTy::I32)]);
    f.finish()
}


} // verus!
