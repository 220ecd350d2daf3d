//! `float` → string formatting for the wasm backend.
//!
//! Fixed-point decimal: the integer part and a six-digit fractional part are
//! each formatted with the shared i64 formatter, then joined with a `.` and
//! trailing zeros trimmed. No exponent notation, matching `f64::to_string` for
//! values whose fraction needs at most six digits. A magnitude of 2^53 or more
//! has no fraction and may pass the `i64` range: it prints as the fewest
//! digits (17 at most) that, scaled by a power of ten, give it back, followed
//! by that many zeros. Float immediates are given by their IEEE-754 bit
//! patterns.
use vstd::prelude::*;
use crate::wasm::builder::{Body, Builder};
use crate::wasm::model::{m, BlockTy, Ins, ValTy};
use crate::wasm::rt_index as rt;

verus! {

/// The formatter's signature: `(v: f64) -> str`.
pub open spec fn float_signature() -> (Seq<ValTy>, Seq<ValTy>) {
    (seq![ValTy::F64], seq![ValTy::I32])
}

/// The formatter's signature: `(v: f64) -> str`.
pub fn signature() -> (sig: (Vec<ValTy>, Vec<ValTy>))
    ensures
        (sig.0@, sig.1@) == float_signature(),
{
    let sig = (vec![ValTy::F64], vec![ValTy::I32]);
    assert(sig.0@ =~= float_signature().0);
    assert(sig.1@ =~= float_signature().1);
    sig
}

/// The formatter body, using the runtime helpers at `base`.
pub fn body(base: u32) -> (body: Body)
    requires
        base + rt::COUNT <= u32::MAX,
    ensures
        body.code@ == float_body_code((base + rt::RC_NEW) as u32, (base + rt::FORMAT) as u32),
        body.locals@ == seq![(1u32, ValTy::F64), (1u32, ValTy::I32), (1u32, ValTy::I64), (1u32, ValTy::F64), (1u32, ValTy::I64), (9u32, ValTy::I32), (3u32, ValTy::F64), (3u32, ValTy::I32)],
        body.valid(),
        body.params == 1,
{
    float_body(base + rt::RC_NEW, base + rt::FORMAT)
}

/// The code that `float_body` emits.
#[verifier::opaque]
pub open spec fn float_body_code(rc_new: u32, format: u32) -> Seq<Ins> {
    let c = Seq::<Ins>::empty();
    let c = c
        .push(Ins::LocalGet(0))
        .push(Ins::LocalGet(0))
        .push(Ins::F64Ne)
        .push(Ins::If(BlockTy::Empty));
    let c = make_code(c, rc_new, seq![78u8, 97u8, 78u8]);
    let c = c
        .push(Ins::End)
        .push(Ins::LocalGet(0))
        .push(Ins::F64Const(0x7ff0000000000000))
        .push(Ins::F64Eq)
        .push(Ins::If(BlockTy::Empty));
    let c = make_code(c, rc_new, seq![105u8, 110u8, 102u8]);
    let c = c
        .push(Ins::End)
        .push(Ins::LocalGet(0))
        .push(Ins::F64Const(0xfff0000000000000))
        .push(Ins::F64Eq)
        .push(Ins::If(BlockTy::Empty));
    let c = make_code(c, rc_new, seq![45u8, 105u8, 110u8, 102u8]);
    let c = c
        .push(Ins::End)
        .push(Ins::LocalGet(0))
        .push(Ins::I64ReinterpretF64)
        .push(Ins::I64Const(0))
        .push(Ins::I64LtS)
        .push(Ins::LocalSet(2))
        .push(Ins::LocalGet(0))
        .push(Ins::F64Abs)
        .push(Ins::LocalSet(1))
        .push(Ins::LocalGet(1))
        .push(Ins::F64Const(0x0000000000000000))
        .push(Ins::F64Eq)
        .push(Ins::If(BlockTy::Empty))
        .push(Ins::LocalGet(2))
        .push(Ins::If(BlockTy::Empty));
    let c = make_code(c, rc_new, seq![45u8, 48u8]);
    let c = c
        .push(Ins::End);
    let c = make_code(c, rc_new, seq![48u8]);
    let c = large_value_code(c.push(Ins::End), rc_new, format);
    c
        .push(Ins::LocalGet(1))
        .push(Ins::I64TruncSatF64S)
        .push(Ins::LocalSet(3))
        .push(Ins::LocalGet(1))
        .push(Ins::LocalGet(3))
        .push(Ins::F64ConvertI64S)
        .push(Ins::F64Sub)
        .push(Ins::LocalSet(4))
        .push(Ins::LocalGet(4))
        .push(Ins::F64Const(0x0000000000000000))
        .push(Ins::F64Lt)
        .push(Ins::LocalGet(4))
        .push(Ins::F64Const(0x3ff0000000000000))
        .push(Ins::F64Ge)
        .push(Ins::I32Or)
        .push(Ins::If(BlockTy::Empty))
        .push(Ins::F64Const(0x0000000000000000))
        .push(Ins::LocalSet(4))
        .push(Ins::End)
        .push(Ins::LocalGet(4))
        .push(Ins::F64Const(0x412e848000000000))
        .push(Ins::F64Mul)
        .push(Ins::F64Const(0x3fe0000000000000))
        .push(Ins::F64Add)
        .push(Ins::I64TruncSatF64S)
        .push(Ins::LocalSet(5))
        .push(Ins::LocalGet(5))
        .push(Ins::I64Const(1_000_000))
        .push(Ins::I64GeS)
        .push(Ins::If(BlockTy::Empty))
        .push(Ins::LocalGet(3))
        .push(Ins::I64Const(1))
        .push(Ins::I64Add)
        .push(Ins::LocalSet(3))
        .push(Ins::LocalGet(5))
        .push(Ins::I64Const(1_000_000))
        .push(Ins::I64Sub)
        .push(Ins::LocalSet(5))
        .push(Ins::End)
        .push(Ins::LocalGet(3))
        .push(Ins::Call(format))
        .push(Ins::LocalSet(6))
        .push(Ins::LocalGet(6))
        .push(Ins::I32Load(m(0)))
        .push(Ins::LocalSet(7))
        .push(Ins::I32Const(0))
        .push(Ins::LocalSet(9))
        .push(Ins::LocalGet(5))
        .push(Ins::I64Const(0))
        .push(Ins::I64Ne)
        .push(Ins::If(BlockTy::Empty))
        .push(Ins::LocalGet(5))
        .push(Ins::Call(format))
        .push(Ins::LocalSet(8))
        .push(Ins::LocalGet(8))
        .push(Ins::I32Load(m(0)))
        .push(Ins::LocalSet(9))
        .push(Ins::LocalGet(9))
        .push(Ins::I32Const(6))
        .push(Ins::I32GeU)
        .push(Ins::If(BlockTy::Result(ValTy::I32)))
        .push(Ins::I32Const(0))
        .push(Ins::Else)
        .push(Ins::I32Const(6))
        .push(Ins::LocalGet(9))
        .push(Ins::I32Sub)
        .push(Ins::End)
        .push(Ins::LocalSet(13))
        .push(Ins::LocalGet(9))
        .push(Ins::LocalSet(14))
        .push(Ins::Block(BlockTy::Empty))
        .push(Ins::Loop(BlockTy::Empty))
        .push(Ins::LocalGet(14))
        .push(Ins::I32Eqz)
        .push(Ins::BrIf(1))
        .push(Ins::LocalGet(8))
        .push(Ins::I32Const(4))
        .push(Ins::I32Add)
        .push(Ins::LocalGet(14))
        .push(Ins::I32Add)
        .push(Ins::I32Const(1))
        .push(Ins::I32Sub)
        .push(Ins::I32Load8U(m(0)))
        .push(Ins::I32Const(48))
        .push(Ins::I32Ne)
        .push(Ins::BrIf(1))
        .push(Ins::LocalGet(14))
        .push(Ins::I32Const(1))
        .push(Ins::I32Sub)
        .push(Ins::LocalSet(14))
        .push(Ins::Br(0))
        .push(Ins::End)
        .push(Ins::End)
        .push(Ins::End)
        .push(Ins::LocalGet(2))
        .push(Ins::LocalGet(7))
        .push(Ins::I32Add)
        .push(Ins::LocalGet(14))
        .push(Ins::I32Const(0))
        .push(Ins::I32GtU)
        .push(Ins::If(BlockTy::Result(ValTy::I32)))
        .push(Ins::LocalGet(13))
        .push(Ins::LocalGet(14))
        .push(Ins::I32Add)
        .push(Ins::I32Const(1))
        .push(Ins::I32Add)
        .push(Ins::Else)
        .push(Ins::I32Const(0))
        .push(Ins::End)
        .push(Ins::I32Add)
        .push(Ins::LocalSet(12))
        .push(Ins::LocalGet(12))
        .push(Ins::I32Const(4))
        .push(Ins::I32Add)
        .push(Ins::Call(rc_new))
        .push(Ins::LocalSet(10))
        .push(Ins::LocalGet(10))
        .push(Ins::LocalGet(12))
        .push(Ins::I32Store(m(0)))
        .push(Ins::I32Const(4))
        .push(Ins::LocalSet(11))
        .push(Ins::LocalGet(2))
        .push(Ins::If(BlockTy::Empty))
        .push(Ins::LocalGet(10))
        .push(Ins::LocalGet(11))
        .push(Ins::I32Add)
        .push(Ins::I32Const(45))
        .push(Ins::I32Store8(m(0)))
        .push(Ins::LocalGet(11))
        .push(Ins::I32Const(1))
        .push(Ins::I32Add)
        .push(Ins::LocalSet(11))
        .push(Ins::End)
        .push(Ins::LocalGet(10))
        .push(Ins::LocalGet(11))
        .push(Ins::I32Add)
        .push(Ins::LocalGet(6))
        .push(Ins::I32Const(4))
        .push(Ins::I32Add)
        .push(Ins::LocalGet(7))
        .push(Ins::MemoryCopy { src_mem: 0, dst_mem: 0 })
        .push(Ins::LocalGet(11))
        .push(Ins::LocalGet(7))
        .push(Ins::I32Add)
        .push(Ins::LocalSet(11))
        .push(Ins::LocalGet(14))
        .push(Ins::I32Const(0))
        .push(Ins::I32GtU)
        .push(Ins::If(BlockTy::Empty))
        .push(Ins::LocalGet(10))
        .push(Ins::LocalGet(11))
        .push(Ins::I32Add)
        .push(Ins::I32Const(46))
        .push(Ins::I32Store8(m(0)))
        .push(Ins::LocalGet(11))
        .push(Ins::I32Const(1))
        .push(Ins::I32Add)
        .push(Ins::LocalSet(11))
        .push(Ins::I32Const(0))
        .push(Ins::LocalSet(9))
        .push(Ins::Block(BlockTy::Empty))
        .push(Ins::Loop(BlockTy::Empty))
        .push(Ins::LocalGet(9))
        .push(Ins::LocalGet(13))
        .push(Ins::I32GeU)
        .push(Ins::BrIf(1))
        .push(Ins::LocalGet(10))
        .push(Ins::LocalGet(11))
        .push(Ins::I32Add)
        .push(Ins::I32Const(48))
        .push(Ins::I32Store8(m(0)))
        .push(Ins::LocalGet(11))
        .push(Ins::I32Const(1))
        .push(Ins::I32Add)
        .push(Ins::LocalSet(11))
        .push(Ins::LocalGet(9))
        .push(Ins::I32Const(1))
        .push(Ins::I32Add)
        .push(Ins::LocalSet(9))
        .push(Ins::Br(0))
        .push(Ins::End)
        .push(Ins::End)
        .push(Ins::LocalGet(10))
        .push(Ins::LocalGet(11))
        .push(Ins::I32Add)
        .push(Ins::LocalGet(8))
        .push(Ins::I32Const(4))
        .push(Ins::I32Add)
        .push(Ins::LocalGet(14))
        .push(Ins::MemoryCopy { src_mem: 0, dst_mem: 0 })
        .push(Ins::End)
        .push(Ins::LocalGet(10))
        .push(Ins::End)
}

#[verifier::rlimit(100)]
#[verifier::spinoff_prover]
pub(crate) fn float_body(rc_new: u32, format: u32) -> (body: Body)
    ensures
        body.code@ == float_body_code(rc_new, format),
        body.locals@ == seq![(1u32, ValTy::F64), (1u32, ValTy::I32), (1u32, ValTy::I64), (1u32, ValTy::F64), (1u32, ValTy::I64), (9u32, ValTy::I32), (3u32, ValTy::F64), (3u32, ValTy::I32)],
        body.valid(),
        body.params == 1,
{
    proof {
        reveal(float_body_code);
    }
    // 1 = a(f64), 2 = neg, 3 = ip(i64), 4 = frac(f64), 5 = fs(i64),
    // 6..14 = ip_str, len_i, fs_str, len_f, out, cursor, total, lead, k.
    let mut f = Builder::new(1);
    f.declare(1, ValTy::F64);
    f.declare(1, ValTy::I32);
    f.declare(1, ValTy::I64);
    f.declare(1, ValTy::F64);
    f.declare(1, ValTy::I64);
    f.declare(9, ValTy::I32);
    f.declare(3, ValTy::F64);
    f.declare(3, ValTy::I32);
    // NaN / ±inf
    f.push(Ins::LocalGet(0));
    f.push(Ins::LocalGet(0));
    f.push(Ins::F64Ne);
    f.push(Ins::If(BlockTy::Empty));
    let text: &[u8] = &[78u8, 97u8, 78u8];
    assert(text@ =~= seq![78u8, 97u8, 78u8]);
    make(&mut f, rc_new, text);
    f.push(Ins::End);
    f.push(Ins::LocalGet(0));
    f.push(Ins::F64Const(0x7ff0000000000000));
    f.push(Ins::F64Eq);
    f.push(Ins::If(BlockTy::Empty));
    let text: &[u8] = &[105u8, 110u8, 102u8];
    assert(text@ =~= seq![105u8, 110u8, 102u8]);
    make(&mut f, rc_new, text);
    f.push(Ins::End);
    f.push(Ins::LocalGet(0));
    f.push(Ins::F64Const(0xfff0000000000000));
    f.push(Ins::F64Eq);
    f.push(Ins::If(BlockTy::Empty));
    let text: &[u8] = &[45u8, 105u8, 110u8, 102u8];
    assert(text@ =~= seq![45u8, 105u8, 110u8, 102u8]);
    make(&mut f, rc_new, text);
    f.push(Ins::End);
    // neg, a
    f.push(Ins::LocalGet(0));
    f.push(Ins::I64ReinterpretF64);
    f.push(Ins::I64Const(0));
    f.push(Ins::I64LtS);
    f.push(Ins::LocalSet(2));
    f.push(Ins::LocalGet(0));
    f.push(Ins::F64Abs);
    f.push(Ins::LocalSet(1));
    f.push(Ins::LocalGet(1));
    f.push(Ins::F64Const(0x0000000000000000));
    f.push(Ins::F64Eq);
    f.push(Ins::If(BlockTy::Empty));
    f.push(Ins::LocalGet(2));
    f.push(Ins::If(BlockTy::Empty));
    let text: &[u8] = &[45u8, 48u8];
    assert(text@ =~= seq![45u8, 48u8]);
    make(&mut f, rc_new, text);
    f.push(Ins::End);
    let text: &[u8] = &[48u8];
    assert(text@ =~= seq![48u8]);
    make(&mut f, rc_new, text);
    f.push(Ins::End);
    // a magnitude past 2^53 has no fraction: its shortest digits and zeros
    large_value(&mut f, rc_new, format);
    // ip = trunc(a)
    f.push(Ins::LocalGet(1));
    f.push(Ins::I64TruncSatF64S);
    f.push(Ins::LocalSet(3));
    // frac = clamp(a - ip, 0, 1)
    f.push(Ins::LocalGet(1));
    f.push(Ins::LocalGet(3));
    f.push(Ins::F64ConvertI64S);
    f.push(Ins::F64Sub);
    f.push(Ins::LocalSet(4));
    f.push(Ins::LocalGet(4));
    f.push(Ins::F64Const(0x0000000000000000));
    f.push(Ins::F64Lt);
    f.push(Ins::LocalGet(4));
    f.push(Ins::F64Const(0x3ff0000000000000));
    f.push(Ins::F64Ge);
    f.push(Ins::I32Or);
    f.push(Ins::If(BlockTy::Empty));
    f.push(Ins::F64Const(0x0000000000000000));
    f.push(Ins::LocalSet(4));
    f.push(Ins::End);
    // fs = round(frac * 1e6)
    f.push(Ins::LocalGet(4));
    f.push(Ins::F64Const(0x412e848000000000));
    f.push(Ins::F64Mul);
    f.push(Ins::F64Const(0x3fe0000000000000));
    f.push(Ins::F64Add);
    f.push(Ins::I64TruncSatF64S);
    f.push(Ins::LocalSet(5));
    // carry: if fs >= 1e6 { ip += 1; fs -= 1e6 }
    f.push(Ins::LocalGet(5));
    f.push(Ins::I64Const(1_000_000));
    f.push(Ins::I64GeS);
    f.push(Ins::If(BlockTy::Empty));
    f.push(Ins::LocalGet(3));
    f.push(Ins::I64Const(1));
    f.push(Ins::I64Add);
    f.push(Ins::LocalSet(3));
    f.push(Ins::LocalGet(5));
    f.push(Ins::I64Const(1_000_000));
    f.push(Ins::I64Sub);
    f.push(Ins::LocalSet(5));
    f.push(Ins::End);
    // ip_str (after carry)
    f.push(Ins::LocalGet(3));
    f.push(Ins::Call(format));
    f.push(Ins::LocalSet(6));
    f.push(Ins::LocalGet(6));
    f.push(Ins::I32Load(m(0)));
    f.push(Ins::LocalSet(7));
    f.push(Ins::I32Const(0));
    f.push(Ins::LocalSet(9));
    f.push(Ins::LocalGet(5));
    f.push(Ins::I64Const(0));
    f.push(Ins::I64Ne);
    f.push(Ins::If(BlockTy::Empty));
    // fs_str + trim
    f.push(Ins::LocalGet(5));
    f.push(Ins::Call(format));
    f.push(Ins::LocalSet(8));
    f.push(Ins::LocalGet(8));
    f.push(Ins::I32Load(m(0)));
    f.push(Ins::LocalSet(9));
    // lead = len_f >= 6 ? 0 : 6 - len_f
    f.push(Ins::LocalGet(9));
    f.push(Ins::I32Const(6));
    f.push(Ins::I32GeU);
    f.push(Ins::If(BlockTy::Result(ValTy::I32)));
    f.push(Ins::I32Const(0));
    f.push(Ins::Else);
    f.push(Ins::I32Const(6));
    f.push(Ins::LocalGet(9));
    f.push(Ins::I32Sub);
    f.push(Ins::End);
    f.push(Ins::LocalSet(13));
    // k = len_f; strip trailing zeros
    f.push(Ins::LocalGet(9));
    f.push(Ins::LocalSet(14));
    f.push(Ins::Block(BlockTy::Empty));
    f.push(Ins::Loop(BlockTy::Empty));
    f.push(Ins::LocalGet(14));
    f.push(Ins::I32Eqz);
    f.push(Ins::BrIf(1));
    f.push(Ins::LocalGet(8));
    f.push(Ins::I32Const(4));
    f.push(Ins::I32Add);
    f.push(Ins::LocalGet(14));
    f.push(Ins::I32Add);
    f.push(Ins::I32Const(1));
    f.push(Ins::I32Sub);
    f.push(Ins::I32Load8U(m(0)));
    f.push(Ins::I32Const(48));
    f.push(Ins::I32Ne);
    f.push(Ins::BrIf(1));
    f.push(Ins::LocalGet(14));
    f.push(Ins::I32Const(1));
    f.push(Ins::I32Sub);
    f.push(Ins::LocalSet(14));
    f.push(Ins::Br(0));
    f.push(Ins::End);
    f.push(Ins::End);
    f.push(Ins::End);
    // total = neg + len_i + (k>0 ? 1 + lead + k : 0)
    f.push(Ins::LocalGet(2));
    f.push(Ins::LocalGet(7));
    f.push(Ins::I32Add);
    f.push(Ins::LocalGet(14));
    f.push(Ins::I32Const(0));
    f.push(Ins::I32GtU);
    f.push(Ins::If(BlockTy::Result(ValTy::I32)));
    f.push(Ins::LocalGet(13));
    f.push(Ins::LocalGet(14));
    f.push(Ins::I32Add);
    f.push(Ins::I32Const(1));
    f.push(Ins::I32Add);
    f.push(Ins::Else);
    f.push(Ins::I32Const(0));
    f.push(Ins::End);
    f.push(Ins::I32Add);
    f.push(Ins::LocalSet(12));
    // out
    f.push(Ins::LocalGet(12));
    f.push(Ins::I32Const(4));
    f.push(Ins::I32Add);
    f.push(Ins::Call(rc_new));
    f.push(Ins::LocalSet(10));
    f.push(Ins::LocalGet(10));
    f.push(Ins::LocalGet(12));
    f.push(Ins::I32Store(m(0)));
    f.push(Ins::I32Const(4));
    f.push(Ins::LocalSet(11));
    // sign
    f.push(Ins::LocalGet(2));
    f.push(Ins::If(BlockTy::Empty));
    f.push(Ins::LocalGet(10));
    f.push(Ins::LocalGet(11));
    f.push(Ins::I32Add);
    f.push(Ins::I32Const(45));
    f.push(Ins::I32Store8(m(0)));
    f.push(Ins::LocalGet(11));
    f.push(Ins::I32Const(1));
    f.push(Ins::I32Add);
    f.push(Ins::LocalSet(11));
    f.push(Ins::End);
    // integer digits
    f.push(Ins::LocalGet(10));
    f.push(Ins::LocalGet(11));
    f.push(Ins::I32Add);
    f.push(Ins::LocalGet(6));
    f.push(Ins::I32Const(4));
    f.push(Ins::I32Add);
    f.push(Ins::LocalGet(7));
    f.push(Ins::MemoryCopy {
        src_mem: 0,
        dst_mem: 0,
    });
    f.push(Ins::LocalGet(11));
    f.push(Ins::LocalGet(7));
    f.push(Ins::I32Add);
    f.push(Ins::LocalSet(11));
    // fraction: '.' then lead zeros then fs_str[0..k]
    f.push(Ins::LocalGet(14));
    f.push(Ins::I32Const(0));
    f.push(Ins::I32GtU);
    f.push(Ins::If(BlockTy::Empty));
    f.push(Ins::LocalGet(10));
    f.push(Ins::LocalGet(11));
    f.push(Ins::I32Add);
    f.push(Ins::I32Const(46));
    f.push(Ins::I32Store8(m(0)));
    f.push(Ins::LocalGet(11));
    f.push(Ins::I32Const(1));
    f.push(Ins::I32Add);
    f.push(Ins::LocalSet(11));
    // lead zeros
    f.push(Ins::I32Const(0));
    f.push(Ins::LocalSet(9));
    f.push(Ins::Block(BlockTy::Empty));
    f.push(Ins::Loop(BlockTy::Empty));
    f.push(Ins::LocalGet(9));
    f.push(Ins::LocalGet(13));
    f.push(Ins::I32GeU);
    f.push(Ins::BrIf(1));
    f.push(Ins::LocalGet(10));
    f.push(Ins::LocalGet(11));
    f.push(Ins::I32Add);
    f.push(Ins::I32Const(48));
    f.push(Ins::I32Store8(m(0)));
    f.push(Ins::LocalGet(11));
    f.push(Ins::I32Const(1));
    f.push(Ins::I32Add);
    f.push(Ins::LocalSet(11));
    f.push(Ins::LocalGet(9));
    f.push(Ins::I32Const(1));
    f.push(Ins::I32Add);
    f.push(Ins::LocalSet(9));
    f.push(Ins::Br(0));
    f.push(Ins::End);
    f.push(Ins::End);
    // fs_str[0..k]
    f.push(Ins::LocalGet(10));
    f.push(Ins::LocalGet(11));
    f.push(Ins::I32Add);
    f.push(Ins::LocalGet(8));
    f.push(Ins::I32Const(4));
    f.push(Ins::I32Add);
    f.push(Ins::LocalGet(14));
    f.push(Ins::MemoryCopy {
        src_mem: 0,
        dst_mem: 0,
    });
    f.push(Ins::End);
    f.push(Ins::LocalGet(10));
    f.push(Ins::End);
    assert(f.locals() =~= seq![(1u32, ValTy::F64), (1u32, ValTy::I32), (1u32, ValTy::I64), (1u32, ValTy::F64), (1u32, ValTy::I64), (9u32, ValTy::I32), (3u32, ValTy::F64), (3u32, ValTy::I32)]);
    f.finish()
}

/// `c` followed by one byte store per byte of `bytes`, after the length word of the
/// string in local `10`.
pub open spec fn make_stores_code(c: Seq<Ins>, bytes: Seq<u8>) -> Seq<Ins>
    decreases bytes.len(),
{
    if bytes.len() == 0 {
        c
    } else {
        make_stores_code(c, bytes.drop_last())
            .push(Ins::LocalGet(10))
            .push(Ins::I32Const((bytes.len() - 1 + 4) as i32))
            .push(Ins::I32Add)
            .push(Ins::I32Const(bytes.last() as i32))
            .push(Ins::I32Store8(m(0)))
    }
}

/// `c` followed by the code that `make` emits: allocate the string, store its length and
/// bytes, and return it.
#[verifier::opaque]
pub open spec fn make_code(c: Seq<Ins>, rc_new: u32, bytes: Seq<u8>) -> Seq<Ins> {
    let c = c
        .push(Ins::I32Const((bytes.len() + 4) as i32))
        .push(Ins::Call(rc_new))
        .push(Ins::LocalTee(10))
        .push(Ins::I32Const(bytes.len() as i32))
        .push(Ins::I32Store(m(0)));
    make_stores_code(c, bytes).push(Ins::LocalGet(10)).push(Ins::Return)
}

/// The code that `large_value` appends to `c`: for a magnitude (local 1) of
/// at least 2^53, the shortest digits `d` and power `10^k` whose product
/// gives the magnitude back (17 digits at most), printed as the digits of
/// `d` followed by `k` zeros, after a `-` for a negative value.
pub open spec fn large_value_code(c: Seq<Ins>, rc_new: u32, format: u32) -> Seq<Ins> {
    c
        .push(Ins::LocalGet(1))
        .push(Ins::F64Const(0x4340000000000000))
        .push(Ins::F64Ge)
        .push(Ins::If(BlockTy::Empty))
        .push(Ins::I32Const(0))
        .push(Ins::LocalSet(18))
        .push(Ins::LocalGet(1))
        .push(Ins::LocalSet(15))
        .push(Ins::Block(BlockTy::Empty))
        .push(Ins::Loop(BlockTy::Empty))
        .push(Ins::LocalGet(15))
        .push(Ins::F64Const(0x4024000000000000))
        .push(Ins::F64Lt)
        .push(Ins::BrIf(1))
        .push(Ins::LocalGet(15))
        .push(Ins::F64Const(0x4024000000000000))
        .push(Ins::F64Div)
        .push(Ins::LocalSet(15))
        .push(Ins::LocalGet(18))
        .push(Ins::I32Const(1))
        .push(Ins::I32Add)
        .push(Ins::LocalSet(18))
        .push(Ins::Br(0))
        .push(Ins::End)
        .push(Ins::End)
        .push(Ins::LocalGet(18))
        .push(Ins::LocalSet(19))
        .push(Ins::Block(BlockTy::Empty))
        .push(Ins::Loop(BlockTy::Empty))
        .push(Ins::F64Const(0x3ff0000000000000))
        .push(Ins::LocalSet(16))
        .push(Ins::I32Const(0))
        .push(Ins::LocalSet(20))
        .push(Ins::Block(BlockTy::Empty))
        .push(Ins::Loop(BlockTy::Empty))
        .push(Ins::LocalGet(20))
        .push(Ins::LocalGet(19))
        .push(Ins::I32GeU)
        .push(Ins::BrIf(1))
        .push(Ins::LocalGet(16))
        .push(Ins::F64Const(0x4024000000000000))
        .push(Ins::F64Mul)
        .push(Ins::LocalSet(16))
        .push(Ins::LocalGet(20))
        .push(Ins::I32Const(1))
        .push(Ins::I32Add)
        .push(Ins::LocalSet(20))
        .push(Ins::Br(0))
        .push(Ins::End)
        .push(Ins::End)
        .push(Ins::LocalGet(1))
        .push(Ins::LocalGet(16))
        .push(Ins::F64Div)
        .push(Ins::F64Const(0x3fe0000000000000))
        .push(Ins::F64Add)
        .push(Ins::F64Trunc)
        .push(Ins::LocalSet(17))
        .push(Ins::LocalGet(17))
        .push(Ins::F64Const(0x4376345785d8a000))
        .push(Ins::F64Lt)
        .push(Ins::LocalGet(17))
        .push(Ins::LocalGet(16))
        .push(Ins::F64Mul)
        .push(Ins::LocalGet(1))
        .push(Ins::F64Eq)
        .push(Ins::I32And)
        .push(Ins::LocalGet(19))
        .push(Ins::I32Const(17))
        .push(Ins::I32Add)
        .push(Ins::LocalGet(18))
        .push(Ins::I32LeU)
        .push(Ins::I32Or)
        .push(Ins::BrIf(1))
        .push(Ins::LocalGet(19))
        .push(Ins::I32Eqz)
        .push(Ins::BrIf(1))
        .push(Ins::LocalGet(19))
        .push(Ins::I32Const(1))
        .push(Ins::I32Sub)
        .push(Ins::LocalSet(19))
        .push(Ins::Br(0))
        .push(Ins::End)
        .push(Ins::End)
        .push(Ins::LocalGet(17))
        .push(Ins::I64TruncSatF64S)
        .push(Ins::Call(format))
        .push(Ins::LocalSet(6))
        .push(Ins::LocalGet(6))
        .push(Ins::I32Load(m(0)))
        .push(Ins::LocalSet(7))
        .push(Ins::LocalGet(2))
        .push(Ins::LocalGet(7))
        .push(Ins::I32Add)
        .push(Ins::LocalGet(19))
        .push(Ins::I32Add)
        .push(Ins::LocalSet(12))
        .push(Ins::LocalGet(12))
        .push(Ins::I32Const(4))
        .push(Ins::I32Add)
        .push(Ins::Call(rc_new))
        .push(Ins::LocalSet(10))
        .push(Ins::LocalGet(10))
        .push(Ins::LocalGet(12))
        .push(Ins::I32Store(m(0)))
        .push(Ins::I32Const(4))
        .push(Ins::LocalSet(11))
        .push(Ins::LocalGet(2))
        .push(Ins::If(BlockTy::Empty))
        .push(Ins::LocalGet(10))
        .push(Ins::LocalGet(11))
        .push(Ins::I32Add)
        .push(Ins::I32Const(45))
        .push(Ins::I32Store8(m(0)))
        .push(Ins::LocalGet(11))
        .push(Ins::I32Const(1))
        .push(Ins::I32Add)
        .push(Ins::LocalSet(11))
        .push(Ins::End)
        .push(Ins::LocalGet(10))
        .push(Ins::LocalGet(11))
        .push(Ins::I32Add)
        .push(Ins::LocalGet(6))
        .push(Ins::I32Const(4))
        .push(Ins::I32Add)
        .push(Ins::LocalGet(7))
        .push(Ins::MemoryCopy { src_mem: 0, dst_mem: 0 })
        .push(Ins::LocalGet(11))
        .push(Ins::LocalGet(7))
        .push(Ins::I32Add)
        .push(Ins::LocalSet(11))
        .push(Ins::I32Const(0))
        .push(Ins::LocalSet(20))
        .push(Ins::Block(BlockTy::Empty))
        .push(Ins::Loop(BlockTy::Empty))
        .push(Ins::LocalGet(20))
        .push(Ins::LocalGet(19))
        .push(Ins::I32GeU)
        .push(Ins::BrIf(1))
        .push(Ins::LocalGet(10))
        .push(Ins::LocalGet(11))
        .push(Ins::I32Add)
        .push(Ins::I32Const(48))
        .push(Ins::I32Store8(m(0)))
        .push(Ins::LocalGet(11))
        .push(Ins::I32Const(1))
        .push(Ins::I32Add)
        .push(Ins::LocalSet(11))
        .push(Ins::LocalGet(20))
        .push(Ins::I32Const(1))
        .push(Ins::I32Add)
        .push(Ins::LocalSet(20))
        .push(Ins::Br(0))
        .push(Ins::End)
        .push(Ins::End)
        .push(Ins::LocalGet(10))
        .push(Ins::Return)
        .push(Ins::End)
}

/// Returns early with the text of a magnitude of at least 2^53 (whose
/// fraction is zero). Locals: 15 = t, 16 = scale, 17 = d (`f64`), 18 = the
/// digit count less one, 19 = k, 20 = a counter (`i32`).
#[verifier::rlimit(100)]
fn large_value(f: &mut Builder, rc_new: u32, format: u32)
    requires
        old(f).wf(),
        old(f).frames().len() >= 1,
        old(f).nlocals() > 20,
    ensures
        final(f).code() == large_value_code(old(f).code(), rc_new, format),
        final(f).wf(),
        final(f).params() == old(f).params(),
        final(f).locals() == old(f).locals(),
        final(f).frames() == old(f).frames(),
{
    f.push(Ins::LocalGet(1));
    f.push(Ins::F64Const(0x4340000000000000));
    f.push(Ins::F64Ge);
    f.push(Ins::If(BlockTy::Empty));
    f.push(Ins::I32Const(0));
    f.push(Ins::LocalSet(18));
    f.push(Ins::LocalGet(1));
    f.push(Ins::LocalSet(15));
    f.push(Ins::Block(BlockTy::Empty));
    f.push(Ins::Loop(BlockTy::Empty));
    f.push(Ins::LocalGet(15));
    f.push(Ins::F64Const(0x4024000000000000));
    f.push(Ins::F64Lt);
    f.push(Ins::BrIf(1));
    f.push(Ins::LocalGet(15));
    f.push(Ins::F64Const(0x4024000000000000));
    f.push(Ins::F64Div);
    f.push(Ins::LocalSet(15));
    f.push(Ins::LocalGet(18));
    f.push(Ins::I32Const(1));
    f.push(Ins::I32Add);
    f.push(Ins::LocalSet(18));
    f.push(Ins::Br(0));
    f.push(Ins::End);
    f.push(Ins::End);
    f.push(Ins::LocalGet(18));
    f.push(Ins::LocalSet(19));
    f.push(Ins::Block(BlockTy::Empty));
    f.push(Ins::Loop(BlockTy::Empty));
    f.push(Ins::F64Const(0x3ff0000000000000));
    f.push(Ins::LocalSet(16));
    f.push(Ins::I32Const(0));
    f.push(Ins::LocalSet(20));
    f.push(Ins::Block(BlockTy::Empty));
    f.push(Ins::Loop(BlockTy::Empty));
    f.push(Ins::LocalGet(20));
    f.push(Ins::LocalGet(19));
    f.push(Ins::I32GeU);
    f.push(Ins::BrIf(1));
    f.push(Ins::LocalGet(16));
    f.push(Ins::F64Const(0x4024000000000000));
    f.push(Ins::F64Mul);
    f.push(Ins::LocalSet(16));
    f.push(Ins::LocalGet(20));
    f.push(Ins::I32Const(1));
    f.push(Ins::I32Add);
    f.push(Ins::LocalSet(20));
    f.push(Ins::Br(0));
    f.push(Ins::End);
    f.push(Ins::End);
    f.push(Ins::LocalGet(1));
    f.push(Ins::LocalGet(16));
    f.push(Ins::F64Div);
    f.push(Ins::F64Const(0x3fe0000000000000));
    f.push(Ins::F64Add);
    f.push(Ins::F64Trunc);
    f.push(Ins::LocalSet(17));
    f.push(Ins::LocalGet(17));
    f.push(Ins::F64Const(0x4376345785d8a000));
    f.push(Ins::F64Lt);
    f.push(Ins::LocalGet(17));
    f.push(Ins::LocalGet(16));
    f.push(Ins::F64Mul);
    f.push(Ins::LocalGet(1));
    f.push(Ins::F64Eq);
    f.push(Ins::I32And);
    f.push(Ins::LocalGet(19));
    f.push(Ins::I32Const(17));
    f.push(Ins::I32Add);
    f.push(Ins::LocalGet(18));
    f.push(Ins::I32LeU);
    f.push(Ins::I32Or);
    f.push(Ins::BrIf(1));
    f.push(Ins::LocalGet(19));
    f.push(Ins::I32Eqz);
    f.push(Ins::BrIf(1));
    f.push(Ins::LocalGet(19));
    f.push(Ins::I32Const(1));
    f.push(Ins::I32Sub);
    f.push(Ins::LocalSet(19));
    f.push(Ins::Br(0));
    f.push(Ins::End);
    f.push(Ins::End);
    f.push(Ins::LocalGet(17));
    f.push(Ins::I64TruncSatF64S);
    f.push(Ins::Call(format));
    f.push(Ins::LocalSet(6));
    f.push(Ins::LocalGet(6));
    f.push(Ins::I32Load(m(0)));
    f.push(Ins::LocalSet(7));
    f.push(Ins::LocalGet(2));
    f.push(Ins::LocalGet(7));
    f.push(Ins::I32Add);
    f.push(Ins::LocalGet(19));
    f.push(Ins::I32Add);
    f.push(Ins::LocalSet(12));
    f.push(Ins::LocalGet(12));
    f.push(Ins::I32Const(4));
    f.push(Ins::I32Add);
    f.push(Ins::Call(rc_new));
    f.push(Ins::LocalSet(10));
    f.push(Ins::LocalGet(10));
    f.push(Ins::LocalGet(12));
    f.push(Ins::I32Store(m(0)));
    f.push(Ins::I32Const(4));
    f.push(Ins::LocalSet(11));
    f.push(Ins::LocalGet(2));
    f.push(Ins::If(BlockTy::Empty));
    f.push(Ins::LocalGet(10));
    f.push(Ins::LocalGet(11));
    f.push(Ins::I32Add);
    f.push(Ins::I32Const(45));
    f.push(Ins::I32Store8(m(0)));
    f.push(Ins::LocalGet(11));
    f.push(Ins::I32Const(1));
    f.push(Ins::I32Add);
    f.push(Ins::LocalSet(11));
    f.push(Ins::End);
    f.push(Ins::LocalGet(10));
    f.push(Ins::LocalGet(11));
    f.push(Ins::I32Add);
    f.push(Ins::LocalGet(6));
    f.push(Ins::I32Const(4));
    f.push(Ins::I32Add);
    f.push(Ins::LocalGet(7));
    f.push(Ins::MemoryCopy { src_mem: 0, dst_mem: 0 });
    f.push(Ins::LocalGet(11));
    f.push(Ins::LocalGet(7));
    f.push(Ins::I32Add);
    f.push(Ins::LocalSet(11));
    f.push(Ins::I32Const(0));
    f.push(Ins::LocalSet(20));
    f.push(Ins::Block(BlockTy::Empty));
    f.push(Ins::Loop(BlockTy::Empty));
    f.push(Ins::LocalGet(20));
    f.push(Ins::LocalGet(19));
    f.push(Ins::I32GeU);
    f.push(Ins::BrIf(1));
    f.push(Ins::LocalGet(10));
    f.push(Ins::LocalGet(11));
    f.push(Ins::I32Add);
    f.push(Ins::I32Const(48));
    f.push(Ins::I32Store8(m(0)));
    f.push(Ins::LocalGet(11));
    f.push(Ins::I32Const(1));
    f.push(Ins::I32Add);
    f.push(Ins::LocalSet(11));
    f.push(Ins::LocalGet(20));
    f.push(Ins::I32Const(1));
    f.push(Ins::I32Add);
    f.push(Ins::LocalSet(20));
    f.push(Ins::Br(0));
    f.push(Ins::End);
    f.push(Ins::End);
    f.push(Ins::LocalGet(10));
    f.push(Ins::Return);
    f.push(Ins::End);
    assert(f.frames() =~= old(f).frames());
    assert(f.code() =~= large_value_code(old(f).code(), rc_new, format));
}

/// Emits code that builds and returns the string with bytes `bytes`.
fn make(f: &mut Builder, rc_new: u32, bytes: &[u8])
    requires
        old(f).wf(),
        old(f).frames().len() >= 1,
        old(f).nlocals() > 10,
        bytes@.len() <= 64,
    ensures
        final(f).code() == make_code(old(f).code(), rc_new, bytes@),
        final(f).wf(),
        final(f).params() == old(f).params(),
        final(f).locals() == old(f).locals(),
        final(f).frames() == old(f).frames(),
{
    proof {
        reveal(make_code);
    }
    f.push(Ins::I32Const(bytes.len() as i32 + 4));
    f.push(Ins::Call(rc_new));
    f.push(Ins::LocalTee(10));
    f.push(Ins::I32Const(bytes.len() as i32));
    f.push(Ins::I32Store(m(0)));
    let ghost start = f.code();
    let mut index: usize = 0;
    while index < bytes.len()
        invariant
            f.wf(),
            f.params() == old(f).params(),
            f.locals() == old(f).locals(),
            f.frames() == old(f).frames(),
            old(f).nlocals() > 10,
            old(f).frames().len() >= 1,
            bytes@.len() <= 64,
            index <= bytes@.len(),
            f.code() == make_stores_code(start, bytes@.subrange(0, index as int)),
        decreases bytes@.len() - index,
    {
        assert(bytes@.subrange(0, index + 1).drop_last() =~= bytes@.subrange(0, index as int));
        f.push(Ins::LocalGet(10));
        f.push(Ins::I32Const(index as i32 + 4));
        f.push(Ins::I32Add);
        f.push(Ins::I32Const(bytes[index] as i32));
        f.push(Ins::I32Store8(m(0)));
        index = index + 1;
    }
    assert(bytes@.subrange(0, bytes@.len() as int) =~= bytes@);
    f.push(Ins::LocalGet(10));
    f.push(Ins::Return);
}

} // verus!
