//! Laws on what emitted code computes, stated over the machine of
//! `semantics`: each says what running an emitted sequence does to the
//! values it reads, in the terms of the source operation.
use vstd::prelude::*;
use crate::wasm::lower::{set_code, unary_code, Values};
use crate::wasm::mir::{UnaryOp, ValueId};
use crate::wasm::model::{m, BlockTy, Ins, ValTy};
use crate::wasm::strings::{map_bytes_body_code, push_len_code};
use crate::wasm::runtime::format_body_code;
use crate::wasm::select::{binary_ins, is_comparison, BinaryOp};
use crate::wasm::semantics::{
    lemma_exec_i32_eqz, lemma_exec_binary, lemma_exec_get, lemma_exec_i32_const, lemma_exec_i64_const, lemma_exec_i64_eqz, lemma_exec_load8,
    lemma_exec_set, lemma_exec_store8, lemma_run_append, lemma_run_if, lemma_run_if_else, lemma_exec_tee, lemma_exec_wrap, store_byte,
    run_while_below, run_while_nonzero, binary_value, exec_ins, flag, modulus, pop_vals, push_val, run, signed, top, trunc_div, unsigned, wrap, Machine, Val,
    Width,
};

verus! {

/// Two's complement negation of an `i64`, as an integer.
proof fn lemma_wrap_negate(x: i64)
    ensures
        wrap(Width::W64, 0 - x) == Val::I64(if x == i64::MIN { i64::MIN } else { (-x) as i64 }),
{
}

/// Negating an integer operand `x` stores its arithmetic negation `-x` in
/// the result's local (with `i64::MIN`, whose negation does not fit, left as
/// it is, as two's complement wraps it), and changes nothing else.
pub proof fn lemma_negate_integer(vals: &Values, value: ValueId, operand: ValueId, m: Machine, x: i64)
    requires
        vals.has(operand),
        vals.has(value),
        vals.vty_of(operand) == ValTy::I64,
        m.locals.contains_key(vals.slot(operand).local),
        m.locals.contains_key(vals.slot(value).local),
        m.locals[vals.slot(operand).local] == Val::I64(x),
    ensures
        run(m, unary_code(vals, value, UnaryOp::Negate, operand)) == Some(Machine {
            locals: m.locals.insert(
                vals.slot(value).local,
                Val::I64(if x == i64::MIN { i64::MIN } else { (-x) as i64 }),
            ),
            ..m
        }),
{
    let src = vals.slot(operand).local;
    let dst = vals.slot(value).local;
    reveal(set_code);
    assert(vals.vty_of(operand) == ValTy::I64);
    assert(unary_code(vals, value, UnaryOp::Negate, operand)
        == seq![Ins::I64Const(0), Ins::LocalGet(src), Ins::I64Sub] + seq![Ins::LocalSet(dst)]);
    assert(unary_code(vals, value, UnaryOp::Negate, operand)
        =~= seq![Ins::I64Const(0), Ins::LocalGet(src), Ins::I64Sub, Ins::LocalSet(dst)]);
    lemma_negate_code(m, src, dst, x);
}

/// One instruction other than `if` runs as `exec_ins` says, then the rest.
proof fn lemma_run_first(m: Machine, code: Seq<Ins>)
    requires
        code.len() > 0,
        !(code[0] is If),
    ensures
        run(m, code) == match exec_ins(m, code[0]) {
            Some(m2) => run(m2, code.drop_first()),
            None => None,
        },
{
    reveal(run);
}

/// Running no code leaves the machine as it is.
proof fn lemma_run_empty(m: Machine)
    ensures
        run(m, Seq::<Ins>::empty()) == Some(m),
{
    reveal(run);
}

/// The negation sequence on a local holding `x`.
proof fn lemma_negate_code(m: Machine, src: u32, dst: u32, x: i64)
    requires
        m.locals.contains_key(src),
        m.locals.contains_key(dst),
        m.locals[src] == Val::I64(x),
    ensures
        run(m, seq![Ins::I64Const(0), Ins::LocalGet(src), Ins::I64Sub, Ins::LocalSet(dst)]) == Some(Machine {
            locals: m.locals.insert(dst, Val::I64(if x == i64::MIN { i64::MIN } else { (-x) as i64 })),
            ..m
        }),
{
    let neg = Val::I64(if x == i64::MIN { i64::MIN } else { (-x) as i64 });
    lemma_wrap_negate(x);
    let c0 = seq![Ins::I64Const(0), Ins::LocalGet(src), Ins::I64Sub, Ins::LocalSet(dst)];
    let c1 = seq![Ins::LocalGet(src), Ins::I64Sub, Ins::LocalSet(dst)];
    let c2 = seq![Ins::I64Sub, Ins::LocalSet(dst)];
    let c3 = seq![Ins::LocalSet(dst)];
    assert(c0.drop_first() =~= c1);
    assert(c1.drop_first() =~= c2);
    assert(c2.drop_first() =~= c3);
    assert(c3.drop_first() =~= Seq::<Ins>::empty());
    let m1 = push_val(m, Val::I64(0));
    let m2 = push_val(m1, Val::I64(x));
    let m3 = push_val(pop_vals(m2, 2), neg);
    let m4 = Machine { locals: m.locals.insert(dst, neg), ..m };
    lemma_run_first(m, c0);
    lemma_exec_i64_const(m, 0);
    lemma_run_first(m1, c1);
    lemma_exec_get(m1, src);
    lemma_run_first(m2, c2);
    assert(top(m2, 1) == Val::I64(0));
    assert(top(m2, 0) == Val::I64(x));
    assert(binary_value(Ins::I64Sub, Val::I64(0), Val::I64(x)) == Some(neg));
    lemma_exec_binary(m2, Ins::I64Sub);
    lemma_run_first(m3, c3);
    assert(pop_vals(m3, 1).stack =~= m.stack);
    lemma_exec_set(m3, dst);
    assert(exec_ins(m3, Ins::LocalSet(dst)) == Some(m4));
    lemma_run_empty(m4);
}

/// How a source operand of a binary operator is read as an integer:
/// by its unsigned value when the operands are of an unsigned type.
pub open spec fn reading(v: Val, unsigned_operands: bool) -> int {
    if unsigned_operands { unsigned(v) } else { signed(v) }
}

/// Whether the relation that a comparison operator names holds of `x` and `y`.
pub open spec fn relation_holds(op: BinaryOp, x: int, y: int) -> bool {
    match op {
        BinaryOp::Equal => x == y,
        BinaryOp::NotEqual => x != y,
        BinaryOp::Less => x < y,
        BinaryOp::LessEqual => x <= y,
        BinaryOp::Greater => x > y,
        BinaryOp::GreaterEqual => x >= y,
        _ => false,
    }
}

/// The integer an arithmetic operator gives on `x` and `y`, before it is
/// brought to the operand width: the sum, difference, product, quotient
/// rounded toward zero, or the remainder that goes with that quotient.
pub open spec fn arithmetic(op: BinaryOp, x: int, y: int) -> int {
    match op {
        BinaryOp::Add => x + y,
        BinaryOp::Subtract => x - y,
        BinaryOp::Multiply => x * y,
        BinaryOp::Divide => trunc_div(x, y),
        _ => x - y * trunc_div(x, y),
    }
}

/// The width of an integer value type.
pub open spec fn width(ty: ValTy) -> Width {
    if ty == ValTy::I32 { Width::W32 } else { Width::W64 }
}

/// The operand conditions of `lemma_binary_meaning`.
pub open spec fn operands_fit(op: BinaryOp, ty: ValTy, unsigned_operands: bool, a: Val, b: Val) -> bool {
    &&& binary_ins(op, ty, unsigned_operands) is Some
    &&& ty == ValTy::I64 ==> a is I64 && b is I64
    &&& ty == ValTy::I32 ==> a is I32 && b is I32 && !unsigned_operands
    &&& ty == ValTy::I64 || ty == ValTy::I32
}

proof fn lemma_comparison_meaning(op: BinaryOp, ty: ValTy, unsigned_operands: bool, a: Val, b: Val)
    requires
        operands_fit(op, ty, unsigned_operands, a, b),
        is_comparison(op),
    ensures
        binary_value(binary_ins(op, ty, unsigned_operands)->0, a, b) == Some(
            flag(relation_holds(op, reading(a, unsigned_operands), reading(b, unsigned_operands))),
        ),
{
}

proof fn lemma_ring_meaning(op: BinaryOp, ty: ValTy, unsigned_operands: bool, a: Val, b: Val)
    requires
        operands_fit(op, ty, unsigned_operands, a, b),
        op is Add || op is Subtract || op is Multiply,
    ensures
        binary_value(binary_ins(op, ty, unsigned_operands)->0, a, b) == Some(
            wrap(width(ty), arithmetic(op, signed(a), signed(b))),
        ),
{
}

proof fn lemma_division_meaning(op: BinaryOp, ty: ValTy, unsigned_operands: bool, a: Val, b: Val)
    requires
        operands_fit(op, ty, unsigned_operands, a, b),
        op is Divide || op is Modulo,
    ensures
        ({
            let (x, y) = (reading(a, unsigned_operands), reading(b, unsigned_operands));
            let ins = binary_ins(op, ty, unsigned_operands)->0;
            &&& y != 0 && (op is Modulo || unsigned_operands || trunc_div(x, y) < modulus(width(ty)) / 2)
                ==> binary_value(ins, a, b) == Some(wrap(width(ty), arithmetic(op, x, y)))
            &&& y == 0 ==> binary_value(ins, a, b) is None
        }),
{
    let (x, y) = (reading(a, unsigned_operands), reading(b, unsigned_operands));
    if unsigned_operands && y != 0 {
        assert(x >= 0 && y > 0);
        assert(trunc_div(x, y) == x / y);
        assert(x - y * (x / y) == x % y) by (nonlinear_arith)
            requires
                y > 0;
    }
}

proof fn lemma_logic_meaning(op: BinaryOp, ty: ValTy, unsigned_operands: bool, a: Val, b: Val)
    requires
        operands_fit(op, ty, unsigned_operands, a, b),
        op is And || op is Or,
        signed(a) == 0 || signed(a) == 1,
        signed(b) == 0 || signed(b) == 1,
    ensures
        binary_value(binary_ins(op, ty, unsigned_operands)->0, a, b) == Some(
            flag(if op is And { signed(a) != 0 && signed(b) != 0 } else { signed(a) != 0 || signed(b) != 0 }),
        ),
{
    assert((0u32 & 0u32) == 0u32 && (0u32 & 1u32) == 0u32 && (1u32 & 0u32) == 0u32 && (1u32 & 1u32) == 1u32)
        by (bit_vector);
    assert((0u32 | 0u32) == 0u32 && (0u32 | 1u32) == 1u32 && (1u32 | 0u32) == 1u32 && (1u32 | 1u32) == 1u32)
        by (bit_vector);
}

/// The instruction chosen for a binary operator on integer operands
/// computes what the operator means: a comparison gives `1` exactly when
/// its relation holds of the operands (read unsigned when they are of an
/// unsigned 64-bit type); addition, subtraction and multiplication give the
/// exact result modulo 2^bits; division and remainder by a non-zero divisor
/// give the quotient rounded toward zero and its remainder (signed division
/// whose quotient does not fit traps), and by zero trap; `and` and `or` on
/// booleans give their logical value.
pub proof fn lemma_binary_meaning(op: BinaryOp, ty: ValTy, unsigned_operands: bool, a: Val, b: Val)
    requires
        binary_ins(op, ty, unsigned_operands) is Some,
        ty == ValTy::I64 ==> a is I64 && b is I64,
        ty == ValTy::I32 ==> a is I32 && b is I32 && !unsigned_operands,
        ty == ValTy::I64 || ty == ValTy::I32,
    ensures
        ({
            let ins = binary_ins(op, ty, unsigned_operands)->0;
            let (x, y) = (reading(a, unsigned_operands), reading(b, unsigned_operands));
            &&& is_comparison(op) ==> binary_value(ins, a, b) == Some(flag(relation_holds(op, x, y)))
            &&& (op is Add || op is Subtract || op is Multiply) ==> binary_value(ins, a, b) == Some(
                wrap(width(ty), arithmetic(op, signed(a), signed(b))),
            )
            &&& (op is Divide || op is Modulo) && y != 0 && (op is Modulo || unsigned_operands || trunc_div(x, y)
                < modulus(width(ty)) / 2) ==> binary_value(ins, a, b) == Some(wrap(width(ty), arithmetic(op, x, y)))
            &&& (op is Divide || op is Modulo) && y == 0 ==> binary_value(ins, a, b) is None
            &&& (op is And || op is Or) && (x == 0 || x == 1) && (y == 0 || y == 1) ==> binary_value(ins, a, b)
                == Some(flag(if op is And { x != 0 && y != 0 } else { x != 0 || y != 0 }))
        }),
{
    if is_comparison(op) {
        lemma_comparison_meaning(op, ty, unsigned_operands, a, b);
    } else if op is Add || op is Subtract || op is Multiply {
        lemma_ring_meaning(op, ty, unsigned_operands, a, b);
    } else if op is Divide || op is Modulo {
        lemma_division_meaning(op, ty, unsigned_operands, a, b);
    } else {
        if (reading(a, unsigned_operands) == 0 || reading(a, unsigned_operands) == 1)
            && (reading(b, unsigned_operands) == 0 || reading(b, unsigned_operands) == 1) {
            lemma_logic_meaning(op, ty, unsigned_operands, a, b);
        }
    }
}

/// The byte that case mapping by `delta` makes of `b`: with `delta` = 32
/// an ASCII capital (`'A'` to `'Z'`) becomes its small letter; with `delta`
/// = -32 an ASCII small letter (`'a'` to `'z'`) becomes its capital; every
/// other byte stays.
pub open spec fn case_mapped(b: u8, delta: i32) -> u8 {
    if delta == 32 && 'A' as u8 <= b <= 'Z' as u8 {
        (b + 32) as u8
    } else if delta == -32 && 'a' as u8 <= b <= 'z' as u8 {
        (b - 32) as u8
    } else {
        b
    }
}

/// `i32.add` of two values whose sum fits.
proof fn lemma_i32_add(x: i32, y: i32)
    requires
        i32::MIN <= x + y <= i32::MAX,
    ensures
        binary_value(Ins::I32Add, Val::I32(x), Val::I32(y)) == Some(Val::I32((x + y) as i32)),
{
}

/// Reads the byte at `s + 4 + i` into local 5.
proof fn lemma_load_byte(st: Machine, s: i32, i: i32)
    requires
        st.locals.contains_key(0) && st.locals.contains_key(4) && st.locals.contains_key(5),
        st.locals[0] == Val::I32(s),
        st.locals[4] == Val::I32(i),
        0 <= s && 0 <= i && s + 4 + i < 0x8000_0000,
    ensures
        run(st, seq![Ins::LocalGet(0), Ins::I32Const(4), Ins::I32Add, Ins::LocalGet(4), Ins::I32Add, Ins::I32Load8U(m(0)), Ins::LocalSet(5)])
            == Some(Machine { locals: st.locals.insert(5, Val::I32((st.mem)(s + 4 + i) as i32)), ..st }),
{
    let c0 = seq![Ins::LocalGet(0), Ins::I32Const(4), Ins::I32Add, Ins::LocalGet(4), Ins::I32Add, Ins::I32Load8U(m(0)), Ins::LocalSet(5)];
    let c1 = seq![Ins::I32Const(4), Ins::I32Add, Ins::LocalGet(4), Ins::I32Add, Ins::I32Load8U(m(0)), Ins::LocalSet(5)];
    let c2 = seq![Ins::I32Add, Ins::LocalGet(4), Ins::I32Add, Ins::I32Load8U(m(0)), Ins::LocalSet(5)];
    let c3 = seq![Ins::LocalGet(4), Ins::I32Add, Ins::I32Load8U(m(0)), Ins::LocalSet(5)];
    let c4 = seq![Ins::I32Add, Ins::I32Load8U(m(0)), Ins::LocalSet(5)];
    let c5 = seq![Ins::I32Load8U(m(0)), Ins::LocalSet(5)];
    let c6 = seq![Ins::LocalSet(5)];
    let c7 = Seq::<Ins>::empty();
    assert(c0.drop_first() =~= c1);
    assert(c1.drop_first() =~= c2);
    assert(c2.drop_first() =~= c3);
    assert(c3.drop_first() =~= c4);
    assert(c4.drop_first() =~= c5);
    assert(c5.drop_first() =~= c6);
    assert(c6.drop_first() =~= c7);
    let st1 = push_val(st, Val::I32(s));
    lemma_run_first(st, c0);
    lemma_exec_get(st, 0);
    assert(exec_ins(st, Ins::LocalGet(0)) == Some(st1));
    let st2 = push_val(st1, Val::I32(4));
    lemma_run_first(st1, c1);
    lemma_exec_i32_const(st1, 4);
    assert(exec_ins(st1, Ins::I32Const(4)) == Some(st2));
    let st3 = push_val(pop_vals(st2, 2), Val::I32((s + 4) as i32));
    lemma_run_first(st2, c2);
    lemma_i32_add(s, 4);
    lemma_exec_binary(st2, Ins::I32Add);
    assert(exec_ins(st2, Ins::I32Add) == Some(st3));
    let st4 = push_val(st3, Val::I32(i));
    lemma_run_first(st3, c3);
    lemma_exec_get(st3, 4);
    assert(exec_ins(st3, Ins::LocalGet(4)) == Some(st4));
    let st5 = push_val(pop_vals(st4, 2), Val::I32((s + 4 + i) as i32));
    lemma_run_first(st4, c4);
    lemma_i32_add((s + 4) as i32, i);
    lemma_exec_binary(st4, Ins::I32Add);
    assert(exec_ins(st4, Ins::I32Add) == Some(st5));
    let st6 = push_val(pop_vals(st5, 1), Val::I32((st.mem)(s + 4 + i) as i32));
    lemma_run_first(st5, c5);
    lemma_exec_load8(st5, m(0));
    assert(exec_ins(st5, Ins::I32Load8U(m(0))) == Some(st6));
    let st7 = Machine { locals: st6.locals.insert(5, top(st6, 0)), ..pop_vals(st6, 1) };
    lemma_run_first(st6, c6);
    lemma_exec_set(st6, 5);
    assert(exec_ins(st6, Ins::LocalSet(5)) == Some(st7));
    lemma_run_empty(st7);
    assert(st7.stack =~= st.stack);
}

/// `i32.and` of two flags is the flag of both.
proof fn lemma_flag_and(p: bool, q: bool)
    ensures
        binary_value(Ins::I32And, flag(p), flag(q)) == Some(flag(p && q)),
{
    assert((0u32 & 0u32) == 0u32 && (0u32 & 1u32) == 0u32 && (1u32 & 0u32) == 0u32 && (1u32 & 1u32) == 1u32)
        by (bit_vector);
}

/// Pushes whether the byte in local 5 lies in `lo..=hi`.
proof fn lemma_range_flag(st: Machine, b: i32, lo: i32, hi: i32)
    requires
        st.locals.contains_key(5),
        st.locals[5] == Val::I32(b),
        0 <= b && 0 <= lo && 0 <= hi,
    ensures
        run(st, seq![Ins::LocalGet(5), Ins::I32Const(lo), Ins::I32GeU, Ins::LocalGet(5), Ins::I32Const(hi), Ins::I32LeU, Ins::I32And]) == Some(push_val(st, flag(lo <= b <= hi))),
{
    let c0 = seq![Ins::LocalGet(5), Ins::I32Const(lo), Ins::I32GeU, Ins::LocalGet(5), Ins::I32Const(hi), Ins::I32LeU, Ins::I32And];
    let c1 = seq![Ins::I32Const(lo), Ins::I32GeU, Ins::LocalGet(5), Ins::I32Const(hi), Ins::I32LeU, Ins::I32And];
    let c2 = seq![Ins::I32GeU, Ins::LocalGet(5), Ins::I32Const(hi), Ins::I32LeU, Ins::I32And];
    let c3 = seq![Ins::LocalGet(5), Ins::I32Const(hi), Ins::I32LeU, Ins::I32And];
    let c4 = seq![Ins::I32Const(hi), Ins::I32LeU, Ins::I32And];
    let c5 = seq![Ins::I32LeU, Ins::I32And];
    let c6 = seq![Ins::I32And];
    let c7 = Seq::<Ins>::empty();
    assert(c0.drop_first() =~= c1);
    assert(c1.drop_first() =~= c2);
    assert(c2.drop_first() =~= c3);
    assert(c3.drop_first() =~= c4);
    assert(c4.drop_first() =~= c5);
    assert(c5.drop_first() =~= c6);
    assert(c6.drop_first() =~= c7);
    let st1 = push_val(st, Val::I32(b));
    lemma_run_first(st, c0);
    lemma_exec_get(st, 5);
    assert(exec_ins(st, Ins::LocalGet(5)) == Some(st1));
    let st2 = push_val(st1, Val::I32(lo));
    lemma_run_first(st1, c1);
    lemma_exec_i32_const(st1, lo);
    assert(exec_ins(st1, Ins::I32Const(lo)) == Some(st2));
    let st3 = push_val(pop_vals(st2, 2), flag(b >= lo));
    lemma_run_first(st2, c2);
    lemma_exec_binary(st2, Ins::I32GeU);
    assert(exec_ins(st2, Ins::I32GeU) == Some(st3));
    let st4 = push_val(st3, Val::I32(b));
    lemma_run_first(st3, c3);
    lemma_exec_get(st3, 5);
    assert(exec_ins(st3, Ins::LocalGet(5)) == Some(st4));
    let st5 = push_val(st4, Val::I32(hi));
    lemma_run_first(st4, c4);
    lemma_exec_i32_const(st4, hi);
    assert(exec_ins(st4, Ins::I32Const(hi)) == Some(st5));
    let st6 = push_val(pop_vals(st5, 2), flag(b <= hi));
    lemma_run_first(st5, c5);
    lemma_exec_binary(st5, Ins::I32LeU);
    assert(exec_ins(st5, Ins::I32LeU) == Some(st6));
    let st7 = push_val(pop_vals(st6, 2), flag(b >= lo && b <= hi));
    lemma_run_first(st6, c6);
    lemma_flag_and(b >= lo, b <= hi);
    lemma_exec_binary(st6, Ins::I32And);
    assert(exec_ins(st6, Ins::I32And) == Some(st7));
    lemma_run_empty(st7);
    assert(st7.stack =~= st.stack.push(flag(lo <= b <= hi)));
}

/// Adds `delta` to the byte in local 5.
proof fn lemma_shift_byte(st: Machine, b: i32, delta: i32)
    requires
        st.locals.contains_key(5),
        st.locals[5] == Val::I32(b),
        0 <= b <= 255 && -32 <= delta <= 32,
    ensures
        run(st, seq![Ins::LocalGet(5), Ins::I32Const(delta), Ins::I32Add, Ins::LocalSet(5)]) == Some(Machine { locals: st.locals.insert(5, Val::I32((b + delta) as i32)), ..st }),
{
    let c0 = seq![Ins::LocalGet(5), Ins::I32Const(delta), Ins::I32Add, Ins::LocalSet(5)];
    let c1 = seq![Ins::I32Const(delta), Ins::I32Add, Ins::LocalSet(5)];
    let c2 = seq![Ins::I32Add, Ins::LocalSet(5)];
    let c3 = seq![Ins::LocalSet(5)];
    let c4 = Seq::<Ins>::empty();
    assert(c0.drop_first() =~= c1);
    assert(c1.drop_first() =~= c2);
    assert(c2.drop_first() =~= c3);
    assert(c3.drop_first() =~= c4);
    let st1 = push_val(st, Val::I32(b));
    lemma_run_first(st, c0);
    lemma_exec_get(st, 5);
    assert(exec_ins(st, Ins::LocalGet(5)) == Some(st1));
    let st2 = push_val(st1, Val::I32(delta));
    lemma_run_first(st1, c1);
    lemma_exec_i32_const(st1, delta);
    assert(exec_ins(st1, Ins::I32Const(delta)) == Some(st2));
    let st3 = push_val(pop_vals(st2, 2), Val::I32((b + delta) as i32));
    lemma_run_first(st2, c2);
    lemma_i32_add(b, delta);
    lemma_exec_binary(st2, Ins::I32Add);
    assert(exec_ins(st2, Ins::I32Add) == Some(st3));
    let st4 = Machine { locals: st3.locals.insert(5, top(st3, 0)), ..pop_vals(st3, 1) };
    lemma_run_first(st3, c3);
    lemma_exec_set(st3, 5);
    assert(exec_ins(st3, Ins::LocalSet(5)) == Some(st4));
    lemma_run_empty(st4);
    assert(st4.stack =~= st.stack);
}

/// Stores the byte in local 5 at `d + 4 + i`.
proof fn lemma_store_out(st: Machine, d: i32, i: i32, v: i32)
    requires
        st.locals.contains_key(3) && st.locals.contains_key(4) && st.locals.contains_key(5),
        st.locals[3] == Val::I32(d),
        st.locals[4] == Val::I32(i),
        st.locals[5] == Val::I32(v),
        0 <= d && 0 <= i && d + 4 + i < 0x8000_0000 && 0 <= v <= 255,
    ensures
        run(st, seq![Ins::LocalGet(3), Ins::I32Const(4), Ins::I32Add, Ins::LocalGet(4), Ins::I32Add, Ins::LocalGet(5), Ins::I32Store8(m(0))]) == Some(Machine { mem: store_byte(st.mem, d + 4 + i, v as u8), ..st }),
{
    let c0 = seq![Ins::LocalGet(3), Ins::I32Const(4), Ins::I32Add, Ins::LocalGet(4), Ins::I32Add, Ins::LocalGet(5), Ins::I32Store8(m(0))];
    let c1 = seq![Ins::I32Const(4), Ins::I32Add, Ins::LocalGet(4), Ins::I32Add, Ins::LocalGet(5), Ins::I32Store8(m(0))];
    let c2 = seq![Ins::I32Add, Ins::LocalGet(4), Ins::I32Add, Ins::LocalGet(5), Ins::I32Store8(m(0))];
    let c3 = seq![Ins::LocalGet(4), Ins::I32Add, Ins::LocalGet(5), Ins::I32Store8(m(0))];
    let c4 = seq![Ins::I32Add, Ins::LocalGet(5), Ins::I32Store8(m(0))];
    let c5 = seq![Ins::LocalGet(5), Ins::I32Store8(m(0))];
    let c6 = seq![Ins::I32Store8(m(0))];
    let c7 = Seq::<Ins>::empty();
    assert(c0.drop_first() =~= c1);
    assert(c1.drop_first() =~= c2);
    assert(c2.drop_first() =~= c3);
    assert(c3.drop_first() =~= c4);
    assert(c4.drop_first() =~= c5);
    assert(c5.drop_first() =~= c6);
    assert(c6.drop_first() =~= c7);
    let st1 = push_val(st, Val::I32(d));
    lemma_run_first(st, c0);
    lemma_exec_get(st, 3);
    assert(exec_ins(st, Ins::LocalGet(3)) == Some(st1));
    let st2 = push_val(st1, Val::I32(4));
    lemma_run_first(st1, c1);
    lemma_exec_i32_const(st1, 4);
    assert(exec_ins(st1, Ins::I32Const(4)) == Some(st2));
    let st3 = push_val(pop_vals(st2, 2), Val::I32((d + 4) as i32));
    lemma_run_first(st2, c2);
    lemma_i32_add(d, 4);
    lemma_exec_binary(st2, Ins::I32Add);
    assert(exec_ins(st2, Ins::I32Add) == Some(st3));
    let st4 = push_val(st3, Val::I32(i));
    lemma_run_first(st3, c3);
    lemma_exec_get(st3, 4);
    assert(exec_ins(st3, Ins::LocalGet(4)) == Some(st4));
    let st5 = push_val(pop_vals(st4, 2), Val::I32((d + 4 + i) as i32));
    lemma_run_first(st4, c4);
    lemma_i32_add((d + 4) as i32, i);
    lemma_exec_binary(st4, Ins::I32Add);
    assert(exec_ins(st4, Ins::I32Add) == Some(st5));
    let st6 = push_val(st5, Val::I32(v));
    lemma_run_first(st5, c5);
    lemma_exec_get(st5, 5);
    assert(exec_ins(st5, Ins::LocalGet(5)) == Some(st6));
    let st7 = Machine { mem: store_byte(st6.mem, unsigned(top(st6, 1)) + m(0).offset, (unsigned(top(st6, 0)) % 256) as u8), ..pop_vals(st6, 2) };
    lemma_run_first(st6, c6);
    lemma_exec_store8(st6, m(0));
    assert(exec_ins(st6, Ins::I32Store8(m(0))) == Some(st7));
    lemma_run_empty(st7);
    assert(st7.stack =~= st.stack);
    assert(st7.mem == store_byte(st.mem, d + 4 + i, v as u8));
}

/// The code of one step of the copy loop of `map_bytes_body`, from reading
/// the source byte to storing the output byte.
pub open spec fn case_step_code(delta: i32) -> Seq<Ins> {
    let lo: i32 = if delta == 32 { 65 } else { 97 };
    let hi: i32 = if delta == 32 { 90 } else { 122 };
    seq![
        Ins::LocalGet(0), Ins::I32Const(4), Ins::I32Add, Ins::LocalGet(4), Ins::I32Add, Ins::I32Load8U(m(0)),
        Ins::LocalSet(5),
    ] + (seq![
        Ins::LocalGet(5), Ins::I32Const(lo), Ins::I32GeU, Ins::LocalGet(5), Ins::I32Const(hi), Ins::I32LeU, Ins::I32And,
    ] + (seq![Ins::If(BlockTy::Empty)] + seq![Ins::LocalGet(5), Ins::I32Const(delta), Ins::I32Add, Ins::LocalSet(5)]
        + seq![Ins::End] + seq![
        Ins::LocalGet(3), Ins::I32Const(4), Ins::I32Add, Ins::LocalGet(4), Ins::I32Add, Ins::LocalGet(5),
        Ins::I32Store8(m(0)),
    ]))
}

/// The copy-loop step followed by `tail`.
proof fn lemma_case_step_then(delta: i32, st: Machine, s: i32, d: i32, i: i32, tail: Seq<Ins>)
    requires
        delta == 32 || delta == -32,
        st.locals.contains_key(0) && st.locals.contains_key(3) && st.locals.contains_key(4) && st.locals.contains_key(5),
        st.locals[0] == Val::I32(s),
        st.locals[3] == Val::I32(d),
        st.locals[4] == Val::I32(i),
        0 <= s && 0 <= d && 0 <= i && s + 4 + i < 0x8000_0000 && d + 4 + i < 0x8000_0000,
    ensures
        ({
            let mapped = case_mapped((st.mem)(s + 4 + i), delta);
            run(st, case_step_code(delta) + tail) == run(
                Machine {
                    stack: st.stack,
                    locals: st.locals.insert(5, Val::I32(mapped as i32)),
                    mem: store_byte(st.mem, d + 4 + i, mapped),
                },
                tail,
            )
        }),
{
    let lo: i32 = if delta == 32 { 65 } else { 97 };
    let hi: i32 = if delta == 32 { 90 } else { 122 };
    let p1 = seq![
        Ins::LocalGet(0), Ins::I32Const(4), Ins::I32Add, Ins::LocalGet(4), Ins::I32Add,
        Ins::I32Load8U(m(0)), Ins::LocalSet(5),
    ];
    let p2 = seq![
        Ins::LocalGet(5), Ins::I32Const(lo), Ins::I32GeU, Ins::LocalGet(5), Ins::I32Const(hi), Ins::I32LeU, Ins::I32And,
    ];
    let body = seq![Ins::LocalGet(5), Ins::I32Const(delta), Ins::I32Add, Ins::LocalSet(5)];
    let p3 = seq![
        Ins::LocalGet(3), Ins::I32Const(4), Ins::I32Add, Ins::LocalGet(4), Ins::I32Add, Ins::LocalGet(5),
        Ins::I32Store8(m(0)),
    ];
    let q = seq![Ins::If(BlockTy::Empty)] + body + seq![Ins::End] + (p3 + tail);
    assert(case_step_code(delta) + tail =~= p1 + (p2 + q));
    let b = (st.mem)(s + 4 + i);
    let mapped = case_mapped(b, delta);
    lemma_load_byte(st, s, i);
    let st1 = Machine { locals: st.locals.insert(5, Val::I32(b as i32)), ..st };
    lemma_run_append(st, p1, p2 + q);
    lemma_range_flag(st1, b as i32, lo, hi);
    let st2 = push_val(st1, flag(lo <= b <= hi));
    lemma_run_append(st1, p2, q);
    assert(pop_vals(st2, 1).stack =~= st1.stack);
    assert(pop_vals(st2, 1) == st1);
    lemma_run_if(st2, body, p3 + tail);
    if lo <= b <= hi {
        lemma_shift_byte(st1, b as i32, delta);
        let st3 = Machine { locals: st1.locals.insert(5, Val::I32((b + delta) as i32)), ..st1 };
        assert(mapped as i32 == (b + delta) as i32);
        lemma_store_out(st3, d, i, mapped as i32);
        lemma_run_append(st3, p3, tail);
        assert(st3.locals =~= st.locals.insert(5, Val::I32(mapped as i32)));
    } else {
        assert(mapped == b);
        lemma_store_out(st1, d, i, mapped as i32);
        lemma_run_append(st1, p3, tail);
    }
}

/// Each step of the copy loop of `map_bytes_body` (the code from reading
/// the source byte to storing the output byte) stores at index `i` of the
/// output the case mapping by `delta` of the byte at index `i` of the
/// input, keeps it in local 5, and changes nothing else.
pub proof fn lemma_case_mapping_step(rc_new: u32, delta: i32, st: Machine, s: i32, d: i32, i: i32)
    requires
        delta == 32 || delta == -32,
        st.locals.contains_key(0) && st.locals.contains_key(3) && st.locals.contains_key(4) && st.locals.contains_key(5),
        st.locals[0] == Val::I32(s),
        st.locals[3] == Val::I32(d),
        st.locals[4] == Val::I32(i),
        0 <= s && 0 <= d && 0 <= i && s + 4 + i < 0x8000_0000 && d + 4 + i < 0x8000_0000,
    ensures
        ({
            let mapped = case_mapped((st.mem)(s + 4 + i), delta);
            run(st, map_bytes_body_code(rc_new, delta).subrange(19, 46)) == Some(Machine {
                stack: st.stack,
                locals: st.locals.insert(5, Val::I32(mapped as i32)),
                mem: store_byte(st.mem, d + 4 + i, mapped),
            })
        }),
{
    lemma_map_bytes_step_at(rc_new, delta);
    assert(case_step_code(delta) + Seq::<Ins>::empty() =~= case_step_code(delta));
    lemma_case_step_then(delta, st, s, d, i, Seq::<Ins>::empty());
    let mapped = case_mapped((st.mem)(s + 4 + i), delta);
    lemma_run_empty(Machine {
        stack: st.stack,
        locals: st.locals.insert(5, Val::I32(mapped as i32)),
        mem: store_byte(st.mem, d + 4 + i, mapped),
    });
}

/// Where the copy-loop step stands in `map_bytes_body_code`.
#[verifier::spinoff_prover]
#[verifier::rlimit(100)]
proof fn lemma_map_bytes_step_at(rc_new: u32, delta: i32)
    ensures
        map_bytes_body_code(rc_new, delta).len() >= 53,
        map_bytes_body_code(rc_new, delta).subrange(19, 46) == case_step_code(delta),
        map_bytes_body_code(rc_new, delta).subrange(19, 50) == case_step_code(delta) + seq![Ins::LocalGet(4), Ins::I32Const(1), Ins::I32Add, Ins::LocalSet(4)],
{
    reveal(map_bytes_body_code);
    reveal(push_len_code);
    assert(map_bytes_body_code(rc_new, delta).subrange(19, 46) =~= case_step_code(delta));
    assert(map_bytes_body_code(rc_new, delta).subrange(19, 50) =~= case_step_code(delta) + seq![Ins::LocalGet(4), Ins::I32Const(1), Ins::I32Add, Ins::LocalSet(4)]);
}

/// How the copy loop of `map_bytes_body_code` is laid out around its step.
#[verifier::spinoff_prover]
#[verifier::rlimit(100)]
proof fn lemma_map_bytes_loop_at(rc_new: u32, delta: i32)
    ensures
        map_bytes_body_code(rc_new, delta).len() >= 53,
        map_bytes_body_code(rc_new, delta).subrange(13, 19) == seq![
            Ins::Block(BlockTy::Empty), Ins::Loop(BlockTy::Empty), Ins::LocalGet(4), Ins::LocalGet(2), Ins::I32GeU,
            Ins::BrIf(1),
        ],
        map_bytes_body_code(rc_new, delta).subrange(46, 53) == seq![
            Ins::LocalGet(4), Ins::I32Const(1), Ins::I32Add, Ins::LocalSet(4), Ins::Br(0), Ins::End, Ins::End,
        ],
{
    reveal(map_bytes_body_code);
    reveal(push_len_code);
    assert(map_bytes_body_code(rc_new, delta).subrange(13, 19) =~= seq![
        Ins::Block(BlockTy::Empty), Ins::Loop(BlockTy::Empty), Ins::LocalGet(4), Ins::LocalGet(2), Ins::I32GeU,
        Ins::BrIf(1),
    ]);
    assert(map_bytes_body_code(rc_new, delta).subrange(46, 53) =~= seq![
        Ins::LocalGet(4), Ins::I32Const(1), Ins::I32Add, Ins::LocalSet(4), Ins::Br(0), Ins::End, Ins::End,
    ]);
}

/// Moves the index in local 4 on by one.
proof fn lemma_next_index(st: Machine, i: i32)
    requires
        st.locals.contains_key(4),
        st.locals[4] == Val::I32(i),
        0 <= i < 0x7fff_ffff,
    ensures
        run(st, seq![Ins::LocalGet(4), Ins::I32Const(1), Ins::I32Add, Ins::LocalSet(4)]) == Some(Machine { locals: st.locals.insert(4, Val::I32((i + 1) as i32)), ..st }),
{
    let c0 = seq![Ins::LocalGet(4), Ins::I32Const(1), Ins::I32Add, Ins::LocalSet(4)];
    let c1 = seq![Ins::I32Const(1), Ins::I32Add, Ins::LocalSet(4)];
    let c2 = seq![Ins::I32Add, Ins::LocalSet(4)];
    let c3 = seq![Ins::LocalSet(4)];
    let c4 = Seq::<Ins>::empty();
    assert(c0.drop_first() =~= c1);
    assert(c1.drop_first() =~= c2);
    assert(c2.drop_first() =~= c3);
    assert(c3.drop_first() =~= c4);
    let st1 = push_val(st, Val::I32(i));
    lemma_run_first(st, c0);
    lemma_exec_get(st, 4);
    assert(exec_ins(st, Ins::LocalGet(4)) == Some(st1));
    let st2 = push_val(st1, Val::I32(1));
    lemma_run_first(st1, c1);
    lemma_exec_i32_const(st1, 1);
    assert(exec_ins(st1, Ins::I32Const(1)) == Some(st2));
    let st3 = push_val(pop_vals(st2, 2), Val::I32((i + 1) as i32));
    lemma_run_first(st2, c2);
    lemma_i32_add(i, 1);
    lemma_exec_binary(st2, Ins::I32Add);
    assert(exec_ins(st2, Ins::I32Add) == Some(st3));
    let st4 = Machine { locals: st3.locals.insert(4, top(st3, 0)), ..pop_vals(st3, 1) };
    lemma_run_first(st3, c3);
    lemma_exec_set(st3, 4);
    assert(exec_ins(st3, Ins::LocalSet(4)) == Some(st4));
    lemma_run_empty(st4);
    assert(st4.stack =~= st.stack);
}

/// `i32.sub` of two values whose difference fits.
proof fn lemma_i32_sub(x: i32, y: i32)
    requires
        i32::MIN <= x - y <= i32::MAX,
    ensures
        binary_value(Ins::I32Sub, Val::I32(x), Val::I32(y)) == Some(Val::I32((x - y) as i32)),
{
}

/// A non-negative integer below 2^31 wraps to itself as an `i32`.
proof fn lemma_wrap32_small(z: int)
    requires
        0 <= z < 0x8000_0000,
    ensures
        wrap(Width::W32, z) == Val::I32(z as i32),
{
}

/// A non-negative integer below 2^63 wraps to itself as an `i64`.
proof fn lemma_wrap64_small(z: int)
    requires
        0 <= z < 0x8000_0000_0000_0000,
    ensures
        wrap(Width::W64, z) == Val::I64(z as i64),
{
}

/// Moves the write position in local 2 back by one and stores `c` there.
proof fn lemma_prepend_byte(st: Machine, p: i32, c: i32)
    requires
        st.locals.contains_key(2),
        st.locals[2] == Val::I32(p),
        1 <= p <= 128 && 0 <= c <= 255,
    ensures
        run(st, seq![Ins::LocalGet(2), Ins::I32Const(1), Ins::I32Sub, Ins::LocalTee(2), Ins::I32Const(c), Ins::I32Store8(m(0))]) == Some(Machine { locals: st.locals.insert(2, Val::I32((p - 1) as i32)), mem: store_byte(st.mem, p - 1, c as u8), stack: st.stack }),
{
    let c0 = seq![Ins::LocalGet(2), Ins::I32Const(1), Ins::I32Sub, Ins::LocalTee(2), Ins::I32Const(c), Ins::I32Store8(m(0))];
    let c1 = seq![Ins::I32Const(1), Ins::I32Sub, Ins::LocalTee(2), Ins::I32Const(c), Ins::I32Store8(m(0))];
    let c2 = seq![Ins::I32Sub, Ins::LocalTee(2), Ins::I32Const(c), Ins::I32Store8(m(0))];
    let c3 = seq![Ins::LocalTee(2), Ins::I32Const(c), Ins::I32Store8(m(0))];
    let c4 = seq![Ins::I32Const(c), Ins::I32Store8(m(0))];
    let c5 = seq![Ins::I32Store8(m(0))];
    let c6 = Seq::<Ins>::empty();
    assert(c0.drop_first() =~= c1);
    assert(c1.drop_first() =~= c2);
    assert(c2.drop_first() =~= c3);
    assert(c3.drop_first() =~= c4);
    assert(c4.drop_first() =~= c5);
    assert(c5.drop_first() =~= c6);
    let st1 = push_val(st, Val::I32(p));
    lemma_run_first(st, c0);
    lemma_exec_get(st, 2);
    assert(exec_ins(st, Ins::LocalGet(2)) == Some(st1));
    let st2 = push_val(st1, Val::I32(1));
    lemma_run_first(st1, c1);
    lemma_exec_i32_const(st1, 1);
    assert(exec_ins(st1, Ins::I32Const(1)) == Some(st2));
    let st3 = push_val(pop_vals(st2, 2), Val::I32((p - 1) as i32));
    lemma_run_first(st2, c2);
    lemma_i32_sub(p, 1);
    lemma_exec_binary(st2, Ins::I32Sub);
    assert(exec_ins(st2, Ins::I32Sub) == Some(st3));
    let st4 = Machine { locals: st3.locals.insert(2, top(st3, 0)), ..st3 };
    lemma_run_first(st3, c3);
    lemma_exec_tee(st3, 2);
    assert(exec_ins(st3, Ins::LocalTee(2)) == Some(st4));
    let st5 = push_val(st4, Val::I32(c));
    lemma_run_first(st4, c4);
    lemma_exec_i32_const(st4, c);
    assert(exec_ins(st4, Ins::I32Const(c)) == Some(st5));
    let st6 = Machine { mem: store_byte(st5.mem, unsigned(top(st5, 1)) + m(0).offset, (unsigned(top(st5, 0)) % 256) as u8), ..pop_vals(st5, 2) };
    lemma_run_first(st5, c5);
    lemma_exec_store8(st5, m(0));
    assert(exec_ins(st5, Ins::I32Store8(m(0))) == Some(st6));
    lemma_run_empty(st6);
    assert(st6.stack =~= st.stack);
    assert(st6.mem == store_byte(st.mem, p - 1, c as u8));
}

/// One pass of the digit loop of `format_body`: the last decimal digit of
/// the unsigned value in local 1 is stored just before the write position
/// in local 2, which moves back by one, and local 1 keeps the other digits.
proof fn lemma_digit_step(st: Machine, x: i64, p: i32)
    requires
        st.locals.contains_key(1) && st.locals.contains_key(2) && st.locals.contains_key(4),
        st.locals[1] == Val::I64(x),
        st.locals[2] == Val::I32(p),
        1 <= p <= 128,
    ensures
        run(st, seq![Ins::LocalGet(1), Ins::I64Const(10), Ins::I64RemU, Ins::I32WrapI64, Ins::LocalSet(4), Ins::LocalGet(1), Ins::I64Const(10), Ins::I64DivU, Ins::LocalSet(1), Ins::LocalGet(2), Ins::I32Const(1), Ins::I32Sub, Ins::LocalTee(2), Ins::LocalGet(4), Ins::I32Const(48), Ins::I32Add, Ins::I32Store8(m(0))]) == Some(Machine {
            stack: st.stack,
            locals: st.locals.insert(4, Val::I32((unsigned(Val::I64(x)) % 10) as i32)).insert(
                1,
                Val::I64((unsigned(Val::I64(x)) / 10) as i64),
            ).insert(2, Val::I32((p - 1) as i32)),
            mem: store_byte(st.mem, p - 1, (48 + unsigned(Val::I64(x)) % 10) as u8),
        }),
{
    let u = unsigned(Val::I64(x));
    let r = u % 10;
    let q = u / 10;
    assert(0 <= u < 0x1_0000_0000_0000_0000);
    let c0 = seq![Ins::LocalGet(1), Ins::I64Const(10), Ins::I64RemU, Ins::I32WrapI64, Ins::LocalSet(4), Ins::LocalGet(1), Ins::I64Const(10), Ins::I64DivU, Ins::LocalSet(1), Ins::LocalGet(2), Ins::I32Const(1), Ins::I32Sub, Ins::LocalTee(2), Ins::LocalGet(4), Ins::I32Const(48), Ins::I32Add, Ins::I32Store8(m(0))];
    let c1 = seq![Ins::I64Const(10), Ins::I64RemU, Ins::I32WrapI64, Ins::LocalSet(4), Ins::LocalGet(1), Ins::I64Const(10), Ins::I64DivU, Ins::LocalSet(1), Ins::LocalGet(2), Ins::I32Const(1), Ins::I32Sub, Ins::LocalTee(2), Ins::LocalGet(4), Ins::I32Const(48), Ins::I32Add, Ins::I32Store8(m(0))];
    let c2 = seq![Ins::I64RemU, Ins::I32WrapI64, Ins::LocalSet(4), Ins::LocalGet(1), Ins::I64Const(10), Ins::I64DivU, Ins::LocalSet(1), Ins::LocalGet(2), Ins::I32Const(1), Ins::I32Sub, Ins::LocalTee(2), Ins::LocalGet(4), Ins::I32Const(48), Ins::I32Add, Ins::I32Store8(m(0))];
    let c3 = seq![Ins::I32WrapI64, Ins::LocalSet(4), Ins::LocalGet(1), Ins::I64Const(10), Ins::I64DivU, Ins::LocalSet(1), Ins::LocalGet(2), Ins::I32Const(1), Ins::I32Sub, Ins::LocalTee(2), Ins::LocalGet(4), Ins::I32Const(48), Ins::I32Add, Ins::I32Store8(m(0))];
    let c4 = seq![Ins::LocalSet(4), Ins::LocalGet(1), Ins::I64Const(10), Ins::I64DivU, Ins::LocalSet(1), Ins::LocalGet(2), Ins::I32Const(1), Ins::I32Sub, Ins::LocalTee(2), Ins::LocalGet(4), Ins::I32Const(48), Ins::I32Add, Ins::I32Store8(m(0))];
    let c5 = seq![Ins::LocalGet(1), Ins::I64Const(10), Ins::I64DivU, Ins::LocalSet(1), Ins::LocalGet(2), Ins::I32Const(1), Ins::I32Sub, Ins::LocalTee(2), Ins::LocalGet(4), Ins::I32Const(48), Ins::I32Add, Ins::I32Store8(m(0))];
    let c6 = seq![Ins::I64Const(10), Ins::I64DivU, Ins::LocalSet(1), Ins::LocalGet(2), Ins::I32Const(1), Ins::I32Sub, Ins::LocalTee(2), Ins::LocalGet(4), Ins::I32Const(48), Ins::I32Add, Ins::I32Store8(m(0))];
    let c7 = seq![Ins::I64DivU, Ins::LocalSet(1), Ins::LocalGet(2), Ins::I32Const(1), Ins::I32Sub, Ins::LocalTee(2), Ins::LocalGet(4), Ins::I32Const(48), Ins::I32Add, Ins::I32Store8(m(0))];
    let c8 = seq![Ins::LocalSet(1), Ins::LocalGet(2), Ins::I32Const(1), Ins::I32Sub, Ins::LocalTee(2), Ins::LocalGet(4), Ins::I32Const(48), Ins::I32Add, Ins::I32Store8(m(0))];
    let c9 = seq![Ins::LocalGet(2), Ins::I32Const(1), Ins::I32Sub, Ins::LocalTee(2), Ins::LocalGet(4), Ins::I32Const(48), Ins::I32Add, Ins::I32Store8(m(0))];
    let c10 = seq![Ins::I32Const(1), Ins::I32Sub, Ins::LocalTee(2), Ins::LocalGet(4), Ins::I32Const(48), Ins::I32Add, Ins::I32Store8(m(0))];
    let c11 = seq![Ins::I32Sub, Ins::LocalTee(2), Ins::LocalGet(4), Ins::I32Const(48), Ins::I32Add, Ins::I32Store8(m(0))];
    let c12 = seq![Ins::LocalTee(2), Ins::LocalGet(4), Ins::I32Const(48), Ins::I32Add, Ins::I32Store8(m(0))];
    let c13 = seq![Ins::LocalGet(4), Ins::I32Const(48), Ins::I32Add, Ins::I32Store8(m(0))];
    let c14 = seq![Ins::I32Const(48), Ins::I32Add, Ins::I32Store8(m(0))];
    let c15 = seq![Ins::I32Add, Ins::I32Store8(m(0))];
    let c16 = seq![Ins::I32Store8(m(0))];
    let c17 = Seq::<Ins>::empty();
    assert(c0.drop_first() =~= c1);
    assert(c1.drop_first() =~= c2);
    assert(c2.drop_first() =~= c3);
    assert(c3.drop_first() =~= c4);
    assert(c4.drop_first() =~= c5);
    assert(c5.drop_first() =~= c6);
    assert(c6.drop_first() =~= c7);
    assert(c7.drop_first() =~= c8);
    assert(c8.drop_first() =~= c9);
    assert(c9.drop_first() =~= c10);
    assert(c10.drop_first() =~= c11);
    assert(c11.drop_first() =~= c12);
    assert(c12.drop_first() =~= c13);
    assert(c13.drop_first() =~= c14);
    assert(c14.drop_first() =~= c15);
    assert(c15.drop_first() =~= c16);
    assert(c16.drop_first() =~= c17);
    let st1 = push_val(st, Val::I64(x));
    lemma_run_first(st, c0);
    lemma_exec_get(st, 1);
    assert(exec_ins(st, Ins::LocalGet(1)) == Some(st1));
    let st2 = push_val(st1, Val::I64(10));
    lemma_run_first(st1, c1);
    lemma_exec_i64_const(st1, 10);
    assert(exec_ins(st1, Ins::I64Const(10)) == Some(st2));
    let st3 = push_val(pop_vals(st2, 2), Val::I64(r as i64));
    lemma_run_first(st2, c2);
    lemma_wrap64_small(r);
    lemma_exec_binary(st2, Ins::I64RemU);
    assert(exec_ins(st2, Ins::I64RemU) == Some(st3));
    let st4 = push_val(pop_vals(st3, 1), Val::I32(r as i32));
    lemma_run_first(st3, c3);
    lemma_wrap32_small(r);
    lemma_exec_wrap(st3);
    assert(exec_ins(st3, Ins::I32WrapI64) == Some(st4));
    let st5 = Machine { locals: st4.locals.insert(4, top(st4, 0)), ..pop_vals(st4, 1) };
    lemma_run_first(st4, c4);
    lemma_exec_set(st4, 4);
    assert(exec_ins(st4, Ins::LocalSet(4)) == Some(st5));
    let st6 = push_val(st5, Val::I64(x));
    lemma_run_first(st5, c5);
    lemma_exec_get(st5, 1);
    assert(exec_ins(st5, Ins::LocalGet(1)) == Some(st6));
    let st7 = push_val(st6, Val::I64(10));
    lemma_run_first(st6, c6);
    lemma_exec_i64_const(st6, 10);
    assert(exec_ins(st6, Ins::I64Const(10)) == Some(st7));
    let st8 = push_val(pop_vals(st7, 2), Val::I64(q as i64));
    lemma_run_first(st7, c7);
    lemma_wrap64_small(q);
    lemma_exec_binary(st7, Ins::I64DivU);
    assert(exec_ins(st7, Ins::I64DivU) == Some(st8));
    let st9 = Machine { locals: st8.locals.insert(1, top(st8, 0)), ..pop_vals(st8, 1) };
    lemma_run_first(st8, c8);
    lemma_exec_set(st8, 1);
    assert(exec_ins(st8, Ins::LocalSet(1)) == Some(st9));
    let st10 = push_val(st9, Val::I32(p));
    lemma_run_first(st9, c9);
    lemma_exec_get(st9, 2);
    assert(exec_ins(st9, Ins::LocalGet(2)) == Some(st10));
    let st11 = push_val(st10, Val::I32(1));
    lemma_run_first(st10, c10);
    lemma_exec_i32_const(st10, 1);
    assert(exec_ins(st10, Ins::I32Const(1)) == Some(st11));
    let st12 = push_val(pop_vals(st11, 2), Val::I32((p - 1) as i32));
    lemma_run_first(st11, c11);
    lemma_i32_sub(p, 1);
    lemma_exec_binary(st11, Ins::I32Sub);
    assert(exec_ins(st11, Ins::I32Sub) == Some(st12));
    let st13 = Machine { locals: st12.locals.insert(2, top(st12, 0)), ..st12 };
    lemma_run_first(st12, c12);
    lemma_exec_tee(st12, 2);
    assert(exec_ins(st12, Ins::LocalTee(2)) == Some(st13));
    let st14 = push_val(st13, Val::I32(r as i32));
    lemma_run_first(st13, c13);
    lemma_exec_get(st13, 4);
    assert(exec_ins(st13, Ins::LocalGet(4)) == Some(st14));
    let st15 = push_val(st14, Val::I32(48));
    lemma_run_first(st14, c14);
    lemma_exec_i32_const(st14, 48);
    assert(exec_ins(st14, Ins::I32Const(48)) == Some(st15));
    let st16 = push_val(pop_vals(st15, 2), Val::I32((r + 48) as i32));
    lemma_run_first(st15, c15);
    lemma_i32_add(r as i32, 48);
    lemma_exec_binary(st15, Ins::I32Add);
    assert(exec_ins(st15, Ins::I32Add) == Some(st16));
    let st17 = Machine { mem: store_byte(st16.mem, unsigned(top(st16, 1)) + m(0).offset, (unsigned(top(st16, 0)) % 256) as u8), ..pop_vals(st16, 2) };
    lemma_run_first(st16, c16);
    lemma_exec_store8(st16, m(0));
    assert(exec_ins(st16, Ins::I32Store8(m(0))) == Some(st17));
    lemma_run_empty(st17);
    assert(st17.stack =~= st.stack);
    assert(st17.mem == store_byte(st.mem, p - 1, (48 + r) as u8));
}

/// The body of the digit loop of `format_body`.
pub open spec fn digit_code() -> Seq<Ins> {
    seq![
        Ins::LocalGet(1), Ins::I64Const(10), Ins::I64RemU, Ins::I32WrapI64, Ins::LocalSet(4), Ins::LocalGet(1), Ins::I64Const(10),
        Ins::I64DivU, Ins::LocalSet(1), Ins::LocalGet(2), Ins::I32Const(1), Ins::I32Sub, Ins::LocalTee(2), Ins::LocalGet(4),
        Ins::I32Const(48), Ins::I32Add, Ins::I32Store8(m(0)),
    ]
}

/// The decimal representation of `n` as ASCII bytes, most significant
/// digit first.
pub open spec fn decimal_bytes(n: nat) -> Seq<u8>
    decreases n,
{
    if n < 10 {
        seq![('0' as u8 + n) as u8]
    } else {
        decimal_bytes(n / 10).push(('0' as u8 + n % 10) as u8)
    }
}

/// The digits the digit loop writes for `u`: none for zero, else those of
/// `u / 10` followed by the last one.
pub open spec fn loop_digits(u: nat) -> Seq<u8>
    decreases u,
{
    if u == 0 {
        Seq::empty()
    } else {
        loop_digits(u / 10).push((48 + u % 10) as u8)
    }
}

/// 10 to the `k`.
pub open spec fn pow10(k: nat) -> nat
    decreases k,
{
    if k == 0 { 1 } else { 10 * pow10((k - 1) as nat) }
}

/// The loop writes the decimal representation of every positive value.
proof fn lemma_loop_digits_decimal(u: nat)
    requires
        u > 0,
    ensures
        loop_digits(u) == decimal_bytes(u),
    decreases u,
{
    if u >= 10 {
        lemma_loop_digits_decimal(u / 10);
    } else {
        assert(loop_digits(0) == Seq::<u8>::empty());
        assert(loop_digits(u) =~= seq![(48 + u) as u8]);
    }
}

/// A value below 10^k has at most `k` digits.
proof fn lemma_loop_digits_len(u: nat, k: nat)
    requires
        u < pow10(k),
    ensures
        loop_digits(u).len() <= k,
    decreases k,
{
    if u > 0 {
        assert(k > 0);
        lemma_loop_digits_len(u / 10, (k - 1) as nat);
    }
}

/// The digit loop, run on the unsigned value `u` of local 1 with the write
/// position `p` in local 2, writes the digits of `u` just before `p`, leaves
/// the position at their first, and changes no other byte and no other local
/// than 1, 2 and 4.
proof fn lemma_digit_loop(st: Machine, x: i64, p: i32, fuel: nat)
    requires
        st.locals.contains_key(1) && st.locals.contains_key(2) && st.locals.contains_key(4),
        st.locals[1] == Val::I64(x),
        st.locals[2] == Val::I32(p),
        loop_digits(unsigned(Val::I64(x)) as nat).len() <= fuel,
        loop_digits(unsigned(Val::I64(x)) as nat).len() <= p <= 128,
    ensures
        ({
            let ds = loop_digits(unsigned(Val::I64(x)) as nat);
            let p2 = p - ds.len();
            run_while_nonzero(st, 1, digit_code(), fuel) matches Some(st2) && {
                &&& st2.stack == st.stack
                &&& st2.locals.contains_key(2) && st2.locals[2] == Val::I32(p2 as i32)
                &&& forall|k: u32| k != 1 && k != 2 && k != 4 ==> #[trigger] st2.locals.contains_key(k) == st.locals.contains_key(k)
                    && st2.locals[k] == st.locals[k]
                &&& forall|a: int| p2 <= a < p ==> #[trigger] (st2.mem)(a) == ds[a - p2]
                &&& forall|a: int| a < p2 || a >= p ==> #[trigger] (st2.mem)(a) == (st.mem)(a)
            }
        }),
    decreases unsigned(Val::I64(x)),
{
    let u = unsigned(Val::I64(x));
    let ds = loop_digits(u as nat);
    if u != 0 {
        lemma_digit_step(st, x, p);
        assert(digit_code() == seq![
        Ins::LocalGet(1), Ins::I64Const(10), Ins::I64RemU, Ins::I32WrapI64, Ins::LocalSet(4), Ins::LocalGet(1), Ins::I64Const(10),
        Ins::I64DivU, Ins::LocalSet(1), Ins::LocalGet(2), Ins::I32Const(1), Ins::I32Sub, Ins::LocalTee(2), Ins::LocalGet(4),
        Ins::I32Const(48), Ins::I32Add, Ins::I32Store8(m(0)),
    ]);
        let q = u / 10;
        let st1 = Machine {
            stack: st.stack,
            locals: st.locals.insert(4, Val::I32((u % 10) as i32)).insert(1, Val::I64(q as i64)).insert(
                2,
                Val::I32((p - 1) as i32),
            ),
            mem: store_byte(st.mem, p - 1, (48 + u % 10) as u8),
        };
        assert(run(st, digit_code()) == Some(st1));
        let x1 = q as i64;
        assert(unsigned(Val::I64(x1)) == q);
        let ds1 = loop_digits(q as nat);
        assert(ds == ds1.push((48 + u % 10) as u8));
        lemma_digit_loop(st1, x1, (p - 1) as i32, (fuel - 1) as nat);
        let st2 = run_while_nonzero(st1, 1, digit_code(), (fuel - 1) as nat)->0;
        assert(run_while_nonzero(st, 1, digit_code(), fuel) == Some(st2));
        let p2 = p - ds.len();
        assert forall|a: int| p2 <= a < p implies #[trigger] (st2.mem)(a) == ds[a - p2] by {
            if a < p - 1 {
                assert(ds[a - p2] == ds1[a - p2]);
            }
        }
    }
}

/// Sets local 3 to whether the `i64` in local 0 is negative, and pushes it.
proof fn lemma_sign_flag(st: Machine, v: i64)
    requires
        st.locals.contains_key(0) && st.locals.contains_key(3),
        st.locals[0] == Val::I64(v),
    ensures
        run(st, seq![Ins::LocalGet(0), Ins::I64Const(0), Ins::I64LtS, Ins::LocalSet(3), Ins::LocalGet(3)]) == Some(push_val(Machine { locals: st.locals.insert(3, flag(v < 0)), ..st }, flag(v < 0))),
{
    let c0 = seq![Ins::LocalGet(0), Ins::I64Const(0), Ins::I64LtS, Ins::LocalSet(3), Ins::LocalGet(3)];
    let c1 = seq![Ins::I64Const(0), Ins::I64LtS, Ins::LocalSet(3), Ins::LocalGet(3)];
    let c2 = seq![Ins::I64LtS, Ins::LocalSet(3), Ins::LocalGet(3)];
    let c3 = seq![Ins::LocalSet(3), Ins::LocalGet(3)];
    let c4 = seq![Ins::LocalGet(3)];
    let c5 = Seq::<Ins>::empty();
    assert(c0.drop_first() =~= c1);
    assert(c1.drop_first() =~= c2);
    assert(c2.drop_first() =~= c3);
    assert(c3.drop_first() =~= c4);
    assert(c4.drop_first() =~= c5);
    let st1 = push_val(st, Val::I64(v));
    lemma_run_first(st, c0);
    lemma_exec_get(st, 0);
    assert(exec_ins(st, Ins::LocalGet(0)) == Some(st1));
    let st2 = push_val(st1, Val::I64(0));
    lemma_run_first(st1, c1);
    lemma_exec_i64_const(st1, 0);
    assert(exec_ins(st1, Ins::I64Const(0)) == Some(st2));
    let st3 = push_val(pop_vals(st2, 2), flag(v < 0));
    lemma_run_first(st2, c2);
    lemma_exec_binary(st2, Ins::I64LtS);
    assert(exec_ins(st2, Ins::I64LtS) == Some(st3));
    let st4 = Machine { locals: st3.locals.insert(3, top(st3, 0)), ..pop_vals(st3, 1) };
    lemma_run_first(st3, c3);
    lemma_exec_set(st3, 3);
    assert(exec_ins(st3, Ins::LocalSet(3)) == Some(st4));
    let st5 = push_val(st4, st4.locals[3]);
    lemma_run_first(st4, c4);
    lemma_exec_get(st4, 3);
    assert(exec_ins(st4, Ins::LocalGet(3)) == Some(st5));
    lemma_run_empty(st5);
    assert(st5.stack =~= st.stack.push(flag(v < 0)));
}

/// Pushes the two's complement negation of the `i64` in local 0.
proof fn lemma_push_negated(st: Machine, v: i64)
    requires
        st.locals.contains_key(0),
        st.locals[0] == Val::I64(v),
    ensures
        run(st, seq![Ins::I64Const(0), Ins::LocalGet(0), Ins::I64Sub]) == Some(push_val(st, Val::I64(if v == i64::MIN { i64::MIN } else { (-v) as i64 }))),
{
    let c0 = seq![Ins::I64Const(0), Ins::LocalGet(0), Ins::I64Sub];
    let c1 = seq![Ins::LocalGet(0), Ins::I64Sub];
    let c2 = seq![Ins::I64Sub];
    let c3 = Seq::<Ins>::empty();
    assert(c0.drop_first() =~= c1);
    assert(c1.drop_first() =~= c2);
    assert(c2.drop_first() =~= c3);
    let st1 = push_val(st, Val::I64(0));
    lemma_run_first(st, c0);
    lemma_exec_i64_const(st, 0);
    assert(exec_ins(st, Ins::I64Const(0)) == Some(st1));
    let st2 = push_val(st1, Val::I64(v));
    lemma_run_first(st1, c1);
    lemma_exec_get(st1, 0);
    assert(exec_ins(st1, Ins::LocalGet(0)) == Some(st2));
    let st3 = push_val(pop_vals(st2, 2), Val::I64(if v == i64::MIN { i64::MIN } else { (-v) as i64 }));
    lemma_run_first(st2, c2);
    lemma_wrap_negate(v);
    lemma_exec_binary(st2, Ins::I64Sub);
    assert(exec_ins(st2, Ins::I64Sub) == Some(st3));
    lemma_run_empty(st3);
    assert(st3.stack =~= st.stack.push(Val::I64(if v == i64::MIN { i64::MIN } else { (-v) as i64 })));
}

/// Pushes local `l`.
proof fn lemma_push_local(st: Machine, l: u32)
    requires
        st.locals.contains_key(l),
    ensures
        run(st, seq![Ins::LocalGet(l)]) == Some(push_val(st, st.locals[l])),
{
    let c0 = seq![Ins::LocalGet(l)];
    let c1 = Seq::<Ins>::empty();
    assert(c0.drop_first() =~= c1);
    let st1 = push_val(st, st.locals[l]);
    lemma_run_first(st, c0);
    lemma_exec_get(st, l);
    assert(exec_ins(st, Ins::LocalGet(l)) == Some(st1));
    lemma_run_empty(st1);
}

/// Pops the magnitude into local 1 and sets the write position in local 2 to 128.
proof fn lemma_store_magnitude(st: Machine)
    requires
        st.locals.contains_key(1) && st.locals.contains_key(2),
        st.stack.len() >= 1,
    ensures
        run(st, seq![Ins::LocalSet(1), Ins::I32Const(128), Ins::LocalSet(2)]) == Some(Machine { locals: st.locals.insert(1, top(st, 0)).insert(2, Val::I32(128)), ..pop_vals(st, 1) }),
{
    let c0 = seq![Ins::LocalSet(1), Ins::I32Const(128), Ins::LocalSet(2)];
    let c1 = seq![Ins::I32Const(128), Ins::LocalSet(2)];
    let c2 = seq![Ins::LocalSet(2)];
    let c3 = Seq::<Ins>::empty();
    assert(c0.drop_first() =~= c1);
    assert(c1.drop_first() =~= c2);
    assert(c2.drop_first() =~= c3);
    let st1 = Machine { locals: st.locals.insert(1, top(st, 0)), ..pop_vals(st, 1) };
    lemma_run_first(st, c0);
    lemma_exec_set(st, 1);
    assert(exec_ins(st, Ins::LocalSet(1)) == Some(st1));
    let st2 = push_val(st1, Val::I32(128));
    lemma_run_first(st1, c1);
    lemma_exec_i32_const(st1, 128);
    assert(exec_ins(st1, Ins::I32Const(128)) == Some(st2));
    let st3 = Machine { locals: st2.locals.insert(2, top(st2, 0)), ..pop_vals(st2, 1) };
    lemma_run_first(st2, c2);
    lemma_exec_set(st2, 2);
    assert(exec_ins(st2, Ins::LocalSet(2)) == Some(st3));
    lemma_run_empty(st3);
    assert(st3.stack =~= pop_vals(st, 1).stack);
}

/// Pushes whether the `i64` in local 1 is zero.
proof fn lemma_zero_test(st: Machine, w: i64)
    requires
        st.locals.contains_key(1),
        st.locals[1] == Val::I64(w),
    ensures
        run(st, seq![Ins::LocalGet(1), Ins::I64Eqz]) == Some(push_val(st, flag(w == 0))),
{
    let c0 = seq![Ins::LocalGet(1), Ins::I64Eqz];
    let c1 = seq![Ins::I64Eqz];
    let c2 = Seq::<Ins>::empty();
    assert(c0.drop_first() =~= c1);
    assert(c1.drop_first() =~= c2);
    let st1 = push_val(st, Val::I64(w));
    lemma_run_first(st, c0);
    lemma_exec_get(st, 1);
    assert(exec_ins(st, Ins::LocalGet(1)) == Some(st1));
    let st2 = push_val(pop_vals(st1, 1), flag(w == 0));
    lemma_run_first(st1, c1);
    lemma_exec_i64_eqz(st1);
    assert(exec_ins(st1, Ins::I64Eqz) == Some(st2));
    lemma_run_empty(st2);
    assert(st2.stack =~= st.stack.push(flag(w == 0)));
}

/// The magnitude that `format_body` formats for `v`: `-v` (taken modulo
/// 2^64, so that `i64::MIN` keeps its bits) for a negative `v`, else `v`.
pub open spec fn magnitude_bits(v: i64) -> i64 {
    if v >= 0 {
        v
    } else if v == i64::MIN {
        i64::MIN
    } else {
        (-v) as i64
    }
}

/// The opening of `format_body` up to its zero check: local 3 holds whether
/// `v` is negative, local 1 its magnitude, local 2 the write position 128.
proof fn lemma_format_prefix(st: Machine, v: i64, tail: Seq<Ins>)
    requires
        st.locals.contains_key(0) && st.locals.contains_key(1) && st.locals.contains_key(2) && st.locals.contains_key(3),
        st.locals[0] == Val::I64(v),
    ensures
        run(
            st,
            seq![Ins::LocalGet(0), Ins::I64Const(0), Ins::I64LtS, Ins::LocalSet(3), Ins::LocalGet(3)] + (seq![
                Ins::If(BlockTy::Result(ValTy::I64)),
            ] + seq![Ins::I64Const(0), Ins::LocalGet(0), Ins::I64Sub] + seq![Ins::Else] + seq![Ins::LocalGet(0)]
                + seq![Ins::End] + (seq![Ins::LocalSet(1), Ins::I32Const(128), Ins::LocalSet(2)] + tail)),
        ) == run(
            Machine {
                locals: st.locals.insert(3, flag(v < 0)).insert(1, Val::I64(magnitude_bits(v))).insert(2, Val::I32(128)),
                ..st
            },
            tail,
        ),
{
    let a = seq![Ins::LocalGet(0), Ins::I64Const(0), Ins::I64LtS, Ins::LocalSet(3), Ins::LocalGet(3)];
    let then_arm = seq![Ins::I64Const(0), Ins::LocalGet(0), Ins::I64Sub];
    let else_arm = seq![Ins::LocalGet(0)];
    let after = seq![Ins::LocalSet(1), Ins::I32Const(128), Ins::LocalSet(2)];
    let rest = seq![Ins::If(BlockTy::Result(ValTy::I64))] + then_arm + seq![Ins::Else] + else_arm + seq![Ins::End] + (
    after + tail);
    lemma_sign_flag(st, v);
    lemma_run_append(st, a, rest);
    let st3 = Machine { locals: st.locals.insert(3, flag(v < 0)), ..st };
    let sa = push_val(st3, flag(v < 0));
    assert(pop_vals(sa, 1).stack =~= st3.stack);
    assert(pop_vals(sa, 1) == st3);
    lemma_run_if_else(sa, BlockTy::Result(ValTy::I64), then_arm, else_arm, after + tail);
    let pushed = push_val(st3, Val::I64(magnitude_bits(v)));
    if v < 0 {
        lemma_push_negated(st3, v);
    } else {
        lemma_push_local(st3, 0);
    }
    assert(run(st3, if v < 0 { then_arm } else { else_arm }) == Some(pushed));
    lemma_store_magnitude(pushed);
    lemma_run_append(pushed, after, tail);
    assert(pop_vals(pushed, 1).stack =~= st.stack);
}

/// The zero check of `format_body`: for a zero magnitude, the digit `0` is
/// written at 127 and the position moves there.
proof fn lemma_format_zero(st: Machine, w: i64)
    requires
        st.locals.contains_key(1) && st.locals.contains_key(2),
        st.locals[1] == Val::I64(w),
        st.locals[2] == Val::I32(128),
    ensures
        run(st, seq![Ins::LocalGet(1), Ins::I64Eqz] + (seq![Ins::If(BlockTy::Empty)] + seq![Ins::LocalGet(2), Ins::I32Const(1), Ins::I32Sub, Ins::LocalTee(2), Ins::I32Const(48), Ins::I32Store8(m(0))] + seq![Ins::End]
            + Seq::<Ins>::empty())) == Some(
            if w == 0 {
                Machine { locals: st.locals.insert(2, Val::I32(127)), mem: store_byte(st.mem, 127, 48), stack: st.stack }
            } else {
                st
            },
        ),
{
    let a = seq![Ins::LocalGet(1), Ins::I64Eqz];
    let body = seq![Ins::LocalGet(2), Ins::I32Const(1), Ins::I32Sub, Ins::LocalTee(2), Ins::I32Const(48), Ins::I32Store8(m(0))];
    let rest = seq![Ins::If(BlockTy::Empty)] + body + seq![Ins::End] + Seq::<Ins>::empty();
    lemma_zero_test(st, w);
    lemma_run_append(st, a, rest);
    let sa = push_val(st, flag(w == 0));
    assert(pop_vals(sa, 1).stack =~= st.stack);
    assert(pop_vals(sa, 1) == st);
    lemma_run_if(sa, body, Seq::<Ins>::empty());
    if w == 0 {
        lemma_prepend_byte(st, 128, 48);
        lemma_run_empty(Machine { locals: st.locals.insert(2, Val::I32(127)), mem: store_byte(st.mem, 127, 48), stack: st.stack });
    } else {
        lemma_run_empty(st);
    }
}

/// The sign step of `format_body`: for a negative value, `-` is written just
/// before the digits and the position moves there.
proof fn lemma_format_sign(st: Machine, neg: bool, p: i32)
    requires
        st.locals.contains_key(2) && st.locals.contains_key(3),
        st.locals[3] == flag(neg),
        st.locals[2] == Val::I32(p),
        1 <= p <= 128,
    ensures
        run(st, seq![Ins::LocalGet(3)] + (seq![Ins::If(BlockTy::Empty)] + seq![Ins::LocalGet(2), Ins::I32Const(1), Ins::I32Sub, Ins::LocalTee(2), Ins::I32Const(45), Ins::I32Store8(m(0))] + seq![Ins::End]
            + Seq::<Ins>::empty())) == Some(
            if neg {
                Machine {
                    locals: st.locals.insert(2, Val::I32((p - 1) as i32)),
                    mem: store_byte(st.mem, p - 1, '-' as u8),
                    stack: st.stack,
                }
            } else {
                st
            },
        ),
{
    let a = seq![Ins::LocalGet(3)];
    let body = seq![Ins::LocalGet(2), Ins::I32Const(1), Ins::I32Sub, Ins::LocalTee(2), Ins::I32Const(45), Ins::I32Store8(m(0))];
    let rest = seq![Ins::If(BlockTy::Empty)] + body + seq![Ins::End] + Seq::<Ins>::empty();
    lemma_push_local(st, 3);
    lemma_run_append(st, a, rest);
    let sa = push_val(st, flag(neg));
    assert(pop_vals(sa, 1).stack =~= st.stack);
    assert(pop_vals(sa, 1) == st);
    lemma_run_if(sa, body, Seq::<Ins>::empty());
    if neg {
        lemma_prepend_byte(st, p, 45);
        lemma_run_empty(Machine {
            locals: st.locals.insert(2, Val::I32((p - 1) as i32)),
            mem: store_byte(st.mem, p - 1, 45),
            stack: st.stack,
        });
    } else {
        lemma_run_empty(st);
    }
}

/// The opening of `format_body_code` up to the digit loop.
pub open spec fn format_opening() -> Seq<Ins> {
    seq![Ins::LocalGet(0), Ins::I64Const(0), Ins::I64LtS, Ins::LocalSet(3), Ins::LocalGet(3)] + (seq![
        Ins::If(BlockTy::Result(ValTy::I64)),
    ] + seq![Ins::I64Const(0), Ins::LocalGet(0), Ins::I64Sub] + seq![Ins::Else] + seq![Ins::LocalGet(0)] + seq![Ins::End]
        + (seq![Ins::LocalSet(1), Ins::I32Const(128), Ins::LocalSet(2)] + format_zero()))
}

/// The zero check of `format_body_code`.
pub open spec fn format_zero() -> Seq<Ins> {
    seq![Ins::LocalGet(1), Ins::I64Eqz] + (seq![Ins::If(BlockTy::Empty)] + seq![Ins::LocalGet(2), Ins::I32Const(1), Ins::I32Sub, Ins::LocalTee(2), Ins::I32Const(48), Ins::I32Store8(m(0))] + seq![Ins::End]
        + Seq::<Ins>::empty())
}

/// The sign step of `format_body_code`.
pub open spec fn format_sign() -> Seq<Ins> {
    seq![Ins::LocalGet(3)] + (seq![Ins::If(BlockTy::Empty)] + seq![Ins::LocalGet(2), Ins::I32Const(1), Ins::I32Sub, Ins::LocalTee(2), Ins::I32Const(45), Ins::I32Store8(m(0))] + seq![Ins::End] + Seq::<Ins>::empty())
}

#[verifier::spinoff_prover]
#[verifier::rlimit(100)]
proof fn lemma_format_opening_at(rc_new: u32)
    ensures
        format_body_code(rc_new).len() >= 59,
        format_body_code(rc_new).subrange(0, 25) == format_opening(),
{
    reveal(format_body_code);
    assert(format_body_code(rc_new).subrange(0, 25) =~= format_opening());
}

#[verifier::spinoff_prover]
#[verifier::rlimit(100)]
proof fn lemma_format_loop_head_at(rc_new: u32)
    ensures
        format_body_code(rc_new).len() >= 59,
        format_body_code(rc_new).subrange(25, 30) == seq![
            Ins::Block(BlockTy::Empty), Ins::Loop(BlockTy::Empty), Ins::LocalGet(1), Ins::I64Eqz, Ins::BrIf(1),
        ],
{
    reveal(format_body_code);
    assert(format_body_code(rc_new).subrange(25, 30) =~= seq![
            Ins::Block(BlockTy::Empty), Ins::Loop(BlockTy::Empty), Ins::LocalGet(1), Ins::I64Eqz, Ins::BrIf(1),
        ]);
}

#[verifier::spinoff_prover]
#[verifier::rlimit(100)]
proof fn lemma_format_digits_at(rc_new: u32)
    ensures
        format_body_code(rc_new).len() >= 59,
        format_body_code(rc_new).subrange(30, 47) == digit_code(),
{
    reveal(format_body_code);
    assert(format_body_code(rc_new).subrange(30, 47) =~= digit_code());
}

#[verifier::spinoff_prover]
#[verifier::rlimit(100)]
proof fn lemma_format_loop_tail_at(rc_new: u32)
    ensures
        format_body_code(rc_new).len() >= 59,
        format_body_code(rc_new).subrange(47, 50) == seq![Ins::Br(0), Ins::End, Ins::End],
{
    reveal(format_body_code);
    assert(format_body_code(rc_new).subrange(47, 50) =~= seq![Ins::Br(0), Ins::End, Ins::End]);
}

#[verifier::spinoff_prover]
#[verifier::rlimit(100)]
proof fn lemma_format_sign_at(rc_new: u32)
    ensures
        format_body_code(rc_new).len() >= 59,
        format_body_code(rc_new).subrange(50, 59) == format_sign(),
{
    reveal(format_body_code);
    assert(format_body_code(rc_new).subrange(50, 59) =~= format_sign());
}

/// How `format_body_code` is laid out up to its sign step.
proof fn lemma_format_code_shape(rc_new: u32)
    ensures
        format_body_code(rc_new).len() >= 59,
        format_body_code(rc_new).subrange(0, 25) == format_opening(),
        format_body_code(rc_new).subrange(25, 30) == seq![
            Ins::Block(BlockTy::Empty), Ins::Loop(BlockTy::Empty), Ins::LocalGet(1), Ins::I64Eqz, Ins::BrIf(1),
        ],
        format_body_code(rc_new).subrange(30, 47) == digit_code(),
        format_body_code(rc_new).subrange(47, 50) == seq![Ins::Br(0), Ins::End, Ins::End],
        format_body_code(rc_new).subrange(50, 59) == format_sign(),
{
    lemma_format_opening_at(rc_new);
    lemma_format_loop_head_at(rc_new);
    lemma_format_digits_at(rc_new);
    lemma_format_loop_tail_at(rc_new);
    lemma_format_sign_at(rc_new);
}

/// Every `i64` magnitude has at most 20 digits.
proof fn lemma_magnitude_digits(u: nat)
    requires
        u <= 0x1_0000_0000_0000_0000,
    ensures
        loop_digits(u).len() <= 20,
{
    reveal_with_fuel(pow10, 21);
    assert(pow10(20) == 100000000000000000000nat);
    lemma_loop_digits_len(u, 20);
}

/// The magnitude of `v` as a natural number.
pub open spec fn magnitude(v: i64) -> nat {
    (if v < 0 { -v } else { v as int }) as nat
}

/// The text `format_body` gives for `v`: `-` exactly when `v` is negative,
/// then the decimal representation of its magnitude.
pub open spec fn integer_text(v: i64) -> Seq<u8> {
    (if v < 0 { seq!['-' as u8] } else { Seq::<u8>::empty() }) + decimal_bytes(magnitude(v))
}

/// For every `i64` value `v`, the code of `format_body` writes the text of
/// `v` (its decimal representation, with `-` before it exactly when `v` is
/// negative) into the bytes that end at address 128, and leaves in local 2
/// the address of its first byte; the code after it copies those
/// `128 - local 2` bytes into the new string. The code between is the digit
/// loop: a block and a loop that leave when local 1 is zero, around
/// `digit_code`, which is what `run_while_nonzero` runs.
#[verifier::rlimit(100)]
pub proof fn lemma_format_decimal(rc_new: u32, st: Machine, v: i64)
    requires
        st.locals.contains_key(0) && st.locals.contains_key(1) && st.locals.contains_key(2) && st.locals.contains_key(3)
            && st.locals.contains_key(4),
        st.locals[0] == Val::I64(v),
    ensures
        ({
            let code = format_body_code(rc_new);
            let text = integer_text(v);
            let s1 = run(st, code.subrange(0, 25));
            let s2 = run_while_nonzero(s1->0, 1, digit_code(), 20);
            let s3 = run(s2->0, code.subrange(50, 59));
            &&& code.subrange(25, 30) == seq![
                Ins::Block(BlockTy::Empty), Ins::Loop(BlockTy::Empty), Ins::LocalGet(1), Ins::I64Eqz, Ins::BrIf(1),
            ]
            &&& code.subrange(30, 47) == digit_code()
            &&& code.subrange(47, 50) == seq![Ins::Br(0), Ins::End, Ins::End]
            &&& s1 is Some && s2 is Some && s3 is Some
            &&& (s3->0).locals[2] == Val::I32((128 - text.len()) as i32)
            &&& forall|k: int| 0 <= k < text.len() ==> #[trigger] ((s3->0).mem)(128 - text.len() + k) == text[k]
        }),
{
    let code = format_body_code(rc_new);
    let text = integer_text(v);
    let w = magnitude_bits(v);
    let u = magnitude(v);
    assert(unsigned(Val::I64(w)) == u);
    lemma_format_code_shape(rc_new);
    let zero = format_zero();
    lemma_format_prefix(st, v, zero);
    let sp = Machine { locals: st.locals.insert(3, flag(v < 0)).insert(1, Val::I64(w)).insert(2, Val::I32(128)), ..st };
    lemma_format_zero(sp, w);
    let s1 = if w == 0 {
        Machine { locals: sp.locals.insert(2, Val::I32(127)), mem: store_byte(sp.mem, 127, 48), stack: sp.stack }
    } else {
        sp
    };
    assert(run(st, code.subrange(0, 25)) == Some(s1));
    let p: i32 = if u == 0 { 127 } else { 128 };
    let ds = loop_digits(u);
    lemma_magnitude_digits(u);
    if u == 0 {
        assert(ds == Seq::<u8>::empty());
    }
    lemma_digit_loop(s1, w, p, 20);
    let s2 = run_while_nonzero(s1, 1, digit_code(), 20)->0;
    let p2 = p - ds.len();
    assert(s2.locals.contains_key(3) == s1.locals.contains_key(3));
    assert(s2.locals[3] == flag(v < 0));
    lemma_format_sign(s2, v < 0, p2 as i32);
    let s3 = run(s2, code.subrange(50, 59))->0;
    let dec = decimal_bytes(u);
    if u == 0 {
        assert(dec =~= seq![48u8]);
    } else {
        lemma_loop_digits_decimal(u);
    }
    let start = 128 - text.len();
    let sgn: int = if v < 0 { 1 } else { 0 };
    assert(text.len() == sgn + dec.len());
    assert(start == p2 - sgn);
    assert forall|k: int| 0 <= k < text.len() implies #[trigger] (s3.mem)(start + k) == text[k] by {
        if k < sgn {
            assert(text[k] == '-' as u8);
        } else {
            assert(text[k] == dec[k - sgn]);
            let a = start + k;
            assert(p2 <= a < 128);
            assert((s3.mem)(a) == (s2.mem)(a));
            if u == 0 {
                assert((s2.mem)(a) == (s1.mem)(a));
            } else {
                assert((s2.mem)(a) == ds[a - p2]);
            }
        }
    }
}

/// The copy loop from index `i` on writes the case mapping of each input
/// byte from `i` to `n` at the same index of the output, and no other byte.
proof fn lemma_case_loop(delta: i32, st: Machine, s: i32, d: i32, n: i32, i: i32)
    requires
        delta == 32 || delta == -32,
        st.locals.contains_key(0) && st.locals.contains_key(2) && st.locals.contains_key(3) && st.locals.contains_key(4)
            && st.locals.contains_key(5),
        st.locals[0] == Val::I32(s),
        st.locals[2] == Val::I32(n),
        st.locals[3] == Val::I32(d),
        st.locals[4] == Val::I32(i),
        0 <= i <= n && 0 <= s && 0 <= d && s + 4 + n < 0x8000_0000 && d + 4 + n < 0x8000_0000,
        d + n <= s || s + n <= d,
    ensures
        run_while_below(st, 4, 2, case_step_code(delta) + seq![Ins::LocalGet(4), Ins::I32Const(1), Ins::I32Add, Ins::LocalSet(4)], (n - i) as nat) matches Some(st2) && {
            &&& st2.stack == st.stack
            &&& forall|k: int| i <= k < n ==> #[trigger] (st2.mem)(d + 4 + k) == case_mapped((st.mem)(s + 4 + k), delta)
            &&& forall|a: int| !(d + 4 + i <= a < d + 4 + n) ==> #[trigger] (st2.mem)(a) == (st.mem)(a)
        },
    decreases n - i,
{
    let body = case_step_code(delta) + seq![Ins::LocalGet(4), Ins::I32Const(1), Ins::I32Add, Ins::LocalSet(4)];
    if i < n {
        lemma_case_step_then(delta, st, s, d, i, seq![Ins::LocalGet(4), Ins::I32Const(1), Ins::I32Add, Ins::LocalSet(4)]);
        let mapped = case_mapped((st.mem)(s + 4 + i), delta);
        let st1 = Machine {
            stack: st.stack,
            locals: st.locals.insert(5, Val::I32(mapped as i32)),
            mem: store_byte(st.mem, d + 4 + i, mapped),
        };
        lemma_next_index(st1, i);
        let st2 = Machine { locals: st1.locals.insert(4, Val::I32((i + 1) as i32)), ..st1 };
        assert(run(st, body) == Some(st2));
        lemma_case_loop(delta, st2, s, d, n, (i + 1) as i32);
        let st3 = run_while_below(st2, 4, 2, body, (n - i - 1) as nat)->0;
        assert(run_while_below(st, 4, 2, body, (n - i) as nat) == Some(st3));
        assert forall|k: int| i <= k < n implies #[trigger] (st3.mem)(d + 4 + k) == case_mapped((st.mem)(s + 4 + k), delta) by {
            if k > i {
                assert((st2.mem)(s + 4 + k) == (st.mem)(s + 4 + k));
            } else {
                assert((st3.mem)(d + 4 + i) == (st2.mem)(d + 4 + i));
            }
        }
        assert forall|a: int| !(d + 4 + i <= a < d + 4 + n) implies #[trigger] (st3.mem)(a) == (st.mem)(a) by {
            assert((st3.mem)(a) == (st2.mem)(a));
        }
    }
}

/// For every input of `n` bytes at `s` and output at `d` that do not
/// overlap, the copy loop of `map_bytes_body` (a block and a loop that leave
/// once the index in local 4 reaches the length in local 2, around the code
/// from 19 to 50, which is what `run_while_below` runs), started at index 0,
/// stores at each index `k` below `n` of the output the case mapping by
/// `delta` of byte `k` of the input (with `delta` = 32 exactly the ASCII
/// capitals move to small letters, with -32 the reverse), and writes no other
/// byte.
pub proof fn lemma_case_mapping(rc_new: u32, delta: i32, st: Machine, s: i32, d: i32, n: i32)
    requires
        delta == 32 || delta == -32,
        st.locals.contains_key(0) && st.locals.contains_key(2) && st.locals.contains_key(3) && st.locals.contains_key(4)
            && st.locals.contains_key(5),
        st.locals[0] == Val::I32(s),
        st.locals[2] == Val::I32(n),
        st.locals[3] == Val::I32(d),
        st.locals[4] == Val::I32(0),
        0 <= n && 0 <= s && 0 <= d && s + 4 + n < 0x8000_0000 && d + 4 + n < 0x8000_0000,
        d + n <= s || s + n <= d,
    ensures
        ({
            let code = map_bytes_body_code(rc_new, delta);
            &&& code.subrange(13, 19) == seq![
                Ins::Block(BlockTy::Empty), Ins::Loop(BlockTy::Empty), Ins::LocalGet(4), Ins::LocalGet(2), Ins::I32GeU,
                Ins::BrIf(1),
            ]
            &&& code.subrange(50, 53) == seq![Ins::Br(0), Ins::End, Ins::End]
            &&& run_while_below(st, 4, 2, code.subrange(19, 50), n as nat) matches Some(st2) && {
                &&& st2.stack == st.stack
                &&& forall|k: int| 0 <= k < n ==> #[trigger] (st2.mem)(d + 4 + k) == case_mapped((st.mem)(s + 4 + k), delta)
                &&& forall|a: int| !(d + 4 <= a < d + 4 + n) ==> #[trigger] (st2.mem)(a) == (st.mem)(a)
            }
        }),
{
    lemma_map_bytes_step_at(rc_new, delta);
    lemma_map_bytes_loop_at(rc_new, delta);
    let code = map_bytes_body_code(rc_new, delta);
    assert(code.subrange(50, 53) =~= code.subrange(46, 53).subrange(4, 7));
    lemma_case_loop(delta, st, s, d, n, 0);
}

/// Logical not of the `i32` in `src`, stored in `dst`.
proof fn lemma_not_code(st: Machine, src: u32, dst: u32, x: i32)
    requires
        st.locals.contains_key(src) && st.locals.contains_key(dst),
        st.locals[src] == Val::I32(x),
    ensures
        run(st, seq![Ins::LocalGet(src), Ins::I32Eqz, Ins::LocalSet(dst)]) == Some(Machine { locals: st.locals.insert(dst, flag(x == 0)), ..st }),
{
    let c0 = seq![Ins::LocalGet(src), Ins::I32Eqz, Ins::LocalSet(dst)];
    let c1 = seq![Ins::I32Eqz, Ins::LocalSet(dst)];
    let c2 = seq![Ins::LocalSet(dst)];
    let c3 = Seq::<Ins>::empty();
    assert(c0.drop_first() =~= c1);
    assert(c1.drop_first() =~= c2);
    assert(c2.drop_first() =~= c3);
    let st1 = push_val(st, Val::I32(x));
    lemma_run_first(st, c0);
    lemma_exec_get(st, src);
    assert(exec_ins(st, Ins::LocalGet(src)) == Some(st1));
    let st2 = push_val(pop_vals(st1, 1), flag(x == 0));
    lemma_run_first(st1, c1);
    lemma_exec_i32_eqz(st1);
    assert(exec_ins(st1, Ins::I32Eqz) == Some(st2));
    let st3 = Machine { locals: st2.locals.insert(dst, top(st2, 0)), ..pop_vals(st2, 1) };
    lemma_run_first(st2, c2);
    lemma_exec_set(st2, dst);
    assert(exec_ins(st2, Ins::LocalSet(dst)) == Some(st3));
    lemma_run_empty(st3);
    assert(st3.stack =~= st.stack);
}

/// The value in `src`, stored in `dst`.
proof fn lemma_copy_code(st: Machine, src: u32, dst: u32)
    requires
        st.locals.contains_key(src) && st.locals.contains_key(dst),
    ensures
        run(st, seq![Ins::LocalGet(src), Ins::LocalSet(dst)]) == Some(Machine { locals: st.locals.insert(dst, st.locals[src]), ..st }),
{
    let c0 = seq![Ins::LocalGet(src), Ins::LocalSet(dst)];
    let c1 = seq![Ins::LocalSet(dst)];
    let c2 = Seq::<Ins>::empty();
    assert(c0.drop_first() =~= c1);
    assert(c1.drop_first() =~= c2);
    let st1 = push_val(st, st.locals[src]);
    lemma_run_first(st, c0);
    lemma_exec_get(st, src);
    assert(exec_ins(st, Ins::LocalGet(src)) == Some(st1));
    let st2 = Machine { locals: st1.locals.insert(dst, top(st1, 0)), ..pop_vals(st1, 1) };
    lemma_run_first(st1, c1);
    lemma_exec_set(st1, dst);
    assert(exec_ins(st1, Ins::LocalSet(dst)) == Some(st2));
    lemma_run_empty(st2);
    assert(st2.stack =~= st.stack);
}

/// Logical not of a boolean operand stores `1` exactly when the operand is
/// `0` (false), and `+` stores the operand unchanged; nothing else changes.
pub proof fn lemma_not_and_positive(vals: &Values, value: ValueId, operand: ValueId, m: Machine)
    requires
        vals.has(operand),
        vals.has(value),
        m.locals.contains_key(vals.slot(operand).local),
        m.locals.contains_key(vals.slot(value).local),
    ensures
        m.locals[vals.slot(operand).local] is I32 ==> run(m, unary_code(vals, value, UnaryOp::Not, operand)) == Some(
            Machine {
                locals: m.locals.insert(
                    vals.slot(value).local,
                    flag(signed(m.locals[vals.slot(operand).local]) == 0),
                ),
                ..m
            },
        ),
        run(m, unary_code(vals, value, UnaryOp::Positive, operand)) == Some(
            Machine { locals: m.locals.insert(vals.slot(value).local, m.locals[vals.slot(operand).local]), ..m },
        ),
{
    reveal(set_code);
    let src = vals.slot(operand).local;
    let dst = vals.slot(value).local;
    assert(unary_code(vals, value, UnaryOp::Not, operand) == seq![Ins::LocalGet(src), Ins::I32Eqz] + seq![Ins::LocalSet(dst)]);
    assert(unary_code(vals, value, UnaryOp::Not, operand) =~= seq![Ins::LocalGet(src), Ins::I32Eqz, Ins::LocalSet(dst)]);
    assert(unary_code(vals, value, UnaryOp::Positive, operand) == seq![Ins::LocalGet(src)] + seq![Ins::LocalSet(dst)]);
    assert(unary_code(vals, value, UnaryOp::Positive, operand) =~= seq![Ins::LocalGet(src), Ins::LocalSet(dst)]);
    if m.locals[src] is I32 {
        lemma_not_code(m, src, dst, m.locals[src]->I32_0);
    }
    lemma_copy_code(m, src, dst);
}

/// Where the length step stands in `format_body_code`.
#[verifier::spinoff_prover]
#[verifier::rlimit(100)]
proof fn lemma_format_length_at(rc_new: u32)
    ensures
        format_body_code(rc_new).len() >= 63,
        format_body_code(rc_new).subrange(59, 63) == seq![Ins::I32Const(128), Ins::LocalGet(2), Ins::I32Sub, Ins::LocalSet(6)],
{
    reveal(format_body_code);
    assert(format_body_code(rc_new).subrange(59, 63) =~= seq![Ins::I32Const(128), Ins::LocalGet(2), Ins::I32Sub, Ins::LocalSet(6)]);
}

/// After writing the text, `format_body` takes its length as the distance
/// from the write position in local 2 to the end address 128, into local 6:
/// with `lemma_format_decimal`, the length of the text of the formatted value.
pub proof fn lemma_format_length(rc_new: u32, st: Machine, p: i32)
    requires
        st.locals.contains_key(2) && st.locals.contains_key(6),
        st.locals[2] == Val::I32(p),
        0 <= p <= 128,
    ensures
        run(st, format_body_code(rc_new).subrange(59, 63)) == Some(
            Machine { locals: st.locals.insert(6, Val::I32((128 - p) as i32)), ..st },
        ),
{
    lemma_format_length_at(rc_new);
    let c0 = seq![Ins::I32Const(128), Ins::LocalGet(2), Ins::I32Sub, Ins::LocalSet(6)];
    let c1 = seq![Ins::LocalGet(2), Ins::I32Sub, Ins::LocalSet(6)];
    let c2 = seq![Ins::I32Sub, Ins::LocalSet(6)];
    let c3 = seq![Ins::LocalSet(6)];
    let c4 = Seq::<Ins>::empty();
    assert(c0.drop_first() =~= c1);
    assert(c1.drop_first() =~= c2);
    assert(c2.drop_first() =~= c3);
    assert(c3.drop_first() =~= c4);
    let st1 = push_val(st, Val::I32(128));
    lemma_run_first(st, c0);
    lemma_exec_i32_const(st, 128);
    assert(exec_ins(st, Ins::I32Const(128)) == Some(st1));
    let st2 = push_val(st1, Val::I32(p));
    lemma_run_first(st1, c1);
    lemma_exec_get(st1, 2);
    assert(exec_ins(st1, Ins::LocalGet(2)) == Some(st2));
    let st3 = push_val(pop_vals(st2, 2), Val::I32((128 - p) as i32));
    lemma_run_first(st2, c2);
    lemma_i32_sub(128, p);
    lemma_exec_binary(st2, Ins::I32Sub);
    assert(exec_ins(st2, Ins::I32Sub) == Some(st3));
    let st4 = Machine { locals: st3.locals.insert(6, top(st3, 0)), ..pop_vals(st3, 1) };
    lemma_run_first(st3, c3);
    lemma_exec_set(st3, 6);
    assert(exec_ins(st3, Ins::LocalSet(6)) == Some(st4));
    lemma_run_empty(st4);
    assert(st4.stack =~= st.stack);
}

} // verus!
