//! What the range test of an integer conversion decides: it passes exactly
//! when the source value lies in the target type's range.
use vstd::prelude::*;
use vstd::arithmetic::power2::{lemma2_to64, lemma2_to64_rest, pow2};
use vstd::bits::{lemma_u64_pow2_no_overflow, lemma_u64_shl_is_mul};
use crate::wasm::model::Ins;
use crate::wasm::select::{cast_defined, int_range_check, spec_is_float, spec_is_unsigned, target_bits, NumericKind};

verus! {

/// What a straight-line run of range-test instructions leaves on the
/// stack, starting from `stack`, when `local.get` pushes the widened source
/// `w`: `i64.const` pushes its constant; `i64.ge_s`, `i64.lt_s` and
/// `i32.and` pop two values and push 1 or 0. `None` for any other
/// instruction or a stack too short.
pub open spec fn eval_test(code: Seq<Ins>, w: int, stack: Seq<int>) -> Option<Seq<int>>
    decreases code.len(),
{
    if code.len() == 0 {
        Some(stack)
    } else {
        let n = stack.len();
        let next = match code[0] {
            Ins::LocalGet(_) => Some(stack.push(w)),
            Ins::I64Const(c) => Some(stack.push(c as int)),
            Ins::I64GeS => if n >= 2 {
                Some(stack.take(n - 2).push(if stack[n - 2] >= stack[n - 1] { 1int } else { 0int }))
            } else {
                None
            },
            Ins::I64LtS => if n >= 2 {
                Some(stack.take(n - 2).push(if stack[n - 2] < stack[n - 1] { 1int } else { 0int }))
            } else {
                None
            },
            Ins::I32And => if n >= 2 {
                Some(stack.take(n - 2).push(if stack[n - 2] != 0 && stack[n - 1] != 0 { 1int } else { 0int }))
            } else {
                None
            },
            _ => None,
        };
        match next {
            Some(s) => eval_test(code.skip(1), w, s),
            None => None,
        }
    }
}

/// The width in bits of an integer kind, a pointer-sized one taking the
/// target's pointer width, capped at 64.
pub open spec fn kind_width(kind: NumericKind, pointer_bits: u32) -> nat {
    let b = target_bits(kind, pointer_bits);
    if b >= 64 { 64 } else { b as nat }
}

/// `x` lies in the range of the integer kind `kind`.
pub open spec fn in_kind_range(kind: NumericKind, pointer_bits: u32, x: int) -> bool {
    let b = kind_width(kind, pointer_bits);
    if spec_is_unsigned(kind) {
        0 <= x < pow2(b)
    } else {
        -(pow2((b - 1) as nat) as int) <= x < pow2((b - 1) as nat)
    }
}

/// The widened source as the test reads it: a signed 64-bit integer, so an
/// unsigned 64-bit value past `i64::MAX` reads as negative.
pub open spec fn test_reading(from: NumericKind, pointer_bits: u32, x: int) -> int {
    if spec_is_unsigned(from) && kind_width(from, pointer_bits) == 64 && x >= pow2(63) {
        x - pow2(64)
    } else {
        x
    }
}

/// `1 << k` as an `i64` is `2^k`, for `k` up to 62.
proof fn lemma_shift_is_pow2(k: u32)
    requires
        k <= 62,
    ensures
        (1i64 << k) as int == pow2(k as nat),
        (1i64 << k) > 0,
{
    let k64 = k as u64;
    lemma_u64_pow2_no_overflow(k as nat);
    lemma_u64_shl_is_mul(1u64, k64);
    assert((1i64 << k) as u64 == 1u64 << k64 && (1i64 << k) > 0) by (bit_vector)
        requires
            k <= 62,
            k64 == k as u64,
    ;
}

/// The range test of an integer to integer conversion passes exactly when
/// the source value lies in the target type's range: for every value `x` of
/// the source type, with the widened source already on the stack (as the
/// conversion pushes it first), the test leaves on top of the stack the
/// value that the conversion's `if` tests: 1 when `x` fits the target, and
/// 0 when it does not, where the conversion traps.
pub proof fn lemma_range_test_exact(from: NumericKind, to: NumericKind, pointer_bits: u32, x: int)
    requires
        !spec_is_float(from),
        !spec_is_float(to),
        cast_defined(from, to, pointer_bits),
        pointer_bits % 8 == 0,
        kind_width(from, pointer_bits) >= 1,
        in_kind_range(from, pointer_bits, x),
    ensures
        ({
            let w = test_reading(from, pointer_bits, x);
            eval_test(int_range_check(from, to, target_bits(to, pointer_bits), seq![Ins::LocalGet(0)]), w, seq![w])
                matches Some(st) && st.len() >= 1 && st.last() == (if in_kind_range(to, pointer_bits, x) { 1int } else { 0int })
        }),
{
    reveal(int_range_check);
    reveal_with_fuel(eval_test, 8);
    lemma2_to64();
    lemma2_to64_rest();
    let bits = target_bits(to, pointer_bits);
    let fw = kind_width(from, pointer_bits);
    assert(fw == 64 || fw % 8 == 0) by {
        assert(target_bits(from, pointer_bits) % 8 == 0 || target_bits(from, pointer_bits) >= 64);
    }
    if fw < 64 {
        assert(fw <= 56);
        vstd::arithmetic::power2::lemma_pow2_strictly_increases(fw, 63);
        if fw >= 1 {
            vstd::arithmetic::power2::lemma_pow2_strictly_increases((fw - 1) as nat, 63);
        }
    }
    if bits < 64 {
        assert(bits % 8 == 0);
        assert(bits <= 56);
        lemma_shift_is_pow2(bits);
        vstd::arithmetic::power2::lemma_pow2_strictly_increases(bits as nat, 63);
        if bits >= 1 {
            lemma_shift_is_pow2((bits - 1) as u32);
            vstd::arithmetic::power2::lemma_pow2_strictly_increases((bits - 1) as nat, 63);
        }
    }
}

} // verus!
