//! What the integer instructions of the model compute, as the WebAssembly
//! specification defines them: a machine of operand stack, locals and
//! linear memory, on which straight-line code runs one instruction after
//! another, with `if`/`else`/`end` (not nested) as its only control flow.
//! The laws of the emitting modules are stated over this machine.
use vstd::prelude::*;
use crate::wasm::model::{BlockTy, Ins, MemArg};

verus! {

/// A wasm integer value, held by its signed reading.
#[derive(Clone, Copy, Debug, PartialEq, Eq, Structural)]
pub enum Val {
    I32(i32),
    I64(i64),
}

/// The state that code acts on: the operand stack (top last), the locals
/// by index, and linear memory, one byte per address.
pub struct Machine {
    pub stack: Seq<Val>,
    pub locals: Map<u32, Val>,
    pub mem: spec_fn(int) -> u8,
}

/// The width of an integer operation.
#[derive(Clone, Copy, Debug, PartialEq, Eq, Structural)]
pub enum Width {
    W32,
    W64,
}

/// 2 to the number of bits of `w`.
pub open spec fn modulus(w: Width) -> int {
    match w {
        Width::W32 => 0x1_0000_0000,
        Width::W64 => 0x1_0000_0000_0000_0000,
    }
}

/// The value of width `w` whose bits are those of `x` modulo `2^bits`.
pub open spec fn wrap(w: Width, x: int) -> Val {
    let r = x % modulus(w);
    let s = if r >= modulus(w) / 2 { r - modulus(w) } else { r };
    match w {
        Width::W32 => Val::I32(s as i32),
        Width::W64 => Val::I64(s as i64),
    }
}

/// The width of a value.
pub open spec fn width_of(v: Val) -> Width {
    match v {
        Val::I32(_) => Width::W32,
        Val::I64(_) => Width::W64,
    }
}

/// The signed reading of a value.
pub open spec fn signed(v: Val) -> int {
    match v {
        Val::I32(x) => x as int,
        Val::I64(x) => x as int,
    }
}

/// The unsigned reading of a value.
pub open spec fn unsigned(v: Val) -> int {
    if signed(v) < 0 { signed(v) + modulus(width_of(v)) } else { signed(v) }
}

/// `1` when `b` holds, else `0`, as an `i32`.
pub open spec fn flag(b: bool) -> Val {
    Val::I32(if b { 1 } else { 0 })
}

/// Division rounding toward zero.
pub open spec fn trunc_div(x: int, y: int) -> int {
    let q = if x >= 0 { x } else { -x } / (if y >= 0 { y } else { -y });
    if (x >= 0) == (y >= 0) { q } else { -q }
}

/// The integer operations of the binary instructions.
#[derive(Clone, Copy, Debug, PartialEq, Eq, Structural)]
pub enum IntOp {
    Add,
    Sub,
    Mul,
    DivS,
    DivU,
    RemS,
    RemU,
    And,
    Or,
    Eq,
    Ne,
    LtS,
    LtU,
    LeS,
    LeU,
    GtS,
    GtU,
    GeS,
    GeU,
}

/// The width and operation of a binary integer instruction.
pub open spec fn binary_op_of(ins: Ins) -> Option<(Width, IntOp)> {
    match ins {
        Ins::I32Add => Some((Width::W32, IntOp::Add)),
        Ins::I32Sub => Some((Width::W32, IntOp::Sub)),
        Ins::I32Mul => Some((Width::W32, IntOp::Mul)),
        Ins::I32DivS => Some((Width::W32, IntOp::DivS)),
        Ins::I32DivU => Some((Width::W32, IntOp::DivU)),
        Ins::I32RemS => Some((Width::W32, IntOp::RemS)),
        Ins::I32And => Some((Width::W32, IntOp::And)),
        Ins::I32Or => Some((Width::W32, IntOp::Or)),
        Ins::I32Eq => Some((Width::W32, IntOp::Eq)),
        Ins::I32Ne => Some((Width::W32, IntOp::Ne)),
        Ins::I32LtS => Some((Width::W32, IntOp::LtS)),
        Ins::I32LtU => Some((Width::W32, IntOp::LtU)),
        Ins::I32LeS => Some((Width::W32, IntOp::LeS)),
        Ins::I32LeU => Some((Width::W32, IntOp::LeU)),
        Ins::I32GtS => Some((Width::W32, IntOp::GtS)),
        Ins::I32GtU => Some((Width::W32, IntOp::GtU)),
        Ins::I32GeS => Some((Width::W32, IntOp::GeS)),
        Ins::I32GeU => Some((Width::W32, IntOp::GeU)),
        Ins::I64Add => Some((Width::W64, IntOp::Add)),
        Ins::I64Sub => Some((Width::W64, IntOp::Sub)),
        Ins::I64Mul => Some((Width::W64, IntOp::Mul)),
        Ins::I64DivS => Some((Width::W64, IntOp::DivS)),
        Ins::I64DivU => Some((Width::W64, IntOp::DivU)),
        Ins::I64RemS => Some((Width::W64, IntOp::RemS)),
        Ins::I64RemU => Some((Width::W64, IntOp::RemU)),
        Ins::I64Or => Some((Width::W64, IntOp::Or)),
        Ins::I64Eq => Some((Width::W64, IntOp::Eq)),
        Ins::I64Ne => Some((Width::W64, IntOp::Ne)),
        Ins::I64LtS => Some((Width::W64, IntOp::LtS)),
        Ins::I64LtU => Some((Width::W64, IntOp::LtU)),
        Ins::I64LeS => Some((Width::W64, IntOp::LeS)),
        Ins::I64LeU => Some((Width::W64, IntOp::LeU)),
        Ins::I64GtS => Some((Width::W64, IntOp::GtS)),
        Ins::I64GtU => Some((Width::W64, IntOp::GtU)),
        Ins::I64GeS => Some((Width::W64, IntOp::GeS)),
        Ins::I64GeU => Some((Width::W64, IntOp::GeU)),
        _ => None,
    }
}

/// What `op` of width `w` gives on `a` and `b`; `None` where wasm traps
/// (division by zero, signed division overflow).
pub open spec fn int_op(w: Width, op: IntOp, a: Val, b: Val) -> Option<Val> {
    let (x, y) = (signed(a), signed(b));
    let (ux, uy) = (unsigned(a), unsigned(b));
    match op {
        IntOp::Add => Some(wrap(w, x + y)),
        IntOp::Sub => Some(wrap(w, x - y)),
        IntOp::Mul => Some(wrap(w, x * y)),
        IntOp::DivS => if y == 0 || trunc_div(x, y) >= modulus(w) / 2 {
            None
        } else {
            Some(wrap(w, trunc_div(x, y)))
        },
        IntOp::DivU => if uy == 0 { None } else { Some(wrap(w, ux / uy)) },
        IntOp::RemS => if y == 0 { None } else { Some(wrap(w, x - y * trunc_div(x, y))) },
        IntOp::RemU => if uy == 0 { None } else { Some(wrap(w, ux % uy)) },
        IntOp::And => Some(wrap(w, bit_and(w, ux, uy))),
        IntOp::Or => Some(wrap(w, bit_or(w, ux, uy))),
        IntOp::Eq => Some(flag(x == y)),
        IntOp::Ne => Some(flag(x != y)),
        IntOp::LtS => Some(flag(x < y)),
        IntOp::LtU => Some(flag(ux < uy)),
        IntOp::LeS => Some(flag(x <= y)),
        IntOp::LeU => Some(flag(ux <= uy)),
        IntOp::GtS => Some(flag(x > y)),
        IntOp::GtU => Some(flag(ux > uy)),
        IntOp::GeS => Some(flag(x >= y)),
        IntOp::GeU => Some(flag(ux >= uy)),
    }
}

/// Bitwise and of two unsigned readings of width `w`.
pub open spec fn bit_and(w: Width, x: int, y: int) -> int {
    match w {
        Width::W32 => (x as u32 & y as u32) as int,
        Width::W64 => (x as u64 & y as u64) as int,
    }
}

/// Bitwise or of two unsigned readings of width `w`.
pub open spec fn bit_or(w: Width, x: int, y: int) -> int {
    match w {
        Width::W32 => (x as u32 | y as u32) as int,
        Width::W64 => (x as u64 | y as u64) as int,
    }
}

/// What a binary instruction gives on operands `a` (pushed first) and `b`:
/// `None` when it is no binary integer instruction, an operand has another
/// width, or it traps.
pub open spec fn binary_value(ins: Ins, a: Val, b: Val) -> Option<Val> {
    match binary_op_of(ins) {
        Some((w, op)) => if width_of(a) == w && width_of(b) == w {
            int_op(w, op, a, b)
        } else {
            None
        },
        None => None,
    }
}

/// `m` with `v` pushed.
pub open spec fn push_val(m: Machine, v: Val) -> Machine {
    Machine { stack: m.stack.push(v), ..m }
}

/// `m` with its top `n` values popped.
pub open spec fn pop_vals(m: Machine, n: int) -> Machine {
    Machine { stack: m.stack.take(m.stack.len() - n), ..m }
}

/// The value `k` places below the top of the stack (0 is the top).
pub open spec fn top(m: Machine, k: int) -> Val {
    m.stack[m.stack.len() - 1 - k]
}

/// `m`'s memory with the byte at `address` set to `byte`.
pub open spec fn store_byte(mem: spec_fn(int) -> u8, address: int, byte: u8) -> spec_fn(int) -> u8 {
    |a: int| if a == address { byte } else { mem(a) }
}

/// The state after one instruction, or `None` where it traps, finds too few
/// or ill-typed operands, names a missing local, or is no straight-line
/// integer instruction.
#[verifier::opaque]
pub open spec fn exec_ins(m: Machine, ins: Ins) -> Option<Machine> {
    let n = m.stack.len();
    match ins {
        Ins::I32Const(c) => Some(push_val(m, Val::I32(c))),
        Ins::I64Const(c) => Some(push_val(m, Val::I64(c))),
        Ins::LocalGet(l) => if m.locals.contains_key(l) { Some(push_val(m, m.locals[l])) } else { None },
        Ins::LocalSet(l) => if n >= 1 && m.locals.contains_key(l) {
            Some(Machine { locals: m.locals.insert(l, top(m, 0)), ..pop_vals(m, 1) })
        } else {
            None
        },
        Ins::LocalTee(l) => if n >= 1 && m.locals.contains_key(l) {
            Some(Machine { locals: m.locals.insert(l, top(m, 0)), ..m })
        } else {
            None
        },
        Ins::Drop => if n >= 1 { Some(pop_vals(m, 1)) } else { None },
        Ins::I32Eqz => if n >= 1 && top(m, 0) is I32 {
            Some(push_val(pop_vals(m, 1), flag(signed(top(m, 0)) == 0)))
        } else {
            None
        },
        Ins::I64Eqz => if n >= 1 && top(m, 0) is I64 {
            Some(push_val(pop_vals(m, 1), flag(signed(top(m, 0)) == 0)))
        } else {
            None
        },
        Ins::I32WrapI64 => if n >= 1 && top(m, 0) is I64 {
            Some(push_val(pop_vals(m, 1), wrap(Width::W32, signed(top(m, 0)))))
        } else {
            None
        },
        Ins::I32Load8U(arg) => if n >= 1 && top(m, 0) is I32 {
            let byte = (m.mem)(unsigned(top(m, 0)) + arg.offset);
            Some(push_val(pop_vals(m, 1), Val::I32(byte as i32)))
        } else {
            None
        },
        Ins::I32Store8(arg) => if n >= 2 && top(m, 0) is I32 && top(m, 1) is I32 {
            let address = unsigned(top(m, 1)) + arg.offset;
            let byte = (unsigned(top(m, 0)) % 256) as u8;
            Some(Machine { mem: store_byte(m.mem, address, byte), ..pop_vals(m, 2) })
        } else {
            None
        },
        _ => if n >= 2 {
            match binary_value(ins, top(m, 1), top(m, 0)) {
                Some(v) => Some(push_val(pop_vals(m, 2), v)),
                None => None,
            }
        } else {
            None
        },
    }
}

/// `i32.const` pushes its immediate.
pub proof fn lemma_exec_i32_const(m: Machine, c: i32)
    ensures
        exec_ins(m, Ins::I32Const(c)) == Some(push_val(m, Val::I32(c))),
{
    reveal(exec_ins);
}

/// `i64.const` pushes its immediate.
pub proof fn lemma_exec_i64_const(m: Machine, c: i64)
    ensures
        exec_ins(m, Ins::I64Const(c)) == Some(push_val(m, Val::I64(c))),
{
    reveal(exec_ins);
}

/// `local.get` pushes the local's value.
pub proof fn lemma_exec_get(m: Machine, l: u32)
    requires
        m.locals.contains_key(l),
    ensures
        exec_ins(m, Ins::LocalGet(l)) == Some(push_val(m, m.locals[l])),
{
    reveal(exec_ins);
}

/// `local.set` pops the top of the stack into the local.
pub proof fn lemma_exec_set(m: Machine, l: u32)
    requires
        m.locals.contains_key(l),
        m.stack.len() >= 1,
    ensures
        exec_ins(m, Ins::LocalSet(l)) == Some(Machine { locals: m.locals.insert(l, top(m, 0)), ..pop_vals(m, 1) }),
{
    reveal(exec_ins);
}

/// `local.tee` copies the top of the stack into the local.
pub proof fn lemma_exec_tee(m: Machine, l: u32)
    requires
        m.locals.contains_key(l),
        m.stack.len() >= 1,
    ensures
        exec_ins(m, Ins::LocalTee(l)) == Some(Machine { locals: m.locals.insert(l, top(m, 0)), ..m }),
{
    reveal(exec_ins);
}

/// A binary instruction replaces its two operands by its value.
pub proof fn lemma_exec_binary(m: Machine, ins: Ins)
    requires
        m.stack.len() >= 2,
        binary_value(ins, top(m, 1), top(m, 0)) is Some,
    ensures
        exec_ins(m, ins) == Some(push_val(pop_vals(m, 2), binary_value(ins, top(m, 1), top(m, 0))->0)),
{
    reveal(exec_ins);
}

/// `i32.eqz` gives whether the top `i32` is zero.
pub proof fn lemma_exec_i32_eqz(m: Machine)
    requires
        m.stack.len() >= 1,
        top(m, 0) is I32,
    ensures
        exec_ins(m, Ins::I32Eqz) == Some(push_val(pop_vals(m, 1), flag(signed(top(m, 0)) == 0))),
{
    reveal(exec_ins);
}

/// `i64.eqz` gives whether the top `i64` is zero.
pub proof fn lemma_exec_i64_eqz(m: Machine)
    requires
        m.stack.len() >= 1,
        top(m, 0) is I64,
    ensures
        exec_ins(m, Ins::I64Eqz) == Some(push_val(pop_vals(m, 1), flag(signed(top(m, 0)) == 0))),
{
    reveal(exec_ins);
}

/// `i32.wrap_i64` keeps the low 32 bits.
pub proof fn lemma_exec_wrap(m: Machine)
    requires
        m.stack.len() >= 1,
        top(m, 0) is I64,
    ensures
        exec_ins(m, Ins::I32WrapI64) == Some(push_val(pop_vals(m, 1), wrap(Width::W32, signed(top(m, 0))))),
{
    reveal(exec_ins);
}

/// `i32.load8_u` reads the byte at the address on top plus the offset.
pub proof fn lemma_exec_load8(m: Machine, arg: MemArg)
    requires
        m.stack.len() >= 1,
        top(m, 0) is I32,
    ensures
        exec_ins(m, Ins::I32Load8U(arg)) == Some(
            push_val(pop_vals(m, 1), Val::I32((m.mem)(unsigned(top(m, 0)) + arg.offset) as i32)),
        ),
{
    reveal(exec_ins);
}

/// `i32.store8` writes the low byte of the top value at the address below
/// it plus the offset.
pub proof fn lemma_exec_store8(m: Machine, arg: MemArg)
    requires
        m.stack.len() >= 2,
        top(m, 0) is I32,
        top(m, 1) is I32,
    ensures
        exec_ins(m, Ins::I32Store8(arg)) == Some(
            Machine {
                mem: store_byte(m.mem, unsigned(top(m, 1)) + arg.offset, (unsigned(top(m, 0)) % 256) as u8),
                ..pop_vals(m, 2)
            },
        ),
{
    reveal(exec_ins);
}

/// The position of the first `x` in `code`, or its length.
pub open spec fn position_of(code: Seq<Ins>, x: Ins) -> nat
    decreases code.len(),
{
    if code.len() == 0 {
        0
    } else if code[0] == x {
        0
    } else {
        1 + position_of(code.drop_first(), x)
    }
}

/// Runs `code` from `m`: each instruction in turn; an `if` takes the `i32`
/// on top of the stack and runs the code up to its `else` when that is not
/// zero, and the code from the `else` (if any) otherwise, up to its `end`.
/// `None` where an instruction fails, or an `if` has no `end`.
#[verifier::opaque]
pub open spec fn run(m: Machine, code: Seq<Ins>) -> Option<Machine>
    decreases code.len(),
{
    if code.len() == 0 {
        Some(m)
    } else {
        match code[0] {
            Ins::If(_) => {
                let rest = code.drop_first();
                let e = position_of(rest, Ins::End) as int;
                let el = position_of(rest.take(e), Ins::Else) as int;
                if m.stack.len() >= 1 && top(m, 0) is I32 && e < rest.len() && el <= e {
                    let branch = if signed(top(m, 0)) != 0 {
                        rest.take(el)
                    } else if el < e {
                        rest.subrange(el + 1, e)
                    } else {
                        Seq::empty()
                    };
                    match run(pop_vals(m, 1), branch) {
                        Some(m2) => run(m2, rest.skip(e + 1)),
                        None => None,
                    }
                } else {
                    None
                }
            },
            _ => match exec_ins(m, code[0]) {
                Some(m2) => run(m2, code.drop_first()),
                None => None,
            },
        }
    }
}

/// Where `code` has no `x`, its first `x` is at its length.
pub proof fn lemma_position_absent(code: Seq<Ins>, x: Ins)
    requires
        forall|i: int| 0 <= i < code.len() ==> code[i] != x,
    ensures
        position_of(code, x) == code.len(),
    decreases code.len(),
{
    if code.len() > 0 {
        assert(code[0] != x);
        lemma_position_absent(code.drop_first(), x);
    }
}

/// Where `code` has no `x`, the first `x` of `code + [x] + tail` is the one after it.
pub proof fn lemma_position_after(code: Seq<Ins>, x: Ins, tail: Seq<Ins>)
    requires
        forall|i: int| 0 <= i < code.len() ==> code[i] != x,
    ensures
        position_of(code + seq![x] + tail, x) == code.len(),
    decreases code.len(),
{
    let all = code + seq![x] + tail;
    if code.len() == 0 {
        assert(all[0] == x);
    } else {
        assert(all[0] == code[0]);
        assert(all.drop_first() =~= code.drop_first() + seq![x] + tail);
        lemma_position_after(code.drop_first(), x, tail);
    }
}

/// An `if` without `else` whose body has no `else` or `end` runs its body
/// when the condition is not zero, then what follows its `end`.
pub proof fn lemma_run_if(m: Machine, body: Seq<Ins>, after: Seq<Ins>)
    requires
        m.stack.len() >= 1,
        top(m, 0) is I32,
        forall|i: int| 0 <= i < body.len() ==> body[i] != Ins::End && body[i] != Ins::Else,
    ensures
        run(m, seq![Ins::If(BlockTy::Empty)] + body + seq![Ins::End] + after) == if signed(top(m, 0)) != 0 {
            match run(pop_vals(m, 1), body) {
                Some(m2) => run(m2, after),
                None => None,
            }
        } else {
            run(pop_vals(m, 1), after)
        },
{
    reveal(run);
    let code = seq![Ins::If(BlockTy::Empty)] + body + seq![Ins::End] + after;
    let rest = code.drop_first();
    assert(rest =~= body + seq![Ins::End] + after);
    lemma_position_after(body, Ins::End, after);
    let e = body.len() as int;
    assert(rest.take(e) =~= body);
    lemma_position_absent(body, Ins::Else);
    assert(rest.skip(e + 1) =~= after);
    assert(run(pop_vals(m, 1), Seq::<Ins>::empty()) == Some(pop_vals(m, 1)));
}

/// An `if` with an `else`, neither arm holding an `else` or `end`, runs the
/// first arm when the condition is not zero and the second otherwise, then
/// what follows its `end`.
pub proof fn lemma_run_if_else(m: Machine, bt: BlockTy, then_arm: Seq<Ins>, else_arm: Seq<Ins>, after: Seq<Ins>)
    requires
        m.stack.len() >= 1,
        top(m, 0) is I32,
        forall|i: int| 0 <= i < then_arm.len() ==> then_arm[i] != Ins::End && then_arm[i] != Ins::Else,
        forall|i: int| 0 <= i < else_arm.len() ==> else_arm[i] != Ins::End && else_arm[i] != Ins::Else,
    ensures
        run(m, seq![Ins::If(bt)] + then_arm + seq![Ins::Else] + else_arm + seq![Ins::End] + after) == match run(
            pop_vals(m, 1),
            if signed(top(m, 0)) != 0 { then_arm } else { else_arm },
        ) {
            Some(m2) => run(m2, after),
            None => None,
        },
{
    reveal(run);
    let code = seq![Ins::If(bt)] + then_arm + seq![Ins::Else] + else_arm + seq![Ins::End] + after;
    let rest = code.drop_first();
    let arms = then_arm + seq![Ins::Else] + else_arm;
    assert forall|i: int| 0 <= i < arms.len() implies arms[i] != Ins::End by {
        if i < then_arm.len() {
        } else if i > then_arm.len() {
            assert(arms[i] == else_arm[i - then_arm.len() - 1]);
        }
    }
    assert(rest =~= arms + seq![Ins::End] + after);
    lemma_position_after(arms, Ins::End, after);
    let e = arms.len() as int;
    assert(rest.take(e) =~= then_arm + seq![Ins::Else] + else_arm);
    lemma_position_after(then_arm, Ins::Else, else_arm);
    let el = then_arm.len() as int;
    assert(rest.take(e).take(el) =~= then_arm);
    assert(rest.take(el) =~= then_arm);
    assert(rest.subrange(el + 1, e) =~= else_arm);
    assert(rest.skip(e + 1) =~= after);
}

/// Runs `body` again and again while the `i64` in local `l` is not zero, at
/// most `fuel` times: what `block loop (local.get l) i64.eqz br_if 1 <body>
/// br 0 end end` does. `None` where the local is missing or not an `i64`,
/// the body fails, or the fuel runs out.
pub open spec fn run_while_nonzero(m: Machine, l: u32, body: Seq<Ins>, fuel: nat) -> Option<Machine>
    decreases fuel,
{
    if !m.locals.contains_key(l) || !(m.locals[l] is I64) {
        None
    } else if signed(m.locals[l]) == 0 {
        Some(m)
    } else if fuel == 0 {
        None
    } else {
        match run(m, body) {
            Some(m2) => run_while_nonzero(m2, l, body, (fuel - 1) as nat),
            None => None,
        }
    }
}

/// Runs `body` again and again while the unsigned `i32` in local `i` is
/// below the one in local `n`, at most `fuel` times: what `block loop
/// (local.get i) (local.get n) i32.ge_u br_if 1 <body> br 0 end end` does.
/// `None` where a local is missing or not an `i32`, the body fails, or the
/// fuel runs out.
pub open spec fn run_while_below(m: Machine, i: u32, n: u32, body: Seq<Ins>, fuel: nat) -> Option<Machine>
    decreases fuel,
{
    if !m.locals.contains_key(i) || !m.locals.contains_key(n) || !(m.locals[i] is I32) || !(m.locals[n] is I32) {
        None
    } else if unsigned(m.locals[i]) >= unsigned(m.locals[n]) {
        Some(m)
    } else if fuel == 0 {
        None
    } else {
        match run(m, body) {
            Some(m2) => run_while_below(m2, i, n, body, (fuel - 1) as nat),
            None => None,
        }
    }
}

/// Running `a` then `b` is running `a + b`, when `a` is straight-line code.
pub proof fn lemma_run_append(m: Machine, a: Seq<Ins>, b: Seq<Ins>)
    requires
        forall|i: int| 0 <= i < a.len() ==> !(#[trigger] a[i] is If),
    ensures
        run(m, a + b) == match run(m, a) {
            Some(m2) => run(m2, b),
            None => None,
        },
    decreases a.len(),
{
    reveal(run);
    reveal(exec_ins);
    if a.len() > 0 {
        assert((a + b).drop_first() =~= a.drop_first() + b);
        assert((a + b)[0] == a[0]);
        match exec_ins(m, a[0]) {
            Some(m2) => {
                lemma_run_append(m2, a.drop_first(), b);
            },
            None => {},
        }
    } else {
        assert(a + b =~= b);
    }
}

} // verus!
