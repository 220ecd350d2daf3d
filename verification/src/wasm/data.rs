//! The module's data segment: a scratch area, then every string literal.
//!
//! Bytes `0..128` are scratch (with a newline at `NEWLINE_ADDR`); each
//! distinct literal follows as `[len: u32 little-endian][utf-8 bytes]`, padded
//! with zeros to a multiple of four bytes, in order of first occurrence.
//! `"true"` and `"false"` are always present (for `bool.to_str()`).
use vstd::prelude::*;
use vstd::string::StringSliceAdditionalSpecFns;
use crate::wasm::program::{MirFunction, Program};

verus! {

/// Size of the scratch area at the start of the data segment.
pub const SCRATCH: usize = 128;

/// Address of the newline byte in the scratch area.
pub const NEWLINE_ADDR: usize = 12;

/// The scratch area: zeros, with a newline at `NEWLINE_ADDR`.
pub open spec fn scratch() -> Seq<u8> {
    Seq::new(SCRATCH as nat, |i: int| if i == NEWLINE_ADDR { 10u8 } else { 0u8 })
}

/// The little-endian bytes of `v`.
pub open spec fn le_u32(v: u32) -> Seq<u8> {
    seq![
        (v % 256) as u8,
        ((v / 256) % 256) as u8,
        ((v / 65536) % 256) as u8,
        ((v / 16777216) % 256) as u8,
    ]
}

/// Zero bytes that pad `n` bytes to a multiple of four.
pub open spec fn padding(n: nat) -> Seq<u8> {
    Seq::new(((4 - n % 4) % 4) as nat, |i: int| 0u8)
}

/// The UTF-8 bytes of a literal.
pub open spec fn utf8(literal: Seq<char>) -> Seq<u8> {
    vstd::utf8::encode_utf8(literal)
}

/// The record of one literal: its byte length, its bytes, and padding.
pub open spec fn record(literal: Seq<char>) -> Seq<u8> {
    le_u32(utf8(literal).len() as u32) + utf8(literal) + padding(utf8(literal).len() + 4)
}

/// The records of `literals`, one after the other.
pub open spec fn records(literals: Seq<Seq<char>>) -> Seq<u8>
    decreases literals.len(),
{
    if literals.len() == 0 {
        Seq::empty()
    } else {
        records(literals.drop_last()) + record(literals.last())
    }
}

/// The literals of `s` without repeats, each at its first occurrence.
pub open spec fn distinct(s: Seq<Seq<char>>) -> Seq<Seq<char>>
    decreases s.len(),
{
    if s.len() == 0 {
        Seq::empty()
    } else if distinct(s.drop_last()).contains(s.last()) {
        distinct(s.drop_last())
    } else {
        distinct(s.drop_last()).push(s.last())
    }
}

/// The literals of one function, in instruction order.
pub open spec fn function_literals(f: MirFunction) -> Seq<Seq<char>> {
    f.literals@.map_values(|s: String| s@)
}

/// The literals of `functions`, in order.
pub open spec fn all_literals(functions: Seq<MirFunction>) -> Seq<Seq<char>>
    decreases functions.len(),
{
    if functions.len() == 0 {
        Seq::empty()
    } else {
        all_literals(functions.drop_last()) + function_literals(functions.last())
    }
}

/// The literals of the string table, in order.
pub open spec fn table_literals(program: &Program) -> Seq<Seq<char>> {
    distinct(all_literals(program.functions@) + seq!["true"@, "false"@])
}

/// The address of the record of `literals[k]`.
pub open spec fn address_in(literals: Seq<Seq<char>>, k: int) -> int {
    SCRATCH + records(literals.take(k)).len()
}

/// The data segment of `program`.
pub open spec fn string_data(program: &Program) -> Seq<u8> {
    scratch() + records(table_literals(program))
}

/// `table` lists `literals` with the address of each record (as a 32-bit
/// address).
pub open spec fn table_matches(table: Seq<(String, u32)>, literals: Seq<Seq<char>>) -> bool {
    &&& table.len() == literals.len()
    &&& forall|k: int| 0 <= k < table.len() ==> {
        &&& (#[trigger] table[k]).0@ == literals[k]
        &&& table[k].1 == address_in(literals, k) as u32
    }
}

proof fn lemma_records_push(literals: Seq<Seq<char>>, x: Seq<char>)
    ensures
        records(literals.push(x)) == records(literals) + record(x),
{
    assert(literals.push(x).drop_last() =~= literals);
}

proof fn lemma_distinct_push(s: Seq<Seq<char>>, x: Seq<char>)
    ensures
        distinct(s.push(x)) == if distinct(s).contains(x) { distinct(s) } else { distinct(s).push(x) },
{
    assert(s.push(x).drop_last() =~= s);
}

proof fn lemma_all_literals_push(fs: Seq<MirFunction>, f: MirFunction)
    ensures
        all_literals(fs.push(f)) == all_literals(fs) + function_literals(f),
{
    assert(fs.push(f).drop_last() =~= fs);
}

/// The record length is four bytes of length, the bytes, and the padding.
proof fn lemma_record_len(x: Seq<char>)
    ensures
        record(x).len() == 4 + utf8(x).len() + (4 - (utf8(x).len() + 4) % 4) % 4,
        record(x).len() % 4 == 0,
{
}


/// `records(s.take(n))` is a prefix of `records(s)`.
proof fn lemma_records_prefix(s: Seq<Seq<char>>, n: int)
    requires
        0 <= n <= s.len(),
    ensures
        records(s.take(n)).len() <= records(s).len(),
        records(s).subrange(0, records(s.take(n)).len() as int) == records(s.take(n)),
    decreases s.len() - n,
{
    if n == s.len() {
        assert(s.take(n) =~= s);
        assert(records(s).subrange(0, records(s).len() as int) =~= records(s));
    } else {
        lemma_records_prefix(s, n + 1);
        assert(s.take(n + 1).drop_last() =~= s.take(n));
        let big = records(s);
        let mid = records(s.take(n + 1));
        let small = records(s.take(n));
        assert(mid == small + record(s.take(n + 1).last()));
        assert(big.subrange(0, small.len() as int) =~= mid.subrange(0, small.len() as int));
        assert(mid.subrange(0, small.len() as int) =~= small);
    }
}

/// Reading the data segment at a literal's table address gives back the
/// literal: four little-endian bytes of its byte length, then its UTF-8
/// bytes; every address is a multiple of four.
pub proof fn lemma_literal_at_address(program: &Program, k: int)
    requires
        0 <= k < table_literals(program).len(),
    ensures
        ({
            let lits = table_literals(program);
            let data = string_data(program);
            let a = address_in(lits, k);
            let n = utf8(lits[k]).len();
            &&& a % 4 == 0
            &&& a + 4 + n <= data.len()
            &&& data.subrange(a, a + 4) == le_u32(n as u32)
            &&& data.subrange(a + 4, a + 4 + n) == utf8(lits[k])
        }),
{
    let lits = table_literals(program);
    let data = string_data(program);
    let a = address_in(lits, k);
    let n = utf8(lits[k]).len();
    lemma_records_prefix(lits, k + 1);
    assert(lits.take(k + 1).drop_last() =~= lits.take(k));
    assert(lits.take(k + 1).last() == lits[k]);
    let before = records(lits.take(k));
    let upto = records(lits.take(k + 1));
    assert(upto == before + record(lits[k]));
    lemma_scratch_records_aligned(lits.take(k));
    let b = before.len() as int;
    assert(data.subrange(a, a + 4) =~= upto.subrange(b, b + 4));
    assert(data.subrange(a + 4, a + 4 + n) =~= upto.subrange(b + 4, b + 4 + n));
}

proof fn lemma_push_contains(s: Seq<Seq<char>>, y: Seq<char>, x: Seq<char>)
    ensures
        s.push(y).contains(x) <==> s.contains(x) || x == y,
{
    if s.contains(x) {
        let i = choose|i: int| 0 <= i < s.len() && s[i] == x;
        assert(s.push(y)[i] == x);
    }
    if x == y {
        assert(s.push(y)[s.len() as int] == x);
    }
    if s.push(y).contains(x) {
        let i = choose|i: int| 0 <= i < s.len() + 1 && s.push(y)[i] == x;
        if i < s.len() {
            assert(s[i] == x);
        }
    }
}

proof fn lemma_distinct(s: Seq<Seq<char>>)
    ensures
        distinct(s).no_duplicates(),
        forall|x: Seq<char>| distinct(s).contains(x) <==> s.contains(x),
    decreases s.len(),
{
    if s.len() > 0 {
        let p = s.drop_last();
        let y = s.last();
        lemma_distinct(p);
        assert(s =~= p.push(y));
        assert forall|x: Seq<char>| distinct(s).contains(x) <==> s.contains(x) by {
            lemma_push_contains(p, y, x);
            lemma_push_contains(distinct(p), y, x);
        }
        if !distinct(p).contains(y) {
            let d = distinct(p).push(y);
            assert forall|a: int, b: int| 0 <= a < b < d.len() implies d[a] != d[b] by {
                if b == d.len() - 1 {
                    assert(distinct(p)[a] == d[a]);
                }
            }
        }
    }
}

/// The string table lists each literal of the program, and `true` and
/// `false`, exactly once.
pub proof fn lemma_table_covers_literals(program: &Program)
    ensures
        table_literals(program).no_duplicates(),
        forall|x: Seq<char>| all_literals(program.functions@).contains(x) ==> table_literals(program).contains(x),
        table_literals(program).contains("true"@),
        table_literals(program).contains("false"@),
{
    let s = all_literals(program.functions@) + seq!["true"@, "false"@];
    lemma_distinct(s);
    let all = all_literals(program.functions@);
    assert forall|x: Seq<char>| all.contains(x) implies table_literals(program).contains(x) by {
        let i = choose|i: int| 0 <= i < all.len() && all[i] == x;
        assert(s[i] == all[i]);
        assert(s.contains(x));
    }
    assert(s[all.len() as int] == "true"@);
    assert(s.contains("true"@));
    assert(s[all.len() as int + 1] == "false"@);
    assert(s.contains("false"@));
}

/// Appends `bytes` to `data`.
fn push_all(data: &mut Vec<u8>, bytes: &[u8])
    ensures
        final(data)@ == old(data)@ + bytes@,
{
    let mut i: usize = 0;
    let ghost start = data@;
    while i < bytes.len()
        invariant
            i <= bytes@.len(),
            data@ == start + bytes@.take(i as int),
        decreases bytes@.len() - i,
    {
        data.push(bytes[i]);
        assert(bytes@.take(i as int + 1) =~= bytes@.take(i as int).push(bytes@[i as int]));
        i = i + 1;
    }
    assert(bytes@.take(bytes@.len() as int) =~= bytes@);
}

/// Appends the record of `literal` and its table entry.
fn add_literal(data: &mut Vec<u8>, table: &mut Vec<(String, u32)>, literal: &str, Ghost(done): Ghost<Seq<Seq<char>>>)
    requires
        old(data)@ == scratch() + records(done),
        table_matches(old(table)@, done),
    ensures
        final(data)@ == scratch() + records(done.push(literal@)),
        table_matches(final(table)@, done.push(literal@)),
{
    let ghost start = data@;
    proof {
        lemma_scratch_records_aligned(done);
    }
    let address = data.len() as u32;
    let bytes = literal.as_bytes();
    let len = bytes.len() as u32;
    let mut header: Vec<u8> = Vec::new();
    header.push((len % 256) as u8);
    header.push(((len / 256) % 256) as u8);
    header.push(((len / 65536) % 256) as u8);
    header.push(((len / 16777216) % 256) as u8);
    push_all(data, header.as_slice());
    push_all(data, bytes);
    let ghost body_end = data@.len();
    let ghost padn = ((4 - body_end % 4) % 4) as nat;
    proof {
        assert(header@ =~= le_u32(len));
        lemma_same_residue(start.len(), (utf8(literal@).len() + 4) as nat);
    }
    while data.len() % 4 != 0
        invariant
            padn == (4 - body_end % 4) % 4,
            body_end <= data@.len() <= body_end + padn,
            data@.subrange(0, body_end as int) == start + le_u32(len) + utf8(literal@),
            forall|i: int| body_end <= i < data@.len() ==> data@[i] == 0u8,
        decreases body_end + padn - data@.len(),
    {
        let ghost before = data@;
        data.push(0);
        assert(data@.subrange(0, body_end as int) =~= before.subrange(0, body_end as int));
    }
    proof {
        lemma_append_record(start, data@, body_end, literal@, len, done);
    }
    let ghost old_table = table@;
    table.push((literal.to_owned(), address));
    proof {
        lemma_table_push(old_table, table@, done, literal@, start.len());
    }
}

proof fn lemma_same_residue(a: nat, b: nat)
    requires
        a % 4 == 0,
    ensures
        (a + b) % 4 == b % 4,
{
    assert((a + b) % 4 == b % 4) by (nonlinear_arith)
        requires
            a % 4 == 0;
}

proof fn lemma_append_record(start: Seq<u8>, data: Seq<u8>, body_end: nat, literal: Seq<char>, len: u32, done: Seq<Seq<char>>)
    requires
        start == scratch() + records(done),
        len == utf8(literal).len() as u32,
        body_end == start.len() + 4 + utf8(literal).len(),
        (start.len() + 4 + utf8(literal).len()) % 4 == (utf8(literal).len() + 4) % 4,
        body_end <= data.len(),
        data.len() % 4 == 0,
        data.len() <= body_end + (4 - body_end % 4) % 4,
        data.subrange(0, body_end as int) == start + le_u32(len) + utf8(literal),
        forall|i: int| body_end <= i < data.len() ==> data[i] == 0u8,
    ensures
        data == scratch() + records(done.push(literal)),
{
    lemma_records_push(done, literal);
    let pad = padding(utf8(literal).len() + 4);
    assert(data.len() == body_end + pad.len());
    assert(data.subrange(body_end as int, data.len() as int) =~= pad);
    assert(data =~= data.subrange(0, body_end as int) + data.subrange(body_end as int, data.len() as int));
    assert(data =~= start + record(literal));
}

proof fn lemma_table_push(old_table: Seq<(String, u32)>, table: Seq<(String, u32)>, done: Seq<Seq<char>>, literal: Seq<char>, address: nat)
    requires
        table_matches(old_table, done),
        table.len() == old_table.len() + 1,
        forall|k: int| 0 <= k < old_table.len() ==> table[k] == old_table[k],
        table[old_table.len() as int].0@ == literal,
        table[old_table.len() as int].1 == address as u32,
        address == SCRATCH + records(done).len(),
    ensures
        table_matches(table, done.push(literal)),
{
    let done2 = done.push(literal);
    assert forall|k: int| 0 <= k < table.len() implies {
        &&& (#[trigger] table[k]).0@ == done2[k]
        &&& table[k].1 == address_in(done2, k) as u32
    } by {
        if k < done.len() {
            assert(old_table[k] == table[k]);
            assert(done2.take(k) =~= done.take(k));
        } else {
            assert(done2.take(k) =~= done);
        }
    }
}

/// The scratch area and whole records fill a multiple of four bytes.
proof fn lemma_scratch_records_aligned(done: Seq<Seq<char>>)
    ensures
        (scratch() + records(done)).len() % 4 == 0,
        records(done).len() % 4 == 0,
    decreases done.len(),
{
    if done.len() > 0 {
        let p = done.drop_last();
        lemma_scratch_records_aligned(p);
        lemma_record_len(done.last());
        let a = records(p).len();
        let b = record(done.last()).len();
        assert(records(done).len() == a + b);
        assert((a + b) % 4 == 0) by (nonlinear_arith)
            requires
                a % 4 == 0,
                b % 4 == 0;
    }
}

/// Whether `table` already lists `literal`.
fn table_has(table: &Vec<(String, u32)>, literal: &String) -> (r: bool)
    ensures
        r == table@.map_values(|e: (String, u32)| e.0@).contains(literal@),
{
    let ghost keys = table@.map_values(|e: (String, u32)| e.0@);
    let mut i: usize = 0;
    while i < table.len()
        invariant
            keys == table@.map_values(|e: (String, u32)| e.0@),
            i <= table@.len(),
            forall|j: int| 0 <= j < i ==> keys[j] != literal@,
        decreases table@.len() - i,
    {
        if table[i].0 == *literal {
            assert(keys[i as int] == literal@);
            return true;
        }
        i = i + 1;
    }
    false
}

/// The data segment and the string table of `program`: each distinct literal
/// with the address of its record.
pub fn collect_strings(program: &Program) -> (r: (Vec<u8>, Vec<(String, u32)>))
    ensures
        r.0@ == string_data(program),
        table_matches(r.1@, table_literals(program)),
{
    let mut data: Vec<u8> = Vec::new();
    let mut i: usize = 0;
    while i < SCRATCH
        invariant
            i <= SCRATCH,
            data@ =~= Seq::new(i as nat, |k: int| if k == NEWLINE_ADDR { 10u8 } else { 0u8 }),
        decreases SCRATCH - i,
    {
        data.push(if i == NEWLINE_ADDR { 10u8 } else { 0u8 });
        i = i + 1;
    }
    let mut table: Vec<(String, u32)> = Vec::new();
    let ghost fs = program.functions@;
    proof {
        assert(data@ =~= scratch() + records(Seq::<Seq<char>>::empty()));
        assert(fs.take(0) =~= Seq::<MirFunction>::empty());
    }
    let mut fi: usize = 0;
    while fi < program.functions.len()
        invariant
            fs == program.functions@,
            fi <= fs.len(),
            data@ == scratch() + records(distinct(all_literals(fs.take(fi as int)))),
            table_matches(table@, distinct(all_literals(fs.take(fi as int)))),
        decreases fs.len() - fi,
    {
        let literals = &program.functions[fi].literals;
        let ghost before = all_literals(fs.take(fi as int));
        let mut li: usize = 0;
        while li < literals.len()
            invariant
                fs == program.functions@,
                fi < fs.len(),
                literals == &fs[fi as int].literals,
                before == all_literals(fs.take(fi as int)),
                li <= literals@.len(),
                data@ == scratch() + records(distinct(before + function_literals(fs[fi as int]).take(li as int))),
                table_matches(table@, distinct(before + function_literals(fs[fi as int]).take(li as int))),
            decreases literals@.len() - li,
        {
            let literal = &literals[li];
            let ghost done = before + function_literals(fs[fi as int]).take(li as int);
            proof {
                assert(before + function_literals(fs[fi as int]).take(li + 1) =~= done.push(literal@));
                lemma_distinct_push(done, literal@);
                assert(table@.map_values(|e: (String, u32)| e.0@) =~= distinct(done));
            }
            if !table_has(&table, literal) {
                add_literal(&mut data, &mut table, literal.as_str(), Ghost(distinct(done)));
            }
            li = li + 1;
        }
        proof {
            assert(function_literals(fs[fi as int]).take(literals@.len() as int) =~= function_literals(fs[fi as int]));
            assert(fs.take(fi + 1) =~= fs.take(fi as int).push(fs[fi as int]));
            lemma_all_literals_push(fs.take(fi as int), fs[fi as int]);
        }
        fi = fi + 1;
    }
    proof {
        assert(fs.take(fs.len() as int) =~= fs);
    }
    let ghost lits = all_literals(fs);
    let extras = vec!["true", "false"];
    let mut ei: usize = 0;
    while ei < 2
        invariant
            extras@.len() == 2,
            extras@[0]@ == "true"@,
            extras@[1]@ == "false"@,
            lits == all_literals(program.functions@),
            ei <= 2,
            data@ == scratch() + records(distinct(lits + seq!["true"@, "false"@].take(ei as int))),
            table_matches(table@, distinct(lits + seq!["true"@, "false"@].take(ei as int))),
        decreases 2 - ei,
    {
        let literal = extras[ei].to_owned();
        let ghost done = lits + seq!["true"@, "false"@].take(ei as int);
        proof {
            assert(lits + seq!["true"@, "false"@].take(ei + 1) =~= done.push(literal@));
            lemma_distinct_push(done, literal@);
            assert(table@.map_values(|e: (String, u32)| e.0@) =~= distinct(done));
        }
        if !table_has(&table, &literal) {
            add_literal(&mut data, &mut table, literal.as_str(), Ghost(distinct(done)));
        }
        ei = ei + 1;
    }
    proof {
        assert(seq!["true"@, "false"@].take(2) =~= seq!["true"@, "false"@]);
    }
    (data, table)
}

} // verus!
