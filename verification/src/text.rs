//! Small verified string helpers shared by the backend and the compiler.
use vstd::prelude::*;
use vstd::string::StringSliceAdditionalSpecFns;

verus! {

broadcast use vstd::utf8::encode_utf8_decode_utf8;

/// Whether `a` and `b` hold the same characters.
pub fn str_eq(a: &str, b: &str) -> (r: bool)
    ensures
        r == (a@ == b@),
{
    let x = a.as_bytes();
    let y = b.as_bytes();
    proof {
        vstd::utf8::encode_utf8_decode_utf8(a@);
        vstd::utf8::encode_utf8_decode_utf8(b@);
    }
    if x.len() != y.len() {
        assert(x@ != y@);
        return false;
    }
    let mut i: usize = 0;
    while i < x.len()
        invariant
            x@ == a.spec_bytes(),
            y@ == b.spec_bytes(),
            x@.len() == y@.len(),
            i <= x@.len(),
            forall|j: int| 0 <= j < i ==> x@[j] == y@[j],
        decreases x@.len() - i,
    {
        if x[i] != y[i] {
            assert(x@ != y@);
            return false;
        }
        i = i + 1;
    }
    assert(x@ =~= y@);
    true
}

/// Whether `names` holds a string with the characters of `s`.
pub fn contains_str(names: &Vec<&str>, s: &str) -> (r: bool)
    ensures
        r == names@.map_values(|n: &str| n@).contains(s@),
{
    let ghost views = names@.map_values(|n: &str| n@);
    let mut i: usize = 0;
    while i < names.len()
        invariant
            views == names@.map_values(|n: &str| n@),
            i <= names@.len(),
            forall|j: int| 0 <= j < i ==> views[j] != s@,
        decreases names@.len() - i,
    {
        if str_eq(names[i], s) {
            assert(views[i as int] == s@);
            return true;
        }
        i = i + 1;
    }
    assert(!views.contains(s@));
    false
}

/// The first position of `x` in `s`, if any.
pub open spec fn first_index<A>(s: Seq<A>, x: A) -> Option<int>
    decreases s.len(),
{
    if s.len() == 0 {
        None
    } else if s[0] == x {
        Some(0)
    } else {
        match first_index(s.drop_first(), x) {
            Some(i) => Some(i + 1),
            None => None,
        }
    }
}

pub proof fn lemma_first_index<A>(s: Seq<A>, x: A)
    ensures
        first_index(s, x) is Some <==> s.contains(x),
        first_index(s, x) matches Some(i) ==> 0 <= i < s.len() && s[i] == x
            && forall|j: int| 0 <= j < i ==> s[j] != x,
    decreases s.len(),
{
    if s.len() > 0 {
        lemma_first_index(s.drop_first(), x);
        if s[0] != x {
            if s.contains(x) {
                let k = choose|k: int| 0 <= k < s.len() && s[k] == x;
                assert(s.drop_first()[k - 1] == x);
            }
            if first_index(s, x) is Some {
                let i = first_index(s, x)->0;
                assert forall|j: int| 0 <= j < i implies s[j] != x by {
                    if j > 0 {
                        assert(s[j] == s.drop_first()[j - 1]);
                    }
                }
            }
        }
    }
}

/// The position of the first string in `names` with the characters of `s`.
pub fn position_str(names: &Vec<&str>, s: &str) -> (r: Option<usize>)
    ensures
        r matches Some(p) ==> first_index(names@.map_values(|n: &str| n@), s@) == Some(p as int),
        r is None ==> first_index(names@.map_values(|n: &str| n@), s@) is None,
{
    let ghost views = names@.map_values(|n: &str| n@);
    proof {
        lemma_first_index(views, s@);
    }
    let mut i: usize = 0;
    while i < names.len()
        invariant
            views == names@.map_values(|n: &str| n@),
            i <= names@.len(),
            forall|j: int| 0 <= j < i ==> views[j] != s@,
            first_index(views, s@) is Some <==> views.contains(s@),
            first_index(views, s@) matches Some(k) ==> 0 <= k < views.len() && views[k] == s@
                && forall|j: int| 0 <= j < k ==> views[j] != s@,
        decreases names@.len() - i,
    {
        if str_eq(names[i], s) {
            assert(views[i as int] == s@);
            assert(first_index(views, s@) == Some(i as int));
            return Some(i);
        }
        i = i + 1;
    }
    assert(!views.contains(s@));
    None
}

/// `str::strip_prefix`: the rest of `s` after `prefix` when `s` starts with
/// `prefix`, else `None`.
#[verifier::external_body]
pub(crate) fn strip_prefix<'a>(s: &'a str, prefix: &str) -> (r: Option<&'a str>)
    ensures
        r is Some <==> prefix@.is_prefix_of(s@),
        r matches Some(rest) ==> rest@ == s@.skip(prefix@.len() as int),
{
    s.strip_prefix(prefix)
}

/// `str::split_once` with a character delimiter: the parts before and after
/// the first occurrence of `delimiter`, or `None` when it does not occur.
#[verifier::external_body]
pub(crate) fn split_once(s: &str, delimiter: char) -> (r: Option<(&str, &str)>)
    ensures
        r is None <==> !s@.contains(delimiter),
        r matches Some((before, after)) ==> {
            &&& s@ == before@ + seq![delimiter] + after@
            &&& !before@.contains(delimiter)
        },
{
    s.split_once(delimiter)
}

/// `String::push`: appends `c`.
#[verifier::external_body]
pub(crate) fn push_char(s: &mut String, c: char)
    ensures
        final(s)@ == old(s)@.push(c),
{
    s.push(c);
}

/// The decimal digit `d`.
pub open spec fn digit(d: nat) -> char {
    if d == 0 { '0' } else if d == 1 { '1' } else if d == 2 { '2' } else if d == 3 { '3' }
    else if d == 4 { '4' } else if d == 5 { '5' } else if d == 6 { '6' } else if d == 7 { '7' }
    else if d == 8 { '8' } else { '9' }
}

/// The decimal representation of `n`, without leading zeros.
pub open spec fn decimal(n: nat) -> Seq<char>
    decreases n,
{
    if n < 10 {
        seq![digit(n)]
    } else {
        decimal(n / 10).push(digit(n % 10))
    }
}

fn digit_char(d: u64) -> (c: char)
    requires
        d < 10,
    ensures
        c == digit(d as nat),
{
    if d == 0 { '0' } else if d == 1 { '1' } else if d == 2 { '2' } else if d == 3 { '3' }
    else if d == 4 { '4' } else if d == 5 { '5' } else if d == 6 { '6' } else if d == 7 { '7' }
    else if d == 8 { '8' } else { '9' }
}

/// Appends the decimal representation of `n`.
pub fn push_decimal(s: &mut String, n: u64)
    ensures
        final(s)@ == old(s)@ + decimal(n as nat),
    decreases n,
{
    if n >= 10 {
        push_decimal(s, n / 10);
    }
    push_char(s, digit_char(n % 10));
    proof {
        if n >= 10 {
            assert(old(s)@ + decimal(n as nat) =~= old(s)@ + decimal((n / 10) as nat) + seq![digit((n % 10) as nat)]);
        } else {
            assert(old(s)@ + decimal(n as nat) =~= old(s)@.push(digit(n as nat)));
        }
    }
}

} // verus!
