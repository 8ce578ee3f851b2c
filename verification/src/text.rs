//! Verified text utilities: prefix / suffix / substring tests, simple
//! searches, and decimal rendering and parsing, all specified over
//! `Seq<char>` views.

use vstd::prelude::*;

verus! {

broadcast use vstd::string::group_string_axioms;

/// `p` is a prefix of `s`.
pub open spec fn is_prefix_of(p: Seq<char>, s: Seq<char>) -> bool {
    p.len() <= s.len() && s.subrange(0, p.len() as int) == p
}

/// `p` is a suffix of `s`.
pub open spec fn is_suffix_of(p: Seq<char>, s: Seq<char>) -> bool {
    p.len() <= s.len() && s.subrange(s.len() - p.len(), s.len() as int) == p
}

/// `needle` occurs in `hay` starting at position `k`.
pub open spec fn occurs_at(hay: Seq<char>, needle: Seq<char>, k: int) -> bool {
    0 <= k && k + needle.len() <= hay.len() && hay.subrange(k, k + needle.len()) == needle
}

/// `needle` occurs somewhere in `hay`.
pub open spec fn contains_seq(hay: Seq<char>, needle: Seq<char>) -> bool {
    exists|k: int| occurs_at(hay, needle, k)
}

pub fn str_starts_with(s: &str, p: &str) -> (r: bool)
    ensures
        r == is_prefix_of(p@, s@),
{
    let sl = s.unicode_len();
    let pl = p.unicode_len();
    if pl > sl {
        return false;
    }
    let mut i: usize = 0;
    while i < pl
        invariant
            i <= pl,
            pl <= sl,
            sl == s@.len(),
            pl == p@.len(),
            forall|j: int| 0 <= j < i ==> s@[j] == p@[j],
        decreases pl - i,
    {
        if s.get_char(i) != p.get_char(i) {
            assert(s@.subrange(0, pl as int)[i as int] != p@[i as int]);
            return false;
        }
        i = i + 1;
    }
    assert(s@.subrange(0, pl as int) =~= p@);
    true
}

pub fn str_ends_with(s: &str, p: &str) -> (r: bool)
    ensures
        r == is_suffix_of(p@, s@),
{
    let sl = s.unicode_len();
    let pl = p.unicode_len();
    if pl > sl {
        return false;
    }
    let off: usize = sl - pl;
    let mut i: usize = 0;
    while i < pl
        invariant
            i <= pl,
            pl <= sl,
            sl == s@.len(),
            pl == p@.len(),
            off == sl - pl,
            forall|j: int| 0 <= j < i ==> s@[off + j] == p@[j],
        decreases pl - i,
    {
        if s.get_char(off + i) != p.get_char(i) {
            assert(s@.subrange(off as int, sl as int)[i as int] != p@[i as int]);
            return false;
        }
        i = i + 1;
    }
    assert(s@.subrange(off as int, sl as int) =~= p@);
    true
}

/// Whether `needle` occurs at position `k` of `hay`; helper for `str_contains`.
fn matches_at(s: &str, sub: &str, k: usize) -> (r: bool)
    requires
        k + sub@.len() <= s@.len(),
    ensures
        r == occurs_at(s@, sub@, k as int),
{
    let sl = s.unicode_len();
    let nl = sub.unicode_len();
    let mut i: usize = 0;
    while i < nl
        invariant
            i <= nl,
            nl == sub@.len(),
            sl == s@.len(),
            k + nl <= sl,
            forall|j: int| 0 <= j < i ==> s@[k + j] == sub@[j],
        decreases nl - i,
    {
        if s.get_char(k + i) != sub.get_char(i) {
            assert(s@.subrange(k as int, k + nl as int)[i as int] != sub@[i as int]);
            return false;
        }
        i = i + 1;
    }
    assert(s@.subrange(k as int, k + nl as int) =~= sub@);
    true
}

pub fn str_contains(s: &str, sub: &str) -> (r: bool)
    ensures
        r == contains_seq(s@, sub@),
{
    let sl = s.unicode_len();
    let nl = sub.unicode_len();
    if nl > sl {
        return false;
    }
    let last: usize = sl - nl;
    let mut k: usize = 0;
    loop
        invariant
            k <= last,
            last == sl - nl,
            nl <= sl,
            sl == s@.len(),
            nl == sub@.len(),
            forall|k2: int| 0 <= k2 < k ==> !occurs_at(s@, sub@, k2),
        ensures
            k <= last,
            occurs_at(s@, sub@, k as int),
        decreases last - k,
    {
        if matches_at(s, sub, k) {
            break;
        }
        if k == last {
            assert(forall|k2: int| occurs_at(s@, sub@, k2) ==> 0 <= k2 <= last);
            return false;
        }
        k = k + 1;
    }
    true
}

pub fn str_eq(a: &str, b: &str) -> (r: bool)
    ensures
        r == (a@ == b@),
{
    let al = a.unicode_len();
    let bl = b.unicode_len();
    if al != bl {
        return false;
    }
    let mut i: usize = 0;
    while i < al
        invariant
            i <= al,
            al == a@.len(),
            al == b@.len(),
            forall|j: int| 0 <= j < i ==> a@[j] == b@[j],
        decreases al - i,
    {
        if a.get_char(i) != b.get_char(i) {
            return false;
        }
        i = i + 1;
    }
    proof {
        assert(a@ =~= b@);
    }
    true
}

pub fn find_char(s: &str, c: char) -> (r: Option<usize>)
    ensures
        match r {
            Some(i) => i < s@.len() && s@[i as int] == c && forall|j: int|
                0 <= j < i ==> s@[j] != c,
            None => forall|j: int| 0 <= j < s@.len() ==> s@[j] != c,
        },
{
    let sl = s.unicode_len();
    let mut i: usize = 0;
    while i < sl
        invariant
            i <= sl,
            sl == s@.len(),
            forall|j: int| 0 <= j < i ==> s@[j] != c,
        decreases sl - i,
    {
        if s.get_char(i) == c {
            return Some(i);
        }
        i = i + 1;
    }
    None
}

/// Copies the characters of `s` from `from` (inclusive) to `to` (exclusive).
pub fn substring_of(s: &str, from: usize, to: usize) -> (r: String)
    requires
        from <= to <= s@.len(),
    ensures
        r@ == s@.subrange(from as int, to as int),
{
    String::from_str(s.substring_char(from, to))
}

pub fn concat2(a: &str, b: &str) -> (r: String)
    ensures
        r@ == a@ + b@,
{
    let mut out = String::from_str(a);
    out.append(b);
    out
}

pub fn concat3(a: &str, b: &str, c: &str) -> (r: String)
    ensures
        r@ == a@ + b@ + c@,
{
    let mut out = String::from_str(a);
    out.append(b);
    out.append(c);
    out
}

/// An ASCII whitespace character, as trimming understands it.
pub open spec fn is_space(c: char) -> bool {
    c == ' ' || c == '\t' || c == '\n' || c == '\r'
}

/// Removes leading and trailing ASCII whitespace.
pub fn str_trim(s: &str) -> (r: String)
    ensures
        exists|a: int, b: int|
            {
                &&& 0 <= a <= b <= s@.len()
                &&& r@ == s@.subrange(a, b)
                &&& forall|j: int| 0 <= j < a ==> is_space(s@[j])
                &&& forall|j: int| b <= j < s@.len() ==> is_space(s@[j])
                &&& (a < b ==> !is_space(s@[a]) && !is_space(s@[b - 1]))
            },
{
    let sl = s.unicode_len();
    let mut a: usize = 0;
    loop
        invariant
            a <= sl,
            sl == s@.len(),
            forall|j: int| 0 <= j < a ==> is_space(s@[j]),
        ensures
            a <= sl,
            sl == s@.len(),
            forall|j: int| 0 <= j < a ==> is_space(s@[j]),
            a == sl || !is_space(s@[a as int]),
        decreases sl - a,
    {
        if a >= sl {
            break;
        }
        let c = s.get_char(a);
        if !(c == ' ' || c == '\t' || c == '\n' || c == '\r') {
            break;
        }
        a = a + 1;
    }
    let mut b: usize = sl;
    loop
        invariant
            a <= b <= sl,
            sl == s@.len(),
            forall|j: int| b <= j < sl ==> is_space(s@[j]),
        ensures
            a <= b <= sl,
            forall|j: int| b <= j < sl ==> is_space(s@[j]),
            b == a || !is_space(s@[b - 1]),
        decreases b,
    {
        if b <= a {
            break;
        }
        let c = s.get_char(b - 1);
        if !(c == ' ' || c == '\t' || c == '\n' || c == '\r') {
            break;
        }
        b = b - 1;
    }
    let r = substring_of(s, a, b);
    proof {
        if a < b {
            assert(!is_space(s@[a as int]));
            assert(!is_space(s@[b - 1]));
        }
    }
    r
}

/// The text after the last `/`, or the whole text when it has none.
pub fn last_path_segment(s: &str) -> (r: String)
    ensures
        (exists|p: int|
            0 <= p < s@.len() && s@[p] == '/' && (forall|j: int|
                p < j < s@.len() ==> s@[j] != '/') && r@ == s@.subrange(p + 1, s@.len() as int))
            || ((forall|j: int| 0 <= j < s@.len() ==> s@[j] != '/') && r@ == s@),
{
    let sl = s.unicode_len();
    let mut k: usize = sl;
    while k > 0
        invariant
            k <= sl,
            sl == s@.len(),
            forall|j: int| k <= j < sl ==> s@[j] != '/',
        decreases k,
    {
        if s.get_char(k - 1) == '/' {
            return substring_of(s, k, sl);
        }
        k = k - 1;
    }
    String::from_str(s)
}

/// `a` is a subsequence of `b`: the elements of `a` appear in `b` in
/// order.
pub open spec fn is_subseq_of<T>(a: Seq<T>, b: Seq<T>) -> bool
    decreases a.len() + b.len(),
{
    if a.len() == 0 {
        true
    } else if b.len() == 0 {
        false
    } else {
        (a.last() == b.last() && is_subseq_of(a.drop_last(), b.drop_last())) || is_subseq_of(
            a,
            b.drop_last(),
        )
    }
}

/// A subsequence of `b` is also one of `b` with an element appended.
pub proof fn lemma_subseq_push_right<T>(a: Seq<T>, b: Seq<T>, x: T)
    requires
        is_subseq_of(a, b),
    ensures
        is_subseq_of(a, b.push(x)),
{
    assert(b.push(x).drop_last() =~= b);
    if a.len() == 0 {
    } else {
        assert(is_subseq_of(a, b.push(x).drop_last()));
    }
}

/// Appending the same element to both sides preserves the subsequence
/// relation.
pub proof fn lemma_subseq_push_both<T>(a: Seq<T>, b: Seq<T>, x: T)
    requires
        is_subseq_of(a, b),
    ensures
        is_subseq_of(a.push(x), b.push(x)),
{
    assert(a.push(x).drop_last() =~= a);
    assert(b.push(x).drop_last() =~= b);
    assert(a.push(x).last() == b.push(x).last());
}

/// The result of replacing every non-overlapping occurrence of `from` in
/// `s` with `to`, scanning left to right.
pub open spec fn replace_seq(s: Seq<char>, from: Seq<char>, to: Seq<char>) -> Seq<char>
    decreases s.len(),
{
    if from.len() == 0 || s.len() < from.len() {
        s
    } else if s.subrange(0, from.len() as int) == from {
        to + replace_seq(s.subrange(from.len() as int, s.len() as int), from, to)
    } else {
        seq![s[0]] + replace_seq(s.subrange(1, s.len() as int), from, to)
    }
}

/// Replaces every non-overlapping occurrence of `from` with `to`,
/// scanning left to right.
pub fn replace_all(s: &str, from: &str, to: &str) -> (r: String)
    ensures
        r@ == replace_seq(s@, from@, to@),
    decreases s@.len(),
{
    let sl = s.unicode_len();
    let fl = from.unicode_len();
    if fl == 0 || sl < fl {
        return String::from_str(s);
    }
    if matches_at(s, from, 0) {
        let rest = s.substring_char(fl, sl);
        let tail = replace_all(rest, from, to);
        let r = concat2(to, tail.as_str());
        assert(r@ =~= replace_seq(s@, from@, to@));
        r
    } else {
        let head = s.substring_char(0, 1);
        let rest = s.substring_char(1, sl);
        let tail = replace_all(rest, from, to);
        let r = concat2(head, tail.as_str());
        assert(head@ =~= seq![s@[0]]);
        assert(r@ =~= replace_seq(s@, from@, to@));
        r
    }
}

/// The character for a decimal digit value.
pub open spec fn digit_char(d: int) -> char {
    if d == 0 { '0' }
    else if d == 1 { '1' }
    else if d == 2 { '2' }
    else if d == 3 { '3' }
    else if d == 4 { '4' }
    else if d == 5 { '5' }
    else if d == 6 { '6' }
    else if d == 7 { '7' }
    else if d == 8 { '8' }
    else { '9' }
}

/// The decimal rendering of `n`, most significant digit first.
pub open spec fn dec_seq(n: nat) -> Seq<char>
    decreases n,
{
    if n < 10 {
        seq![digit_char(n as int)]
    } else {
        dec_seq(n / 10).push(digit_char((n % 10) as int))
    }
}

fn digit_str(d: u64) -> (r: &'static str)
    requires
        d < 10,
    ensures
        r@ =~= seq![digit_char(d as int)],
{
    proof {
        reveal_strlit("0");
        reveal_strlit("1");
        reveal_strlit("2");
        reveal_strlit("3");
        reveal_strlit("4");
        reveal_strlit("5");
        reveal_strlit("6");
        reveal_strlit("7");
        reveal_strlit("8");
        reveal_strlit("9");
    }
    if d == 0 { "0" }
    else if d == 1 { "1" }
    else if d == 2 { "2" }
    else if d == 3 { "3" }
    else if d == 4 { "4" }
    else if d == 5 { "5" }
    else if d == 6 { "6" }
    else if d == 7 { "7" }
    else if d == 8 { "8" }
    else { "9" }
}

pub fn u64_to_string(n: u64) -> (r: String)
    ensures
        r@ == dec_seq(n as nat),
    decreases n,
{
    if n < 10 {
        String::from_str(digit_str(n))
    } else {
        let mut s = u64_to_string(n / 10);
        s.append(digit_str(n % 10));
        assert(s@ =~= dec_seq(n as nat));
        s
    }
}

/// Whether `c` is a decimal digit.
pub open spec fn is_digit(c: char) -> bool {
    '0' <= c && c <= '9'
}

/// The value of a digit character.
pub open spec fn digit_val(c: char) -> int {
    c as int - '0' as int
}

/// The numeric value of a digit string, read left to right.
pub open spec fn dec_val(s: Seq<char>) -> int
    decreases s.len(),
{
    if s.len() == 0 {
        0
    } else {
        dec_val(s.drop_last()) * 10 + digit_val(s.last())
    }
}

/// Parses a non-empty all-digit string as a `u32`; rejects anything else,
/// and any value above `u32::MAX`.
pub fn parse_u32(s: &str) -> (r: Option<u32>)
    ensures
        match r {
            Some(v) => s@.len() > 0 && (forall|j: int| 0 <= j < s@.len() ==> is_digit(s@[j]))
                && v as int == dec_val(s@),
            None => s@.len() == 0 || (exists|j: int| 0 <= j < s@.len() && !is_digit(s@[j]))
                || dec_val(s@) > u32::MAX,
        },
{
    let sl = s.unicode_len();
    if sl == 0 {
        return None;
    }
    let mut v: u32 = 0;
    let mut i: usize = 0;
    while i < sl
        invariant
            i <= sl,
            sl == s@.len(),
            sl > 0,
            forall|j: int| 0 <= j < i ==> is_digit(s@[j]),
            v as int == dec_val(s@.subrange(0, i as int)),
        decreases sl - i,
    {
        let c = s.get_char(i);
        if (c as u32) < ('0' as u32) || (c as u32) > ('9' as u32) {
            return None;
        }
        let d: u32 = (c as u32) - ('0' as u32);
        proof {
            assert(s@.subrange(0, i + 1).drop_last() =~= s@.subrange(0, i as int));
            assert(s@.subrange(0, i + 1).last() == s@[i as int]);
        }
        if v > (u32::MAX - d) / 10 {
            proof {
                assert(is_digit(s@[i as int]));
                assert(dec_val(s@.subrange(0, i + 1)) == v * 10 + d);
                lemma_dec_val_monotonic(s@, i + 1);
            }
            return None;
        }
        v = v * 10 + d;
        i = i + 1;
    }
    proof {
        assert(s@.subrange(0, sl as int) =~= s@);
    }
    Some(v)
}

/// Unless a later character is not a digit, extending a digit string never
/// lowers its value.
proof fn lemma_dec_val_monotonic(s: Seq<char>, i: int)
    requires
        0 <= i <= s.len(),
        forall|j: int| 0 <= j < i ==> is_digit(s[j]),
    ensures
        (exists|j: int| i <= j < s.len() && !is_digit(s[j])) || dec_val(s) >= dec_val(
            s.subrange(0, i),
        ),
    decreases s.len() - i,
{
    if i == s.len() {
        assert(s.subrange(0, i) =~= s);
    } else if is_digit(s[i]) {
        lemma_dec_val_monotonic(s, i + 1);
        assert(s.subrange(0, i + 1).drop_last() =~= s.subrange(0, i));
        assert(dec_val(s.subrange(0, i + 1)) == dec_val(s.subrange(0, i)) * 10 + digit_val(
            s.subrange(0, i + 1).last(),
        ));
        assert(dec_val(s.subrange(0, i)) >= 0) by {
            lemma_dec_val_nonneg(s.subrange(0, i));
        }
        assert(digit_val(s.subrange(0, i + 1).last()) >= 0);
    } else {
        assert(i <= i < s.len() && !is_digit(s[i]));
    }
}

/// The value of an all-digit string is non-negative.
proof fn lemma_dec_val_nonneg(s: Seq<char>)
    requires
        forall|j: int| 0 <= j < s.len() ==> is_digit(s[j]),
    ensures
        dec_val(s) >= 0,
    decreases s.len(),
{
    if s.len() > 0 {
        lemma_dec_val_nonneg(s.drop_last());
    }
}

} // verus!
