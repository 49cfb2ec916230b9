//! Character-level text operations with exact contracts.
//!
//! Strings are viewed as sequences of characters. The Unicode tables of the
//! standard library are reached through small trusted functions; searching,
//! trimming and joining are proved here.

use vstd::prelude::*;
use vstd::std_specs::iter::IteratorSpec;
use vstd::string::StringExecFns;

verus! {

/// What `str::to_lowercase` returns for the text `s`.
pub uninterp spec fn lowercase_of(s: Seq<char>) -> Seq<char>;

/// What `str::to_uppercase` returns for the text `s`.
pub uninterp spec fn uppercase_of(s: Seq<char>) -> Seq<char>;

/// What `char::is_whitespace` returns for `c`: whether `c` has the Unicode
/// property White_Space.
pub uninterp spec fn white_space(c: char) -> bool;

/// What `char::is_numeric` returns for `c`: whether `c` is in one of the
/// Unicode number categories.
pub uninterp spec fn numeric(c: char) -> bool;

/// What formatting the text `s` with `{:?}` returns: the text in double
/// quotes, with the escapes of `str`'s `Debug`.
pub uninterp spec fn debug_form(s: Seq<char>) -> Seq<char>;

/// Calls `str::to_lowercase`. Trusted: the result is the lowercase
/// equivalent that std computes, named `lowercase_of`.
#[verifier::external_body]
pub(crate) fn to_lowercase(s: &str) -> (r: String)
    ensures
        r@ == lowercase_of(s@),
{
    s.to_lowercase()
}

/// Calls `str::to_uppercase`. Trusted: the result is the uppercase
/// equivalent that std computes, named `uppercase_of`.
#[verifier::external_body]
pub(crate) fn to_uppercase(s: &str) -> (r: String)
    ensures
        r@ == uppercase_of(s@),
{
    s.to_uppercase()
}

/// Calls `char::is_whitespace`. Trusted: the result is std's answer, named
/// `white_space`.
#[verifier::external_body]
pub(crate) fn is_whitespace(c: char) -> (r: bool)
    ensures
        r == white_space(c),
{
    c.is_whitespace()
}

/// Calls `char::is_numeric`. Trusted: the result is std's answer, named
/// `numeric`.
#[verifier::external_body]
pub(crate) fn is_numeric(c: char) -> (r: bool)
    ensures
        r == numeric(c),
{
    c.is_numeric()
}

/// Formats `s` with `{:?}`. Trusted: the result is what `str`'s `Debug`
/// writes, named `debug_form`.
#[verifier::external_body]
pub(crate) fn debug_string(s: &str) -> (r: String)
    ensures
        r@ == debug_form(s@),
{
    format!("{:?}", s)
}

/// What `str::parse::<i64>` makes of `s`: the number that `s` writes in
/// decimal, with an optional sign, or nothing where `s` writes none that
/// fits.
pub uninterp spec fn int_of_text(s: Seq<char>) -> Option<i64>;

/// Calls `str::parse::<i64>`. Trusted: the outcome is the one named
/// `int_of_text`.
#[verifier::external_body]
pub(crate) fn parse_int(s: &str) -> (r: Option<i64>)
    ensures
        r == int_of_text(s@),
{
    s.parse::<i64>().ok()
}

/// Collects characters into a `String` (`String::from_iter`). Trusted: the
/// string holds exactly the characters of `v`, in order.
#[verifier::external_body]
pub(crate) fn string_of(v: &Vec<char>) -> (r: String)
    ensures
        r@ == v@,
{
    String::from_iter(v.iter())
}

/// The characters of `s`, in order.
pub fn chars_of(s: &str) -> (v: Vec<char>)
    ensures
        v@ == s@,
{
    let mut v: Vec<char> = Vec::new();
    let mut it = s.chars();
    loop
        invariant
            it.obeys_prophetic_iter_laws(),
            it.decrease() is Some,
            v@ + it.remaining() == s@,
        ensures
            v@ == s@,
        decreases it.decrease()->0,
    {
        match it.next() {
            Some(c) => {
                v.push(c);
                assert(v@ + it.remaining() =~= s@);
            },
            None => {
                assert(v@ =~= s@);
                break;
            },
        }
    }
    v
}

/// Whether `a` and `b` hold the same characters.
pub fn same_text(a: &str, b: &str) -> (r: bool)
    ensures
        r == (a@ == b@),
{
    String::from_str(a) == String::from_str(b)
}

/// `pat` stands in `s` at index `i`.
pub open spec fn occurs_at(s: Seq<char>, pat: Seq<char>, i: int) -> bool {
    &&& 0 <= i
    &&& i + pat.len() <= s.len()
    &&& s.subrange(i, i + pat.len()) == pat
}

/// `pat` stands somewhere in `s`.
pub open spec fn has(s: Seq<char>, pat: Seq<char>) -> bool {
    exists|i: int| occurs_at(s, pat, i)
}

/// `s` begins with `pat`.
pub open spec fn begins_with(s: Seq<char>, pat: Seq<char>) -> bool {
    occurs_at(s, pat, 0)
}

/// Whether `pat` stands in `s` at index `i`.
pub fn matches_at(s: &Vec<char>, pat: &Vec<char>, i: usize) -> (b: bool)
    ensures
        b == occurs_at(s@, pat@, i as int),
{
    if pat.len() > s.len() || i > s.len() - pat.len() {
        return false;
    }
    let mut k: usize = 0;
    while k < pat.len()
        invariant
            k <= pat.len(),
            i + pat.len() <= s.len(),
            forall|j: int| 0 <= j < k ==> s@[i + j] == pat@[j],
        decreases pat.len() - k,
    {
        if s[i + k] != pat[k] {
            proof {
                let sub = s@.subrange(i as int, i + pat.len());
                assert(sub[k as int] == s@[i + k]);
            }
            return false;
        }
        k += 1;
    }
    assert(s@.subrange(i as int, i + pat.len()) =~= pat@);
    true
}

/// Whether `pat` stands somewhere in `s`.
pub fn contains(s: &Vec<char>, pat: &Vec<char>) -> (b: bool)
    ensures
        b == has(s@, pat@),
{
    if pat.len() > s.len() {
        return false;
    }
    let last: usize = s.len() - pat.len();
    let mut i: usize = 0;
    loop
        invariant
            last == s.len() - pat.len(),
            i <= last,
            forall|j: int| 0 <= j < i ==> !occurs_at(s@, pat@, j),
        decreases last - i,
    {
        if matches_at(s, pat, i) {
            return true;
        }
        if i == last {
            return false;
        }
        i += 1;
    }
}

/// Whether `s` begins with `pat`.
pub fn starts_with(s: &Vec<char>, pat: &Vec<char>) -> (b: bool)
    ensures
        b == begins_with(s@, pat@),
{
    matches_at(s, pat, 0)
}

/// The least index at or after `i` at which `c` stands in `s`; the length of
/// `s` when there is none.
pub open spec fn first_at(s: Seq<char>, c: char, i: int) -> int
    decreases s.len() - i,
{
    if i < 0 || i >= s.len() {
        s.len() as int
    } else if s[i] == c {
        i
    } else {
        first_at(s, c, i + 1)
    }
}

/// The index just after the last place before `n` at which `c` stands in
/// `s`; zero when there is none.
pub open spec fn end_of_last(s: Seq<char>, c: char, n: int) -> int
    decreases n,
{
    if n <= 0 || n > s.len() {
        0
    } else if s[n - 1] == c {
        n
    } else {
        end_of_last(s, c, n - 1)
    }
}

/// The least index at which `c` stands in `s`, if it stands in `s` at all.
pub open spec fn first_index(s: Seq<char>, c: char) -> Option<int> {
    if first_at(s, c, 0) < s.len() {
        Some(first_at(s, c, 0))
    } else {
        None
    }
}

/// The greatest index at which `c` stands in `s`, if it stands in `s` at all.
pub open spec fn last_index(s: Seq<char>, c: char) -> Option<int> {
    if end_of_last(s, c, s.len() as int) > 0 {
        Some(end_of_last(s, c, s.len() as int) - 1)
    } else {
        None
    }
}

/// The first occurrence of `c` at or after `i` lies in `s`, holds `c`, and
/// nothing before it from `i` on does.
pub proof fn lemma_first_at(s: Seq<char>, c: char, i: int)
    requires
        0 <= i <= s.len(),
    ensures
        i <= first_at(s, c, i) <= s.len(),
        first_at(s, c, i) < s.len() ==> s[first_at(s, c, i)] == c,
        forall|j: int| i <= j < first_at(s, c, i) ==> s[j] != c,
    decreases s.len() - i,
{
    if i < s.len() && s[i] != c {
        lemma_first_at(s, c, i + 1);
    }
}

/// The last occurrence of `c` before `n` lies in `s`, holds `c`, and nothing
/// after it up to `n` does.
pub proof fn lemma_end_of_last(s: Seq<char>, c: char, n: int)
    requires
        0 <= n <= s.len(),
    ensures
        0 <= end_of_last(s, c, n) <= n,
        end_of_last(s, c, n) > 0 ==> s[end_of_last(s, c, n) - 1] == c,
        forall|j: int| end_of_last(s, c, n) <= j < n ==> s[j] != c,
    decreases n,
{
    if n > 0 && s[n - 1] != c {
        lemma_end_of_last(s, c, n - 1);
    }
}

/// The least index at which `c` stands in `s`: `None` when `c` is absent.
pub fn find_first(s: &Vec<char>, c: char) -> (r: Option<usize>)
    ensures
        match r {
            Some(i) => first_index(s@, c) == Some(i as int) && i < s.len(),
            None => first_index(s@, c) is None,
        },
{
    let mut i: usize = 0;
    while i < s.len()
        invariant
            i <= s.len(),
            first_at(s@, c, 0) == first_at(s@, c, i as int),
        decreases s.len() - i,
    {
        if s[i] == c {
            return Some(i);
        }
        i += 1;
    }
    None
}

/// The greatest index at which `c` stands in `s`: `None` when `c` is absent.
pub fn find_last(s: &Vec<char>, c: char) -> (r: Option<usize>)
    ensures
        match r {
            Some(i) => last_index(s@, c) == Some(i as int) && i < s.len(),
            None => last_index(s@, c) is None,
        },
{
    let mut n: usize = s.len();
    while n > 0
        invariant
            n <= s.len(),
            end_of_last(s@, c, s.len() as int) == end_of_last(s@, c, n as int),
        decreases n,
    {
        if s[n - 1] == c {
            return Some(n - 1);
        }
        n -= 1;
    }
    None
}

/// How many white-space characters stand in `s` from index `i` on, without a
/// gap.
pub open spec fn space_run(s: Seq<char>, i: int) -> int
    decreases s.len() - i,
{
    if 0 <= i < s.len() && white_space(s[i]) {
        1 + space_run(s, i + 1)
    } else {
        0
    }
}

/// How many white-space characters stand in `s` just before index `n`,
/// without a gap.
pub open spec fn space_run_back(s: Seq<char>, n: int) -> int
    decreases n,
{
    if 0 < n <= s.len() && white_space(s[n - 1]) {
        1 + space_run_back(s, n - 1)
    } else {
        0
    }
}

/// `s` without the white space at its start.
pub open spec fn trimmed_start(s: Seq<char>) -> Seq<char> {
    s.subrange(space_run(s, 0), s.len() as int)
}

/// `s` without the white space at its end.
pub open spec fn trimmed_end(s: Seq<char>) -> Seq<char> {
    s.subrange(0, s.len() - space_run_back(s, s.len() as int))
}

/// `s` without the white space at both ends, as `str::trim` leaves it.
pub open spec fn trimmed(s: Seq<char>) -> Seq<char> {
    trimmed_end(trimmed_start(s))
}

/// The index of the first character at or after `from` that is not white
/// space; the length of `s` when there is none.
pub fn skip_spaces(s: &Vec<char>, from: usize) -> (r: usize)
    requires
        from <= s.len(),
    ensures
        r == from + space_run(s@, from as int),
        from <= r <= s.len(),
{
    let mut i: usize = from;
    while i < s.len() && is_whitespace(s[i])
        invariant
            from <= i <= s.len(),
            space_run(s@, from as int) == (i - from) + space_run(s@, i as int),
        decreases s.len() - i,
    {
        i += 1;
    }
    i
}

/// The index just after the last character before `until` that is not white
/// space; zero when there is none.
pub fn skip_spaces_back(s: &Vec<char>, until: usize) -> (r: usize)
    requires
        until <= s.len(),
    ensures
        r == until - space_run_back(s@, until as int),
        r <= until,
{
    let mut n: usize = until;
    while n > 0 && is_whitespace(s[n - 1])
        invariant
            n <= until <= s.len(),
            space_run_back(s@, until as int) == (until - n) + space_run_back(s@, n as int),
        decreases n,
    {
        n -= 1;
    }
    n
}

/// The characters of `s` from `from` up to `to`.
pub fn slice_of(s: &Vec<char>, from: usize, to: usize) -> (r: Vec<char>)
    requires
        from <= to <= s.len(),
    ensures
        r@ == s@.subrange(from as int, to as int),
{
    let mut r: Vec<char> = Vec::new();
    let mut i: usize = from;
    while i < to
        invariant
            from <= i <= to <= s.len(),
            r@ == s@.subrange(from as int, i as int),
        decreases to - i,
    {
        r.push(s[i]);
        assert(r@ =~= s@.subrange(from as int, i + 1));
        i += 1;
    }
    r
}

/// `s` without the white space at both ends.
pub fn trim(s: &Vec<char>) -> (r: Vec<char>)
    ensures
        r@ == trimmed(s@),
{
    let a: usize = skip_spaces(s, 0);
    let t: Vec<char> = slice_of(s, a, s.len());
    let b: usize = skip_spaces_back(&t, t.len());
    slice_of(&t, 0, b)
}

/// Appends the characters of `tail` to `out`.
pub fn extend(out: &mut Vec<char>, tail: &Vec<char>)
    ensures
        final(out)@ == old(out)@ + tail@,
{
    let mut i: usize = 0;
    while i < tail.len()
        invariant
            i <= tail.len(),
            out@ == old(out)@ + tail@.subrange(0, i as int),
        decreases tail.len() - i,
    {
        out.push(tail[i]);
        assert(out@ =~= old(out)@ + tail@.subrange(0, i + 1));
        i += 1;
    }
    assert(tail@.subrange(0, tail.len() as int) =~= tail@);
}

/// `s` without any occurrence of `c`.
pub open spec fn without(s: Seq<char>, c: char) -> Seq<char> {
    s.filter(|x: char| x != c)
}

/// Removes every occurrence of `c` from `s`.
pub fn remove_char(s: &Vec<char>, c: char) -> (r: Vec<char>)
    ensures
        r@ == without(s@, c),
{
    let mut r: Vec<char> = Vec::new();
    let mut i: usize = 0;
    while i < s.len()
        invariant
            i <= s.len(),
            r@ == without(s@.subrange(0, i as int), c),
        decreases s.len() - i,
    {
        proof {
            let pred = |x: char| x != c;
            let head = s@.subrange(0, i as int);
            let next = s@.subrange(0, i + 1);
            assert(next =~= head.push(s@[i as int]));
            assert(next.drop_last() =~= head);
            reveal(Seq::filter);
        }
        if s[i] != c {
            r.push(s[i]);
        }
        i += 1;
    }
    assert(s@.subrange(0, s.len() as int) =~= s@);
    r
}

/// The character of the decimal digit `d`.
pub open spec fn digit_char(d: int) -> char {
    (('0' as u8) + d) as u8 as char
}

/// The decimal form of `n`, without leading zeros.
pub open spec fn decimal_of(n: nat) -> Seq<char>
    decreases n,
{
    if n < 10 {
        seq![digit_char(n as int)]
    } else {
        decimal_of(n / 10).push(digit_char((n % 10) as int))
    }
}

/// The decimal form of `i`, with a minus sign where it is negative.
pub open spec fn signed_decimal_of(i: int) -> Seq<char> {
    if i < 0 {
        seq!['-'] + decimal_of((-i) as nat)
    } else {
        decimal_of(i as nat)
    }
}

/// The decimal form of `n`.
pub fn decimal(n: u64) -> (r: Vec<char>)
    ensures
        r@ == decimal_of(n as nat),
    decreases n,
{
    let digit: char = (('0' as u8) + ((n % 10) as u8)) as char;
    if n < 10 {
        let mut r: Vec<char> = Vec::new();
        r.push(digit);
        assert(r@ =~= seq![digit_char(n as int)]);
        r
    } else {
        let mut r: Vec<char> = decimal(n / 10);
        r.push(digit);
        r
    }
}

/// The decimal form of `i`.
pub fn signed_decimal(i: i64) -> (r: Vec<char>)
    ensures
        r@ == signed_decimal_of(i as int),
{
    if i < 0 {
        let magnitude: u64 = if i == i64::MIN {
            9223372036854775808u64
        } else {
            (-i) as u64
        };
        let mut r: Vec<char> = Vec::new();
        r.push('-');
        let digits = decimal(magnitude);
        extend(&mut r, &digits);
        assert(r@ =~= seq!['-'] + decimal_of((-i) as nat));
        r
    } else {
        decimal(i as u64)
    }
}

/// `s` with every `from` turned into `to`.
pub open spec fn with_char_replaced(s: Seq<char>, from: char, to: char) -> Seq<char> {
    Seq::new(s.len(), |i: int| if s[i] == from { to } else { s[i] })
}

/// Turns every `from` in `s` into `to`.
pub fn replace_char(s: &Vec<char>, from: char, to: char) -> (r: Vec<char>)
    ensures
        r@ == with_char_replaced(s@, from, to),
{
    let mut r: Vec<char> = Vec::new();
    let mut i: usize = 0;
    while i < s.len()
        invariant
            i <= s.len(),
            r.len() == i,
            forall|j: int| 0 <= j < i ==> r@[j] == (if s@[j] == from { to } else { s@[j] }),
        decreases s.len() - i,
    {
        if s[i] == from {
            r.push(to);
        } else {
            r.push(s[i]);
        }
        i += 1;
    }
    assert(r@ =~= with_char_replaced(s@, from, to));
    r
}

} // verus!
