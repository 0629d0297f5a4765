//! Character-level text operations on `str` and `String`, each proved
//! against a specification over the character sequence of its arguments.

use vstd::prelude::*;

verus! {

/// `needle` occurs in `hay` starting at index `i`.
pub open spec fn occurs_at(hay: Seq<char>, needle: Seq<char>, i: int) -> bool {
    &&& 0 <= i
    &&& i + needle.len() <= hay.len()
    &&& hay.subrange(i, i + needle.len()) =~= needle
}

/// `needle` occurs somewhere in `hay`.
pub open spec fn contains_text(hay: Seq<char>, needle: Seq<char>) -> bool {
    exists|i: int| occurs_at(hay, needle, i)
}

/// `hay` begins with `prefix`.
pub open spec fn starts_with(hay: Seq<char>, prefix: Seq<char>) -> bool {
    occurs_at(hay, prefix, 0)
}

/// The first index at or after `i` where `needle` occurs in `hay`.
pub open spec fn first_occurrence_from(hay: Seq<char>, needle: Seq<char>, i: int) -> Option<int>
    decreases hay.len() - i,
{
    if i < 0 || i + needle.len() > hay.len() {
        None
    } else if occurs_at(hay, needle, i) {
        Some(i)
    } else {
        first_occurrence_from(hay, needle, i + 1)
    }
}

/// The first index where `needle` occurs in `hay`.
pub open spec fn first_occurrence(hay: Seq<char>, needle: Seq<char>) -> Option<int> {
    first_occurrence_from(hay, needle, 0)
}

/// What `first_occurrence_from` finds is an occurrence, and none comes before it.
pub proof fn lemma_first_occurrence_from(hay: Seq<char>, needle: Seq<char>, i: int)
    requires
        0 <= i,
    ensures
        match first_occurrence_from(hay, needle, i) {
            Some(j) => i <= j && occurs_at(hay, needle, j) && forall|k: int|
                i <= k < j ==> !occurs_at(hay, needle, k),
            None => forall|k: int| i <= k ==> !occurs_at(hay, needle, k),
        },
    decreases hay.len() - i,
{
    if i + needle.len() > hay.len() {
    } else if occurs_at(hay, needle, i) {
    } else {
        lemma_first_occurrence_from(hay, needle, i + 1);
    }
}

/// Appends one character to `s`.
/// Trusted: `String::push`, which std documents as appending the character
/// to the end of the string.
#[verifier::external_body]
pub fn push_char(s: &mut String, c: char)
    ensures
        final(s)@ == old(s)@.push(c),
{
    s.push(c);
}

/// The characters of `s`, in order.
pub fn chars_of(s: &str) -> (out: Vec<char>)
    ensures
        out@ == s@,
{
    let mut out: Vec<char> = Vec::new();
    for c in it: s.chars()
        invariant
            out@ == it.seq().take(it.index() as int),
            it.seq() == s@,
    {
        out.push(c);
    }
    out
}

/// A string holding `cs[from..to]`.
pub fn string_of(cs: &Vec<char>, from: usize, to: usize) -> (out: String)
    requires
        from <= to <= cs.len(),
    ensures
        out@ == cs@.subrange(from as int, to as int),
{
    let mut out = String::new();
    let mut i = from;
    while i < to
        invariant
            from <= i <= to <= cs.len(),
            out@ == cs@.subrange(from as int, i as int),
        decreases to - i,
    {
        push_char(&mut out, cs[i]);
        i = i + 1;
        assert(out@ =~= cs@.subrange(from as int, i as int));
    }
    out
}

/// Whether `a` and `b` hold the same characters.
pub fn text_eq(a: &str, b: &str) -> (same: bool)
    ensures
        same == (a@ == b@),
{
    let x = a.to_owned();
    let y = b.to_owned();
    x == y
}

/// Whether `needle` occurs in `hay` at index `i`.
pub fn occurs_at_exec(hay: &Vec<char>, needle: &Vec<char>, i: usize) -> (found: bool)
    ensures
        found == occurs_at(hay@, needle@, i as int),
{
    if needle.len() > hay.len() || i > hay.len() - needle.len() {
        return false;
    }
    let mut k: usize = 0;
    while k < needle.len()
        invariant
            i + needle.len() <= hay.len(),
            k <= needle.len(),
            forall|m: int| 0 <= m < k ==> hay@[i + m] == needle@[m],
        decreases needle.len() - k,
    {
        if hay[i + k] != needle[k] {
            assert(hay@.subrange(i as int, i + needle.len())[k as int] != needle@[k as int]);
            return false;
        }
        k = k + 1;
    }
    assert(hay@.subrange(i as int, i + needle.len()) =~= needle@);
    true
}

/// The first index at or after `start` where `needle` occurs in `hay`.
pub fn find_from(hay: &Vec<char>, needle: &Vec<char>, start: usize) -> (found: Option<usize>)
    ensures
        match found {
            Some(j) => first_occurrence_from(hay@, needle@, start as int) == Some(j as int),
            None => first_occurrence_from(hay@, needle@, start as int) is None,
        },
{
    let mut i = start;
    while i <= hay.len() && needle.len() <= hay.len() - i
        invariant
            start <= i,
            first_occurrence_from(hay@, needle@, start as int) == first_occurrence_from(
                hay@,
                needle@,
                i as int,
            ),
        decreases hay.len() + 1 - i,
    {
        if occurs_at_exec(hay, needle, i) {
            return Some(i);
        }
        i = i + 1;
    }
    None
}

/// Whether `needle` occurs in `hay`.
pub fn contains_str(hay: &str, needle: &str) -> (found: bool)
    ensures
        found == contains_text(hay@, needle@),
{
    let h = chars_of(hay);
    let n = chars_of(needle);
    let r = find_from(&h, &n, 0);
    proof {
        lemma_first_occurrence_from(h@, n@, 0);
    }
    r.is_some()
}

/// Whether the character `c` occurs in `hay`.
pub fn contains_char(hay: &str, c: char) -> (found: bool)
    ensures
        found == hay@.contains(c),
{
    let cs = chars_of(hay);
    let mut i: usize = 0;
    while i < cs.len()
        invariant
            cs@ == hay@,
            i <= cs.len(),
            forall|k: int| 0 <= k < i ==> cs@[k] != c,
        decreases cs.len() - i,
    {
        if cs[i] == c {
            return true;
        }
        i = i + 1;
    }
    false
}

} // verus!
