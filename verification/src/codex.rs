//! The report of a Codex CLI update, from what its three commands printed.

use vstd::prelude::*;
use crate::text::{chars_of, string_of};

verus! {

/// `c` has the Unicode `White_Space` property, as `char::is_whitespace` tests.
pub open spec fn is_white_space(c: char) -> bool {
    ('\u{9}' <= c <= '\u{d}') || c == ' ' || c == '\u{85}' || c == '\u{a0}' || c == '\u{1680}' || (
    '\u{2000}' <= c <= '\u{200a}') || c == '\u{2028}' || c == '\u{2029}' || c == '\u{202f}' || c
        == '\u{205f}' || c == '\u{3000}'
}

/// `s` without its leading white space.
pub open spec fn trim_start_ws(s: Seq<char>) -> Seq<char>
    decreases s.len(),
{
    if s.len() > 0 && is_white_space(s[0]) {
        trim_start_ws(s.drop_first())
    } else {
        s
    }
}

/// `s` without its trailing white space.
pub open spec fn trim_end_ws(s: Seq<char>) -> Seq<char>
    decreases s.len(),
{
    if s.len() > 0 && is_white_space(s.last()) {
        trim_end_ws(s.drop_last())
    } else {
        s
    }
}

/// `s` without leading and trailing white space, as `str::trim` gives it.
pub open spec fn trim_ws(s: Seq<char>) -> Seq<char> {
    trim_end_ws(trim_start_ws(s))
}

/// Whether `c` is white space.
pub fn white_space(c: char) -> (b: bool)
    ensures
        b == is_white_space(c),
{
    ('\u{9}' <= c && c <= '\u{d}') || c == ' ' || c == '\u{85}' || c == '\u{a0}' || c == '\u{1680}'
        || ('\u{2000}' <= c && c <= '\u{200a}') || c == '\u{2028}' || c == '\u{2029}' || c
        == '\u{202f}' || c == '\u{205f}' || c == '\u{3000}'
}

/// `s` without leading and trailing white space.
pub fn trim_white_space(s: &str) -> (out: String)
    ensures
        out@ == trim_ws(s@),
{
    let cs = chars_of(s);
    let n = cs.len();
    let mut a: usize = 0;
    proof {
        assert(cs@.subrange(0, n as int) =~= cs@);
    }
    while a < n && white_space(cs[a])
        invariant
            n == cs.len(),
            a <= n,
            trim_start_ws(cs@) == trim_start_ws(cs@.subrange(a as int, n as int)),
        decreases n - a,
    {
        proof {
            assert(cs@.subrange(a as int, n as int).drop_first() =~= cs@.subrange(a + 1, n as int));
        }
        a = a + 1;
    }
    let mut b = n;
    while b > a && white_space(cs[b - 1])
        invariant
            n == cs.len(),
            a <= b <= n,
            trim_start_ws(cs@) == cs@.subrange(a as int, n as int),
            trim_ws(cs@) == trim_end_ws(cs@.subrange(a as int, b as int)),
        decreases b - a,
    {
        proof {
            assert(cs@.subrange(a as int, b as int).drop_last() =~= cs@.subrange(a as int, b - 1));
        }
        b = b - 1;
    }
    string_of(&cs, a, b)
}

/// What an update of the Codex CLI reports.
#[derive(Debug)]
pub struct CodexUpdateReport {
    /// The version before the update.
    pub before: String,
    /// The version after the update, or `unknown`.
    pub after: String,
    /// What the update printed.
    pub output: String,
    /// What the update printed as errors.
    pub error: String,
    /// Whether the update succeeded.
    pub success: bool,
}

/// The report of an update, from the version printed before it, the
/// update's output, errors and success, and the version printed after it
/// (`None` when that command could not be run); the texts are trimmed.
pub fn codex_update_report(
    version_before: &str,
    update_output: &str,
    update_error: &str,
    update_succeeded: bool,
    version_after: Option<&str>,
) -> (r: CodexUpdateReport)
    ensures
        r.before@ == trim_ws(version_before@),
        r.after@ == match version_after {
            Some(v) => trim_ws(v@),
            None => "unknown"@,
        },
        r.output@ == trim_ws(update_output@),
        r.error@ == trim_ws(update_error@),
        r.success == update_succeeded,
{
    let after = match version_after {
        Some(v) => trim_white_space(v),
        None => "unknown".to_owned(),
    };
    CodexUpdateReport {
        before: trim_white_space(version_before),
        after,
        output: trim_white_space(update_output),
        error: trim_white_space(update_error),
        success: update_succeeded,
    }
}

/// Trimming the start drops exactly the leading white space.
pub proof fn lemma_trim_start_ws(s: Seq<char>)
    ensures
        trim_start_ws(s).len() <= s.len(),
        trim_start_ws(s) == s.skip(s.len() - trim_start_ws(s).len()),
        forall|i: int| 0 <= i < s.len() - trim_start_ws(s).len() ==> is_white_space(#[trigger] s[i]),
        trim_start_ws(s).len() > 0 ==> !is_white_space(trim_start_ws(s)[0]),
    decreases s.len(),
{
    if s.len() > 0 && is_white_space(s[0]) {
        lemma_trim_start_ws(s.drop_first());
        let r = trim_start_ws(s.drop_first());
        assert(s.drop_first().skip(s.drop_first().len() - r.len()) =~= s.skip(s.len() - r.len()));
        assert forall|i: int| 0 <= i < s.len() - r.len() implies is_white_space(#[trigger] s[i]) by {
            if i > 0 {
                assert(s[i] == s.drop_first()[i - 1]);
            }
        }
    } else {
        assert(s.skip(0) =~= s);
    }
}

/// Trimming the end drops exactly the trailing white space.
pub proof fn lemma_trim_end_ws(s: Seq<char>)
    ensures
        trim_end_ws(s) == s.take(trim_end_ws(s).len() as int),
        trim_end_ws(s).len() <= s.len(),
        forall|i: int| trim_end_ws(s).len() <= i < s.len() ==> is_white_space(#[trigger] s[i]),
        trim_end_ws(s).len() > 0 ==> !is_white_space(trim_end_ws(s).last()),
    decreases s.len(),
{
    if s.len() > 0 && is_white_space(s.last()) {
        lemma_trim_end_ws(s.drop_last());
        let r = trim_end_ws(s.drop_last());
        assert(s.drop_last().take(r.len() as int) =~= s.take(r.len() as int));
        assert forall|i: int| r.len() <= i < s.len() implies is_white_space(#[trigger] s[i]) by {
            if i < s.len() - 1 {
                assert(s[i] == s.drop_last()[i]);
            }
        }
    } else {
        assert(s.take(s.len() as int) =~= s);
    }
}

/// A trimmed text is a stretch of the text that neither begins nor ends
/// with white space, and everything cut away before and after it is white
/// space.
pub proof fn law_trim_ws(s: Seq<char>)
    ensures
        ({
            let r = trim_ws(s);
            let a = s.len() - trim_start_ws(s).len();
            &&& 0 <= a <= s.len()
            &&& a + r.len() <= s.len()
            &&& r == s.subrange(a, a + r.len())
            &&& forall|i: int| 0 <= i < a ==> is_white_space(#[trigger] s[i])
            &&& forall|i: int| a + r.len() <= i < s.len() ==> is_white_space(#[trigger] s[i])
            &&& r.len() > 0 ==> !is_white_space(r[0]) && !is_white_space(r.last())
        }),
{
    lemma_trim_start_ws(s);
    let t = trim_start_ws(s);
    lemma_trim_end_ws(t);
    let r = trim_end_ws(t);
    let a = s.len() - t.len();
    assert forall|j: int| 0 <= j < r.len() implies r[j] == s[a + j] by {
        assert(r[j] == t[j]);
        assert(t[j] == s.skip(a)[j]);
    }
    assert(r =~= s.subrange(a, a + r.len()));
    assert forall|i: int| a + r.len() <= i < s.len() implies is_white_space(#[trigger] s[i]) by {
        assert(t[i - a] == s.skip(a)[i - a]);
        assert(is_white_space(t[i - a]));
    }
    if r.len() > 0 {
        assert(r[0] == t[0]);
    }
}

/// The white space that trimming removes: tab, line feed, vertical tab,
/// form feed, carriage return, space, next line, no-break space, ogham
/// space mark, the spaces U+2000 to U+200A, line and paragraph separators,
/// narrow no-break space, medium mathematical space and ideographic space;
/// letters, digits and the zero-width space are not white space.
pub proof fn law_white_space_chars()
    ensures
        is_white_space('\t') && is_white_space('\n') && is_white_space('\u{b}') && is_white_space(
            '\u{c}',
        ) && is_white_space('\r') && is_white_space(' '),
        is_white_space('\u{85}') && is_white_space('\u{a0}') && is_white_space('\u{1680}'),
        forall|c: char| '\u{2000}' <= c <= '\u{200a}' ==> is_white_space(c),
        is_white_space('\u{2028}') && is_white_space('\u{2029}') && is_white_space('\u{202f}')
            && is_white_space('\u{205f}') && is_white_space('\u{3000}'),
        !is_white_space('a') && !is_white_space('0') && !is_white_space('\u{200b}')
            && !is_white_space('\0'),
{
}

} // verus!
