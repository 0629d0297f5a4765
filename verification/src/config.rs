//! Reading and updating `key = "value"` settings in a line-oriented
//! configuration text.

use vstd::prelude::*;
use crate::lines::{
    join_lines, join_with_newlines, lemma_lines_of_join, lemma_lines_one_line, lines_of, one_line,
    split_lines, strip_cr, views,
};
use crate::text::{
    chars_of, contains_text, find_from, occurs_at, first_occurrence, first_occurrence_from, lemma_first_occurrence_from,
    occurs_at_exec, push_char, starts_with, string_of,
};

verus! {

/// The start of a setting line for `key`: the key, then ` = `.
pub open spec fn setting_prefix(key: Seq<char>) -> Seq<char> {
    key + seq![' ', '=', ' ']
}

/// The line that sets `key` to `value`: `key = "value"`.
pub open spec fn setting_line(key: Seq<char>, value: Seq<char>) -> Seq<char> {
    key + seq![' ', '=', ' ', '"'] + value + seq!['"']
}

/// The separator whose second field holds a setting's value.
pub open spec fn field_separator() -> Seq<char> {
    seq!['=', ' ']
}

/// The first line at or after `i` that begins with `prefix`.
pub open spec fn first_match_from(ls: Seq<Seq<char>>, prefix: Seq<char>, i: int) -> Option<int>
    decreases ls.len() - i,
{
    if i < 0 || i >= ls.len() {
        None
    } else if starts_with(ls[i], prefix) {
        Some(i)
    } else {
        first_match_from(ls, prefix, i + 1)
    }
}

/// The first line of `ls` that begins with `prefix`.
pub open spec fn first_match(ls: Seq<Seq<char>>, prefix: Seq<char>) -> Option<int> {
    first_match_from(ls, prefix, 0)
}

/// The second `"= "`-separated field of `line`, empty when there is none.
pub open spec fn second_field(line: Seq<char>) -> Seq<char> {
    match first_occurrence(line, field_separator()) {
        None => Seq::empty(),
        Some(i) => match first_occurrence_from(line, field_separator(), i + 2) {
            Some(j) => line.subrange(i + 2, j),
            None => line.subrange(i + 2, line.len() as int),
        },
    }
}

/// `s` without its leading `"` characters.
pub open spec fn trim_start_quotes(s: Seq<char>) -> Seq<char>
    decreases s.len(),
{
    if s.len() > 0 && s[0] == '"' {
        trim_start_quotes(s.drop_first())
    } else {
        s
    }
}

/// `s` without its trailing `"` characters.
pub open spec fn trim_end_quotes(s: Seq<char>) -> Seq<char>
    decreases s.len(),
{
    if s.len() > 0 && s.last() == '"' {
        trim_end_quotes(s.drop_last())
    } else {
        s
    }
}

/// `s` without its leading and trailing `"` characters.
pub open spec fn trim_quotes(s: Seq<char>) -> Seq<char> {
    trim_end_quotes(trim_start_quotes(s))
}

/// The configuration text with `key` set to `value`: the first line that
/// begins with `key = ` is replaced by `key = "value"`, or that line is
/// added at the end; the lines are then joined with `\n`.
pub open spec fn config_with(content: Seq<char>, key: Seq<char>, value: Seq<char>) -> Seq<char> {
    let ls = lines_of(content);
    let line = setting_line(key, value);
    match first_match(ls, setting_prefix(key)) {
        Some(i) => join_lines(ls.update(i, line)),
        None => join_lines(ls.push(line)),
    }
}

/// The value of `key` in the configuration text: the second `"= "` field of
/// the first line that begins with `key = `, without surrounding quotes.
pub open spec fn config_value(content: Seq<char>, key: Seq<char>) -> Option<Seq<char>> {
    let ls = lines_of(content);
    match first_match(ls, setting_prefix(key)) {
        Some(i) => Some(trim_quotes(second_field(ls[i]))),
        None => None,
    }
}

/// The characters `key = `.
fn prefix_chars(key: &str) -> (out: Vec<char>)
    ensures
        out@ == setting_prefix(key@),
{
    let mut out = chars_of(key);
    out.push(' ');
    out.push('=');
    out.push(' ');
    proof {
        assert(out@ =~= setting_prefix(key@));
    }
    out
}

/// The index of the first line of `lines` that begins with `key = `.
fn find_setting(lines: &Vec<String>, key: &str) -> (found: Option<usize>)
    ensures
        match found {
            Some(i) => i < lines.len() && first_match(views(lines@), setting_prefix(key@)) == Some(
                i as int,
            ),
            None => first_match(views(lines@), setting_prefix(key@)) is None,
        },
{
    let prefix = prefix_chars(key);
    let mut i: usize = 0;
    while i < lines.len()
        invariant
            i <= lines.len(),
            prefix@ == setting_prefix(key@),
            first_match(views(lines@), prefix@) == first_match_from(views(lines@), prefix@, i as int),
        decreases lines.len() - i,
    {
        let cs = chars_of(lines[i].as_str());
        if occurs_at_exec(&cs, &prefix, 0) {
            return Some(i);
        }
        i = i + 1;
    }
    None
}

/// The line `key = "value"`.
fn make_setting_line(key: &str, value: &str) -> (out: String)
    ensures
        out@ == setting_line(key@, value@),
{
    let mut out = key.to_owned();
    push_char(&mut out, ' ');
    push_char(&mut out, '=');
    push_char(&mut out, ' ');
    push_char(&mut out, '"');
    out.append(value);
    push_char(&mut out, '"');
    proof {
        assert(out@ =~= setting_line(key@, value@));
    }
    out
}

/// The configuration text `content` with `key` set to `value`.
pub fn set_config_value(content: &str, key: &str, value: &str) -> (out: String)
    ensures
        out@ == config_with(content@, key@, value@),
{
    let mut lines = split_lines(content);
    let line = make_setting_line(key, value);
    let ghost ls = views(lines@);
    match find_setting(&lines, key) {
        Some(i) => {
            lines.set(i, line);
            proof {
                assert(views(lines@) =~= ls.update(i as int, setting_line(key@, value@)));
            }
        },
        None => {
            lines.push(line);
            proof {
                assert(views(lines@) =~= ls.push(setting_line(key@, value@)));
            }
        },
    }
    join_with_newlines(&lines)
}

/// `cs[from..]` without its leading and trailing `"` characters.
fn trimmed_quotes(cs: &Vec<char>, from: usize, to: usize) -> (out: String)
    requires
        from <= to <= cs.len(),
    ensures
        out@ == trim_quotes(cs@.subrange(from as int, to as int)),
{
    let mut a = from;
    while a < to && cs[a] == '"'
        invariant
            from <= a <= to <= cs.len(),
            trim_start_quotes(cs@.subrange(from as int, to as int)) == trim_start_quotes(
                cs@.subrange(a as int, to as int),
            ),
        decreases to - a,
    {
        proof {
            assert(cs@.subrange(a as int, to as int).drop_first() =~= cs@.subrange(
                a + 1,
                to as int,
            ));
        }
        a = a + 1;
    }
    let mut b = to;
    while b > a && cs[b - 1] == '"'
        invariant
            from <= a <= b <= to <= cs.len(),
            trim_start_quotes(cs@.subrange(from as int, to as int)) == cs@.subrange(
                a as int,
                to as int,
            ) || b < to,
            trim_quotes(cs@.subrange(from as int, to as int)) == trim_end_quotes(
                cs@.subrange(a as int, b as int),
            ),
        decreases b - a,
    {
        proof {
            assert(cs@.subrange(a as int, b as int).drop_last() =~= cs@.subrange(
                a as int,
                b - 1,
            ));
        }
        b = b - 1;
    }
    string_of(cs, a, b)
}

/// The value of `key` in the configuration text `content`, if a line sets it.
pub fn get_config_value(content: &str, key: &str) -> (found: Option<String>)
    ensures
        match found {
            Some(v) => config_value(content@, key@) == Some(v@),
            None => config_value(content@, key@) is None,
        },
{
    let lines = split_lines(content);
    match find_setting(&lines, key) {
        None => None,
        Some(i) => {
            let cs = chars_of(lines[i].as_str());
            proof {
                assert(views(lines@)[i as int] == cs@);
            }
            let mut sep: Vec<char> = Vec::new();
            sep.push('=');
            sep.push(' ');
            proof {
                assert(sep@ =~= field_separator());
            }
            let value = match find_from(&cs, &sep, 0) {
                None => String::new(),
                Some(p) => {
                    proof {
                        lemma_first_occurrence_from(cs@, sep@, 0);
                        assert(p + 2 <= cs.len());
                    }
                    match find_from(&cs, &sep, p + 2) {
                        Some(q) => {
                            proof {
                                lemma_first_occurrence_from(cs@, sep@, p + 2);
                            }
                            trimmed_quotes(&cs, p + 2, q)
                        },
                        None => trimmed_quotes(&cs, p + 2, cs.len()),
                    }
                },
            };
            Some(value)
        },
    }
}

/// What a configuration request comes to, once the configuration text is read.
pub enum ConfigReply {
    /// No key was given: the whole configuration text is the answer.
    WholeText,
    /// A value was given: the configuration text to write back.
    Updated(String),
    /// The value that the configuration holds for the key.
    Found(String),
    /// The key is not set; the message says so.
    Missing(String),
}

/// The message for a key that no line sets: `Key '<key>' not found in config`.
pub open spec fn missing_key_message(key: Seq<char>) -> Seq<char> {
    "Key '"@ + key + "' not found in config"@
}

/// Decides a request on the configuration text `content`: with an empty key
/// the whole text; with a value, the text with the key set; otherwise the
/// key's value, or the message that it is missing.
pub fn config_reply(content: &str, key: &str, value: Option<&str>) -> (reply: ConfigReply)
    ensures
        key@.len() == 0 ==> reply is WholeText,
        key@.len() > 0 ==> match value {
            Some(v) => reply matches ConfigReply::Updated(t) && t@ == config_with(
                content@,
                key@,
                v@,
            ),
            None => match config_value(content@, key@) {
                Some(x) => reply matches ConfigReply::Found(f) && f@ == x,
                None => reply matches ConfigReply::Missing(m) && m@ == missing_key_message(key@),
            },
        },
{
    if key.is_empty() {
        return ConfigReply::WholeText;
    }
    match value {
        Some(v) => ConfigReply::Updated(set_config_value(content, key, v)),
        None => match get_config_value(content, key) {
            Some(x) => ConfigReply::Found(x),
            None => {
                let mut m = "Key '".to_owned();
                m.append(key);
                m.append("' not found in config");
                ConfigReply::Missing(m)
            },
        },
    }
}

/// What `first_match_from` finds begins with the prefix, and no line before it does.
pub proof fn lemma_first_match_from(ls: Seq<Seq<char>>, prefix: Seq<char>, i: int)
    requires
        0 <= i,
    ensures
        match first_match_from(ls, prefix, i) {
            Some(j) => i <= j < ls.len() && starts_with(ls[j], prefix) && forall|k: int|
                i <= k < j ==> !starts_with(#[trigger] ls[k], prefix),
            None => forall|k: int| i <= k < ls.len() ==> !starts_with(#[trigger] ls[k], prefix),
        },
    decreases ls.len() - i,
{
    if i < ls.len() && !starts_with(ls[i], prefix) {
        lemma_first_match_from(ls, prefix, i + 1);
    }
}

/// A line that begins with the prefix, with no such line before it, is the first match.
pub proof fn lemma_first_match_at(ls: Seq<Seq<char>>, prefix: Seq<char>, i: int, t: int)
    requires
        0 <= i <= t < ls.len(),
        starts_with(ls[t], prefix),
        forall|k: int| i <= k < t ==> !starts_with(#[trigger] ls[k], prefix),
    ensures
        first_match_from(ls, prefix, i) == Some(t),
    decreases t - i,
{
    if i < t {
        lemma_first_match_at(ls, prefix, i + 1, t);
    }
}

/// An occurrence with none before it is the first occurrence.
pub proof fn lemma_first_occurrence_at(hay: Seq<char>, needle: Seq<char>, i: int, t: int)
    requires
        0 <= i <= t,
        occurs_at(hay, needle, t),
        forall|k: int| i <= k < t ==> !occurs_at(hay, needle, k),
    ensures
        first_occurrence_from(hay, needle, i) == Some(t),
    decreases t - i,
{
    if i < t {
        lemma_first_occurrence_at(hay, needle, i + 1, t);
    }
}

/// Dropping a trailing `\r` does not make a line begin with a prefix.
pub proof fn lemma_strip_cr_prefix(x: Seq<char>, prefix: Seq<char>)
    requires
        starts_with(strip_cr(x), prefix),
    ensures
        starts_with(x, prefix),
{
    if x.len() > 0 && x.last() == '\r' {
        assert(x.drop_last().subrange(0, prefix.len() as int) =~= x.subrange(0, prefix.len() as int));
    }
}

/// The quotes around a value are trimmed away again, unless the value
/// itself begins or ends with a quote.
pub proof fn lemma_trim_quoted(value: Seq<char>)
    requires
        value.len() > 0 ==> value[0] != '"' && value.last() != '"',
    ensures
        trim_quotes(seq!['"'] + value + seq!['"']) == value,
{
    let q = seq!['"'] + value + seq!['"'];
    assert(q.drop_first() =~= value + seq!['"']);
    if value.len() == 0 {
        assert(q.drop_first() =~= seq!['"']);
        assert(seq!['"'].drop_first() =~= Seq::<char>::empty());
        assert(trim_start_quotes(seq!['"']) == trim_start_quotes(Seq::<char>::empty()));
        assert(value =~= Seq::<char>::empty());
        assert(q[0] == '"');
        assert(trim_start_quotes(q) == trim_start_quotes(q.drop_first()));
        assert(trim_start_quotes(q) =~= Seq::<char>::empty());
    } else {
        let vq = value + seq!['"'];
        assert(q[0] == '"');
        assert(trim_start_quotes(q) == trim_start_quotes(q.drop_first()));
        assert(vq[0] == value[0]);
        assert(trim_start_quotes(vq) == vq);
        assert(trim_start_quotes(q) == vq);
        assert(vq.drop_last() =~= value);
        assert(vq.last() == '"');
        assert(trim_end_quotes(vq) == trim_end_quotes(value));
        assert(trim_end_quotes(value) == value);
    }
}

/// The value field of a setting line is the quoted value, when neither the
/// key followed by a space nor the value holds `"= "`.
pub proof fn lemma_second_field_of_setting(key: Seq<char>, value: Seq<char>)
    requires
        !contains_text(key.push(' '), field_separator()),
        !contains_text(value, field_separator()),
    ensures
        second_field(setting_line(key, value)) == seq!['"'] + value + seq!['"'],
{
    let line = setting_line(key, value);
    let sep = field_separator();
    let kp = key.push(' ');
    let n = key.len() as int;
    assert(line.subrange(n + 1, n + 3) =~= sep);
    assert forall|m: int| 0 <= m < n + 1 implies !occurs_at(line, sep, m) by {
        if occurs_at(line, sep, m) {
            assert(line.subrange(m, m + 2)[0] == line[m]);
            assert(line.subrange(m, m + 2)[1] == line[m + 1]);
            assert(line[m] == kp[m]);
            assert(line[m + 1] == kp[m + 1]);
            assert(kp.subrange(m, m + 2) =~= sep);
            assert(occurs_at(kp, sep, m));
        }
    }
    lemma_first_occurrence_at(line, sep, 0, n + 1);
    assert forall|m: int| n + 3 <= m implies !occurs_at(line, sep, m) by {
        if occurs_at(line, sep, m) {
            assert(line.subrange(m, m + 2)[0] == line[m]);
            assert(line.subrange(m, m + 2)[1] == line[m + 1]);
            if m + 1 < n + 4 + value.len() {
                assert(line[m] == value[m - n - 4]);
                assert(line[m + 1] == value[m + 1 - n - 4]);
                assert(value.subrange(m - n - 4, m - n - 2) =~= sep);
                assert(occurs_at(value, sep, m - n - 4));
            }
        }
    }
    lemma_first_occurrence_from(line, sep, n + 3);
    assert(line.subrange(n + 3, line.len() as int) =~= seq!['"'] + value + seq!['"']);
}

/// Reading a setting back after writing it gives the written value, for keys
/// and values on one line, when neither the key followed by a space nor the
/// value holds `"= "`, and the value neither begins nor ends with a quote.
pub proof fn law_config_value_after_set(content: Seq<char>, key: Seq<char>, value: Seq<char>)
    requires
        one_line(key),
        one_line(value),
        !contains_text(key.push(' '), field_separator()),
        !contains_text(value, field_separator()),
        value.len() > 0 ==> value[0] != '"' && value.last() != '"',
    ensures
        config_value(config_with(content, key, value), key) == Some(value),
        lines_of(config_with(content, key, value)).contains(
            key + seq![' ', '=', ' ', '"'] + value + seq!['"'],
        ),
{
    let ls = lines_of(content);
    let line = setting_line(key, value);
    let prefix = setting_prefix(key);
    lemma_first_match_from(ls, prefix, 0);
    lemma_lines_one_line(content);
    assert(one_line(line)) by {
        assert forall|i: int| 0 <= i < line.len() implies line[i] != '\n' by {
            if i < key.len() {
                assert(line[i] == key[i]);
            } else if key.len() + 4 <= i < key.len() + 4 + value.len() {
                assert(line[i] == value[i - key.len() - 4]);
            }
        }
    }
    assert(line.subrange(0, prefix.len() as int) =~= prefix);
    let new_ls = match first_match(ls, prefix) {
        Some(i) => ls.update(i, line),
        None => ls.push(line),
    };
    let t = match first_match(ls, prefix) {
        Some(i) => i,
        None => ls.len() as int,
    };
    assert(0 <= t < new_ls.len());
    assert(new_ls[t] == line);
    assert forall|k: int| 0 <= k < new_ls.len() implies one_line(#[trigger] new_ls[k]) by {
        if k != t {
            assert(new_ls[k] == ls[k]);
        }
    }
    assert forall|k: int| 0 <= k < t implies !starts_with(#[trigger] new_ls[k], prefix) by {
        assert(new_ls[k] == ls[k]);
    }
    lemma_lines_of_join(new_ls);
    let ls2 = lines_of(join_lines(new_ls));
    assert(join_lines(new_ls) == config_with(content, key, value));
    assert(line.last() == '"');
    assert(ls2[t] == line) by {
        if t < new_ls.len() - 1 {
            assert(ls2[t] == strip_cr(new_ls[t]));
        }
    }
    assert forall|k: int| 0 <= k < t implies !starts_with(#[trigger] ls2[k], prefix) by {
        assert(ls2[k] == strip_cr(new_ls[k]));
        if starts_with(ls2[k], prefix) {
            lemma_strip_cr_prefix(new_ls[k], prefix);
        }
    }
    lemma_first_match_at(ls2, prefix, 0, t);
    assert(line =~= key + seq![' ', '=', ' ', '"'] + value + seq!['"']);
    assert(ls2[t] == line);
    lemma_second_field_of_setting(key, value);
    lemma_trim_quoted(value);
}

/// A key has a value exactly when some line begins with the key followed by
/// ` = `; the value is then read from the first such line.
pub proof fn law_config_value_needs_setting_line(content: Seq<char>, key: Seq<char>)
    ensures
        config_value(content, key) is Some <==> exists|i: int|
            0 <= i < lines_of(content).len() && starts_with(
                #[trigger] lines_of(content)[i],
                key + seq![' ', '=', ' '],
            ),
        config_value(content, key) is Some ==> exists|i: int|
            0 <= i < lines_of(content).len() && starts_with(
                #[trigger] lines_of(content)[i],
                key + seq![' ', '=', ' '],
            ) && (forall|j: int|
                0 <= j < i ==> !starts_with(lines_of(content)[j], key + seq![' ', '=', ' ']))
                && config_value(content, key) == Some(trim_quotes(second_field(lines_of(content)[i]))),
{
    let ls = lines_of(content);
    let p = key + seq![' ', '=', ' '];
    assert(setting_prefix(key) =~= p);
    lemma_first_match_from(ls, p, 0);
}

} // verus!
