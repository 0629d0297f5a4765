//! Splitting text into lines and joining lines back together, with the
//! line rules of `str::lines`: lines end at `\n`, a `\r` right before that
//! `\n` belongs to the line ending, and the final line ending is optional.

use vstd::prelude::*;
use crate::text::{chars_of, push_char};

verus! {

/// The pieces of `s` between its `\n` characters (one more than there are `\n`s).
pub open spec fn pieces(s: Seq<char>) -> Seq<Seq<char>>
    decreases s.len(),
{
    if s.len() == 0 {
        seq![Seq::<char>::empty()]
    } else {
        let p = pieces(s.drop_last());
        if s.last() == '\n' {
            p.push(Seq::<char>::empty())
        } else {
            p.update(p.len() - 1, p.last().push(s.last()))
        }
    }
}

/// `line` without one trailing `\r`, if it has one.
pub open spec fn strip_cr(line: Seq<char>) -> Seq<char> {
    if line.len() > 0 && line.last() == '\r' {
        line.drop_last()
    } else {
        line
    }
}

/// The lines of `s`, as `str::lines` yields them.
pub open spec fn lines_of(s: Seq<char>) -> Seq<Seq<char>> {
    if s.len() == 0 {
        Seq::empty()
    } else {
        let p = pieces(s);
        let ended = p.drop_last().map_values(|l: Seq<char>| strip_cr(l));
        if s.last() == '\n' {
            ended
        } else {
            ended.push(p.last())
        }
    }
}

/// The lines of `ls` joined with `\n` between them.
pub open spec fn join_lines(ls: Seq<Seq<char>>) -> Seq<char>
    decreases ls.len(),
{
    if ls.len() == 0 {
        Seq::empty()
    } else if ls.len() == 1 {
        ls[0]
    } else {
        join_lines(ls.drop_last()) + seq!['\n'] + ls.last()
    }
}

/// The character sequences that a list of strings holds.
pub open spec fn views(ls: Seq<String>) -> Seq<Seq<char>> {
    ls.map_values(|l: String| l@)
}

/// `s` has no `\n`.
pub open spec fn one_line(s: Seq<char>) -> bool {
    forall|i: int| 0 <= i < s.len() ==> s[i] != '\n'
}

pub proof fn lemma_pieces_nonempty(s: Seq<char>)
    ensures
        pieces(s).len() >= 1,
    decreases s.len(),
{
    if s.len() > 0 {
        lemma_pieces_nonempty(s.drop_last());
    }
}

/// No piece holds a `\n`.
pub proof fn lemma_pieces_one_line(s: Seq<char>)
    ensures
        forall|j: int| 0 <= j < pieces(s).len() ==> one_line(#[trigger] pieces(s)[j]),
    decreases s.len(),
{
    if s.len() > 0 {
        lemma_pieces_one_line(s.drop_last());
        lemma_pieces_nonempty(s.drop_last());
        let p = pieces(s.drop_last());
        if s.last() != '\n' {
            assert(one_line(p.last()));
            assert(one_line(p.last().push(s.last())));
        }
    }
}

/// No line holds a `\n`.
pub proof fn lemma_lines_one_line(s: Seq<char>)
    ensures
        forall|j: int| 0 <= j < lines_of(s).len() ==> one_line(#[trigger] lines_of(s)[j]),
{
    lemma_pieces_one_line(s);
    lemma_pieces_nonempty(s);
    if s.len() > 0 {
        let p = pieces(s);
        assert forall|j: int| 0 <= j < p.len() implies one_line(#[trigger] strip_cr(p[j])) by {
            assert(one_line(p[j]));
        }
        assert(one_line(p[p.len() - 1]));
    }
}

/// A text without `\n` is a single piece.
pub proof fn lemma_pieces_single(x: Seq<char>)
    requires
        one_line(x),
    ensures
        pieces(x) == seq![x],
    decreases x.len(),
{
    if x.len() > 0 {
        lemma_pieces_single(x.drop_last());
        assert(x.drop_last().push(x.last()) =~= x);
        assert(pieces(x) =~= seq![x]);
    } else {
        assert(x =~= Seq::<char>::empty());
    }
}

/// Adding `\n` and a line to a text adds that line as a piece.
pub proof fn lemma_pieces_extend(s: Seq<char>, x: Seq<char>)
    requires
        one_line(x),
    ensures
        pieces(s + seq!['\n'] + x) == pieces(s).push(x),
    decreases x.len(),
{
    let t = s + seq!['\n'] + x;
    if x.len() == 0 {
        assert(x =~= Seq::<char>::empty());
        assert(t.drop_last() =~= s);
        assert(t.last() == '\n');
        assert(pieces(t) =~= pieces(s).push(x));
    } else {
        assert(t.drop_last() =~= s + seq!['\n'] + x.drop_last());
        lemma_pieces_extend(s, x.drop_last());
        assert(x.drop_last().push(x.last()) =~= x);
        assert(pieces(t) =~= pieces(s).push(x));
    }
}

/// Joining lines without `\n` and cutting at `\n` gives the lines back.
pub proof fn lemma_pieces_join(ls: Seq<Seq<char>>)
    requires
        ls.len() >= 1,
        forall|j: int| 0 <= j < ls.len() ==> one_line(#[trigger] ls[j]),
    ensures
        pieces(join_lines(ls)) == ls,
    decreases ls.len(),
{
    if ls.len() == 1 {
        lemma_pieces_single(ls[0]);
        assert(ls =~= seq![ls[0]]);
    } else {
        lemma_pieces_join(ls.drop_last());
        assert(one_line(ls.last()));
        lemma_pieces_extend(join_lines(ls.drop_last()), ls.last());
        assert(ls.drop_last().push(ls.last()) =~= ls);
    }
}

/// The lines of a joined text: each line but the last loses a trailing
/// `\r`, and an empty last line is not seen.
pub proof fn lemma_lines_of_join(ls: Seq<Seq<char>>)
    requires
        ls.len() >= 1,
        forall|j: int| 0 <= j < ls.len() ==> one_line(#[trigger] ls[j]),
    ensures
        lines_of(join_lines(ls)) == (if ls.last().len() == 0 {
            ls.drop_last().map_values(|l: Seq<char>| strip_cr(l))
        } else {
            ls.drop_last().map_values(|l: Seq<char>| strip_cr(l)).push(ls.last())
        }),
{
    let s = join_lines(ls);
    lemma_pieces_join(ls);
    if ls.len() == 1 {
        if ls[0].len() == 0 {
            assert(ls.drop_last().map_values(|l: Seq<char>| strip_cr(l)) =~= Seq::<Seq<char>>::empty());
        } else {
            assert(one_line(ls[0]));
            assert(s.last() != '\n');
        }
    } else {
        assert(s == join_lines(ls.drop_last()) + seq!['\n'] + ls.last());
        if ls.last().len() == 0 {
            assert(s.last() == '\n');
        } else {
            assert(one_line(ls.last()));
            assert(s.last() == ls.last().last());
        }
    }
}

/// The lines of `text`, split as `str::lines` splits them.
pub fn split_lines(text: &str) -> (lines: Vec<String>)
    ensures
        views(lines@) == lines_of(text@),
{
    let cs = chars_of(text);
    let mut lines: Vec<String> = Vec::new();
    let mut cur = String::new();
    let mut pending_cr = false;
    let mut i: usize = 0;
    proof {
        assert(cs@.take(0) =~= Seq::<char>::empty());
    }
    while i < cs.len()
        invariant
            cs@ == text@,
            i <= cs.len(),
            pieces(cs@.take(i as int)).len() >= 1,
            views(lines@) =~= pieces(cs@.take(i as int)).drop_last().map_values(
                |l: Seq<char>| strip_cr(l),
            ),
            (if pending_cr {
                cur@.push('\r')
            } else {
                cur@
            }) == pieces(cs@.take(i as int)).last(),
            !pending_cr ==> !(cur@.len() > 0 && cur@.last() == '\r'),
        decreases cs.len() - i,
    {
        let c = cs[i];
        let ghost before = cs@.take(i as int);
        let ghost after = cs@.take(i + 1);
        proof {
            assert(after.drop_last() =~= before);
            assert(after.last() == c);
            lemma_pieces_nonempty(before);
            lemma_pieces_nonempty(after);
        }
        if c == '\n' {
            let ghost old_lines = lines@;
            proof {
                assert(strip_cr(pieces(before).last()) == cur@);
            }
            lines.push(cur);
            cur = String::new();
            pending_cr = false;
            proof {
                assert(pieces(after).drop_last() =~= pieces(before));
                assert(views(lines@) =~= views(old_lines).push(strip_cr(pieces(before).last())));
                assert(pieces(before).map_values(|l: Seq<char>| strip_cr(l))
                    =~= pieces(before).drop_last().map_values(|l: Seq<char>| strip_cr(l)).push(
                    strip_cr(pieces(before).last())));
            }
        } else if c == '\r' {
            if pending_cr {
                push_char(&mut cur, '\r');
            }
            pending_cr = true;
            proof {
                assert(pieces(after).drop_last() =~= pieces(before).drop_last());
            }
        } else {
            if pending_cr {
                push_char(&mut cur, '\r');
            }
            push_char(&mut cur, c);
            pending_cr = false;
            proof {
                assert(pieces(after).drop_last() =~= pieces(before).drop_last());
            }
        }
        i = i + 1;
    }
    proof {
        assert(cs@.take(cs@.len() as int) =~= cs@);
        if cs@.len() > 0 && cs@.last() != '\n' {
            lemma_pieces_nonempty(cs@.drop_last());
            assert(pieces(cs@).last().len() > 0);
        }
        if cs@.len() == 0 {
            assert(pieces(cs@).last().len() == 0);
        }
    }
    if pending_cr {
        push_char(&mut cur, '\r');
    }
    if cur.as_str().is_empty() {
        proof {
            if cs@.len() > 0 && cs@.last() != '\n' {
                assert(false);
            }
        }
    } else {
        lines.push(cur);
        proof {
            assert(views(lines@) =~= pieces(cs@).drop_last().map_values(
                |l: Seq<char>| strip_cr(l),
            ).push(pieces(cs@).last()));
        }
    }
    lines
}

/// The strings of `lines` joined with `\n` between them.
pub fn join_with_newlines(lines: &Vec<String>) -> (out: String)
    ensures
        out@ == join_lines(views(lines@)),
{
    let mut out = String::new();
    let mut i: usize = 0;
    while i < lines.len()
        invariant
            i <= lines.len(),
            out@ == join_lines(views(lines@).take(i as int)),
        decreases lines.len() - i,
    {
        let ghost prev = views(lines@).take(i as int);
        let ghost next = views(lines@).take(i + 1);
        proof {
            assert(next.drop_last() =~= prev);
            assert(next.last() == lines@[i as int]@);
        }
        if i > 0 {
            push_char(&mut out, '\n');
        }
        out.append(lines[i].as_str());
        proof {
            if i == 0 {
                assert(out@ =~= next[0]);
            } else {
                assert(out@ =~= join_lines(prev) + seq!['\n'] + next.last());
            }
        }
        i = i + 1;
    }
    proof {
        assert(views(lines@).take(lines.len() as int) =~= views(lines@));
    }
    out
}

} // verus!
