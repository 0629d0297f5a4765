//! Collecting a process's reply line by line, with a cap on the bytes
//! taken in and an end-of-turn marker that stops the reading.

use vstd::prelude::*;
use crate::text::{contains_str, contains_text, occurs_at};

verus! {

/// The most line bytes a reply may hold before it is cut off (2 MiB).
pub const MAX_BUFFER_SIZE: usize = 2097152;

/// Appended to a reply that was cut off.
pub const TRUNCATION_NOTICE: &'static str = "\n[Output truncated: exceeded 2MB limit]";

/// A line holding this marker ends the turn.
pub const TURN_END_MARKER: &'static str = "TURN_END";

/// A line holding this marker (Chinese for "end of turn") ends the turn too.
pub const TURN_END_MARKER_ZH: &'static str = "\u{56de}\u{5408}\u{7ed3}\u{675f}";

/// Whether reading goes on after a line.
#[derive(PartialEq, Eq, Structural, Debug, Clone, Copy)]
pub enum LineStep {
    /// Read the next line.
    Continue,
    /// Stop reading: the turn ended or the reply was cut off.
    Stop,
}

/// `line` marks the end of a turn.
pub open spec fn ends_turn(line: Seq<char>) -> bool {
    contains_text(line, TURN_END_MARKER@) || contains_text(line, TURN_END_MARKER_ZH@)
}

/// The reply read so far, and how many line bytes it took in.
pub struct OutputCollector {
    output: String,
    total: usize,
}

impl OutputCollector {
    /// The byte count has not passed the cap.
    pub closed spec fn within_cap(self) -> bool {
        self.total <= MAX_BUFFER_SIZE
    }

    /// The reply text so far.
    pub closed spec fn text(self) -> Seq<char> {
        self.output@
    }

    /// The line bytes taken in so far.
    pub closed spec fn bytes_taken(self) -> nat {
        self.total as nat
    }

    /// An empty reply.
    pub fn new() -> (c: Self)
        ensures
            c.text() == Seq::<char>::empty(),
            c.bytes_taken() == 0,
            c.within_cap(),
    {
        OutputCollector { output: String::new(), total: 0 }
    }

    /// Takes in one line (without its line ending). If the bytes taken in
    /// would pass the cap, the truncation notice is appended instead and
    /// reading stops; otherwise the line and a `\n` are appended, and
    /// reading stops when the line marks the end of the turn.
    pub fn push_line(&mut self, line: &str) -> (step: LineStep)
        requires
            old(self).within_cap(),
        ensures
            final(self).within_cap(),
            final(self).bytes_taken() <= MAX_BUFFER_SIZE,
            old(self).bytes_taken() + line.len() > MAX_BUFFER_SIZE ==> {
                &&& final(self).text() == old(self).text() + TRUNCATION_NOTICE@
                &&& final(self).bytes_taken() == old(self).bytes_taken()
                &&& step == LineStep::Stop
            },
            old(self).bytes_taken() + line.len() <= MAX_BUFFER_SIZE ==> {
                &&& final(self).text() == old(self).text() + line@ + seq!['\n']
                &&& final(self).bytes_taken() == old(self).bytes_taken() + line.len()
                &&& step == (if ends_turn(line@) {
                    LineStep::Stop
                } else {
                    LineStep::Continue
                })
            },
    {
        let n = line.len();
        if n > MAX_BUFFER_SIZE - self.total {
            self.output.append(TRUNCATION_NOTICE);
            return LineStep::Stop;
        }
        self.total = self.total + n;
        self.output.append(line);
        self.output.append("\n");
        proof {
            reveal_strlit("\n");
        }
        if contains_str(line, TURN_END_MARKER) || contains_str(line, TURN_END_MARKER_ZH) {
            LineStep::Stop
        } else {
            LineStep::Continue
        }
    }

    /// The reply text so far.
    pub fn output(&self) -> (s: &str)
        ensures
            s@ == self.text(),
    {
        self.output.as_str()
    }

    /// The reply text.
    pub fn into_output(self) -> (s: String)
        ensures
            s@ == self.text(),
    {
        self.output
    }
}

/// A line that holds either end-of-turn marker anywhere ends the turn,
/// whatever comes before and after the marker.
pub proof fn law_marker_anywhere_ends_turn(before: Seq<char>, after: Seq<char>)
    ensures
        ends_turn(before + "TURN_END"@ + after),
        ends_turn(before + "\u{56de}\u{5408}\u{7ed3}\u{675f}"@ + after),
{
    let m1 = "TURN_END"@;
    let m2 = "\u{56de}\u{5408}\u{7ed3}\u{675f}"@;
    let l1 = before + m1 + after;
    let l2 = before + m2 + after;
    assert(l1.subrange(before.len() as int, (before.len() + m1.len()) as int) =~= m1);
    assert(occurs_at(l1, m1, before.len() as int));
    assert(l2.subrange(before.len() as int, (before.len() + m2.len()) as int) =~= m2);
    assert(occurs_at(l2, m2, before.len() as int));
}

/// A line that holds neither marker does not end the turn.
pub proof fn law_no_marker_no_end(line: Seq<char>)
    requires
        forall|i: int| !occurs_at(line, "TURN_END"@, i),
        forall|i: int| !occurs_at(line, "\u{56de}\u{5408}\u{7ed3}\u{675f}"@, i),
    ensures
        !ends_turn(line),
{
}

} // verus!
