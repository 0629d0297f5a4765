//! The record of agent sessions: each session's turns of input and output,
//! and a store of session records.

use vstd::prelude::*;
use crate::clock::current_timestamp;
use crate::text::text_eq;

verus! {

/// One exchange in a session: the input sent and the output received.
#[derive(Debug)]
pub struct Turn {
    pub session_id: String,
    pub turn_id: u32,
    pub input: String,
    pub output: String,
    pub timestamp: i64,
}

impl Clone for Turn {
    fn clone(&self) -> (t: Self)
        ensures
            t == *self,
    {
        Turn {
            session_id: self.session_id.clone(),
            turn_id: self.turn_id,
            input: self.input.clone(),
            output: self.output.clone(),
            timestamp: self.timestamp,
        }
    }
}

impl Turn {
    /// A turn recorded at `timestamp`.
    pub fn with_timestamp(
        session_id: &str,
        turn_id: u32,
        input: &str,
        output: &str,
        timestamp: i64,
    ) -> (t: Turn)
        ensures
            t.session_id@ == session_id@,
            t.turn_id == turn_id,
            t.input@ == input@,
            t.output@ == output@,
            t.timestamp == timestamp,
    {
        Turn {
            session_id: session_id.to_owned(),
            turn_id,
            input: input.to_owned(),
            output: output.to_owned(),
            timestamp,
        }
    }

    /// A turn recorded now: its timestamp is the clock reading taken during the call.
    pub fn new(session_id: &str, turn_id: u32, input: &str, output: &str) -> (t: Turn)
        ensures
            call_ensures(current_timestamp, (), t.timestamp),
            t.session_id@ == session_id@,
            t.turn_id == turn_id,
            t.input@ == input@,
            t.output@ == output@,
    {
        Turn::with_timestamp(session_id, turn_id, input, output, current_timestamp())
    }
}

/// The turns of a session are numbered 1, 2, ... in order and carry the
/// session's id.
pub open spec fn turns_in_order(session_id: Seq<char>, turns: Seq<Turn>) -> bool {
    forall|i: int|
        0 <= i < turns.len() ==> #[trigger] turns[i].turn_id == i + 1 && turns[i].session_id@
            == session_id
}

/// The record of one session.
#[derive(Debug)]
pub struct SessionHistory {
    pub session_id: String,
    pub agent_id: String,
    pub cwd: String,
    pub created_at: i64,
    pub ended_at: Option<i64>,
    pub turns: Vec<Turn>,
}

/// `a` and `b` hold the same record.
pub open spec fn same_record(a: SessionHistory, b: SessionHistory) -> bool {
    &&& a.session_id == b.session_id
    &&& a.agent_id == b.agent_id
    &&& a.cwd == b.cwd
    &&& a.created_at == b.created_at
    &&& a.ended_at == b.ended_at
    &&& a.turns@ == b.turns@
}

impl Clone for SessionHistory {
    fn clone(&self) -> (h: Self)
        ensures
            same_record(h, *self),
    {
        let turns = self.turns.clone();
        proof {
            assert(turns@ =~= self.turns@);
        }
        SessionHistory {
            session_id: self.session_id.clone(),
            agent_id: self.agent_id.clone(),
            cwd: self.cwd.clone(),
            created_at: self.created_at,
            ended_at: self.ended_at,
            turns,
        }
    }
}

impl Default for SessionHistory {
    fn default() -> (h: Self)
        ensures
            h.session_id@ == Seq::<char>::empty(),
            h.agent_id@ == Seq::<char>::empty(),
            h.cwd@ == Seq::<char>::empty(),
            h.created_at == 0,
            h.ended_at is None,
            h.turns@ == Seq::<Turn>::empty(),
    {
        SessionHistory {
            session_id: String::new(),
            agent_id: String::new(),
            cwd: String::new(),
            created_at: 0,
            ended_at: None,
            turns: Vec::new(),
        }
    }
}

impl SessionHistory {
    /// A session record started at `created_at`, with no turns and not ended.
    pub fn with_start(session_id: &str, agent_id: &str, cwd: &str, created_at: i64) -> (h: Self)
        ensures
            h.session_id@ == session_id@,
            h.agent_id@ == agent_id@,
            h.cwd@ == cwd@,
            h.created_at == created_at,
            h.ended_at is None,
            h.turns@ == Seq::<Turn>::empty(),
            turns_in_order(h.session_id@, h.turns@),
    {
        SessionHistory {
            session_id: session_id.to_owned(),
            agent_id: agent_id.to_owned(),
            cwd: cwd.to_owned(),
            created_at,
            ended_at: None,
            turns: Vec::new(),
        }
    }

    /// A session record started now (its start is the clock reading taken
    /// during the call), with no turns and not ended.
    pub fn new(session_id: &str, agent_id: &str, cwd: &str) -> (h: Self)
        ensures
            call_ensures(current_timestamp, (), h.created_at),
            h.session_id@ == session_id@,
            h.agent_id@ == agent_id@,
            h.cwd@ == cwd@,
            h.ended_at is None,
            h.turns@ == Seq::<Turn>::empty(),
            turns_in_order(h.session_id@, h.turns@),
    {
        SessionHistory::with_start(session_id, agent_id, cwd, current_timestamp())
    }

    /// Appends a turn recorded at `timestamp`, numbered one past the turns
    /// before it.
    pub fn add_turn_at(&mut self, input: &str, output: &str, timestamp: i64)
        requires
            old(self).turns.len() < u32::MAX,
        ensures
            final(self).session_id == old(self).session_id,
            final(self).agent_id == old(self).agent_id,
            final(self).cwd == old(self).cwd,
            final(self).created_at == old(self).created_at,
            final(self).ended_at == old(self).ended_at,
            final(self).turns.len() == old(self).turns.len() + 1,
            final(self).turns@.drop_last() == old(self).turns@,
            final(self).turns@.last().session_id@ == old(self).session_id@,
            final(self).turns@.last().turn_id == old(self).turns.len() + 1,
            final(self).turns@.last().input@ == input@,
            final(self).turns@.last().output@ == output@,
            final(self).turns@.last().timestamp == timestamp,
            turns_in_order(old(self).session_id@, old(self).turns@) ==> turns_in_order(
                final(self).session_id@,
                final(self).turns@,
            ),
    {
        let turn_id = self.turns.len() as u32 + 1;
        let turn = Turn::with_timestamp(self.session_id.as_str(), turn_id, input, output, timestamp);
        self.turns.push(turn);
        proof {
            assert(self.turns@.drop_last() =~= old(self).turns@);
        }
    }

    /// Appends a turn recorded now (its timestamp is the clock reading taken
    /// during the call), numbered one past the turns before it.
    pub fn add_turn(&mut self, input: &str, output: &str)
        requires
            old(self).turns.len() < u32::MAX,
        ensures
            call_ensures(current_timestamp, (), final(self).turns@.last().timestamp),
            final(self).session_id == old(self).session_id,
            final(self).agent_id == old(self).agent_id,
            final(self).cwd == old(self).cwd,
            final(self).created_at == old(self).created_at,
            final(self).ended_at == old(self).ended_at,
            final(self).turns.len() == old(self).turns.len() + 1,
            final(self).turns@.drop_last() == old(self).turns@,
            final(self).turns@.last().session_id@ == old(self).session_id@,
            final(self).turns@.last().turn_id == old(self).turns.len() + 1,
            final(self).turns@.last().input@ == input@,
            final(self).turns@.last().output@ == output@,
            turns_in_order(old(self).session_id@, old(self).turns@) ==> turns_in_order(
                final(self).session_id@,
                final(self).turns@,
            ),
    {
        self.add_turn_at(input, output, current_timestamp());
    }

    /// Marks the session ended at `timestamp`.
    pub fn end_at(&mut self, timestamp: i64)
        ensures
            *final(self) == (SessionHistory { ended_at: Some(timestamp), ..*old(self) }),
            turns_in_order(old(self).session_id@, old(self).turns@) ==> turns_in_order(
                final(self).session_id@,
                final(self).turns@,
            ),
    {
        self.ended_at = Some(timestamp);
    }

    /// Marks the session ended now: the end is the clock reading taken during the call.
    pub fn end(&mut self)
        ensures
            final(self).ended_at matches Some(t) && call_ensures(current_timestamp, (), t),
            final(self).session_id == old(self).session_id,
            final(self).agent_id == old(self).agent_id,
            final(self).cwd == old(self).cwd,
            final(self).created_at == old(self).created_at,
            final(self).turns == old(self).turns,
            turns_in_order(old(self).session_id@, old(self).turns@) ==> turns_in_order(
                final(self).session_id@,
                final(self).turns@,
            ),
    {
        self.end_at(current_timestamp());
    }
}

/// The latest `limit` turns of `turns`, in order (all of them when there
/// are no more than `limit`).
pub open spec fn latest_turns(turns: Seq<Turn>, limit: u64) -> Seq<Turn> {
    if turns.len() <= limit {
        turns
    } else {
        turns.skip(turns.len() - limit)
    }
}

impl SessionHistory {
    /// A copy of this record that keeps only its latest `limit` turns.
    pub fn with_latest_turns(&self, limit: u64) -> (h: SessionHistory)
        ensures
            h.session_id == self.session_id,
            h.agent_id == self.agent_id,
            h.cwd == self.cwd,
            h.created_at == self.created_at,
            h.ended_at == self.ended_at,
            h.turns@ == latest_turns(self.turns@, limit),
            h.turns@.len() <= limit,
    {
        let n = self.turns.len();
        let start: usize = if (n as u64) <= limit {
            0
        } else {
            n - (limit as usize)
        };
        let mut turns: Vec<Turn> = Vec::new();
        let mut i = start;
        while i < n
            invariant
                n == self.turns.len(),
                start <= i <= n,
                turns@ =~= self.turns@.subrange(start as int, i as int),
            decreases n - i,
        {
            turns.push(self.turns[i].clone());
            i = i + 1;
        }
        proof {
            assert(turns@ =~= latest_turns(self.turns@, limit));
        }
        SessionHistory {
            session_id: self.session_id.clone(),
            agent_id: self.agent_id.clone(),
            cwd: self.cwd.clone(),
            created_at: self.created_at,
            ended_at: self.ended_at,
            turns,
        }
    }
}

/// The first record at or after `i` whose session id is `id`.
pub open spec fn first_session_from(s: Seq<SessionHistory>, id: Seq<char>, i: int) -> Option<int>
    decreases s.len() - i,
{
    if i < 0 || i >= s.len() {
        None
    } else if s[i].session_id@ == id {
        Some(i)
    } else {
        first_session_from(s, id, i + 1)
    }
}

/// The first record whose session id is `id`.
pub open spec fn first_session(s: Seq<SessionHistory>, id: Seq<char>) -> Option<int> {
    first_session_from(s, id, 0)
}

/// What `first_session_from` finds has the id, and no record before it does.
pub proof fn lemma_first_session_from(s: Seq<SessionHistory>, id: Seq<char>, i: int)
    requires
        0 <= i,
    ensures
        match first_session_from(s, id, i) {
            Some(j) => i <= j < s.len() && s[j].session_id@ == id && forall|k: int|
                i <= k < j ==> (#[trigger] s[k]).session_id@ != id,
            None => forall|k: int| i <= k < s.len() ==> (#[trigger] s[k]).session_id@ != id,
        },
    decreases s.len() - i,
{
    if i < s.len() && s[i].session_id@ != id {
        lemma_first_session_from(s, id, i + 1);
    }
}

/// The newest `limit` records, newest first.
pub open spec fn newest_first(s: Seq<SessionHistory>, limit: nat) -> Seq<SessionHistory> {
    let n = if limit < s.len() {
        limit as int
    } else {
        s.len() as int
    };
    Seq::new(n as nat, |j: int| s[s.len() - 1 - j])
}

/// All session records, in the order they were added.
#[derive(Debug)]
pub struct HistoryStore {
    pub sessions: Vec<SessionHistory>,
}

impl Default for HistoryStore {
    fn default() -> (s: Self)
        ensures
            s.sessions@ == Seq::<SessionHistory>::empty(),
    {
        HistoryStore { sessions: Vec::new() }
    }
}

impl Clone for HistoryStore {
    fn clone(&self) -> (s: Self)
        ensures
            s.sessions@.len() == self.sessions@.len(),
            forall|i: int|
                0 <= i < s.sessions@.len() ==> same_record(#[trigger] s.sessions@[i], self.sessions@[i]),
    {
        HistoryStore { sessions: self.sessions.clone() }
    }
}

impl HistoryStore {
    /// An empty store.
    pub fn new() -> (s: Self)
        ensures
            s.sessions@ == Seq::<SessionHistory>::empty(),
    {
        HistoryStore { sessions: Vec::new() }
    }

    /// Adds a record after the others (even when one with the same id is there).
    pub fn add_session(&mut self, session: SessionHistory)
        ensures
            final(self).sessions@ == old(self).sessions@.push(session),
    {
        self.sessions.push(session);
    }

    /// The position of the first record with session id `session_id`.
    fn position(&self, session_id: &str) -> (found: Option<usize>)
        ensures
            match found {
                Some(i) => i < self.sessions.len() && first_session(self.sessions@, session_id@)
                    == Some(i as int),
                None => first_session(self.sessions@, session_id@) is None,
            },
    {
        let mut i: usize = 0;
        while i < self.sessions.len()
            invariant
                i <= self.sessions.len(),
                first_session(self.sessions@, session_id@) == first_session_from(
                    self.sessions@,
                    session_id@,
                    i as int,
                ),
            decreases self.sessions.len() - i,
        {
            if text_eq(self.sessions[i].session_id.as_str(), session_id) {
                return Some(i);
            }
            i = i + 1;
        }
        None
    }

    /// The first record with session id `session_id`.
    pub fn get_session(&self, session_id: &str) -> (found: Option<&SessionHistory>)
        ensures
            match first_session(self.sessions@, session_id@) {
                Some(i) => found == Some(&self.sessions@[i]),
                None => found is None,
            },
    {
        match self.position(session_id) {
            Some(i) => Some(&self.sessions[i]),
            None => None,
        }
    }

    /// The first record with session id `session_id`, to change in place.
    pub fn get_session_mut(&mut self, session_id: &str) -> (found: Option<&mut SessionHistory>)
        ensures
            match first_session(old(self).sessions@, session_id@) {
                Some(i) => found matches Some(h) && *h == old(self).sessions@[i]
                    && final(self).sessions@ == old(self).sessions@.update(i, *final(h)),
                None => found is None && final(self).sessions@ == old(self).sessions@,
            },
    {
        match self.position(session_id) {
            Some(i) => Some(&mut self.sessions[i]),
            None => None,
        }
    }

    /// Up to `limit` records, newest first.
    pub fn list_sessions(&self, limit: usize) -> (list: Vec<&SessionHistory>)
        ensures
            list@.len() == newest_first(self.sessions@, limit as nat).len(),
            forall|j: int|
                0 <= j < list@.len() ==> *list@[j] == newest_first(self.sessions@, limit as nat)[j],
    {
        let n = self.sessions.len();
        let mut list: Vec<&SessionHistory> = Vec::new();
        let mut j: usize = 0;
        while j < n && j < limit
            invariant
                n == self.sessions.len(),
                j <= n,
                j <= limit,
                list@.len() == j,
                forall|k: int| 0 <= k < j ==> *list@[k] == self.sessions@[n - 1 - k],
            decreases n - j,
        {
            list.push(&self.sessions[n - 1 - j]);
            j = j + 1;
        }
        proof {
            assert(j as int == newest_first(self.sessions@, limit as nat).len());
        }
        list
    }
}

/// Looking a session up right after adding a record for it finds the earlier
/// record with that id if there is one, and otherwise the added record.
pub proof fn law_lookup_after_add(s: Seq<SessionHistory>, h: SessionHistory)
    ensures
        first_session(s.push(h), h.session_id@) == match first_session(s, h.session_id@) {
            Some(i) => Some(i),
            None => Some(s.len() as int),
        },
{
    let id = h.session_id@;
    lemma_first_session_from(s, id, 0);
    lemma_first_session_from(s.push(h), id, 0);
    match first_session(s, id) {
        Some(i) => {
            assert(s.push(h)[i] == s[i]);
        },
        None => {
            assert(s.push(h)[s.len() as int] == h);
            if let Some(j) = first_session(s.push(h), id) {
                if j < s.len() {
                    assert(s.push(h)[j] == s[j]);
                }
            }
        },
    }
}

/// Looking a session up after adding a record for another id finds what it found before.
pub proof fn law_lookup_unaffected_by_other(s: Seq<SessionHistory>, h: SessionHistory, id: Seq<char>)
    requires
        h.session_id@ != id,
    ensures
        first_session(s.push(h), id) == first_session(s, id),
{
    lemma_first_session_from(s, id, 0);
    lemma_first_session_from(s.push(h), id, 0);
    match first_session(s, id) {
        Some(i) => {
            assert(s.push(h)[i] == s[i]);
        },
        None => {
            if let Some(j) = first_session(s.push(h), id) {
                if j < s.len() {
                    assert(s.push(h)[j] == s[j]);
                } else {
                    assert(s.push(h)[j] == h);
                }
            }
        },
    }
}

/// Listing with a limit gives at most `limit` records and no more than the
/// store holds, each record at most once, latest first: the `j`-th listed is
/// the `j`-th from the end.
pub proof fn law_listing_newest_first(s: Seq<SessionHistory>, limit: nat)
    ensures
        newest_first(s, limit).len() <= limit,
        newest_first(s, limit).len() <= s.len(),
        newest_first(s, limit).len() == limit || newest_first(s, limit).len() == s.len(),
        forall|j: int|
            0 <= j < newest_first(s, limit).len() ==> #[trigger] newest_first(s, limit)[j] == s[s.len()
                - 1 - j],
        s.len() > 0 && limit > 0 ==> newest_first(s, limit)[0] == s.last(),
{
}

/// Keeping the latest turns gives at most `limit` turns, all of them when
/// there are no more, and they are the end of the record in order.
pub proof fn law_latest_turns(turns: Seq<Turn>, limit: u64)
    ensures
        latest_turns(turns, limit).len() <= limit,
        latest_turns(turns, limit).len() <= turns.len(),
        turns.len() <= limit ==> latest_turns(turns, limit) == turns,
        turns.len() > limit ==> latest_turns(turns, limit).len() == limit,
        latest_turns(turns, limit) == turns.subrange(
            turns.len() - latest_turns(turns, limit).len(),
            turns.len() as int,
        ),
{
    assert(turns.subrange(0, turns.len() as int) =~= turns);
    if turns.len() > limit {
        assert(turns.skip(turns.len() - limit) =~= turns.subrange(turns.len() - limit, turns.len() as int));
    }
}

} // verus!
