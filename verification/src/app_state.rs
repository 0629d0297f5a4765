//! The node's shared state: registered agents, open sessions and session
//! records, with the operations the node's requests perform on them.

use vstd::prelude::*;
use crate::history::{
    first_session, latest_turns, newest_first, same_record, HistoryStore, SessionHistory,
};
use crate::map::TextMap;
use crate::session::Session;
use crate::state::Agent;

verus! {

/// `new` is `old` with `key` set to a string holding `value`.
pub open spec fn text_map_set(
    new: Map<Seq<char>, String>,
    old: Map<Seq<char>, String>,
    key: Seq<char>,
    value: Seq<char>,
) -> bool {
    &&& new.dom() == old.dom().insert(key)
    &&& new[key]@ == value
    &&& forall|k: Seq<char>| k != key && #[trigger] old.contains_key(k) ==> new[k] == old[k]
}

/// `new` is `old` with the agent `id` changed by `changed`, and no other agent changed.
pub open spec fn agents_changed_at(
    new: Map<Seq<char>, Agent>,
    old: Map<Seq<char>, Agent>,
    id: Seq<char>,
) -> bool {
    &&& new.dom() == old.dom()
    &&& forall|k: Seq<char>| k != id && #[trigger] old.contains_key(k) ==> new[k] == old[k]
    &&& new[id].id == old[id].id
    &&& new[id].name == old[id].name
    &&& new[id].status == old[id].status
}

/// The working directory a session starts in: the one given, or `/`.
pub open spec fn session_dir(cwd: Option<Seq<char>>) -> Seq<char> {
    match cwd {
        Some(d) => d,
        None => "/"@,
    }
}

/// The node's agents, open sessions and session records.
pub struct AppState {
    pub agents: TextMap<Agent>,
    pub history: HistoryStore,
    pub sessions: TextMap<Session>,
}

impl Default for AppState {
    fn default() -> (s: Self)
        ensures
            s.agents@ == Map::<Seq<char>, Agent>::empty(),
            s.sessions@ == Map::<Seq<char>, Session>::empty(),
            s.history.sessions@ == Seq::<SessionHistory>::empty(),
    {
        AppState::new()
    }
}

impl AppState {
    /// No agents, no sessions, no records.
    pub fn new() -> (s: Self)
        ensures
            s.agents@ == Map::<Seq<char>, Agent>::empty(),
            s.sessions@ == Map::<Seq<char>, Session>::empty(),
            s.history.sessions@ == Seq::<SessionHistory>::empty(),
    {
        AppState { agents: TextMap::new(), history: HistoryStore::new(), sessions: TextMap::new() }
    }

    /// Registers `agent` under its id, replacing an agent with that id.
    pub fn add_agent(&mut self, agent: Agent)
        ensures
            final(self).agents@ == old(self).agents@.insert(agent.id@, agent),
            final(self).sessions == old(self).sessions,
            final(self).history == old(self).history,
    {
        let key = agent.id.clone();
        self.agents.insert(key, agent);
    }

    /// The agent registered under `id`.
    pub fn get_agent(&self, id: &str) -> (found: Option<&Agent>)
        ensures
            match found {
                Some(a) => self.agents@.contains_key(id@) && *a == self.agents@[id@],
                None => !self.agents@.contains_key(id@),
            },
    {
        self.agents.get(id)
    }

    /// Every registered agent, once each.
    pub fn list_agents(&self) -> (list: Vec<&Agent>)
        ensures
            list@.len() == self.agents@.len(),
            forall|i: int|
                0 <= i < list@.len() ==> *list@[i] == self.agents@[self.agents.key_order()[i]],
            self.agents.key_order().no_duplicates(),
            forall|k: Seq<char>| #[trigger]
                self.agents@.contains_key(k) <==> self.agents.key_order().contains(k),
    {
        self.agents.values()
    }

    /// Sets `key` to `value` in the environment of agent `id`; `None` when
    /// no agent has that id.
    pub fn update_agent_env(&mut self, id: &str, key: &str, value: &str) -> (done: Option<()>)
        ensures
            done is Some <==> old(self).agents@.contains_key(id@),
            done is None ==> final(self).agents@ == old(self).agents@,
            done is Some ==> {
                &&& agents_changed_at(final(self).agents@, old(self).agents@, id@)
                &&& final(self).agents@[id@].version == old(self).agents@[id@].version
                &&& text_map_set(
                    final(self).agents@[id@].env@,
                    old(self).agents@[id@].env@,
                    key@,
                    value@,
                )
            },
            final(self).sessions == old(self).sessions,
            final(self).history == old(self).history,
    {
        match self.agents.remove(id) {
            None => {
                proof {
                    assert(self.agents@ =~= old(self).agents@);
                }
                None
            },
            Some(mut agent) => {
                agent.env.insert(key.to_owned(), value.to_owned());
                self.agents.insert(id.to_owned(), agent);
                proof {
                    assert(self.agents@.dom() =~= old(self).agents@.dom());
                    assert(self.agents@[id@].env@.dom() =~= old(self).agents@[id@].env@.dom().insert(key@));
                }
                Some(())
            },
        }
    }

    /// Sets the version of agent `id`; `None` when no agent has that id.
    pub fn upgrade_agent(&mut self, id: &str, version: &str) -> (done: Option<()>)
        ensures
            done is Some <==> old(self).agents@.contains_key(id@),
            done is None ==> final(self).agents@ == old(self).agents@,
            done is Some ==> {
                &&& agents_changed_at(final(self).agents@, old(self).agents@, id@)
                &&& final(self).agents@[id@].version@ == version@
                &&& final(self).agents@[id@].env@ == old(self).agents@[id@].env@
            },
            final(self).sessions == old(self).sessions,
            final(self).history == old(self).history,
    {
        match self.agents.remove(id) {
            None => {
                proof {
                    assert(self.agents@ =~= old(self).agents@);
                }
                None
            },
            Some(mut agent) => {
                agent.version = version.to_owned();
                self.agents.insert(id.to_owned(), agent);
                proof {
                    assert(self.agents@.dom() =~= old(self).agents@.dom());
                }
                Some(())
            },
        }
    }

    /// Registers `session` under its id, replacing a session with that id.
    pub fn add_session(&mut self, session: Session)
        ensures
            final(self).sessions@ == old(self).sessions@.insert(session.id@, session),
            final(self).agents == old(self).agents,
            final(self).history == old(self).history,
    {
        let key = session.id.clone();
        self.sessions.insert(key, session);
    }

    /// The session registered under `id`.
    pub fn get_session(&self, id: &str) -> (found: Option<&Session>)
        ensures
            match found {
                Some(s) => self.sessions@.contains_key(id@) && *s == self.sessions@[id@],
                None => !self.sessions@.contains_key(id@),
            },
    {
        self.sessions.get(id)
    }

    /// Every registered session, once each.
    pub fn list_sessions(&self) -> (list: Vec<&Session>)
        ensures
            list@.len() == self.sessions@.len(),
            forall|i: int|
                0 <= i < list@.len() ==> *list@[i] == self.sessions@[self.sessions.key_order()[i]],
            self.sessions.key_order().no_duplicates(),
            forall|k: Seq<char>| #[trigger]
                self.sessions@.contains_key(k) <==> self.sessions.key_order().contains(k),
    {
        self.sessions.values()
    }

    /// Unregisters the session `id`, and gives it back.
    pub fn remove_session(&mut self, id: &str) -> (removed: Option<Session>)
        ensures
            final(self).sessions@ == old(self).sessions@.remove(id@),
            match removed {
                Some(s) => old(self).sessions@.contains_key(id@) && s == old(self).sessions@[id@],
                None => !old(self).sessions@.contains_key(id@),
            },
            final(self).agents == old(self).agents,
            final(self).history == old(self).history,
    {
        self.sessions.remove(id)
    }

    /// Adds a session record after the others.
    pub fn add_session_history(&mut self, history: SessionHistory)
        ensures
            final(self).history.sessions@ == old(self).history.sessions@.push(history),
            final(self).agents == old(self).agents,
            final(self).sessions == old(self).sessions,
    {
        self.history.add_session(history);
    }

    /// The first record of session `session_id`.
    pub fn get_session_history(&self, session_id: &str) -> (found: Option<&SessionHistory>)
        ensures
            match first_session(self.history.sessions@, session_id@) {
                Some(i) => found == Some(&self.history.sessions@[i]),
                None => found is None,
            },
    {
        self.history.get_session(session_id)
    }

    /// A copy of the first record of session `session_id`, keeping only its
    /// latest `limit` turns when a limit is given.
    pub fn get_session_history_limited(&self, session_id: &str, limit: Option<u64>) -> (found:
        Option<SessionHistory>)
        ensures
            match first_session(self.history.sessions@, session_id@) {
                Some(i) => found matches Some(h) && {
                    let first = self.history.sessions@[i];
                    &&& h.session_id == first.session_id
                    &&& h.agent_id == first.agent_id
                    &&& h.cwd == first.cwd
                    &&& h.created_at == first.created_at
                    &&& h.ended_at == first.ended_at
                    &&& h.turns@ == match limit {
                        Some(k) => latest_turns(first.turns@, k),
                        None => first.turns@,
                    }
                },
                None => found is None,
            },
    {
        match self.history.get_session(session_id) {
            Some(h) => match limit {
                Some(k) => Some(h.with_latest_turns(k)),
                None => Some(h.clone()),
            },
            None => None,
        }
    }

    /// Up to `limit` session records, newest first.
    pub fn list_histories(&self, limit: usize) -> (list: Vec<&SessionHistory>)
        ensures
            list@.len() == newest_first(self.history.sessions@, limit as nat).len(),
            forall|j: int|
                0 <= j < list@.len() ==> *list@[j] == newest_first(
                    self.history.sessions@,
                    limit as nat,
                )[j],
    {
        self.history.list_sessions(limit)
    }

    /// Records a session that has just been started: registers it (with pid
    /// 0, in `cwd` or `/`) and adds an empty record for it.
    pub fn register_started_session(&mut self, session_id: &str, agent_id: &str, cwd: Option<&str>)
        ensures
            final(self).sessions@.dom() == old(self).sessions@.dom().insert(session_id@),
            forall|k: Seq<char>|
                k != session_id@ && #[trigger] old(self).sessions@.contains_key(k)
                    ==> final(self).sessions@[k] == old(self).sessions@[k],
            final(self).sessions@[session_id@].id@ == session_id@,
            final(self).sessions@[session_id@].agent_id@ == agent_id@,
            final(self).sessions@[session_id@].cwd@ == session_dir(
                match cwd {
                    Some(d) => Some(d@),
                    None => None,
                },
            ),
            final(self).sessions@[session_id@].pid == 0,
            final(self).sessions@[session_id@].last_active
                == final(self).sessions@[session_id@].created_at,
            call_ensures(
                crate::clock::current_timestamp,
                (),
                final(self).sessions@[session_id@].created_at,
            ),
            call_ensures(
                crate::clock::current_timestamp,
                (),
                final(self).history.sessions@.last().created_at,
            ),
            final(self).history.sessions@.len() == old(self).history.sessions@.len() + 1,
            final(self).history.sessions@.drop_last() == old(self).history.sessions@,
            final(self).history.sessions@.last().session_id@ == session_id@,
            final(self).history.sessions@.last().agent_id@ == agent_id@,
            final(self).history.sessions@.last().cwd@ == final(self).sessions@[session_id@].cwd@,
            final(self).history.sessions@.last().ended_at is None,
            final(self).history.sessions@.last().turns@ == Seq::<crate::history::Turn>::empty(),
            final(self).agents == old(self).agents,
    {
        let dir: &str = match cwd {
            Some(d) => d,
            None => "/",
        };
        let session = Session::new(session_id, agent_id, dir, 0);
        self.add_session(session);
        let record = SessionHistory::new(session_id, agent_id, dir);
        self.add_session_history(record);
        proof {
            assert(self.sessions@.dom() =~= old(self).sessions@.dom().insert(session_id@));
            assert(self.history.sessions@.drop_last() =~= old(self).history.sessions@);
        }
    }

    /// Records a turn of session `session_id`: a copy of its first record,
    /// with the turn added, is added after the other records. Nothing
    /// changes when the session has no record.
    pub fn record_turn(&mut self, session_id: &str, input: &str, output: &str)
        requires
            match first_session(old(self).history.sessions@, session_id@) {
                Some(i) => old(self).history.sessions@[i].turns.len() < u32::MAX,
                None => true,
            },
        ensures
            final(self).agents == old(self).agents,
            final(self).sessions == old(self).sessions,
            match first_session(old(self).history.sessions@, session_id@) {
                Some(i) => {
                    let first = old(self).history.sessions@[i];
                    let added = final(self).history.sessions@.last();
                    &&& final(self).history.sessions@.drop_last() == old(self).history.sessions@
                    &&& final(self).history.sessions@.len() == old(self).history.sessions@.len() + 1
                    &&& added.session_id == first.session_id
                    &&& added.agent_id == first.agent_id
                    &&& added.cwd == first.cwd
                    &&& added.created_at == first.created_at
                    &&& added.ended_at == first.ended_at
                    &&& added.turns@.drop_last() == first.turns@
                    &&& added.turns@.last().turn_id == first.turns.len() + 1
                    &&& added.turns@.last().session_id@ == first.session_id@
                    &&& call_ensures(
                        crate::clock::current_timestamp,
                        (),
                        added.turns@.last().timestamp,
                    )
                    &&& added.turns@.last().input@ == input@
                    &&& added.turns@.last().output@ == output@
                },
                None => final(self).history.sessions@ == old(self).history.sessions@,
            },
    {
        let copy = match self.history.get_session(session_id) {
            Some(h) => Some(h.clone()),
            None => None,
        };
        if let Some(mut record) = copy {
            record.add_turn(input, output);
            self.history.add_session(record);
            proof {
                assert(self.history.sessions@.drop_last() =~= old(self).history.sessions@);
            }
        }
    }

    /// The environment for a process of agent `agent_id`: `base`, with the
    /// agent's own variables set over it.
    pub fn spawn_env(&self, agent_id: &str, base: TextMap<String>) -> (env: TextMap<String>)
        ensures
            self.agents@.contains_key(agent_id@) ==> env@ == base@.union_prefer_right(
                self.agents@[agent_id@].env@,
            ),
            !self.agents@.contains_key(agent_id@) ==> env@ == base@,
    {
        let mut env = base;
        if let Some(agent) = self.agents.get(agent_id) {
            env.overlay(&agent.env);
        }
        env
    }
}

/// After an agent is registered, looking its id up gives that agent, and
/// every other id gives what it gave before.
pub proof fn law_agent_lookup_after_add(agents: Map<Seq<char>, Agent>, agent: Agent, other: Seq<char>)
    requires
        other != agent.id@,
    ensures
        agents.insert(agent.id@, agent).contains_key(agent.id@),
        agents.insert(agent.id@, agent)[agent.id@] == agent,
        agents.insert(agent.id@, agent).contains_key(other) == agents.contains_key(other),
        agents.contains_key(other) ==> agents.insert(agent.id@, agent)[other] == agents[other],
{
}

/// After a session is removed, looking it up finds nothing, and other
/// sessions are still found as before.
pub proof fn law_session_gone_after_remove(sessions: Map<Seq<char>, Session>, id: Seq<char>, other: Seq<char>)
    requires
        other != id,
    ensures
        !sessions.remove(id).contains_key(id),
        sessions.remove(id).contains_key(other) == sessions.contains_key(other),
        sessions.contains_key(other) ==> sessions.remove(id)[other] == sessions[other],
{
}

/// After a variable of an agent's environment is set, reading it gives the
/// value set, and the agent's other variables read as before.
pub proof fn law_env_read_after_update(
    new: Map<Seq<char>, String>,
    old: Map<Seq<char>, String>,
    key: Seq<char>,
    value: Seq<char>,
    other: Seq<char>,
)
    requires
        text_map_set(new, old, key, value),
        other != key,
    ensures
        new.contains_key(key),
        new[key]@ == value,
        new.contains_key(other) == old.contains_key(other),
        old.contains_key(other) ==> new[other] == old[other],
{
}

/// Removing a session that was just registered under a new id gives back
/// the sessions as they were before.
pub proof fn law_remove_undoes_add(sessions: Map<Seq<char>, Session>, session: Session)
    requires
        !sessions.contains_key(session.id@),
    ensures
        sessions.insert(session.id@, session).remove(session.id@) == sessions,
{
    assert(sessions.insert(session.id@, session).remove(session.id@) =~= sessions);
}

} // verus!
