//! A running agent session: which agent, where, and when.

use vstd::prelude::*;
use crate::clock::current_timestamp;

verus! {

/// A session of an agent, started in a working directory.
#[derive(Debug)]
pub struct Session {
    pub id: String,
    pub agent_id: String,
    pub cwd: String,
    pub pid: u32,
    pub created_at: i64,
    pub last_active: i64,
}

impl Clone for Session {
    fn clone(&self) -> (s: Self)
        ensures
            s == *self,
    {
        Session {
            id: self.id.clone(),
            agent_id: self.agent_id.clone(),
            cwd: self.cwd.clone(),
            pid: self.pid,
            created_at: self.created_at,
            last_active: self.last_active,
        }
    }
}

impl Session {
    /// A session created, and last active, at `now`.
    pub fn with_time(id: &str, agent_id: &str, cwd: &str, pid: u32, now: i64) -> (s: Session)
        ensures
            s.id@ == id@,
            s.agent_id@ == agent_id@,
            s.cwd@ == cwd@,
            s.pid == pid,
            s.created_at == now,
            s.last_active == now,
    {
        Session {
            id: id.to_owned(),
            agent_id: agent_id.to_owned(),
            cwd: cwd.to_owned(),
            pid,
            created_at: now,
            last_active: now,
        }
    }

    /// A session created, and last active, now: both are the clock reading
    /// taken during the call.
    pub fn new(id: &str, agent_id: &str, cwd: &str, pid: u32) -> (s: Session)
        ensures
            call_ensures(current_timestamp, (), s.created_at),
            s.id@ == id@,
            s.agent_id@ == agent_id@,
            s.cwd@ == cwd@,
            s.pid == pid,
            s.created_at == s.last_active,
    {
        Session::with_time(id, agent_id, cwd, pid, current_timestamp())
    }
}

} // verus!
