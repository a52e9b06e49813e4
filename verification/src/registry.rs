//! The session registry: the process-wide map from guild identifier to that
//! guild's session. Sessions are created lazily, exactly one per guild, and
//! never dropped while the process lives.

use vstd::prelude::*;
use crate::session::{fresh_view, GuildSession};

verus! {

/// All sessions, keyed by their `guild_id`; each guild holds at most one.
pub struct SessionRegistry {
    pub sessions: Vec<GuildSession>,
}

impl SessionRegistry {
    /// Every session is well formed and no two share a guild.
    pub open spec fn wf(self) -> bool {
        &&& forall|i: int|
            0 <= i < self.sessions@.len() ==> (#[trigger] self.sessions@[i]).wf()
        &&& forall|i: int, j: int|
            0 <= i < j < self.sessions@.len() ==> self.sessions@[i].guild_id
                != self.sessions@[j].guild_id
    }

    /// Whether a session for this guild exists.
    pub open spec fn spec_contains(self, guild_id: u64) -> bool {
        exists|i: int|
            0 <= i < self.sessions@.len() && (#[trigger] self.sessions@[i]).guild_id == guild_id
    }

    pub fn new() -> (r: Self)
        ensures
            r.wf(),
            r.sessions@.len() == 0,
    {
        SessionRegistry { sessions: Vec::new() }
    }

    /// Looks the guild's session up without creating one.
    pub fn find(&self, guild_id: u64) -> (r: Option<usize>)
        ensures
            match r {
                Some(i) => i < self.sessions@.len() && self.sessions@[i as int].guild_id
                    == guild_id,
                None => !self.spec_contains(guild_id),
            },
    {
        let mut i: usize = 0;
        while i < self.sessions.len()
            invariant
                0 <= i <= self.sessions@.len(),
                forall|j: int|
                    0 <= j < i ==> (#[trigger] self.sessions@[j]).guild_id != guild_id,
            decreases self.sessions@.len() - i,
        {
            if self.sessions[i].guild_id == guild_id {
                return Some(i);
            }
            i = i + 1;
        }
        None
    }

    /// Hands out the index of the guild's session, creating a fresh
    /// disconnected one on first touch; existing sessions, and every other
    /// guild's session, are left exactly as they were.
    pub fn get_or_create(&mut self, guild_id: u64) -> (i: usize)
        requires
            old(self).wf(),
        ensures
            final(self).wf(),
            i < final(self).sessions@.len(),
            final(self).sessions@[i as int].guild_id == guild_id,
            old(self).spec_contains(guild_id) ==> final(self).sessions@ == old(
                self,
            ).sessions@ && old(self).sessions@[i as int].guild_id == guild_id,
            !old(self).spec_contains(guild_id) ==> {
                &&& i == old(self).sessions@.len()
                &&& final(self).sessions@.len() == old(self).sessions@.len() + 1
                &&& final(self).sessions@.subrange(0, i as int) == old(self).sessions@
                &&& final(self).sessions@[i as int]@ == fresh_view(guild_id)
            },
    {
        match self.find(guild_id) {
            Some(i) => i,
            None => {
                let i = self.sessions.len();
                self.sessions.push(GuildSession::new(guild_id));
                proof {
                    assert(final(self).sessions@.subrange(0, i as int) =~= old(self).sessions@);
                    assert forall|a: int, b: int|
                        0 <= a < b < self.sessions@.len() implies self.sessions@[a].guild_id
                        != self.sessions@[b].guild_id by {
                        if b < i {
                            assert(self.sessions@[a] == old(self).sessions@[a]);
                            assert(self.sessions@[b] == old(self).sessions@[b]);
                        } else {
                            assert(self.sessions@[a] == old(self).sessions@[a]);
                            assert(!old(self).spec_contains(guild_id));
                        }
                    }
                }
                i
            },
        }
    }

    /// Borrows one session for a command; the write-back shows every other
    /// session untouched, which keeps the guilds isolated from one another.
    pub fn session_mut(&mut self, i: usize) -> (s: &mut GuildSession)
        requires
            i < old(self).sessions@.len(),
        ensures
            *s == old(self).sessions@[i as int],
            final(self).sessions@ == old(self).sessions@.update(i as int, *final(s)),
            *final(s) == final(self).sessions@[i as int],
    {
        &mut self.sessions[i]
    }
}

} // verus!
