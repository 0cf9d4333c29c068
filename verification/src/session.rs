//! Bounded-concurrency admission control for database sessions.
//!
//! The admission logic is pure: it decides, for each acquisition
//! attempt, whether an idle connection is reused, a new physical connection
//! may be opened, or the caller must wait.  The caller performs the actual
//! connection work and reports the outcome back.  Connections are identified
//! by numeric ids, so the caller can keep its own map
//! from id to live connection.

use vstd::prelude::*;

verus! {

/// What an acquisition attempt decided.
pub enum AcquireStep {
    /// Lease the idle connection with this id; no new connection is opened.
    Reuse(u64),
    /// Capacity is available: open a new physical connection under this id.
    OpenNew(u64),
    /// Every permit is taken and nothing is idle: the caller must wait for a
    /// release (or give up on its own deadline).  No permit was consumed.
    Wait,
}

/// A counting admission gate sized to the configured maximum number of
/// concurrent database sessions, with an idle-reuse list in front of it.
///
/// `leased` counts connections currently handed out; `idle` holds the ids of
/// open connections waiting for reuse.  Together they never exceed
/// `max_sessions`.
pub struct SessionGate {
    max_sessions: usize,
    leased: usize,
    idle: Vec<u64>,
    next_conn_id: u64,
}

impl SessionGate {
    /// Ids of connections sitting idle, newest release last.
    pub closed spec fn idle_ids(self) -> Seq<u64> {
        self.idle@
    }

    /// Number of connections currently leased out.
    pub closed spec fn spec_leased(self) -> nat {
        self.leased as nat
    }

    /// The capacity this gate was created with.
    pub closed spec fn spec_max_sessions(self) -> nat {
        self.max_sessions as nat
    }

    /// The id the next newly opened connection will receive.
    pub closed spec fn spec_next_conn_id(self) -> u64 {
        self.next_conn_id
    }

    /// Invariant: open connections (leased plus idle) never exceed the
    /// configured maximum, idle ids are pairwise distinct, and every idle id
    /// was handed out before.
    pub closed spec fn wf(self) -> bool {
        &&& self.leased + self.idle@.len() <= self.max_sessions
        &&& forall|i: int, j: int|
            0 <= i < j < self.idle@.len() ==> self.idle@[i] != self.idle@[j]
        &&& forall|i: int| 0 <= i < self.idle@.len() ==> self.idle@[i] < self.next_conn_id
    }

    /// A fresh gate: nothing leased, nothing idle.
    pub fn new(max_sessions: usize) -> (r: Self)
        ensures
            r.wf(),
            r.spec_max_sessions() == max_sessions,
            r.spec_leased() == 0,
            r.idle_ids() == Seq::<u64>::empty(),
            r.spec_next_conn_id() == 0,
    {
        SessionGate { max_sessions, leased: 0, idle: Vec::new(), next_conn_id: 0 }
    }

    pub fn leased_count(&self) -> (r: usize)
        ensures
            r == self.spec_leased(),
    {
        self.leased
    }

    pub fn max_sessions(&self) -> (r: usize)
        ensures
            r == self.spec_max_sessions(),
    {
        self.max_sessions
    }

    pub fn idle_count(&self) -> (r: usize)
        ensures
            r == self.idle_ids().len(),
    {
        self.idle.len()
    }

    /// The id the next newly opened connection will receive; lets a caller
    /// check `try_acquire`'s id-counter precondition before calling.
    pub fn next_conn_id(&self) -> (r: u64)
        ensures
            r == self.spec_next_conn_id(),
    {
        self.next_conn_id
    }

    /// The capacity bound the invariant keeps: leased and idle connections
    /// together never exceed the configured maximum.
    pub proof fn lemma_capacity_bound(self)
        requires
            self.wf(),
        ensures
            self.spec_leased() + self.idle_ids().len() <= self.spec_max_sessions(),
    {
    }

    /// Decide one acquisition attempt.  Idle connections are preferred over
    /// opening new ones; a new connection is allowed only while the number of
    /// open connections is below the maximum; otherwise the caller waits and
    /// no permit is consumed.
    pub fn try_acquire(&mut self) -> (r: AcquireStep)
        requires
            old(self).wf(),
            old(self).spec_next_conn_id() < u64::MAX,
        ensures
            final(self).wf(),
            final(self).spec_max_sessions() == old(self).spec_max_sessions(),
            old(self).idle_ids().len() > 0 ==> {
                &&& r == AcquireStep::Reuse(old(self).idle_ids().last())
                &&& final(self).idle_ids() == old(self).idle_ids().drop_last()
                &&& final(self).spec_leased() == old(self).spec_leased() + 1
                &&& final(self).spec_next_conn_id() == old(self).spec_next_conn_id()
            },
            (old(self).idle_ids().len() == 0 && old(self).spec_leased()
                < old(self).spec_max_sessions()) ==> {
                &&& r == AcquireStep::OpenNew(old(self).spec_next_conn_id())
                &&& final(self).idle_ids() == old(self).idle_ids()
                &&& final(self).spec_leased() == old(self).spec_leased() + 1
                &&& final(self).spec_next_conn_id() == old(self).spec_next_conn_id() + 1
            },
            (old(self).idle_ids().len() == 0 && old(self).spec_leased()
                >= old(self).spec_max_sessions()) ==> {
                &&& r == AcquireStep::Wait
                &&& final(self).idle_ids() == old(self).idle_ids()
                &&& final(self).spec_leased() == old(self).spec_leased()
                &&& final(self).spec_next_conn_id() == old(self).spec_next_conn_id()
            },
    {
        if let Some(id) = self.idle.pop() {
            self.leased = self.leased + 1;
            AcquireStep::Reuse(id)
        } else if self.leased < self.max_sessions {
            let id = self.next_conn_id;
            self.leased = self.leased + 1;
            self.next_conn_id = self.next_conn_id + 1;
            AcquireStep::OpenNew(id)
        } else {
            AcquireStep::Wait
        }
    }

    /// The physical open that a previous `OpenNew` allowed has failed: the
    /// reserved permit is returned, so the failure cannot leak capacity.
    pub fn open_failed(&mut self)
        requires
            old(self).wf(),
            old(self).spec_leased() > 0,
        ensures
            final(self).wf(),
            final(self).spec_leased() == old(self).spec_leased() - 1,
            final(self).idle_ids() == old(self).idle_ids(),
            final(self).spec_max_sessions() == old(self).spec_max_sessions(),
            final(self).spec_next_conn_id() == old(self).spec_next_conn_id(),
    {
        self.leased = self.leased - 1;
    }

    /// Return a leased connection.  A healthy connection joins the idle list
    /// for reuse; a broken one is discarded, freeing its permit for a future
    /// open.  Each id may be released at most once per lease, which is what
    /// the `conn_id` preconditions record.
    pub fn release(&mut self, conn_id: u64, healthy: bool)
        requires
            old(self).wf(),
            old(self).spec_leased() > 0,
            conn_id < old(self).spec_next_conn_id(),
            !old(self).idle_ids().contains(conn_id),
        ensures
            final(self).wf(),
            final(self).spec_leased() == old(self).spec_leased() - 1,
            final(self).spec_max_sessions() == old(self).spec_max_sessions(),
            final(self).spec_next_conn_id() == old(self).spec_next_conn_id(),
            healthy ==> final(self).idle_ids() == old(self).idle_ids().push(conn_id),
            !healthy ==> final(self).idle_ids() == old(self).idle_ids(),
    {
        self.leased = self.leased - 1;
        if healthy {
            self.idle.push(conn_id);
        }
    }

    /// Evict a connection from the idle list after its background driver
    /// failed.  Leases are untouched; if the id is not idle (for example
    /// because it is currently leased), nothing changes.
    pub fn evict_idle(&mut self, conn_id: u64)
        requires
            old(self).wf(),
        ensures
            final(self).wf(),
            final(self).spec_leased() == old(self).spec_leased(),
            final(self).spec_max_sessions() == old(self).spec_max_sessions(),
            final(self).spec_next_conn_id() == old(self).spec_next_conn_id(),
            old(self).idle_ids().contains(conn_id) ==> final(self).idle_ids()
                == old(self).idle_ids().remove(
                old(self).idle_ids().index_of_first(conn_id).unwrap()),
            !old(self).idle_ids().contains(conn_id) ==> final(self).idle_ids()
                == old(self).idle_ids(),
    {
        let mut i: usize = 0;
        while i < self.idle.len()
            invariant
                i <= self.idle@.len(),
                forall|j: int| 0 <= j < i ==> self.idle@[j] != conn_id,
                *self == *old(self),
                old(self).wf(),
            decreases self.idle@.len() - i,
        {
            if self.idle[i] == conn_id {
                proof {
                    let s = self.idle@;
                    assert(s[i as int] == conn_id);
                    assert(s.contains(conn_id));
                    s.index_of_first_ensures(conn_id);
                    assert(s.index_of_first(conn_id).unwrap() == i as int);
                }
                self.idle.remove(i);
                proof {
                    let s = old(self).idle_ids();
                    let t = s.remove(i as int);
                    s.remove_ensures(i as int);
                    assert(self.idle@ =~= t);
                    assert forall|a: int, b: int| 0 <= a < b < t.len() implies t[a]
                        != t[b] by {
                        let a2: int = if a < i as int { a } else { a + 1 };
                        let b2: int = if b < i as int { b } else { b + 1 };
                        assert(t[a] == s[a2]);
                        assert(t[b] == s[b2]);
                    }
                    assert forall|k: int| 0 <= k < t.len() implies t[k]
                        < self.next_conn_id by {
                        let k2: int = if k < i as int { k } else { k + 1 };
                        assert(t[k] == s[k2]);
                    }
                }
                return ;
            }
            i = i + 1;
        }
        proof {
            assert(!self.idle@.contains(conn_id)) by {
                assert(forall|j: int|
                    0 <= j < self.idle@.len() ==> self.idle@[j] != conn_id);
            }
        }
    }
}

} // verus!
