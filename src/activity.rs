//! Session-activity cache: per-session agent handles with last-activity
//! timestamps, and time-to-live eviction.
use std::collections::HashMap;
use vstd::prelude::*;
use vstd::std_specs::hash::group_hash_axioms;

verus! {

broadcast use group_hash_axioms;

/// Fixed time-to-live of a session-activity record, in seconds.
pub const SESSION_TIMEOUT_SECS: u64 = 3600;

/// A record is expired once more than `ttl_secs` whole seconds have elapsed
/// between its last touch and `now`. A clock that reads earlier than the last
/// touch counts as no time elapsed.
pub open spec fn expired(last_active: u64, now: u64, ttl_secs: u64) -> bool {
    now - last_active > ttl_secs
}

/// Activity record of one session: the session's agent handle and the time
/// of its last activity.
pub struct ApiSession<A> {
    /// Handle to the session's agent.
    pub agent: A,
    /// Seconds since the Unix epoch of the last touch.
    pub last_active: u64,
}

/// Relies on `std::time::SystemTime::now`: the wall clock in whole seconds since
/// the Unix epoch, 0 when the clock reads before the epoch. Nothing is promised
/// of the value.
#[verifier::external_body]
pub fn current_timestamp() -> (r: u64) {
    std::time::SystemTime::now()
        .duration_since(std::time::UNIX_EPOCH)
        .unwrap_or_default()
        .as_secs()
}

impl<A> ApiSession<A> {
    /// A record for `agent`, last touched at `now`.
    pub fn new_at(agent: A, now: u64) -> (r: ApiSession<A>)
        ensures
            r.agent == agent,
            r.last_active == now,
    {
        ApiSession { agent, last_active: now }
    }

    /// A record for `agent`, last touched at the current time.
    pub fn new(agent: A) -> (r: ApiSession<A>)
        ensures
            r.agent == agent,
    {
        ApiSession::new_at(agent, current_timestamp())
    }

    /// Records activity at `now`.
    pub fn touch_at(&mut self, now: u64)
        ensures
            final(self).agent == old(self).agent,
            final(self).last_active == now,
    {
        self.last_active = now;
    }

    /// Records activity at the current time.
    pub fn touch(&mut self)
        ensures
            final(self).agent == old(self).agent,
    {
        self.touch_at(current_timestamp());
    }

    /// Whether more than `ttl_secs` seconds have elapsed between the last touch
    /// and `now`.
    pub fn is_expired_at(&self, now: u64, ttl_secs: u64) -> (r: bool)
        ensures
            r == expired(self.last_active, now, ttl_secs),
    {
        now > self.last_active && now - self.last_active > ttl_secs
    }

    /// Whether more than `ttl_secs` seconds have elapsed since the last touch,
    /// by the current time.
    pub fn is_expired(&self, ttl_secs: u64) -> (r: bool) {
        self.is_expired_at(current_timestamp(), ttl_secs)
    }
}

/// The records of `m` that are not expired at `now`.
pub open spec fn unexpired<A>(m: Map<u128, ApiSession<A>>, now: u64, ttl_secs: u64) -> Map<
    u128,
    ApiSession<A>,
> {
    m.restrict(
        Set::new(|k: u128| m.contains_key(k) && !expired(m[k].last_active, now, ttl_secs)),
    )
}

/// A sweep keeps exactly the records that are not expired, each unchanged,
/// and drops every expired one.
pub proof fn lemma_sweep_keeps_exactly_unexpired<A>(
    m: Map<u128, ApiSession<A>>,
    now: u64,
    ttl_secs: u64,
)
    ensures
        forall|k: u128| #[trigger]
            unexpired(m, now, ttl_secs).contains_key(k) <==> (m.contains_key(k) && !(now
                - m[k].last_active > ttl_secs)),
        forall|k: u128| #[trigger]
            unexpired(m, now, ttl_secs).contains_key(k) ==> unexpired(m, now, ttl_secs)[k] == m[k],
{
}

/// Registry of session-activity records keyed by session identifier.
pub struct SessionRegistry<A> {
    sessions: HashMap<u128, ApiSession<A>>,
    /// Every key of `sessions`, each once.
    ids: Vec<u128>,
}

impl<A> View for SessionRegistry<A> {
    type V = Map<u128, ApiSession<A>>;

    closed spec fn view(&self) -> Map<u128, ApiSession<A>> {
        self.sessions@
    }
}

impl<A> SessionRegistry<A> {
    /// The key list names every record once.
    pub closed spec fn wf(&self) -> bool {
        &&& self.ids@.no_duplicates()
        &&& forall|i: int|
            0 <= i < self.ids@.len() ==> self.sessions@.contains_key(#[trigger] self.ids@[i])
        &&& forall|k: u128| #[trigger] self.sessions@.contains_key(k) ==> self.ids@.contains(k)
    }

    /// An empty registry.
    pub fn new() -> (r: SessionRegistry<A>)
        ensures
            r.wf(),
            r@ == Map::<u128, ApiSession<A>>::empty(),
    {
        SessionRegistry { sessions: HashMap::new(), ids: Vec::new() }
    }

    /// Stores `session` under `id`, replacing any record there.
    pub fn insert(&mut self, id: u128, session: ApiSession<A>)
        requires
            old(self).wf(),
        ensures
            final(self).wf(),
            final(self)@ == old(self)@.insert(id, session),
    {
        if !self.sessions.contains_key(&id) {
            self.ids.push(id);
        }
        self.sessions.insert(id, session);
        assert forall|k: u128| #[trigger] self.sessions@.contains_key(k) implies self.ids@.contains(
            k,
        ) by {
            if k != id {
                assert(old(self).sessions@.contains_key(k));
                let j = choose|j: int| 0 <= j < old(self).ids@.len() && old(self).ids@[j] == k;
                assert(self.ids@[j] == k);
            } else {
                if !old(self).sessions@.contains_key(id) {
                    assert(self.ids@[self.ids@.len() - 1] == id);
                }
            }
        }
    }

    /// Whether a record is stored under `id`.
    pub fn contains(&self, id: u128) -> (r: bool)
        ensures
            r == self@.contains_key(id),
    {
        self.sessions.contains_key(&id)
    }

    /// Number of records.
    pub fn len(&self) -> (r: usize)
        ensures
            r == self@.len(),
    {
        self.sessions.len()
    }

    /// The record stored under `id`, if any.
    pub fn get(&self, id: u128) -> (r: Option<&ApiSession<A>>)
        ensures
            r matches Some(s) ==> self@.contains_key(id) && *s == self@[id],
            r is None ==> !self@.contains_key(id),
    {
        self.sessions.get(&id)
    }
}

/// Removes every record that is expired at `now` under the fixed
/// time-to-live, leaving the others untouched.
pub fn cleanup_expired_sessions_at<A>(sessions: &mut SessionRegistry<A>, now: u64)
    requires
        old(sessions).wf(),
    ensures
        final(sessions).wf(),
        final(sessions)@ == unexpired(old(sessions)@, now, SESSION_TIMEOUT_SECS),
{
    let ghost old_map = sessions.sessions@;
    let ghost mut done: Set<u128> = Set::empty();
    let mut kept: Vec<u128> = Vec::new();
    let n = sessions.ids.len();
    let mut i: usize = 0;
    while i < n
        invariant
            n == sessions.ids@.len(),
            i <= n,
            sessions.ids@ == old(sessions).ids@,
            old_map == old(sessions).sessions@,
            old(sessions).wf(),
            forall|k: u128|
                #[trigger] done.contains(k) <==> exists|j: int|
                    0 <= j < i && #[trigger] sessions.ids@[j] == k,
            forall|k: u128| #[trigger]
                old_map.contains_key(k) ==> (sessions.sessions@.contains_key(k) <==> (!done.contains(
                    k,
                ) || !expired(old_map[k].last_active, now, SESSION_TIMEOUT_SECS))),
            forall|k: u128| #[trigger]
                sessions.sessions@.contains_key(k) ==> old_map.contains_key(k)
                    && sessions.sessions@[k] == old_map[k],
            kept@.no_duplicates(),
            forall|j: int|
                0 <= j < kept@.len() ==> done.contains(#[trigger] kept@[j])
                    && sessions.sessions@.contains_key(kept@[j]),
            forall|k: u128|
                done.contains(k) && #[trigger] sessions.sessions@.contains_key(k) ==> kept@.contains(
                    k,
                ),
        decreases n - i,
    {
        let id = sessions.ids[i];
        assert(!done.contains(id)) by {
            if done.contains(id) {
                let j = choose|j: int| 0 <= j < i && sessions.ids@[j] == id;
                assert(sessions.ids@[j] == sessions.ids@[i as int]);
            }
        }
        assert(old_map.contains_key(id));
        let stale = match sessions.sessions.get(&id) {
            Some(s) => s.is_expired_at(now, SESSION_TIMEOUT_SECS),
            None => false,
        };
        if stale {
            sessions.sessions.remove(&id);
        } else {
            let ghost before = kept@;
            kept.push(id);
            assert forall|k: u128|
                done.insert(id).contains(k) && #[trigger] sessions.sessions@.contains_key(
                    k,
                ) implies kept@.contains(k) by {
                if k == id {
                    assert(kept@[kept@.len() - 1] == id);
                } else {
                    assert(before.contains(k));
                    let j = choose|j: int| 0 <= j < before.len() && before[j] == k;
                    assert(kept@[j] == k);
                }
            }
        }
        proof {
            done = done.insert(id);
        }
        i = i + 1;
    }
    assert forall|k: u128| old_map.contains_key(k) implies #[trigger] done.contains(k) by {
        let j = choose|j: int| 0 <= j < n && old(sessions).ids@[j] == k;
        assert(sessions.ids@[j] == k);
    }
    sessions.ids = kept;
    assert(sessions.sessions@ =~= unexpired(old_map, now, SESSION_TIMEOUT_SECS));
}

/// Removes every record that is expired by the current time under the fixed
/// time-to-live: the registry afterwards holds exactly the records that are
/// not expired at some clock reading, each unchanged.
pub fn cleanup_expired_sessions<A>(sessions: &mut SessionRegistry<A>)
    requires
        old(sessions).wf(),
    ensures
        final(sessions).wf(),
        exists|t: u64|
            final(sessions)@ == #[trigger] unexpired(old(sessions)@, t, SESSION_TIMEOUT_SECS),
{
    let now = current_timestamp();
    cleanup_expired_sessions_at(sessions, now);
}

} // verus!
