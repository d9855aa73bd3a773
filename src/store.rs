//! The session store: sessions keyed by identifier in a sharded
//! concurrent map, with liveness always derived from the stored expiry.

use vstd::prelude::*;
use dashmap::DashMap;
use crate::error::AccessDenied;
use crate::session::{after_operation_spec, is_active_spec, record_outcome_spec, SessionInfo, SessionView};

verus! {

#[verifier::external_type_specification]
#[verifier::external_body]
#[verifier::reject_recursive_types(K)]
#[verifier::reject_recursive_types(V)]
#[verifier::reject_recursive_types(S)]
pub struct ExDashMap<K, V, S>(DashMap<K, V, S>);

/// The entries of a session map.
pub uninterp spec fn sessions_of(m: DashMap<u128, SessionInfo>) -> Map<u128, SessionInfo>;

/// Relies on `DashMap::new`: the new map is empty.
#[verifier::external_body]
fn map_new() -> (r: DashMap<u128, SessionInfo>)
    ensures
        sessions_of(r).dom() == Set::<u128>::empty(),
{
    DashMap::new()
}

/// Relies on `DashMap::insert`: the key then maps to the value, all other
/// entries stay.
#[verifier::external_body]
fn map_insert(m: &mut DashMap<u128, SessionInfo>, key: u128, value: SessionInfo)
    ensures
        sessions_of(*final(m)) == sessions_of(*old(m)).insert(key, value),
{
    m.insert(key, value);
}

/// Relies on `DashMap::remove`: it hands back the value the key had, and
/// the key is then absent.
#[verifier::external_body]
fn map_remove(m: &mut DashMap<u128, SessionInfo>, key: u128) -> (r: Option<SessionInfo>)
    ensures
        sessions_of(*final(m)) == sessions_of(*old(m)).remove(key),
        r == (if sessions_of(*old(m)).contains_key(key) {
            Some(sessions_of(*old(m))[key])
        } else {
            None
        }),
{
    m.remove(&key).map(|entry| entry.1)
}

/// Relies on `DashMap::get`: it finds the value of the key, which the
/// verified `SessionInfo::duplicate` copies.
#[verifier::external_body]
fn map_get(m: &DashMap<u128, SessionInfo>, key: u128) -> (r: Option<SessionInfo>)
    ensures
        r is Some == sessions_of(*m).contains_key(key),
        r is Some ==> r->0@ == sessions_of(*m)[key]@,
{
    m.get(&key).map(|entry| entry.value().duplicate())
}

/// Relies on `DashMap::iter`: every key once, in an order the map picks.
#[verifier::external_body]
fn map_keys(m: &DashMap<u128, SessionInfo>) -> (r: Vec<u128>)
    ensures
        r@.no_duplicates(),
        r@.to_set() == sessions_of(*m).dom(),
{
    m.iter().map(|entry| *entry.key()).collect()
}

/// Relies on `DashMap::len`: the number of entries.
#[verifier::external_body]
fn map_len(m: &DashMap<u128, SessionInfo>) -> (r: usize)
    ensures
        r == sessions_of(*m).len(),
{
    m.len()
}

/// The sessions of a store, keyed by identifier.
pub struct SessionStore {
    map: DashMap<u128, SessionInfo>,
}

impl View for SessionStore {
    type V = Map<u128, SessionView>;

    closed spec fn view(&self) -> Map<u128, SessionView> {
        sessions_of(self.map).map_values(|s: SessionInfo| s@)
    }
}

impl SessionStore {
    /// Every record is well formed and stored under its own identifier.
    pub closed spec fn wf(&self) -> bool {
        &&& sessions_of(self.map).dom().finite()
        &&& forall|k: u128|
            #[trigger] sessions_of(self.map).contains_key(k) ==> sessions_of(self.map)[k].wf()
                && sessions_of(self.map)[k].id == k
    }

    /// The store holds finitely many sessions.
    pub proof fn lemma_finite(&self)
        requires
            self.wf(),
        ensures
            self@.dom().finite(),
    {
        assert(self@.dom() =~= sessions_of(self.map).dom());
    }

    /// An empty store.
    pub fn new() -> (r: SessionStore)
        ensures
            r.wf(),
            r@ == Map::<u128, SessionView>::empty(),
    {
        let r = SessionStore { map: map_new() };
        assert(sessions_of(r.map).dom() =~= Set::<u128>::empty());
        assert(r@ =~= Map::<u128, SessionView>::empty());
        r
    }

    /// Inserts a session under its identifier, replacing any record there.
    pub fn insert(&mut self, session: SessionInfo)
        requires
            old(self).wf(),
            session.wf(),
        ensures
            final(self).wf(),
            final(self)@ == old(self)@.insert(session.id, session@),
    {
        let ghost s = session@;
        let id = session.id;
        map_insert(&mut self.map, id, session);
        assert(self@ =~= old(self)@.insert(id, s));
    }

    /// A copy of the session with identifier `id`, if there is one.
    pub fn get(&self, id: u128) -> (r: Option<SessionInfo>)
        requires
            self.wf(),
        ensures
            r is Some == self@.contains_key(id),
            r is Some ==> r->0@ == self@[id] && r->0.wf(),
    {
        map_get(&self.map, id)
    }

    /// Removes the session `id`; does nothing if it is absent.
    pub fn remove(&mut self, id: u128)
        requires
            old(self).wf(),
        ensures
            final(self).wf(),
            final(self)@ == old(self)@.remove(id),
    {
        let _ = map_remove(&mut self.map, id);
        assert(self@ =~= old(self)@.remove(id));
    }

    /// Number of stored sessions.
    pub fn len(&self) -> (r: usize)
        ensures
            r == self@.len(),
    {
        let r = map_len(&self.map);
        proof {
            lemma_map_values_len(sessions_of(self.map));
        }
        r
    }

    /// An identifier under which no session is stored: the smallest one
    /// free.  One always exists, as the store is finite.
    pub fn unused_id(&self) -> (r: u128)
        requires
            self.wf(),
        ensures
            !self@.contains_key(r),
    {
        let n = self.len();
        let mut k: u128 = 0;
        while k <= n as u128
            invariant
                self.wf(),
                n == self@.len(),
                k <= n as u128 + 1,
                forall|x: u128| x < k ==> #[trigger] self@.contains_key(x),
            decreases n as u128 + 1 - k,
        {
            if self.get(k).is_none() {
                return k;
            }
            k = k + 1;
        }
        proof {
            self.lemma_finite();
            lemma_below_len(n as nat + 1);
            assert(below_spec(n as nat + 1).subset_of(self@.dom()));
            vstd::set_lib::lemma_len_subset(below_spec(n as nat + 1), self@.dom());
        }
        0
    }

    /// Number of sessions live at `now`; expired records not yet removed
    /// are not counted.
    pub fn count_live_at(&self, now: i64) -> (r: usize)
        requires
            self.wf(),
        ensures
            r == live_ids_spec(self@, now).len(),
    {
        let keys = map_keys(&self.map);
        let ghost sessions = self@;
        assert(sessions.dom() =~= sessions_of(self.map).dom());
        let mut count: usize = 0;
        let mut i: usize = 0;
        assert(live_among_spec(sessions, now, keys@.subrange(0, 0).to_set()) =~= Set::<
            u128,
        >::empty());
        while i < keys.len()
            invariant
                self.wf(),
                sessions == self@,
                i <= keys@.len(),
                keys@.no_duplicates(),
                keys@.to_set() == sessions.dom(),
                count as nat == live_among_spec(sessions, now, keys@.subrange(0, i as int).to_set()).len(),
                count <= i,
            decreases keys@.len() - i,
        {
            let k = keys[i];
            let ghost pre = keys@.subrange(0, i as int);
            proof {
                assert(keys@.subrange(0, i as int + 1) =~= pre.push(k));
                pre.lemma_push_to_set_commute(k);
                vstd::seq_lib::seq_to_set_is_finite(pre);
                assert(!pre.to_set().contains(k)) by {
                    if pre.contains(k) {
                        let j = choose|j: int| 0 <= j < pre.len() && pre[j] == k;
                        assert(keys@[j] == keys@[i as int]);
                    }
                }
                assert(keys@.contains(k));
                assert(sessions.dom().contains(k));
                lemma_live_among_insert(sessions, now, pre.to_set(), k);
            }
            let session = self.get(k);
            match session {
                Some(s) => {
                    if s.is_active_at(now) {
                        count = count + 1;
                    }
                },
                None => {},
            }
            i = i + 1;
        }
        assert(keys@.subrange(0, keys@.len() as int) =~= keys@);
        count
    }

    /// Counts one more operation on `repo` in session `id` at `now`, after
    /// the liveness and quota checks; check and update are one step.  A
    /// session found expired is removed.
    pub fn record_operation_at(&mut self, id: u128, repo: &str, now: i64) -> (r: Result<
        (),
        AccessDenied,
    >)
        requires
            old(self).wf(),
        ensures
            final(self).wf(),
            !old(self)@.contains_key(id) ==> r == Err::<(), AccessDenied>(AccessDenied::NotFound)
                && final(self)@ == old(self)@,
            old(self)@.contains_key(id) ==> r == record_outcome_spec(old(self)@[id], repo@, now),
            r == Err::<(), AccessDenied>(AccessDenied::Expired) ==> final(self)@ == old(
                self,
            )@.remove(id),
            r is Err && r != Err::<(), AccessDenied>(AccessDenied::Expired) ==> final(self)@
                == old(self)@,
            r is Ok ==> final(self)@ == old(self)@.insert(
                id,
                after_operation_spec(old(self)@[id], repo@),
            ),
    {
        let ghost before = self@;
        match map_remove(&mut self.map, id) {
            None => {
                assert(self@ =~= before);
                Err(AccessDenied::NotFound)
            },
            Some(mut session) => {
                assert(sessions_of(old(self).map).contains_key(id));
                let r = session.record_operation_at(repo, now);
                match r {
                    Err(AccessDenied::Expired) => {
                        assert(self@ =~= before.remove(id));
                    },
                    _ => {
                        let ghost s = session@;
                        map_insert(&mut self.map, id, session);
                        assert(self@ =~= before.insert(id, s));
                        proof {
                            if r is Err {
                                assert(self@ =~= before);
                            }
                        }
                    },
                }
                r
            },
        }
    }
}

/// Identifiers of the sessions live at `now`.
pub open spec fn live_ids_spec(sessions: Map<u128, SessionView>, now: i64) -> Set<u128> {
    live_among_spec(sessions, now, sessions.dom())
}

/// Those of `ids` whose session is live at `now`.
pub open spec fn live_among_spec(sessions: Map<u128, SessionView>, now: i64, ids: Set<u128>) -> Set<
    u128,
> {
    ids.filter(|k: u128| is_active_spec(sessions[k], now))
}

proof fn lemma_live_among_insert(
    sessions: Map<u128, SessionView>,
    now: i64,
    ids: Set<u128>,
    k: u128,
)
    requires
        ids.finite(),
        !ids.contains(k),
    ensures
        live_among_spec(sessions, now, ids.insert(k)).len() == live_among_spec(sessions, now, ids).len()
            + if is_active_spec(sessions[k], now) {
            1nat
        } else {
            0nat
        },
{
    let before = live_among_spec(sessions, now, ids);
    let after = live_among_spec(sessions, now, ids.insert(k));
    ids.lemma_len_filter(|x: u128| is_active_spec(sessions[x], now));
    if is_active_spec(sessions[k], now) {
        assert(after =~= before.insert(k));
    } else {
        assert(after =~= before);
    }
}

/// The identifiers below `m`.
pub open spec fn below_spec(m: nat) -> Set<u128> {
    Set::new(|x: u128| x < m)
}

proof fn lemma_below_len(m: nat)
    requires
        m <= u128::MAX,
    ensures
        below_spec(m).finite(),
        below_spec(m).len() == m,
    decreases m,
{
    if m == 0 {
        assert(below_spec(0) =~= Set::<u128>::empty());
    } else {
        lemma_below_len((m - 1) as nat);
        assert(below_spec(m) =~= below_spec((m - 1) as nat).insert((m - 1) as u128));
    }
}

proof fn lemma_map_values_len(m: Map<u128, SessionInfo>)
    ensures
        m.map_values(|s: SessionInfo| s@).len() == m.len(),
{
    assert(m.map_values(|s: SessionInfo| s@).dom() =~= m.dom());
}

} // verus!
