//! The correlation table from rewritten transaction ids to the queries that
//! wait for an upstream reply.
use vstd::prelude::*;
use crate::endpoint::Endpoint;

verus! {

/// Number of distinct transaction ids.
pub const ID_COUNT: usize = 65536;

/// A client query that was forwarded upstream and waits for its reply.
#[derive(Clone, Debug)]
pub struct PendingQuery {
    /// Transaction id the client chose.
    pub original_id: u16,
    /// Where the reply goes.
    pub from: Endpoint,
    /// The client's datagram as it arrived.
    pub query: Vec<u8>,
    /// When the query was forwarded, in milliseconds of the caller's clock.
    pub inserted_at: u64,
}

/// What a pending query holds, as plain values.
pub struct PendingView {
    pub original_id: u16,
    pub from: Endpoint,
    pub query: Seq<u8>,
    pub inserted_at: u64,
}

impl View for PendingQuery {
    type V = PendingView;

    open spec fn view(&self) -> PendingView {
        PendingView {
            original_id: self.original_id,
            from: self.from,
            query: self.query@,
            inserted_at: self.inserted_at,
        }
    }
}

/// Whether an entry inserted at `inserted_at` is older than `max_age` at time `now`.
pub open spec fn is_stale(inserted_at: u64, now: u64, max_age: u64) -> bool {
    now > inserted_at && now - inserted_at > max_age
}

/// The entries of `m` that are not older than `max_age` at time `now`.
pub open spec fn swept(m: Map<u16, PendingView>, now: u64, max_age: u64) -> Map<u16, PendingView> {
    m.restrict(m.dom().filter(|id: u16| !is_stale(m[id].inserted_at, now, max_age)))
}

/// One slot per transaction id; a slot holds the query waiting under that id.
pub struct PendingStore {
    slots: Vec<Option<PendingQuery>>,
}

impl View for PendingStore {
    type V = Map<u16, PendingView>;

    closed spec fn view(&self) -> Map<u16, PendingView> {
        Map::new(
            |id: u16| self.slots@[id as int] is Some,
            |id: u16| self.slots@[id as int].unwrap()@,
        )
    }
}

impl PendingStore {
    pub closed spec fn wf(&self) -> bool {
        self.slots@.len() == ID_COUNT
    }

    /// An empty store.
    pub fn new() -> (r: PendingStore)
        ensures
            r.wf(),
            r@ == Map::<u16, PendingView>::empty(),
    {
        let mut slots: Vec<Option<PendingQuery>> = Vec::with_capacity(ID_COUNT);
        while slots.len() < ID_COUNT
            invariant
                slots@.len() <= ID_COUNT,
                forall|k: int| 0 <= k < slots@.len() ==> slots@[k] is None,
            decreases ID_COUNT - slots@.len(),
        {
            slots.push(None);
        }
        let r = PendingStore { slots };
        assert(r@ =~= Map::<u16, PendingView>::empty());
        r
    }

    /// Stores `entry` under `id`, replacing any entry already there.
    pub fn insert(&mut self, id: u16, entry: PendingQuery)
        requires
            old(self).wf(),
        ensures
            final(self).wf(),
            final(self)@ == old(self)@.insert(id, entry@),
    {
        let ghost e = entry@;
        self.slots.set(id as usize, Some(entry));
        assert(self@ =~= old(self)@.insert(id, e));
    }

    /// Removes and returns the entry under `id`, if there is one.
    pub fn take(&mut self, id: u16) -> (r: Option<PendingQuery>)
        requires
            old(self).wf(),
        ensures
            final(self).wf(),
            final(self)@ == old(self)@.remove(id),
            old(self)@.contains_key(id) ==> r is Some && r.unwrap()@ == old(self)@[id],
            !old(self)@.contains_key(id) ==> r is None,
    {
        let mut out: Option<PendingQuery> = None;
        self.slots.set_and_swap(id as usize, &mut out);
        assert(self@ =~= old(self)@.remove(id));
        out
    }

    /// Whether an entry waits under `id`.
    pub fn contains(&self, id: u16) -> (r: bool)
        requires
            self.wf(),
        ensures
            r == self@.contains_key(id),
    {
        self.slots[id as usize].is_some()
    }

    /// Removes every entry older than `max_age` at time `now`.
    pub fn sweep(&mut self, now: u64, max_age: u64)
        requires
            old(self).wf(),
        ensures
            final(self).wf(),
            final(self)@ == swept(old(self)@, now, max_age),
    {
        let mut i: usize = 0;
        while i < ID_COUNT
            invariant
                self.wf(),
                i <= ID_COUNT,
                forall|k: int| 0 <= k < i ==> #[trigger] self.slots@[k] == (
                    if old(self).slots@[k] is Some && is_stale(old(self).slots@[k].unwrap().inserted_at, now, max_age) {
                        None
                    } else {
                        old(self).slots@[k]
                    }),
                forall|k: int| i <= k < ID_COUNT ==> #[trigger] self.slots@[k] == old(self).slots@[k],
            decreases ID_COUNT - i,
        {
            let stale = match &self.slots[i] {
                Some(e) => now > e.inserted_at && now - e.inserted_at > max_age,
                None => false,
            };
            if stale {
                self.slots.set(i, None);
            }
            i = i + 1;
        }
        let ghost keep = old(self)@.dom().filter(|id: u16| !is_stale(old(self)@[id].inserted_at, now, max_age));
        assert(self@ =~= swept(old(self)@, now, max_age)) by {
            assert forall|id: u16| #[trigger] self@.contains_key(id) == old(self)@.restrict(keep).contains_key(id) by {
                assert(self.slots@[id as int] == old(self).slots@[id as int] || self.slots@[id as int] is None);
            }
        }
    }
}

/// A pending query is completed at most once: once `take(id)` has removed
/// the entry, a second `take(id)` finds nothing until `id` is stored again.
pub proof fn lemma_take_at_most_once(m: Map<u16, PendingView>, id: u16)
    ensures
        !m.remove(id).contains_key(id),
        m.remove(id).remove(id) == m.remove(id),
{
    assert(m.remove(id).remove(id) =~= m.remove(id));
}

/// A sweep removes every entry older than the threshold and keeps the rest
/// as they were; a reply under a removed id then finds nothing to complete.
pub proof fn lemma_sweep_evicts_stale(m: Map<u16, PendingView>, now: u64, max_age: u64, id: u16)
    ensures
        m.contains_key(id) && is_stale(m[id].inserted_at, now, max_age) ==> !swept(m, now, max_age).contains_key(id),
        m.contains_key(id) && !is_stale(m[id].inserted_at, now, max_age) ==> swept(m, now, max_age).contains_key(id)
            && swept(m, now, max_age)[id] == m[id],
        !m.contains_key(id) ==> !swept(m, now, max_age).contains_key(id),
{
}

} // verus!
