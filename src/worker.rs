//! One relay worker: its id range and counter, its run state, and the
//! decision taken on each datagram. Receiving and sending stay with the
//! caller, which hands each datagram in and performs the returned send.
use vstd::prelude::*;
use crate::endpoint::Endpoint;
use crate::handler::HandlerOutcome;
use crate::id_range::{calculate_id_range, range_bounds, valid_worker, IdRange};
use crate::pending::{PendingQuery, PendingStore, PendingView};
use crate::wire::{
    copy_bytes, dns_parses, header_id, parses, read_id, splice_ok, splice_reply, spliced_reply,
    with_id, with_id_spec,
};

verus! {

/// Run state of a worker: `Running`, then `StopRequested`, then `Stopped`.
#[derive(Clone, Copy, Debug, PartialEq, Eq, Structural)]
pub enum WorkerState {
    Running,
    StopRequested,
    Stopped,
}

/// A datagram to send.
#[derive(Clone, Debug)]
pub struct Outgoing {
    pub to: Endpoint,
    pub bytes: Vec<u8>,
}

/// What a worker does with a received datagram.
#[derive(Clone, Debug)]
pub enum Step {
    /// Nothing is sent.
    Ignore,
    /// Send this datagram.
    Send(Outgoing),
    /// A client query: ask the handler, then call `on_client_query`.
    Consult,
}

pub struct Worker {
    range: IdRange,
    next_id: u16,
    resolver: Endpoint,
    state: WorkerState,
}

/// The id that follows `id` in the counter of a worker with `range`: one more,
/// wrapping back to the start of the range past its end.
pub open spec fn successor(range: IdRange, id: u16) -> u16 {
    if id as int + 1 >= range.end as int {
        range.start
    } else {
        (id + 1) as u16
    }
}

/// The state after a stop request.
pub open spec fn stopped_by_request(s: WorkerState) -> WorkerState {
    match s {
        WorkerState::Running => WorkerState::StopRequested,
        _ => s,
    }
}

/// The state after a loop iteration looked at it.
pub open spec fn after_check(s: WorkerState) -> WorkerState {
    match s {
        WorkerState::Running => WorkerState::Running,
        _ => WorkerState::Stopped,
    }
}

/// The pending entry that a forwarded query leaves behind.
pub open spec fn pending_of(from: Endpoint, query: Seq<u8>, now: u64) -> PendingView {
    PendingView { original_id: header_id(query), from, query, inserted_at: now }
}

impl Worker {
    pub closed spec fn range_spec(&self) -> IdRange {
        self.range
    }

    pub closed spec fn next_id_spec(&self) -> u16 {
        self.next_id
    }

    pub closed spec fn resolver_spec(&self) -> Endpoint {
        self.resolver
    }

    pub closed spec fn state_spec(&self) -> WorkerState {
        self.state
    }

    pub closed spec fn wf(&self) -> bool {
        &&& self.range.wf()
        &&& self.range.contains_spec(self.next_id as int)
    }

    /// Worker `index` of `thread_count`, relaying to `resolver`.
    pub fn new(thread_count: u16, index: u16, resolver: Endpoint) -> (r: Worker)
        requires
            valid_worker(thread_count as int, index as int),
        ensures
            r.wf(),
            r.range_spec().start as int == range_bounds(thread_count as int, index as int).0,
            r.range_spec().end as int == range_bounds(thread_count as int, index as int).1,
            r.next_id_spec() == r.range_spec().start,
            r.resolver_spec() == resolver,
            r.state_spec() == WorkerState::Running,
    {
        let range = calculate_id_range(thread_count, index);
        Worker { range, next_id: range.start, resolver, state: WorkerState::Running }
    }

    pub fn range(&self) -> (r: IdRange)
        ensures
            r == self.range_spec(),
    {
        self.range
    }

    pub fn state(&self) -> (r: WorkerState)
        ensures
            r == self.state_spec(),
    {
        self.state
    }

    /// Hands out the current id and advances the counter within the range.
    pub fn next_id(&mut self) -> (r: u16)
        requires
            old(self).wf(),
        ensures
            final(self).wf(),
            r == old(self).next_id_spec(),
            old(self).range_spec().contains_spec(r as int),
            final(self).next_id_spec() == successor(old(self).range_spec(), r),
            final(self).range_spec() == old(self).range_spec(),
            final(self).resolver_spec() == old(self).resolver_spec(),
            final(self).state_spec() == old(self).state_spec(),
    {
        let id = self.next_id;
        if id >= self.range.end - 1 {
            self.next_id = self.range.start;
        } else {
            self.next_id = id + 1;
        }
        id
    }

    /// Asks the worker to stop; its loop ends at the next check.
    pub fn stop(&mut self)
        ensures
            final(self).state_spec() == stopped_by_request(old(self).state_spec()),
            final(self).range_spec() == old(self).range_spec(),
            final(self).next_id_spec() == old(self).next_id_spec(),
            final(self).resolver_spec() == old(self).resolver_spec(),
    {
        if self.state == WorkerState::Running {
            self.state = WorkerState::StopRequested;
        }
    }

    /// The check at the top of each loop iteration: whether to go on. A
    /// requested stop is observed here and the worker becomes `Stopped`.
    pub fn keep_running(&mut self) -> (r: bool)
        ensures
            final(self).state_spec() == after_check(old(self).state_spec()),
            r == (old(self).state_spec() == WorkerState::Running),
            final(self).range_spec() == old(self).range_spec(),
            final(self).next_id_spec() == old(self).next_id_spec(),
            final(self).resolver_spec() == old(self).resolver_spec(),
    {
        match self.state {
            WorkerState::Running => true,
            _ => {
                self.state = WorkerState::Stopped;
                false
            },
        }
    }
    /// Completes the pending query that an upstream reply answers. The entry
    /// under the reply's id leaves the store whatever follows; when there was
    /// one, the client gets a reply with its own id, its own questions and the
    /// upstream answers. A late, repeated or unknown reply sends nothing.
    pub fn on_upstream_reply(&self, store: &mut PendingStore, reply: &Vec<u8>) -> (r: Option<
        Outgoing,
    >)
        requires
            old(store).wf(),
            reply@.len() >= 2,
        ensures
            final(store).wf(),
            final(store)@ == old(store)@.remove(header_id(reply@)),
            !old(store)@.contains_key(header_id(reply@)) ==> r is None,
            old(store)@.contains_key(header_id(reply@)) ==> (r is Some <==> splice_ok(
                old(store)@[header_id(reply@)].original_id,
                old(store)@[header_id(reply@)].query,
                reply@,
            )),
            r matches Some(o) ==> {
                let e = old(store)@[header_id(reply@)];
                &&& old(store)@.contains_key(header_id(reply@))
                &&& o.to == e.from
                &&& o.bytes@ == spliced_reply(e.original_id, e.query, reply@)
                &&& header_id(o.bytes@) == e.original_id
            },
    {
        let id = read_id(reply);
        match store.take(id) {
            None => None,
            Some(entry) => match splice_reply(entry.original_id, &entry.query, reply) {
                Some(bytes) => Some(Outgoing { to: entry.from, bytes }),
                None => None,
            },
        }
    }

    /// Decides about a received datagram. A datagram that is no DNS message
    /// is ignored. One from the resolver completes its pending query. One
    /// from anywhere else is a client query, which goes to the handler first.
    pub fn on_datagram(&self, store: &mut PendingStore, from: Endpoint, datagram: &Vec<u8>) -> (r:
        Step)
        requires
            old(store).wf(),
        ensures
            final(store).wf(),
            !parses(datagram@) ==> r is Ignore && final(store)@ == old(store)@,
            parses(datagram@) && from != self.resolver_spec() ==> r is Consult && final(store)@
                == old(store)@,
            parses(datagram@) && from == self.resolver_spec() ==> {
                let id = header_id(datagram@);
                let e = old(store)@[id];
                &&& final(store)@ == old(store)@.remove(id)
                &&& !old(store)@.contains_key(id) ==> r is Ignore
                &&& old(store)@.contains_key(id) ==> (r is Send <==> splice_ok(
                    e.original_id,
                    e.query,
                    datagram@,
                ))
                &&& r is Ignore || (r matches Step::Send(o) && o.to == e.from && o.bytes@
                    == spliced_reply(e.original_id, e.query, datagram@) && header_id(o.bytes@)
                    == e.original_id)
            },
    {
        if !dns_parses(datagram) {
            return Step::Ignore;
        }
        if from == self.resolver {
            match self.on_upstream_reply(store, datagram) {
                Some(o) => Step::Send(o),
                None => Step::Ignore,
            }
        } else {
            Step::Consult
        }
    }

    /// Acts on the handler's outcome for a client query. An answer goes
    /// straight back to the client under the client's own id, and the store
    /// and counter are left alone. On fallback the query is forwarded to the
    /// resolver under the next id of this worker's range, and a pending entry
    /// for that id is stored.
    pub fn on_client_query(
        &mut self,
        store: &mut PendingStore,
        from: Endpoint,
        query: &Vec<u8>,
        outcome: HandlerOutcome,
        now: u64,
    ) -> (r: Option<Outgoing>)
        requires
            old(self).wf(),
            old(store).wf(),
            query@.len() >= 2,
        ensures
            final(self).wf(),
            final(store).wf(),
            final(self).range_spec() == old(self).range_spec(),
            final(self).resolver_spec() == old(self).resolver_spec(),
            final(self).state_spec() == old(self).state_spec(),
            outcome matches HandlerOutcome::Answered(a) ==> {
                &&& final(store)@ == old(store)@
                &&& final(self).next_id_spec() == old(self).next_id_spec()
                &&& a@.len() >= 2 ==> (r matches Some(o) && o.to == from && o.bytes@
                    == with_id_spec(a@, header_id(query@)))
                &&& a@.len() < 2 ==> r is None
            },
            outcome is Fallback ==> {
                let id = old(self).next_id_spec();
                &&& old(self).range_spec().contains_spec(id as int)
                &&& final(self).next_id_spec() == successor(old(self).range_spec(), id)
                &&& final(store)@ == old(store)@.insert(id, pending_of(from, query@, now))
                &&& (r matches Some(o) && o.to == old(self).resolver_spec() && o.bytes@
                    == with_id_spec(query@, id))
            },
    {
        match outcome {
            HandlerOutcome::Answered(answer) => {
                if answer.len() < 2 {
                    None
                } else {
                    let client_id = read_id(query);
                    Some(Outgoing { to: from, bytes: with_id(&answer, client_id) })
                }
            },
            HandlerOutcome::Fallback => {
                let id = self.next_id();
                let forwarded = with_id(query, id);
                let entry = PendingQuery {
                    original_id: read_id(query),
                    from,
                    query: copy_bytes(query),
                    inserted_at: now,
                };
                store.insert(id, entry);
                Some(Outgoing { to: self.resolver, bytes: forwarded })
            },
        }
    }
}

/// How long a forwarded query waits for its upstream reply before a sweep
/// discards it, in milliseconds.
pub const PENDING_MAX_AGE_MS: u64 = 10000;

impl Worker {
    /// A fresh worker `i` of `n`, relaying to `resolver`.
    pub open spec fn is_fresh(&self, n: int, i: int, resolver: Endpoint) -> bool {
        &&& self.wf()
        &&& self.range_spec().start as int == range_bounds(n, i).0
        &&& self.range_spec().end as int == range_bounds(n, i).1
        &&& self.next_id_spec() == self.range_spec().start
        &&& self.resolver_spec() == resolver
        &&& self.state_spec() == WorkerState::Running
    }
}

/// The workers of a relay with `thread_count` threads, worker `i` owning the
/// `i`-th id range, all relaying to `resolver`.
pub fn make_workers(thread_count: u8, resolver: Endpoint) -> (r: Vec<Worker>)
    requires
        thread_count >= 1,
    ensures
        r@.len() == thread_count as int,
        forall|i: int| 0 <= i < r@.len() ==> #[trigger] r@[i].is_fresh(thread_count as int, i, resolver),
{
    let mut workers: Vec<Worker> = Vec::new();
    let mut i: u8 = 0;
    while i < thread_count
        invariant
            i <= thread_count,
            thread_count >= 1,
            workers@.len() == i as int,
            forall|k: int| 0 <= k < workers@.len() ==> #[trigger] workers@[k].is_fresh(thread_count as int, k, resolver),
        decreases thread_count - i,
    {
        let w = Worker::new(thread_count as u16, i as u16, resolver);
        let ghost before = workers@;
        workers.push(w);
        assert(workers@ == before.push(w));
        assert(workers@[i as int].is_fresh(thread_count as int, i as int, resolver));
        i = i + 1;
    }
    workers
}

/// After a stop request, the next check at the top of the loop ends it and
/// leaves the worker `Stopped`, whatever state it was in.
pub proof fn lemma_stop_ends_loop(s: WorkerState)
    ensures
        stopped_by_request(s) != WorkerState::Running,
        after_check(stopped_by_request(s)) == WorkerState::Stopped,
{
}

/// The counter of a worker never leaves its range.
pub proof fn lemma_successor_in_range(range: IdRange, id: u16)
    requires
        range.wf(),
        range.contains_spec(id as int),
    ensures
        range.contains_spec(successor(range, id) as int),
{
}

} // verus!
