//! Bookkeeping of requests that wait for the native bridge: context ids and
//! the table of pending completion slots keyed by them.

use std::collections::HashMap;

use vstd::prelude::*;

verus! {

broadcast use vstd::std_specs::hash::group_hash_axioms;

/// What the native bridge reports when a request ends: whether it succeeded,
/// and the final text (the answer, or the error message).
#[derive(Debug, Clone)]
pub struct CompletionPayload {
    pub ok: bool,
    pub text: String,
}

/// The source of context ids. Ids start at 1 and count up, wrapping at the
/// end of the `u64` range as an atomic `fetch_add` does.
pub struct CtxCounter {
    next: u64,
}

/// The counter value after one id has been handed out.
pub open spec fn counter_after(next: u64) -> u64 {
    if next == u64::MAX {
        0
    } else {
        (next + 1) as u64
    }
}

impl View for CtxCounter {
    type V = u64;

    /// The id that the counter hands out next.
    closed spec fn view(&self) -> u64 {
        self.next
    }
}

impl CtxCounter {
    /// A fresh counter; its first id is 1.
    pub fn new() -> (c: CtxCounter)
        ensures
            c@ == 1,
    {
        CtxCounter { next: 1 }
    }
}

/// Hands out the next context id and advances the counter.
pub fn next_ctx_id(counter: &mut CtxCounter) -> (id: u64)
    ensures
        id == old(counter)@,
        final(counter)@ == counter_after(old(counter)@),
    no_unwind
{
    let id = counter.next;
    counter.next = if id == u64::MAX {
        0
    } else {
        id + 1
    };
    id
}

/// The requests that wait for a completion from the native bridge: one slot
/// (a sink of type `S`) per context id.
pub struct PendingTable<S> {
    slots: HashMap<u64, S>,
}

impl<S> View for PendingTable<S> {
    type V = Map<u64, S>;

    closed spec fn view(&self) -> Map<u64, S> {
        self.slots@
    }
}

impl<S> PendingTable<S> {
    /// A table with no pending request.
    pub fn new() -> (t: PendingTable<S>)
        ensures
            t@ == Map::<u64, S>::empty(),
    {
        PendingTable { slots: HashMap::new() }
    }

    /// The number of pending requests.
    pub fn len(&self) -> (n: usize)
        ensures
            n == self@.len(),
    {
        self.slots.len()
    }

    /// Puts `sink` in the slot of `ctx_id`, replacing what was there.
    pub fn register(&mut self, ctx_id: u64, sink: S)
        ensures
            final(self)@ == old(self)@.insert(ctx_id, sink),
    {
        self.slots.insert(ctx_id, sink);
    }

    /// Empties the slot of `ctx_id` and hands back what it held.
    pub fn withdraw(&mut self, ctx_id: u64) -> (sink: Option<S>)
        ensures
            final(self)@ == old(self)@.remove(ctx_id),
            sink is Some <==> old(self)@.contains_key(ctx_id),
            sink matches Some(s) ==> s == old(self)@[ctx_id],
    {
        self.slots.remove(&ctx_id)
    }

    /// The sink in the slot of `ctx_id`, if the request is pending.
    pub fn sink(&self, ctx_id: u64) -> (sink: Option<&S>)
        ensures
            sink is Some <==> self@.contains_key(ctx_id),
            sink matches Some(s) ==> *s == self@[ctx_id],
    {
        self.slots.get(&ctx_id)
    }
}

/// Every pending context id lies below `next`, the id the counter hands out
/// next.
pub open spec fn issued_below<S>(pending: Map<u64, S>, next: u64) -> bool {
    forall|k: u64| pending.contains_key(k) ==> k < next
}

/// A request begun on a table whose pending ids all lie below the counter
/// takes an id that no pending request holds, so it displaces none, and the
/// table keeps that property; this holds until the counter reaches its last
/// value.
pub proof fn lemma_begin_takes_fresh_id<S>(pending: Map<u64, S>, next: u64, sink: S)
    requires
        issued_below(pending, next),
        next < u64::MAX,
    ensures
        !pending.contains_key(next),
        issued_below(pending.insert(next, sink), counter_after(next)),
{
}

/// Ending a request, by a refused dispatch or by its completion, empties its
/// slot for good: the table keeps its ids below the counter, and a request
/// begun afterwards never takes the ended id, so a late completion of the
/// ended request finds no slot.
pub proof fn lemma_ended_request_stays_ended<S>(pending: Map<u64, S>, next: u64, ctx_id: u64, sink: S)
    requires
        issued_below(pending, next),
        pending.contains_key(ctx_id),
        next < u64::MAX,
    ensures
        !pending.remove(ctx_id).contains_key(ctx_id),
        issued_below(pending.remove(ctx_id), next),
        !pending.remove(ctx_id).insert(next, sink).contains_key(ctx_id),
{
}

/// The counter's value after `n` ids have been handed out from `start`; it is
/// also the id handed out by the call after those `n`.
pub open spec fn counter_after_n(start: u64, n: nat) -> u64
    decreases n,
{
    if n == 0 {
        start
    } else {
        counter_after(counter_after_n(start, (n - 1) as nat))
    }
}

proof fn lemma_counter_after_n_adds(start: u64, n: nat)
    requires
        start + n <= u64::MAX,
    ensures
        counter_after_n(start, n) == start + n,
    decreases n,
{
    if n > 0 {
        lemma_counter_after_n_adds(start, (n - 1) as nat);
    }
}

/// Context ids are never reused: of the ids handed out one after another from
/// a counter at `start`, the `i`-th is `start + i`, so a later one is always
/// larger than an earlier one, and none is 0 when the counter starts at 1 or
/// above; this holds as long as the counter has not passed its last value.
pub proof fn lemma_ids_never_repeat(start: u64, i: nat, j: nat)
    requires
        i < j,
        start + j <= u64::MAX,
    ensures
        counter_after_n(start, i) == start + i,
        counter_after_n(start, i) < counter_after_n(start, j),
        start >= 1 ==> counter_after_n(start, i) != 0,
{
    lemma_counter_after_n_adds(start, i);
    lemma_counter_after_n_adds(start, j);
}

} // verus!
