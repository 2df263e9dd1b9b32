//! The process-wide registry of requests waiting for the native bridge: one
//! id counter shared by the three tables of pending completions, streams and
//! image generations, with the invariant that keeps every new id fresh.

use vstd::prelude::*;

use crate::bridge::{dispatch_outcome, dispatch_result, NativeCall};
use crate::error::{outcome, PluginError};
use crate::session::{
    counter_after, issued_below, next_ctx_id, CompletionPayload, CtxCounter, PendingTable,
};

verus! {

/// The three kinds of request that wait for a completion.
#[derive(Clone, Copy, Debug, PartialEq, Eq, Structural)]
pub enum PendingKind {
    /// A one-shot response or an image availability report.
    Completion,
    /// A streamed response.
    Stream,
    /// An image generation.
    Image,
}

/// The pending requests of every kind and the counter their ids come from.
pub struct PendingRequests<S> {
    counter: CtxCounter,
    /// Set once the counter has handed out its last value and wrapped.
    exhausted: Ghost<bool>,
    completions: PendingTable<S>,
    streams: PendingTable<S>,
    images: PendingTable<S>,
}

impl<S> PendingRequests<S> {
    /// The requests of `kind` that wait, by context id.
    pub closed spec fn pending(&self, kind: PendingKind) -> Map<u64, S> {
        match kind {
            PendingKind::Completion => self.completions@,
            PendingKind::Stream => self.streams@,
            PendingKind::Image => self.images@,
        }
    }

    /// The id the next request gets.
    pub closed spec fn next_id(&self) -> u64 {
        self.counter@
    }

    /// Whether the counter has handed out its last value, after which ids
    /// repeat (as an atomic `fetch_add` wraps).
    pub closed spec fn exhausted(&self) -> bool {
        self.exhausted@
    }

    /// Until the counter wraps, every pending id of every kind lies below the
    /// id handed out next.
    #[verifier::type_invariant]
    closed spec fn ids_fresh(self) -> bool {
        !self.exhausted@ ==> {
            &&& issued_below(self.completions@, self.counter@)
            &&& issued_below(self.streams@, self.counter@)
            &&& issued_below(self.images@, self.counter@)
        }
    }

    /// A registry with nothing pending, whose first id is 1.
    pub fn new() -> (r: PendingRequests<S>)
        ensures
            forall|k: PendingKind| r.pending(k) == Map::<u64, S>::empty(),
            r.next_id() == 1,
            !r.exhausted(),
    {
        PendingRequests {
            counter: CtxCounter::new(),
            exhausted: Ghost(false),
            completions: PendingTable::new(),
            streams: PendingTable::new(),
            images: PendingTable::new(),
        }
    }

    /// The number of pending requests of `kind`.
    pub fn len(&self, kind: PendingKind) -> (n: usize)
        ensures
            n == self.pending(kind).len(),
    {
        match kind {
            PendingKind::Completion => self.completions.len(),
            PendingKind::Stream => self.streams.len(),
            PendingKind::Image => self.images.len(),
        }
    }

    /// Swaps the table of `kind` with `table`.
    fn swap_table(&mut self, kind: PendingKind, table: &mut PendingTable<S>)
        requires
            !old(self).exhausted() ==> issued_below(old(table)@, old(self).next_id()),
        ensures
            final(self).pending(kind) == old(table)@,
            final(table)@ == old(self).pending(kind),
            forall|k: PendingKind| k != kind ==> final(self).pending(k) == old(self).pending(k),
            final(self).next_id() == old(self).next_id(),
            final(self).exhausted() == old(self).exhausted(),
    {
        proof {
            use_type_invariant(&*self);
        }
        match kind {
            PendingKind::Completion => std::mem::swap(table, &mut self.completions),
            PendingKind::Stream => std::mem::swap(table, &mut self.streams),
            PendingKind::Image => std::mem::swap(table, &mut self.images),
        }
    }

    /// Starts a request of `kind`: it takes the next context id and its sink
    /// is registered under it. Until the counter wraps, that id is held by no
    /// pending request of any kind, so the new request displaces none.
    pub fn begin(&mut self, kind: PendingKind, sink: S) -> (ctx_id: u64)
        ensures
            ctx_id == old(self).next_id(),
            final(self).next_id() == counter_after(old(self).next_id()),
            final(self).exhausted() == (old(self).exhausted() || ctx_id == u64::MAX),
            !old(self).exhausted() ==> forall|k: PendingKind|
                !(#[trigger] old(self).pending(k)).contains_key(ctx_id),
            final(self).pending(kind) == old(self).pending(kind).insert(ctx_id, sink),
            forall|k: PendingKind| k != kind ==> final(self).pending(k) == old(self).pending(k),
    {
        proof {
            use_type_invariant(&*self);
        }
        let ghost before = *self;
        assert forall|k: PendingKind| !before.exhausted() implies !(#[trigger] before.pending(
            k,
        )).contains_key(before.next_id()) by {}
        let mut table: PendingTable<S> = PendingTable::new();
        self.swap_table(kind, &mut table);
        proof {
            use_type_invariant(&*self);
        }
        let ghost wrapped: bool = self.exhausted@ || self.counter@ == u64::MAX;
        self.exhausted = Ghost(wrapped);
        let ctx_id = next_ctx_id(&mut self.counter);
        table.register(ctx_id, sink);
        self.swap_table(kind, &mut table);
        ctx_id
    }

    /// Judges the dispatch of the request `ctx_id` of `kind`: a refused
    /// request's slot is emptied, since no completion will come for it.
    pub fn settle(&mut self, kind: PendingKind, call: NativeCall, ctx_id: u64, status: i32) -> (r:
        Result<(), PluginError>)
        ensures
            outcome(r) == dispatch_outcome(call, status),
            status == 0 ==> final(self).pending(kind) == old(self).pending(kind),
            status != 0 ==> final(self).pending(kind) == old(self).pending(kind).remove(ctx_id),
            forall|k: PendingKind| k != kind ==> final(self).pending(k) == old(self).pending(k),
            final(self).next_id() == old(self).next_id(),
            final(self).exhausted() == old(self).exhausted(),
    {
        let r = dispatch_result(call, status);
        if status != 0 {
            let _ = self.withdraw(kind, ctx_id);
        }
        r
    }

    fn withdraw(&mut self, kind: PendingKind, ctx_id: u64) -> (sink: Option<S>)
        ensures
            final(self).pending(kind) == old(self).pending(kind).remove(ctx_id),
            sink is Some <==> old(self).pending(kind).contains_key(ctx_id),
            sink matches Some(s) ==> s == old(self).pending(kind)[ctx_id],
            forall|k: PendingKind| k != kind ==> final(self).pending(k) == old(self).pending(k),
            final(self).next_id() == old(self).next_id(),
            final(self).exhausted() == old(self).exhausted(),
    {
        proof {
            use_type_invariant(&*self);
        }
        let mut table: PendingTable<S> = PendingTable::new();
        self.swap_table(kind, &mut table);
        let sink = table.withdraw(ctx_id);
        self.swap_table(kind, &mut table);
        sink
    }

    /// Ends the request `ctx_id` of `kind` on the bridge's completion callback:
    /// the slot is emptied and its sink is handed back with the payload to
    /// deliver. A request that is not pending (never begun, or already ended)
    /// yields nothing.
    pub fn complete(&mut self, kind: PendingKind, ctx_id: u64, status: i32, text: String) -> (r:
        Option<(S, CompletionPayload)>)
        ensures
            final(self).pending(kind) == old(self).pending(kind).remove(ctx_id),
            r is Some <==> old(self).pending(kind).contains_key(ctx_id),
            r matches Some(d) ==> {
                &&& d.0 == old(self).pending(kind)[ctx_id]
                &&& d.1.ok == (status == 0)
                &&& d.1.text == text
            },
            forall|k: PendingKind| k != kind ==> final(self).pending(k) == old(self).pending(k),
            final(self).next_id() == old(self).next_id(),
            final(self).exhausted() == old(self).exhausted(),
    {
        match self.withdraw(kind, ctx_id) {
            Some(sink) => Some((sink, CompletionPayload { ok: status == 0, text })),
            None => None,
        }
    }

    /// Where a streamed chunk goes: the sink of `ctx_id` among the requests of
    /// `kind`, for a non-empty chunk of a pending request. Empty chunks and
    /// unknown requests go nowhere.
    pub fn chunk_sink(&self, kind: PendingKind, ctx_id: u64, chunk: &str) -> (r: Option<&S>)
        ensures
            r is Some <==> (chunk@.len() > 0 && self.pending(kind).contains_key(ctx_id)),
            r matches Some(s) ==> *s == self.pending(kind)[ctx_id],
    {
        if chunk.is_empty() {
            None
        } else {
            match kind {
                PendingKind::Completion => self.completions.sink(ctx_id),
                PendingKind::Stream => self.streams.sink(ctx_id),
                PendingKind::Image => self.images.sink(ctx_id),
            }
        }
    }
}

} // verus!
