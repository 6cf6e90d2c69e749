//! The idle-callback queue: deferred work that must run on the UI thread.
//!
//! Producers on any thread push an item and learn whether the UI thread
//! needs a wake; the UI thread periodically drains the whole queue at once
//! and runs the batch in insertion order. Items pushed while a batch runs
//! land in the queue again and wait for the next drain, which keeps a
//! self-rescheduling callback from starving the loop.
//!
//! The embedder owns the mutex around the queue and the platform wake
//! primitive; this module owns the queue discipline itself.

use vstd::prelude::*;

use crate::geometry::{WindowPoint, WindowSize};
use crate::tokens::IdleToken;

verus! {

/// A geometry mutation that must not run inside an active native layout
/// callback; it is queued and applied from the next idle drain instead.
#[derive(Clone, Copy, Debug, PartialEq, Eq, Structural)]
pub enum DeferredOp {
    SetSize(WindowSize),
    SetPosition(WindowPoint),
}

/// One queued piece of idle work.
#[derive(Clone, Copy, Debug, PartialEq, Eq, Structural)]
pub enum IdleKind {
    /// A single-shot closure held by the embedder under this number; the
    /// drain hands the number back so the embedder can look the closure up
    /// and run it with handler access.
    Callback(u64),
    /// Forwarded to the handler's generic idle hook.
    Token(IdleToken),
    /// A queued geometry mutation.
    DeferredOp(DeferredOp),
}

/// A queue of idle work in insertion order.
pub struct IdleQueue<T> {
    items: Vec<T>,
}

impl<T> IdleQueue<T> {
    pub closed spec fn view(self) -> Seq<T> {
        self.items@
    }

    pub fn new() -> (q: IdleQueue<T>)
        ensures
            q@ == Seq::<T>::empty(),
    {
        IdleQueue { items: Vec::new() }
    }

    pub fn is_empty(&self) -> (b: bool)
        ensures
            b == (self@.len() == 0),
    {
        self.items.len() == 0
    }

    pub fn len(&self) -> (n: usize)
        ensures
            n == self@.len(),
    {
        self.items.len()
    }

    /// Append one item. The result says whether the queue was empty before
    /// the push: exactly then must the caller wake the UI thread, so a
    /// queue that is already pending never triggers a redundant wake.
    pub fn push(&mut self, item: T) -> (wake: bool)
        requires
            old(self)@.len() < usize::MAX,
        ensures
            final(self)@ == old(self)@.push(item),
            wake == (old(self)@.len() == 0),
    {
        let wake = self.items.len() == 0;
        self.items.push(item);
        wake
    }

    /// Take the whole queue at once, leaving it empty. The batch holds
    /// every item pushed so far, each exactly once, in insertion order;
    /// items pushed after this call belong to the next batch.
    pub fn drain(&mut self) -> (batch: Vec<T>)
        ensures
            batch@ == old(self)@,
            final(self)@ == Seq::<T>::empty(),
    {
        let mut batch: Vec<T> = Vec::new();
        std::mem::swap(&mut batch, &mut self.items);
        batch
    }
}

/// The queue contents after pushing each item of `items` in turn onto a
/// queue holding `q`.
pub open spec fn spec_enqueue_all<T>(q: Seq<T>, items: Seq<T>) -> Seq<T>
    decreases items.len(),
{
    if items.len() == 0 {
        q
    } else {
        spec_enqueue_all(q.push(items[0]), items.drop_first())
    }
}

/// Any number of pushes, from any interleaving of producers, appends the
/// pushed items behind what the queue already held, in push order. With
/// [`IdleQueue::drain`] returning the whole contents and clearing them, it
/// follows that every pushed item is drained exactly once, in the order of
/// the pushes; work pushed while a drained batch runs sits behind an empty
/// prefix and makes up exactly the next batch.
pub proof fn lemma_enqueue_all_appends<T>(q: Seq<T>, items: Seq<T>)
    ensures
        spec_enqueue_all(q, items) == q + items,
    decreases items.len(),
{
    if items.len() == 0 {
        assert(spec_enqueue_all(q, items) =~= q + items);
    } else {
        lemma_enqueue_all_appends(q.push(items[0]), items.drop_first());
        assert(q.push(items[0]) + items.drop_first() =~= q + items);
    }
}

/// Every interleaving of producers keeps each producer's own order: if one
/// producer's items stand at positions `i` and `j` of the queue in the
/// order it pushed them, a later push moves neither, so the drained batch
/// holds them at those same positions, the earlier one first.
pub proof fn lemma_push_preserves_order<T>(q: Seq<T>, item: T, i: int, j: int)
    requires
        0 <= i < j < q.len(),
    ensures
        q.push(item)[i] == q[i],
        q.push(item)[j] == q[j],
        q.push(item).len() == q.len() + 1,
{
}

} // verus!
