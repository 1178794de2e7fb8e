//! The admission list of pending actions, each with the handle its result goes to.
use vstd::prelude::*;

use crate::types::{kind_of, Action, ActionKind};

verus! {

/// Pending actions in order of submission. The worker takes the most recently submitted
/// one first.
pub struct ActionQueue<H> {
    entries: Vec<(Action, H)>,
}

/// Whether a pending entry survives pruning of kind `k`.
pub open spec fn not_of_kind<H>(k: ActionKind) -> spec_fn((Action, H)) -> bool {
    |e: (Action, H)| kind_of(e.0) != k
}

/// The pending entries that are not of kind `k`, in their order.
pub open spec fn without_kind<H>(s: Seq<(Action, H)>, k: ActionKind) -> Seq<(Action, H)> {
    s.filter(not_of_kind(k))
}

impl<H> View for ActionQueue<H> {
    type V = Seq<(Action, H)>;

    closed spec fn view(&self) -> Seq<(Action, H)> {
        self.entries@
    }
}

impl<H> ActionQueue<H> {
    /// An empty queue.
    pub fn new() -> (r: ActionQueue<H>)
        ensures
            r@ == Seq::<(Action, H)>::empty(),
    {
        ActionQueue { entries: Vec::new() }
    }

    /// The number of pending entries.
    pub fn len(&self) -> (r: usize)
        ensures
            r == self@.len(),
    {
        self.entries.len()
    }

    /// Admits an action with the handle its result goes to.
    pub fn queue_action(&mut self, action: Action, handle: H)
        ensures
            final(self)@ == old(self)@.push((action, handle)),
    {
        self.entries.push((action, handle));
    }

    /// Takes the most recently submitted pending entry.
    pub fn take_next(&mut self) -> (r: Option<(Action, H)>)
        ensures
            old(self)@.len() == 0 ==> r is None && final(self)@ == old(self)@,
            old(self)@.len() > 0 ==> r == Some(old(self)@.last()) && final(self)@ == old(self)@.drop_last(),
    {
        self.entries.pop()
    }

    /// Removes every pending entry whose action is of kind `kind`, keeping the order of
    /// the others; returns how many were removed.
    pub fn prune_kind(&mut self, kind: ActionKind) -> (r: usize)
        ensures
            final(self)@ == without_kind(old(self)@, kind),
            r == old(self)@.len() - final(self)@.len(),
    {
        let ghost orig = self.entries@;
        let mut rest: Vec<(Action, H)> = Vec::new();
        std::mem::swap(&mut self.entries, &mut rest);
        let n = rest.len();
        let mut i: usize = 0;
        assert(orig.subrange(0, 0).filter(not_of_kind(kind)) =~= Seq::<(Action, H)>::empty());
        while i < n
            invariant
                n == orig.len(),
                i <= n,
                rest@ == orig.subrange(i as int, n as int),
                self.entries@ == orig.subrange(0, i as int).filter(not_of_kind(kind)),
                self.entries@.len() <= i,
            decreases n - i,
        {
            let e = rest.remove(0);
            let ghost pre = orig.subrange(0, i + 1);
            assert(pre =~= orig.subrange(0, i as int).push(e));
            proof {
                orig.subrange(0, i as int).lemma_filter_push(e, not_of_kind(kind));
            }
            assert(rest@ =~= orig.subrange(i + 1, n as int));
            if e.0.kind() != kind {
                self.entries.push(e);
            }
            assert(self.entries@ == pre.filter(not_of_kind(kind)));
            i = i + 1;
        }
        assert(orig.subrange(0, n as int) =~= orig);
        n - self.entries.len()
    }
}

} // verus!
