//! The diff stream projection: a consistent ordered view of timeline
//! items, kept current by an append-only run of operations, with
//! independent listener subscriptions.
//!
//! A new listener receives the current items as one synthetic reset before
//! any operation produced after its subscription; replaying that reset and
//! the feed against any mirror reproduces the projection exactly.

use std::sync::Arc;
use vstd::prelude::*;

use crate::diff::TimelineDiff;
use crate::diff::TimelineDiffView;
use crate::diff::apply_diff;
use crate::diff::batch_wf;
use crate::diff::diff_wf;
use crate::diff::lemma_apply_all_concat;
use crate::diff::lemma_apply_all_snoc;
use crate::diff::lemma_batch_wf_snoc;
use crate::diff::share_items;
use crate::diff::spec_apply;
use crate::diff::spec_apply_all;
use crate::item::TimelineItem;

verus! {

/// A listener callback, implemented by consumers of the projection; each
/// delivered batch holds the operations in production order.
pub trait TimelineListener {
    fn on_update(&self, diff: Vec<TimelineDiff>);
}

/// One listener's independent cursor into the projection's operation run.
///
/// Cancelling stops delivery and has no effect on the projection itself.
pub struct TimelineSubscription {
    pub cursor: usize,
    pub active: bool,
}

impl TimelineSubscription {
    /// Stops delivery for this subscription.
    pub fn cancel(&mut self)
        ensures
            !final(self).active,
            final(self).cursor == old(self).cursor,
    {
        self.active = false;
    }
}

/// The projection: the ordered items, and the operation run that produced
/// them from an empty sequence.
pub struct TimelineProjection {
    pub items: Vec<Arc<TimelineItem>>,
    pub log: Vec<TimelineDiff>,
}

impl TimelineProjection {
    /// The projection's invariant: the run is position-correct throughout,
    /// and the items equal its replay from empty.
    pub open spec fn wf(self) -> bool {
        &&& batch_wf(Seq::empty(), self.log.deep_view())
        &&& self.items@ == spec_apply_all(Seq::empty(), self.log.deep_view())
    }

    /// An empty projection with an empty history.
    pub fn new() -> (r: TimelineProjection)
        ensures
            r.wf(),
            r.items@ == Seq::<Arc<TimelineItem>>::empty(),
            r.log@ == Seq::<TimelineDiff>::empty(),
    {
        let r = TimelineProjection { items: Vec::new(), log: Vec::new() };
        proof {
            assert(r.log.deep_view() =~= Seq::<TimelineDiffView>::empty());
            assert(spec_apply_all(Seq::empty(), r.log.deep_view())
                == Seq::<Arc<TimelineItem>>::empty());
        }
        r
    }

    /// Applies one operation to the items and records it in the run.
    pub fn handle_diff(&mut self, diff: TimelineDiff)
        requires
            old(self).wf(),
            diff_wf(diff@, old(self).items@.len() as nat),
        ensures
            final(self).wf(),
            final(self).items@ == spec_apply(old(self).items@, diff@),
            final(self).log.deep_view() == old(self).log.deep_view().push(diff@),
    {
        let ghost pre: Seq<TimelineDiffView> = self.log.deep_view();
        let ghost d: TimelineDiffView = diff@;
        apply_diff(&mut self.items, &diff);
        self.log.push(diff);
        proof {
            assert(self.log.deep_view() =~= pre.push(d));
            lemma_batch_wf_snoc(Seq::empty(), pre, d);
            lemma_apply_all_snoc(Seq::empty(), pre, d);
        }
    }

    /// A copy of the current items; the copies are handles to the same
    /// shared items.
    pub fn snapshot(&self) -> (r: Vec<Arc<TimelineItem>>)
        ensures
            r@ == self.items@,
    {
        share_items(&self.items)
    }

    /// Registers a listener: the current items, packaged as one synthetic
    /// reset, and a cursor standing just after everything produced so far.
    ///
    /// The reset must be delivered before any later batch; each
    /// subscription is independent of every other.
    pub fn subscribe(&self) -> (r: (TimelineDiff, TimelineSubscription))
        ensures
            r.0@ == (TimelineDiffView::Reset { values: self.items@ }),
            r.1.cursor == self.log@.len(),
            r.1.active,
    {
        let snapshot = TimelineDiff::Reset { values: share_items(&self.items) };
        let subscription = TimelineSubscription { cursor: self.log.len(), active: true };
        (snapshot, subscription)
    }

    /// Delivers the operations produced since the subscription's cursor,
    /// in production order, and advances the cursor past them. Returns
    /// nothing when the subscription is cancelled or already current.
    pub fn next_batch(&self, sub: &mut TimelineSubscription) -> (r: Option<Vec<TimelineDiff>>)
        requires
            old(sub).cursor <= self.log@.len(),
        ensures
            final(sub).active == old(sub).active,
            !old(sub).active ==> r is None && final(sub).cursor == old(sub).cursor,
            old(sub).active && old(sub).cursor == self.log@.len() ==> r is None
                && final(sub).cursor == old(sub).cursor,
            old(sub).active && old(sub).cursor < self.log@.len() ==> (match r {
                Some(batch) => batch.deep_view() == self.log.deep_view().subrange(
                    old(sub).cursor as int,
                    self.log@.len() as int,
                ) && final(sub).cursor == self.log@.len(),
                None => false,
            }),
    {
        if !sub.active {
            return None;
        }
        if sub.cursor == self.log.len() {
            return None;
        }
        let mut batch: Vec<TimelineDiff> = Vec::new();
        let mut i: usize = sub.cursor;
        let ghost start: int = sub.cursor as int;
        while i < self.log.len()
            invariant
                0 <= start <= i <= self.log@.len(),
                batch@.len() == i - start,
                forall|j: int|
                    0 <= j < batch@.len() ==> (#[trigger] batch@[j])@ == self.log@[start + j]@,
            decreases self.log@.len() - i,
        {
            let next = self.log[i].dup();
            batch.push(next);
            i += 1;
        }
        sub.cursor = self.log.len();
        proof {
            let target = self.log.deep_view().subrange(start, self.log@.len() as int);
            assert forall|j: int| 0 <= j < batch@.len() implies batch.deep_view()[j]
                == target[j] by {
                assert(batch@[j]@ == self.log@[start + j]@);
            }
            assert(batch.deep_view() =~= target);
        }
        Some(batch)
    }
}

/// Snapshot-before-feed: delivering a fresh listener the current items as
/// one synthetic reset, then every later operation in order, leaves any
/// mirror equal to replaying the producer's whole history from empty.
pub proof fn lemma_snapshot_then_feed(
    pre: Seq<TimelineDiffView>,
    feed: Seq<TimelineDiffView>,
    mirror: Seq<Arc<TimelineItem>>,
)
    ensures
        spec_apply_all(
            mirror,
            seq![
                TimelineDiffView::Reset { values: spec_apply_all(Seq::empty(), pre) },
            ] + feed,
        ) == spec_apply_all(Seq::empty(), pre + feed),
{
    let reset = TimelineDiffView::Reset { values: spec_apply_all(Seq::empty(), pre) };
    let delivered = seq![reset] + feed;
    assert(delivered[0] == reset);
    assert(delivered.drop_first() =~= feed);
    assert(delivered.len() > 0);
    assert(spec_apply_all(mirror, delivered) == spec_apply_all(
        spec_apply(mirror, reset),
        delivered.drop_first(),
    ));
    assert(spec_apply(mirror, reset) == spec_apply_all(Seq::empty(), pre));
    lemma_apply_all_concat(Seq::empty(), pre, feed);
}

} // verus!
