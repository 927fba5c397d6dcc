//! Incremental list-mutation operations and their application to an
//! ordered mirror of timeline items.
//!
//! Operations address positions, not ids: an index or length refers to the
//! sequence as it stands when the operation is applied.

use std::sync::Arc;
use vstd::prelude::*;

use crate::item::TimelineItem;
use crate::item::share_item;

verus! {

/// One incremental mutation of the ordered item sequence.
#[derive(Clone, Debug)]
pub enum TimelineDiff {
    Append { values: Vec<Arc<TimelineItem>> },
    Clear,
    PushFront { value: Arc<TimelineItem> },
    PushBack { value: Arc<TimelineItem> },
    PopFront,
    PopBack,
    Insert { index: usize, value: Arc<TimelineItem> },
    SetItem { index: usize, value: Arc<TimelineItem> },
    Remove { index: usize },
    Truncate { length: usize },
    Reset { values: Vec<Arc<TimelineItem>> },
}

/// Ghost mirror of [`TimelineDiff`].
#[verifier::ext_equal]
pub enum TimelineDiffView {
    Append { values: Seq<Arc<TimelineItem>> },
    Clear,
    PushFront { value: Arc<TimelineItem> },
    PushBack { value: Arc<TimelineItem> },
    PopFront,
    PopBack,
    Insert { index: usize, value: Arc<TimelineItem> },
    SetItem { index: usize, value: Arc<TimelineItem> },
    Remove { index: usize },
    Truncate { length: usize },
    Reset { values: Seq<Arc<TimelineItem>> },
}

impl View for TimelineDiff {
    type V = TimelineDiffView;

    open spec fn view(&self) -> TimelineDiffView {
        match self {
            TimelineDiff::Append { values } => TimelineDiffView::Append { values: values@ },
            TimelineDiff::Clear => TimelineDiffView::Clear,
            TimelineDiff::PushFront { value } => TimelineDiffView::PushFront { value: *value },
            TimelineDiff::PushBack { value } => TimelineDiffView::PushBack { value: *value },
            TimelineDiff::PopFront => TimelineDiffView::PopFront,
            TimelineDiff::PopBack => TimelineDiffView::PopBack,
            TimelineDiff::Insert { index, value } => TimelineDiffView::Insert {
                index: *index,
                value: *value,
            },
            TimelineDiff::SetItem { index, value } => TimelineDiffView::SetItem {
                index: *index,
                value: *value,
            },
            TimelineDiff::Remove { index } => TimelineDiffView::Remove { index: *index },
            TimelineDiff::Truncate { length } => TimelineDiffView::Truncate { length: *length },
            TimelineDiff::Reset { values } => TimelineDiffView::Reset { values: values@ },
        }
    }
}

impl DeepView for TimelineDiff {
    type V = TimelineDiffView;

    open spec fn deep_view(&self) -> TimelineDiffView {
        self.view()
    }
}

/// Whether one operation addresses positions that exist in a sequence of
/// length `len`.
pub open spec fn diff_wf(d: TimelineDiffView, len: nat) -> bool {
    match d {
        TimelineDiffView::PopFront => len > 0,
        TimelineDiffView::PopBack => len > 0,
        TimelineDiffView::Insert { index, .. } => index <= len,
        TimelineDiffView::SetItem { index, .. } => index < len,
        TimelineDiffView::Remove { index } => index < len,
        TimelineDiffView::Truncate { length } => length <= len,
        _ => true,
    }
}

/// The sequence after one operation.
pub open spec fn spec_apply(
    s: Seq<Arc<TimelineItem>>,
    d: TimelineDiffView,
) -> Seq<Arc<TimelineItem>> {
    match d {
        TimelineDiffView::Append { values } => s + values,
        TimelineDiffView::Clear => Seq::empty(),
        TimelineDiffView::PushFront { value } => seq![value] + s,
        TimelineDiffView::PushBack { value } => s.push(value),
        TimelineDiffView::PopFront => s.drop_first(),
        TimelineDiffView::PopBack => s.drop_last(),
        TimelineDiffView::Insert { index, value } => s.insert(index as int, value),
        TimelineDiffView::SetItem { index, value } => s.update(index as int, value),
        TimelineDiffView::Remove { index } => s.remove(index as int),
        TimelineDiffView::Truncate { length } => s.take(length as int),
        TimelineDiffView::Reset { values } => values,
    }
}

/// The sequence after a run of operations, applied in order.
pub open spec fn spec_apply_all(
    s: Seq<Arc<TimelineItem>>,
    ds: Seq<TimelineDiffView>,
) -> Seq<Arc<TimelineItem>>
    decreases ds.len(),
{
    if ds.len() == 0 {
        s
    } else {
        spec_apply_all(spec_apply(s, ds[0]), ds.drop_first())
    }
}

/// Whether every operation of the run addresses positions that exist when
/// it is applied.
pub open spec fn batch_wf(s: Seq<Arc<TimelineItem>>, ds: Seq<TimelineDiffView>) -> bool
    decreases ds.len(),
{
    if ds.len() == 0 {
        true
    } else {
        diff_wf(ds[0], s.len()) && batch_wf(spec_apply(s, ds[0]), ds.drop_first())
    }
}

/// Appending one operation to a run applies it to the run's result.
pub proof fn lemma_apply_all_snoc(
    s: Seq<Arc<TimelineItem>>,
    ds: Seq<TimelineDiffView>,
    d: TimelineDiffView,
)
    ensures
        spec_apply_all(s, ds.push(d)) == spec_apply(spec_apply_all(s, ds), d),
    decreases ds.len(),
{
    if ds.len() == 0 {
        assert(ds.push(d).drop_first() =~= Seq::<TimelineDiffView>::empty());
        assert(ds.push(d)[0] == d);
        assert(spec_apply_all(spec_apply(s, d), Seq::<TimelineDiffView>::empty()) == spec_apply(
            s,
            d,
        ));
    } else {
        assert(ds.push(d)[0] == ds[0]);
        assert(ds.push(d).drop_first() =~= ds.drop_first().push(d));
        assert(spec_apply_all(s, ds.push(d)) == spec_apply_all(
            spec_apply(s, ds[0]),
            ds.push(d).drop_first(),
        ));
        lemma_apply_all_snoc(spec_apply(s, ds[0]), ds.drop_first(), d);
        assert(spec_apply_all(s, ds) == spec_apply_all(spec_apply(s, ds[0]), ds.drop_first()));
    }
}

/// The same for well-formedness: a run stays well-formed when an operation
/// that fits its result is appended.
pub proof fn lemma_batch_wf_snoc(
    s: Seq<Arc<TimelineItem>>,
    ds: Seq<TimelineDiffView>,
    d: TimelineDiffView,
)
    requires
        batch_wf(s, ds),
        diff_wf(d, spec_apply_all(s, ds).len()),
    ensures
        batch_wf(s, ds.push(d)),
    decreases ds.len(),
{
    if ds.len() == 0 {
        assert(ds.push(d).drop_first() =~= Seq::<TimelineDiffView>::empty());
        assert(ds.push(d)[0] == d);
        assert(batch_wf(spec_apply(s, d), Seq::<TimelineDiffView>::empty()));
        assert(spec_apply_all(s, ds) == s);
    } else {
        assert(ds.push(d)[0] == ds[0]);
        assert(ds.push(d).drop_first() =~= ds.drop_first().push(d));
        lemma_batch_wf_snoc(spec_apply(s, ds[0]), ds.drop_first(), d);
        assert(spec_apply_all(s, ds) == spec_apply_all(spec_apply(s, ds[0]), ds.drop_first()));
        assert(batch_wf(spec_apply(s, ds[0]), ds.drop_first().push(d)));
        assert(batch_wf(s, ds.push(d)) == (diff_wf(ds.push(d)[0], s.len()) && batch_wf(
            spec_apply(s, ds.push(d)[0]),
            ds.push(d).drop_first(),
        )));
    }
}

/// Applying a concatenation equals applying the parts in turn: batch
/// boundaries are not observable.
pub proof fn lemma_apply_all_concat(
    s: Seq<Arc<TimelineItem>>,
    ds1: Seq<TimelineDiffView>,
    ds2: Seq<TimelineDiffView>,
)
    ensures
        spec_apply_all(s, ds1 + ds2) == spec_apply_all(spec_apply_all(s, ds1), ds2),
    decreases ds1.len(),
{
    if ds1.len() == 0 {
        assert(ds1 + ds2 =~= ds2);
    } else {
        assert((ds1 + ds2)[0] == ds1[0]);
        assert((ds1 + ds2).drop_first() =~= ds1.drop_first() + ds2);
        lemma_apply_all_concat(spec_apply(s, ds1[0]), ds1.drop_first(), ds2);
    }
}

/// A run of operation batches, flattened into one run.
pub open spec fn flatten_batches(batches: Seq<Seq<TimelineDiffView>>) -> Seq<TimelineDiffView>
    decreases batches.len(),
{
    if batches.len() == 0 {
        Seq::empty()
    } else {
        batches[0] + flatten_batches(batches.drop_first())
    }
}

/// A mirror fed batch by batch.
pub open spec fn spec_apply_batches(
    s: Seq<Arc<TimelineItem>>,
    batches: Seq<Seq<TimelineDiffView>>,
) -> Seq<Arc<TimelineItem>>
    decreases batches.len(),
{
    if batches.len() == 0 {
        s
    } else {
        spec_apply_batches(spec_apply_all(s, batches[0]), batches.drop_first())
    }
}

/// Feeding a mirror batch by batch equals applying the flattened run of
/// operations in order: how operations are cut into batches cannot be
/// observed.
pub proof fn lemma_batching_unobservable(
    s: Seq<Arc<TimelineItem>>,
    batches: Seq<Seq<TimelineDiffView>>,
)
    ensures
        spec_apply_batches(s, batches) == spec_apply_all(s, flatten_batches(batches)),
    decreases batches.len(),
{
    if batches.len() == 0 {
    } else {
        lemma_apply_all_concat(s, batches[0], flatten_batches(batches.drop_first()));
        lemma_batching_unobservable(spec_apply_all(s, batches[0]), batches.drop_first());
    }
}

/// Applies one operation to the mirror.
pub fn apply_diff(items: &mut Vec<Arc<TimelineItem>>, diff: &TimelineDiff)
    requires
        diff_wf(diff@, old(items)@.len() as nat),
    ensures
        final(items)@ == spec_apply(old(items)@, diff@),
{
    match diff {
        TimelineDiff::Append { values } => {
            let mut i: usize = 0;
            while i < values.len()
                invariant
                    i <= values.len(),
                    items@ == old(items)@ + values@.take(i as int),
                decreases values.len() - i,
            {
                items.push(share_item(&values[i]));
                proof {
                    assert(old(items)@ + values@.take(i + 1) =~= (old(items)@ + values@.take(
                        i as int,
                    )).push(values@[i as int]));
                }
                i += 1;
            }
            proof {
                assert(values@.take(values@.len() as int) =~= values@);
            }
        },
        TimelineDiff::Clear => {
            items.clear();
            proof {
                assert(items@ =~= spec_apply(old(items)@, diff@));
            }
        },
        TimelineDiff::PushFront { value } => {
            items.insert(0, share_item(value));
            proof {
                assert(items@ =~= spec_apply(old(items)@, diff@));
            }
        },
        TimelineDiff::PushBack { value } => {
            items.push(share_item(value));
        },
        TimelineDiff::PopFront => {
            items.remove(0);
            proof {
                assert(items@ =~= spec_apply(old(items)@, diff@));
            }
        },
        TimelineDiff::PopBack => {
            items.pop();
            proof {
                assert(items@ =~= spec_apply(old(items)@, diff@));
            }
        },
        TimelineDiff::Insert { index, value } => {
            items.insert(*index, share_item(value));
        },
        TimelineDiff::SetItem { index, value } => {
            items.remove(*index);
            items.insert(*index, share_item(value));
            proof {
                assert(items@ =~= spec_apply(old(items)@, diff@));
            }
        },
        TimelineDiff::Remove { index } => {
            items.remove(*index);
        },
        TimelineDiff::Truncate { length } => {
            items.truncate(*length);
            proof {
                assert(items@ =~= spec_apply(old(items)@, diff@));
            }
        },
        TimelineDiff::Reset { values } => {
            items.clear();
            let mut i: usize = 0;
            while i < values.len()
                invariant
                    i <= values.len(),
                    items@ == values@.take(i as int),
                decreases values.len() - i,
            {
                items.push(share_item(&values[i]));
                proof {
                    assert(values@.take(i + 1) =~= values@.take(i as int).push(
                        values@[i as int],
                    ));
                }
                i += 1;
            }
            proof {
                assert(values@.take(values@.len() as int) =~= values@);
            }
        },
    }
}

/// Applies one batch of operations to the mirror, in order.
pub fn apply_batch(items: &mut Vec<Arc<TimelineItem>>, diffs: &Vec<TimelineDiff>)
    requires
        batch_wf(old(items)@, diffs.deep_view()),
    ensures
        final(items)@ == spec_apply_all(old(items)@, diffs.deep_view()),
{
    let ghost all: Seq<TimelineDiffView> = diffs.deep_view();
    proof {
        assert(all.take(0) =~= Seq::<TimelineDiffView>::empty());
        assert(spec_apply_all(old(items)@, all.take(0)) == old(items)@);
        assert(all.skip(0) =~= all);
    }
    let mut i: usize = 0;
    while i < diffs.len()
        invariant
            i <= diffs.len(),
            all == diffs.deep_view(),
            all.len() == diffs.len(),
            items@ == spec_apply_all(old(items)@, all.take(i as int)),
            batch_wf(old(items)@, all),
            batch_wf(items@, all.skip(i as int)),
        decreases diffs.len() - i,
    {
        proof {
            assert(all.skip(i as int)[0] == all[i as int]);
            assert(diffs@[i as int]@ == all[i as int]);
        }
        apply_diff(items, &diffs[i]);
        proof {
            lemma_apply_all_snoc(old(items)@, all.take(i as int), all[i as int]);
            assert(all.take(i + 1) =~= all.take(i as int).push(all[i as int]));
            assert(all.skip(i as int).drop_first() =~= all.skip(i + 1));
        }
        i += 1;
    }
    proof {
        assert(all.take(diffs.len() as int) =~= all);
    }
}

/// The kind of one operation.
#[derive(Clone, Copy, Debug, PartialEq, Eq, Structural)]
pub enum TimelineChange {
    Append,
    Clear,
    Insert,
    SetItem,
    Remove,
    PushBack,
    PushFront,
    PopBack,
    PopFront,
    Truncate,
    Reset,
}

/// The payload of an insert operation.
pub struct InsertData {
    pub index: u32,
    pub item: Arc<TimelineItem>,
}

/// The payload of a set operation.
pub struct SetData {
    pub index: u32,
    pub item: Arc<TimelineItem>,
}

impl TimelineDiff {
    /// The kind of this operation.
    pub fn change(&self) -> (r: TimelineChange)
        ensures
            r == (match self@ {
                TimelineDiffView::Append { .. } => TimelineChange::Append,
                TimelineDiffView::Clear => TimelineChange::Clear,
                TimelineDiffView::PushFront { .. } => TimelineChange::PushFront,
                TimelineDiffView::PushBack { .. } => TimelineChange::PushBack,
                TimelineDiffView::PopFront => TimelineChange::PopFront,
                TimelineDiffView::PopBack => TimelineChange::PopBack,
                TimelineDiffView::Insert { .. } => TimelineChange::Insert,
                TimelineDiffView::SetItem { .. } => TimelineChange::SetItem,
                TimelineDiffView::Remove { .. } => TimelineChange::Remove,
                TimelineDiffView::Truncate { .. } => TimelineChange::Truncate,
                TimelineDiffView::Reset { .. } => TimelineChange::Reset,
            }),
    {
        match self {
            TimelineDiff::Append { .. } => TimelineChange::Append,
            TimelineDiff::Clear => TimelineChange::Clear,
            TimelineDiff::PushFront { .. } => TimelineChange::PushFront,
            TimelineDiff::PushBack { .. } => TimelineChange::PushBack,
            TimelineDiff::PopFront => TimelineChange::PopFront,
            TimelineDiff::PopBack => TimelineChange::PopBack,
            TimelineDiff::Insert { .. } => TimelineChange::Insert,
            TimelineDiff::SetItem { .. } => TimelineChange::SetItem,
            TimelineDiff::Remove { .. } => TimelineChange::Remove,
            TimelineDiff::Truncate { .. } => TimelineChange::Truncate,
            TimelineDiff::Reset { .. } => TimelineChange::Reset,
        }
    }

    /// The appended values, for an append operation.
    pub fn append(self) -> (r: Option<Vec<Arc<TimelineItem>>>)
        ensures
            match r {
                Some(values) => self@ == (TimelineDiffView::Append { values: values@ }),
                None => !(self@ is Append),
            },
    {
        match self {
            TimelineDiff::Append { values } => Some(values),
            _ => None,
        }
    }

    /// The insertion payload, for an insert operation.
    pub fn insert(self) -> (r: Option<InsertData>)
        requires
            self@ matches TimelineDiffView::Insert { index, .. } ==> index <= u32::MAX as usize,
        ensures
            match r {
                Some(data) => self@ == (TimelineDiffView::Insert {
                    index: data.index as usize,
                    value: data.item,
                }),
                None => !(self@ is Insert),
            },
    {
        match self {
            TimelineDiff::Insert { index, value } => Some(
                InsertData { index: index as u32, item: value },
            ),
            _ => None,
        }
    }

    /// The replacement payload, for a set operation.
    pub fn set(self) -> (r: Option<SetData>)
        requires
            self@ matches TimelineDiffView::SetItem { index, .. } ==> index <= u32::MAX as usize,
        ensures
            match r {
                Some(data) => self@ == (TimelineDiffView::SetItem {
                    index: data.index as usize,
                    value: data.item,
                }),
                None => !(self@ is SetItem),
            },
    {
        match self {
            TimelineDiff::SetItem { index, value } => Some(SetData { index: index as u32, item: value }),
            _ => None,
        }
    }

    /// The removed position, for a remove operation.
    pub fn remove(&self) -> (r: Option<u32>)
        requires
            self@ matches TimelineDiffView::Remove { index } ==> index <= u32::MAX as usize,
        ensures
            match r {
                Some(index) => self@ == (TimelineDiffView::Remove { index: index as usize }),
                None => !(self@ is Remove),
            },
    {
        match self {
            TimelineDiff::Remove { index } => Some(*index as u32),
            _ => None,
        }
    }

    /// The pushed value, for a push-back operation.
    pub fn push_back(self) -> (r: Option<Arc<TimelineItem>>)
        ensures
            match r {
                Some(value) => self@ == (TimelineDiffView::PushBack { value }),
                None => !(self@ is PushBack),
            },
    {
        match self {
            TimelineDiff::PushBack { value } => Some(value),
            _ => None,
        }
    }

    /// The pushed value, for a push-front operation.
    pub fn push_front(self) -> (r: Option<Arc<TimelineItem>>)
        ensures
            match r {
                Some(value) => self@ == (TimelineDiffView::PushFront { value }),
                None => !(self@ is PushFront),
            },
    {
        match self {
            TimelineDiff::PushFront { value } => Some(value),
            _ => None,
        }
    }

    /// The replacement values, for a reset operation.
    pub fn reset(self) -> (r: Option<Vec<Arc<TimelineItem>>>)
        ensures
            match r {
                Some(values) => self@ == (TimelineDiffView::Reset { values: values@ }),
                None => !(self@ is Reset),
            },
    {
        match self {
            TimelineDiff::Reset { values } => Some(values),
            _ => None,
        }
    }

    /// The kept length, for a truncate operation.
    pub fn truncate(&self) -> (r: Option<u32>)
        requires
            self@ matches TimelineDiffView::Truncate { length } ==> length <= u32::MAX as usize,
        ensures
            match r {
                Some(length) => self@ == (TimelineDiffView::Truncate { length: length as usize }),
                None => !(self@ is Truncate),
            },
    {
        match self {
            TimelineDiff::Truncate { length } => Some(*length as u32),
            _ => None,
        }
    }

    /// Duplicates the operation; the copy has the same view.
    pub fn dup(&self) -> (r: TimelineDiff)
        ensures
            r@ == self@,
    {
        match self {
            TimelineDiff::Append { values } => TimelineDiff::Append {
                values: share_items(values),
            },
            TimelineDiff::Clear => TimelineDiff::Clear,
            TimelineDiff::PushFront { value } => TimelineDiff::PushFront {
                value: share_item(value),
            },
            TimelineDiff::PushBack { value } => TimelineDiff::PushBack {
                value: share_item(value),
            },
            TimelineDiff::PopFront => TimelineDiff::PopFront,
            TimelineDiff::PopBack => TimelineDiff::PopBack,
            TimelineDiff::Insert { index, value } => TimelineDiff::Insert {
                index: *index,
                value: share_item(value),
            },
            TimelineDiff::SetItem { index, value } => TimelineDiff::SetItem {
                index: *index,
                value: share_item(value),
            },
            TimelineDiff::Remove { index } => TimelineDiff::Remove { index: *index },
            TimelineDiff::Truncate { length } => TimelineDiff::Truncate { length: *length },
            TimelineDiff::Reset { values } => TimelineDiff::Reset {
                values: share_items(values),
            },
        }
    }
}

/// Duplicates a vector of shared items; the copy holds the same items.
pub fn share_items(items: &Vec<Arc<TimelineItem>>) -> (r: Vec<Arc<TimelineItem>>)
    ensures
        r@ == items@,
{
    let mut out: Vec<Arc<TimelineItem>> = Vec::new();
    let mut i: usize = 0;
    while i < items.len()
        invariant
            i <= items.len(),
            out@ == items@.take(i as int),
        decreases items.len() - i,
    {
        out.push(share_item(&items[i]));
        proof {
            assert(items@.take(i + 1) =~= items@.take(i as int).push(items@[i as int]));
        }
        i += 1;
    }
    proof {
        assert(items@.take(items@.len() as int) =~= items@);
    }
    out
}

} // verus!
