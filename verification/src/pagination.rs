//! The pagination controller: drives backward and forward expansion of
//! the visible window and reports its status to subscribers.
//!
//! The network requests themselves are the collaborator's work; the
//! controller validates what is allowed in the current focus, tracks the
//! status history, and hands each subscriber the current status before
//! any later update.

use vstd::prelude::*;

use crate::error::ClientError;

verus! {

/// The status of live back-pagination.
#[derive(Clone, Copy, Debug, PartialEq, Eq, Structural)]
pub enum LiveBackPaginationStatus {
    /// Not paginating; whether the start of the timeline was reached.
    Idle { hit_start_of_timeline: bool },
    /// A back-pagination request is running.
    Paginating,
}

/// A status listener callback, implemented by consumers.
pub trait PaginationStatusListener {
    fn on_update(&self, status: LiveBackPaginationStatus);
}

/// How the timeline is focused: following the live feed, or centred on
/// one event.
#[derive(Clone, Copy, Debug, PartialEq, Eq, Structural)]
pub enum TimelineFocus {
    Live,
    Event,
}

/// One subscriber's cursor into the status history.
pub struct PaginationStatusSubscription {
    pub cursor: usize,
    pub active: bool,
}

impl PaginationStatusSubscription {
    /// Stops delivery for this subscription.
    pub fn cancel(&mut self)
        ensures
            !final(self).active,
            final(self).cursor == old(self).cursor,
    {
        self.active = false;
    }
}

/// The pagination controller: the focus, and the full status history with
/// the current status last.
pub struct PaginationController {
    pub focus: TimelineFocus,
    pub statuses: Vec<LiveBackPaginationStatus>,
}

impl PaginationController {
    /// The controller always holds at least its current status.
    pub open spec fn wf(self) -> bool {
        self.statuses@.len() > 0
    }

    /// A fresh controller: idle, with the start of history not reached.
    pub fn new(focus: TimelineFocus) -> (r: PaginationController)
        ensures
            r.wf(),
            r.focus == focus,
            r.statuses@ == seq![
                LiveBackPaginationStatus::Idle { hit_start_of_timeline: false },
            ],
    {
        let mut statuses: Vec<LiveBackPaginationStatus> = Vec::new();
        statuses.push(LiveBackPaginationStatus::Idle { hit_start_of_timeline: false });
        proof {
            assert(statuses@ =~= seq![
                LiveBackPaginationStatus::Idle { hit_start_of_timeline: false },
            ]);
        }
        PaginationController { focus, statuses }
    }

    /// The current status.
    pub fn current_status(&self) -> (r: LiveBackPaginationStatus)
        requires
            self.wf(),
        ensures
            r == self.statuses@.last(),
    {
        self.statuses[self.statuses.len() - 1]
    }

    /// Subscribes to the live back-pagination status: the current status,
    /// to be delivered before any later update, and an independent
    /// cursor. Only a live timeline carries this status.
    pub fn subscribe_to_back_pagination_status(&self) -> (r: Result<
        (LiveBackPaginationStatus, PaginationStatusSubscription),
        ClientError,
    >)
        requires
            self.wf(),
        ensures
            r is Ok <==> self.focus == TimelineFocus::Live,
            r matches Err(e) ==> e is Generic,
            r matches Ok(p) ==> p.0 == self.statuses@.last() && p.1.cursor == self.statuses@.len()
                && p.1.active,
    {
        match self.focus {
            TimelineFocus::Live => {
                let initial = self.statuses[self.statuses.len() - 1];
                let subscription = PaginationStatusSubscription {
                    cursor: self.statuses.len(),
                    active: true,
                };
                Ok((initial, subscription))
            },
            TimelineFocus::Event => Err(
                ClientError::Generic {
                    message: String::from_str(
                        "can't subscribe to the back-pagination status on a focused timeline",
                    ),
                },
            ),
        }
    }

    /// Delivers the statuses recorded since the subscription's cursor, in
    /// order, and advances the cursor past them. Returns nothing when the
    /// subscription is cancelled or already current.
    pub fn next_statuses(&self, sub: &mut PaginationStatusSubscription) -> (r: Option<
        Vec<LiveBackPaginationStatus>,
    >)
        requires
            old(sub).cursor <= self.statuses@.len(),
        ensures
            final(sub).active == old(sub).active,
            !old(sub).active ==> r is None && final(sub).cursor == old(sub).cursor,
            old(sub).active && old(sub).cursor == self.statuses@.len() ==> r is None && final(sub).cursor == old(sub).cursor,
            old(sub).active && old(sub).cursor < self.statuses@.len() ==> (match r {
                Some(batch) => batch@ == self.statuses@.subrange(
                    old(sub).cursor as int,
                    self.statuses@.len() as int,
                ) && final(sub).cursor == self.statuses@.len(),
                None => false,
            }),
    {
        if !sub.active {
            return None;
        }
        if sub.cursor == self.statuses.len() {
            return None;
        }
        let mut batch: Vec<LiveBackPaginationStatus> = Vec::new();
        let mut i: usize = sub.cursor;
        let ghost start: int = sub.cursor as int;
        while i < self.statuses.len()
            invariant
                0 <= start <= i <= self.statuses@.len(),
                batch@ == self.statuses@.subrange(start, i as int),
            decreases self.statuses@.len() - i,
        {
            batch.push(self.statuses[i]);
            proof {
                assert(batch@ =~= self.statuses@.subrange(start, i + 1));
            }
            i += 1;
        }
        sub.cursor = self.statuses.len();
        Some(batch)
    }

    /// Records that a back-pagination request is starting.
    pub fn start_pagination(&mut self)
        requires
            old(self).wf(),
        ensures
            final(self).wf(),
            final(self).focus == old(self).focus,
            final(self).statuses@ == old(self).statuses@.push(
                LiveBackPaginationStatus::Paginating,
            ),
    {
        self.statuses.push(LiveBackPaginationStatus::Paginating);
    }

    /// Records the outcome of a back-pagination request and reports
    /// whether the start of the timeline was reached; callers use the
    /// report to stop requesting further pages.
    pub fn finish_pagination(&mut self, hit_start_of_timeline: bool) -> (r: bool)
        requires
            old(self).wf(),
        ensures
            final(self).wf(),
            final(self).focus == old(self).focus,
            final(self).statuses@ == old(self).statuses@.push(
                LiveBackPaginationStatus::Idle { hit_start_of_timeline },
            ),
            r == hit_start_of_timeline,
    {
        self.statuses.push(LiveBackPaginationStatus::Idle { hit_start_of_timeline });
        hit_start_of_timeline
    }

    /// Whether forward pagination is allowed: only a timeline focused on
    /// an event paginates forwards.
    pub fn validate_focused_forward(&self) -> (r: Result<(), ClientError>)
        ensures
            r is Ok <==> self.focus == TimelineFocus::Event,
            r matches Err(e) ==> e is Generic,
    {
        match self.focus {
            TimelineFocus::Event => Ok(()),
            TimelineFocus::Live => Err(
                ClientError::Generic {
                    message: String::from_str("can't paginate forwards on a live timeline"),
                },
            ),
        }
    }
}

/// Whether the visible window should request more items to reach the
/// target size.
pub fn needs_more_items(current_len: usize, target_len: usize) -> (r: bool)
    ensures
        r == (current_len < target_len),
{
    current_len < target_len
}

} // verus!
