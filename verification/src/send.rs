//! The send queue lifecycle of one locally-originated, not-yet-confirmed
//! event: from enqueue to abort-or-confirm.
//!
//! The abort capability is single-owner and consumed exactly once: a race
//! between a user-issued abort and the in-flight delivery attempt is
//! decided at the instant the capability is taken, and repeated aborts are
//! idempotent no-ops.

use vstd::prelude::*;

verus! {

/// The delivery lifecycle of one enqueued local echo.
#[derive(Clone, Debug, PartialEq)]
pub enum SendLifecycle {
    /// Enqueued; the delivery attempt has not finished.
    Pending,
    /// Aborted before the attempt completed; it will never be delivered.
    Aborted,
    /// Delivery succeeded and the server assigned an event id.
    Sent { event_id: String },
    /// Delivery failed.
    Failed { error: String, is_recoverable: bool },
}

/// Ghost mirror of [`SendLifecycle`].
#[verifier::ext_equal]
pub enum SendLifecycleView {
    Pending,
    Aborted,
    Sent { event_id: Seq<char> },
    Failed { error: Seq<char>, is_recoverable: bool },
}

impl View for SendLifecycle {
    type V = SendLifecycleView;

    open spec fn view(&self) -> SendLifecycleView {
        match self {
            SendLifecycle::Pending => SendLifecycleView::Pending,
            SendLifecycle::Aborted => SendLifecycleView::Aborted,
            SendLifecycle::Sent { event_id } => SendLifecycleView::Sent { event_id: event_id@ },
            SendLifecycle::Failed { error, is_recoverable } => SendLifecycleView::Failed {
                error: error@,
                is_recoverable: *is_recoverable,
            },
        }
    }
}

/// What one abort call returns: it wins exactly when the capability has
/// not been taken before and the delivery attempt has not finished.
pub open spec fn spec_abort_wins(consumed: bool, lifecycle: SendLifecycleView) -> bool {
    !consumed && lifecycle is Pending
}

/// A single-owner, at-most-once-consumable capability over one enqueued
/// local echo.
pub struct SendHandle {
    /// The transaction id of the local echo this handle controls.
    pub transaction_id: String,
    /// Whether the underlying capability has already been taken.
    pub consumed: bool,
}

impl SendHandle {
    /// A fresh handle over the local echo with the given transaction id.
    pub fn new(transaction_id: String) -> (r: SendHandle)
        ensures
            r.transaction_id@ == transaction_id@,
            !r.consumed,
    {
        SendHandle { transaction_id, consumed: false }
    }

    /// Tries to abort the sending of the local echo.
    ///
    /// Returns `true`, and moves the lifecycle to `Aborted`, exactly when
    /// the capability had not been taken yet and the delivery attempt had
    /// not finished. Any other call returns `false` and changes nothing;
    /// in particular every call after the first returns `false`.
    pub fn abort(&mut self, lifecycle: &mut SendLifecycle) -> (r: bool)
        ensures
            final(self).consumed,
            final(self).transaction_id == old(self).transaction_id,
            r == spec_abort_wins(old(self).consumed, old(lifecycle)@),
            r ==> final(lifecycle)@ == SendLifecycleView::Aborted,
            !r ==> final(lifecycle)@ == old(lifecycle)@,
    {
        if self.consumed {
            return false;
        }
        self.consumed = true;
        match lifecycle {
            SendLifecycle::Pending => {
                *lifecycle = SendLifecycle::Aborted;
                true
            },
            _ => false,
        }
    }
}

/// Abort exactly-once: after any first abort call, the handle's capability
/// is consumed, so a second call cannot win, whatever the lifecycle has
/// become; and the first call wins exactly when the delivery attempt had
/// not finished.
pub proof fn lemma_abort_exactly_once(first_lifecycle: SendLifecycleView, second_lifecycle: SendLifecycleView)
    ensures
        spec_abort_wins(false, first_lifecycle) == (first_lifecycle is Pending),
        !spec_abort_wins(true, second_lifecycle),
{
}

} // verus!
