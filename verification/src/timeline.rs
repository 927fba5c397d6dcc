//! The timeline coordinator: the live projection plus every user-initiated
//! mutation against it — send, edit, redact, react, reply, pin, poll and
//! read receipts — with their fallback and at-most-once semantics.
//!
//! Network work is the collaborators' business: a mutation here validates
//! its inputs, consults or updates the projection, and hands back a plain
//! request value for the caller to deliver.

use std::sync::Arc;
use vstd::prelude::*;

use crate::content::MessageContent;
use crate::content::MessageType;
use crate::content::MessageTypeView;
use crate::content::TimelineItemContent;
use crate::content::TimelineItemContentView;
use crate::diff::TimelineDiff;
use crate::diff::TimelineDiffView;
use crate::diff::diff_wf;
use crate::diff::spec_apply;
use crate::error::ClientError;
use crate::ids::EventOrTransactionId;
use crate::ids::EventOrTransactionIdView;
use crate::ids::TimelineUniqueId;
use crate::ids::event_id_ok;
use crate::ids::validate_event_id;
use crate::item::EventSendState;
use crate::item::EventSendStateView;
use crate::item::EventTimelineItem;
use crate::item::EventTimelineItemView;
use crate::item::TimelineItem;
use crate::item::TimelineItemKind;
use crate::item::TimelineItemKindView;
use crate::item::item_ref;
use crate::projection::TimelineProjection;
use crate::projection::TimelineSubscription;
use crate::send::SendHandle;
use crate::send::SendLifecycle;
use crate::send::SendLifecycleView;
use crate::poll::EditedContent;

verus! {

/// Whether one item is addressed by the identifier: a remote event by its
/// event id, a local echo by its transaction id, and a local echo that has
/// been sent also by the event id the server assigned.
pub open spec fn item_matches(v: crate::item::TimelineItemView, id: EventOrTransactionIdView) -> bool {
    match v.kind {
        TimelineItemKindView::Event { event } => match id {
            EventOrTransactionIdView::EventId { event_id } => event.event_or_transaction_id == (
            EventOrTransactionIdView::EventId { event_id }) || event.local_send_state == Some(
                EventSendStateView::Sent { event_id },
            ),
            EventOrTransactionIdView::TransactionId { transaction_id } => {
                event.event_or_transaction_id == (EventOrTransactionIdView::TransactionId {
                    transaction_id,
                })
            },
        },
        TimelineItemKindView::Virtual { .. } => false,
    }
}

/// Whether any item of the projection is addressed by the identifier.
pub open spec fn contains_item(s: Seq<Arc<TimelineItem>>, id: EventOrTransactionIdView) -> bool {
    exists|i: int| 0 <= i < s.len() && item_matches(s[i]@, id)
}

/// Every item of the sequence is well-formed.
pub open spec fn items_wf(s: Seq<Arc<TimelineItem>>) -> bool {
    forall|i: int| 0 <= i < s.len() ==> (#[trigger] s[i])@.wf()
}

/// Every item an operation brings in is well-formed.
pub open spec fn diff_items_wf(d: TimelineDiffView) -> bool {
    match d {
        TimelineDiffView::Append { values } => forall|i: int|
            0 <= i < values.len() ==> (#[trigger] values[i])@.wf(),
        TimelineDiffView::PushFront { value } => value@.wf(),
        TimelineDiffView::PushBack { value } => value@.wf(),
        TimelineDiffView::Insert { value, .. } => value@.wf(),
        TimelineDiffView::SetItem { value, .. } => value@.wf(),
        TimelineDiffView::Reset { values } => forall|i: int|
            0 <= i < values.len() ==> (#[trigger] values[i])@.wf(),
        _ => true,
    }
}

/// Applying an operation whose items are well-formed preserves the
/// well-formedness of every item in the projection.
pub proof fn lemma_apply_preserves_items_wf(s: Seq<Arc<TimelineItem>>, d: TimelineDiffView)
    requires
        items_wf(s),
        diff_items_wf(d),
        diff_wf(d, s.len()),
    ensures
        items_wf(spec_apply(s, d)),
{
    let t = spec_apply(s, d);
    match d {
        TimelineDiffView::Append { values } => {
            assert forall|i: int| 0 <= i < t.len() implies (#[trigger] t[i])@.wf() by {
                if i < s.len() {
                    assert(t[i] == s[i]);
                } else {
                    assert(t[i] == values[i - s.len()]);
                }
            }
        },
        TimelineDiffView::Clear => {},
        TimelineDiffView::PushFront { value } => {
            assert forall|i: int| 0 <= i < t.len() implies (#[trigger] t[i])@.wf() by {
                if i == 0 {
                    assert(t[i] == value);
                } else {
                    assert(t[i] == s[i - 1]);
                }
            }
        },
        TimelineDiffView::PushBack { value } => {
            assert forall|i: int| 0 <= i < t.len() implies (#[trigger] t[i])@.wf() by {
                if i < s.len() {
                    assert(t[i] == s[i]);
                } else {
                    assert(t[i] == value);
                }
            }
        },
        TimelineDiffView::PopFront => {
            assert forall|i: int| 0 <= i < t.len() implies (#[trigger] t[i])@.wf() by {
                assert(t[i] == s[i + 1]);
            }
        },
        TimelineDiffView::PopBack => {
            assert forall|i: int| 0 <= i < t.len() implies (#[trigger] t[i])@.wf() by {
                assert(t[i] == s[i]);
            }
        },
        TimelineDiffView::Insert { index, value } => {
            assert forall|i: int| 0 <= i < t.len() implies (#[trigger] t[i])@.wf() by {
                s.insert_ensures(index as int, value);
                if i < index {
                    assert(t[i] == s[i]);
                } else if i == index {
                    assert(t[i] == value);
                } else {
                    assert(t[i] == s[i - 1]);
                }
            }
        },
        TimelineDiffView::SetItem { index, value } => {
            assert forall|i: int| 0 <= i < t.len() implies (#[trigger] t[i])@.wf() by {
                if i == index {
                    assert(t[i] == value);
                } else {
                    assert(t[i] == s[i]);
                }
            }
        },
        TimelineDiffView::Remove { index } => {
            assert forall|i: int| 0 <= i < t.len() implies (#[trigger] t[i])@.wf() by {
                s.remove_ensures(index as int);
                if i < index {
                    assert(t[i] == s[i]);
                } else {
                    assert(t[i] == s[i + 1]);
                }
            }
        },
        TimelineDiffView::Truncate { length } => {
            assert forall|i: int| 0 <= i < t.len() implies (#[trigger] t[i])@.wf() by {
                assert(t[i] == s[i]);
            }
        },
        TimelineDiffView::Reset { values } => {
            assert forall|i: int| 0 <= i < t.len() implies (#[trigger] t[i])@.wf() by {
                assert(t[i] == values[i]);
            }
        },
    }
}

/// Checks whether one item is addressed by the identifier.
fn item_matches_exec(item: &TimelineItem, id: &EventOrTransactionId) -> (r: bool)
    ensures
        r == item_matches(item@, id@),
{
    match &item.kind {
        TimelineItemKind::Event { event } => match id {
            EventOrTransactionId::EventId { event_id } => {
                let by_identity = match &event.event_or_transaction_id {
                    EventOrTransactionId::EventId { event_id: own } => own.eq(event_id),
                    EventOrTransactionId::TransactionId { .. } => false,
                };
                let by_sent_echo = match &event.local_send_state {
                    Some(EventSendState::Sent { event_id: sent }) => sent.eq(event_id),
                    _ => false,
                };
                by_identity || by_sent_echo
            },
            EventOrTransactionId::TransactionId { transaction_id } => {
                match &event.event_or_transaction_id {
                    EventOrTransactionId::TransactionId { transaction_id: own } => {
                        own.eq(transaction_id)
                    },
                    EventOrTransactionId::EventId { .. } => false,
                }
            },
        },
        TimelineItemKind::Virtual { .. } => false,
    }
}

/// Finds the first item addressed by the identifier.
fn find_item(items: &Vec<Arc<TimelineItem>>, id: &EventOrTransactionId) -> (r: Option<usize>)
    ensures
        match r {
            Some(i) => i < items@.len() && item_matches(items@[i as int]@, id@) && forall|j: int|
                0 <= j < i ==> !item_matches(items@[j]@, id@),
            None => !contains_item(items@, id@),
        },
{
    let mut i: usize = 0;
    while i < items.len()
        invariant
            i <= items@.len(),
            forall|j: int| 0 <= j < i ==> !item_matches(items@[j]@, id@),
        decreases items@.len() - i,
    {
        if item_matches_exec(item_ref(&items[i]), id) {
            return Some(i);
        }
        i += 1;
    }
    None
}

/// One tracked local send: its transaction id and where its delivery
/// stands.
#[derive(Clone, Debug, PartialEq)]
pub struct SendEntry {
    pub transaction_id: String,
    pub lifecycle: SendLifecycle,
}

/// Ghost mirror of [`SendEntry`].
#[verifier::ext_equal]
pub struct SendEntryView {
    pub transaction_id: Seq<char>,
    pub lifecycle: SendLifecycleView,
}

impl View for SendEntry {
    type V = SendEntryView;

    open spec fn view(&self) -> SendEntryView {
        SendEntryView { transaction_id: self.transaction_id@, lifecycle: self.lifecycle@ }
    }
}

impl DeepView for SendEntry {
    type V = SendEntryView;

    open spec fn deep_view(&self) -> SendEntryView {
        self.view()
    }
}

/// Whether some tracked send carries the transaction id.
pub open spec fn sends_contain(sends: Seq<SendEntry>, txn: Seq<char>) -> bool {
    exists|i: int| 0 <= i < sends.len() && sends[i]@.transaction_id == txn
}

/// One in-flight reaction toggle, scoped to an item and a reaction key.
#[derive(Clone, Debug, PartialEq)]
pub struct ReactionGuard {
    pub item_id: EventOrTransactionId,
    pub key: String,
}

/// Whether a guard stands for the given item and key.
pub open spec fn guard_is(g: ReactionGuard, id: EventOrTransactionIdView, key: Seq<char>) -> bool {
    g.item_id@ == id && g.key@ == key
}

/// Whether a toggle for the item and key is in flight.
pub open spec fn guard_held(
    guards: Seq<ReactionGuard>,
    id: EventOrTransactionIdView,
    key: Seq<char>,
) -> bool {
    exists|i: int| 0 <= i < guards.len() && guard_is(guards[i], id, key)
}

/// What an edit call decides; the payload travels with the decision.
#[derive(Clone, Debug, PartialEq)]
pub enum EditAction {
    /// The item is in the projection: edit it in place through the live
    /// timeline.
    EditedInTimeline { content: EditedContent },
    /// The event id is not in the projection: build the edit event against
    /// the room and enqueue it through the room-level send queue.
    FallbackViaRoom { content: EditedContent },
    /// A transaction id whose local echo no longer exists: nothing to
    /// edit, the call succeeds as a no-op.
    NoopMissingLocalEcho,
}

/// What a redact call decides.
#[derive(Clone, Debug, PartialEq)]
pub enum RedactAction {
    /// The target is a local echo that has not been sent: cancel the
    /// pending send.
    CancelSend { transaction_id: String },
    /// The target reached the server: issue a redaction request.
    SendRedaction { event_id: String, reason: Option<String> },
}

/// The live timeline: the projection and the coordinators that mutate it.
pub struct Timeline {
    pub projection: TimelineProjection,
    /// The event ids currently pinned in the room, each held once.
    pub pinned_event_ids: Vec<String>,
    /// The tracked local sends, one entry per transaction id.
    pub sends: Vec<SendEntry>,
    /// The in-flight reaction toggles, at most one per item and key.
    pub reaction_guards: Vec<ReactionGuard>,
}

impl Timeline {
    /// The coordinator's invariant: the projection replays its history,
    /// every item is well-formed, pinned event ids are unique, tracked
    /// sends are keyed by transaction id, and at most one reaction toggle
    /// is in flight per item and key.
    pub open spec fn wf(self) -> bool {
        &&& self.projection.wf()
        &&& items_wf(self.projection.items@)
        &&& forall|i: int, j: int|
            0 <= i < j < self.pinned_event_ids@.len() ==> (#[trigger] self.pinned_event_ids@[i])@
                != (#[trigger] self.pinned_event_ids@[j])@
        &&& forall|i: int, j: int|
            0 <= i < j < self.sends@.len() ==> (#[trigger] self.sends@[i])@.transaction_id != (
            #[trigger] self.sends@[j])@.transaction_id
        &&& forall|i: int, j: int|
            0 <= i < j < self.reaction_guards@.len() ==> !((#[trigger] self.reaction_guards@[i]).item_id@
                == (#[trigger] self.reaction_guards@[j]).item_id@
                && self.reaction_guards@[i].key@ == self.reaction_guards@[j].key@)
    }

    /// A fresh, empty timeline.
    pub fn new() -> (r: Timeline)
        ensures
            r.wf(),
            r.projection.items@ == Seq::<Arc<TimelineItem>>::empty(),
            r.projection.log@ == Seq::<TimelineDiff>::empty(),
            r.pinned_event_ids@ == Seq::<String>::empty(),
            r.sends@ == Seq::<SendEntry>::empty(),
            r.reaction_guards@ == Seq::<ReactionGuard>::empty(),
    {
        Timeline {
            projection: TimelineProjection::new(),
            pinned_event_ids: Vec::new(),
            sends: Vec::new(),
            reaction_guards: Vec::new(),
        }
    }

    /// Registers a listener: the current items as one synthetic reset, to
    /// be delivered before any batch the returned subscription yields.
    pub fn add_listener(&self) -> (r: (TimelineDiff, TimelineSubscription))
        ensures
            r.0@ == (TimelineDiffView::Reset { values: self.projection.items@ }),
            r.1.cursor == self.projection.log@.len(),
            r.1.active,
    {
        self.projection.subscribe()
    }

    /// Applies one operation arriving from the sync collaborator.
    pub fn handle_remote_diff(&mut self, diff: TimelineDiff)
        requires
            old(self).wf(),
            diff_wf(diff@, old(self).projection.items@.len() as nat),
            diff_items_wf(diff@),
        ensures
            final(self).wf(),
            final(self).projection.items@ == spec_apply(old(self).projection.items@, diff@),
            final(self).projection.log.deep_view() == old(self).projection.log.deep_view().push(
                diff@,
            ),
            final(self).pinned_event_ids == old(self).pinned_event_ids,
            final(self).sends == old(self).sends,
            final(self).reaction_guards == old(self).reaction_guards,
    {
        proof {
            lemma_apply_preserves_items_wf(self.projection.items@, diff@);
        }
        self.projection.handle_diff(diff);
    }

    /// Attempts an edit addressed by an event id or a transaction id.
    ///
    /// An item known to the projection is edited in place. An event id
    /// absent from the projection falls back to an edit event enqueued
    /// through the room-level send queue. A transaction id absent from
    /// the projection means the local echo is gone: the call succeeds as
    /// a no-op. No case fails.
    pub fn edit(
        &self,
        event_or_transaction_id: &EventOrTransactionId,
        new_content: EditedContent,
    ) -> (r: EditAction)
        ensures
            contains_item(self.projection.items@, event_or_transaction_id@) ==> r == (
            EditAction::EditedInTimeline { content: new_content }),
            !contains_item(self.projection.items@, event_or_transaction_id@)
                && event_or_transaction_id@ is EventId ==> r == (EditAction::FallbackViaRoom {
                content: new_content,
            }),
            !contains_item(self.projection.items@, event_or_transaction_id@)
                && event_or_transaction_id@ is TransactionId ==> r
                == EditAction::NoopMissingLocalEcho,
    {
        match find_item(&self.projection.items, event_or_transaction_id) {
            Some(_) => EditAction::EditedInTimeline { content: new_content },
            None => match event_or_transaction_id {
                EventOrTransactionId::EventId { .. } => EditAction::FallbackViaRoom {
                    content: new_content,
                },
                EventOrTransactionId::TransactionId { .. } => EditAction::NoopMissingLocalEcho,
            },
        }
    }

    /// Decides how to redact the item addressed by the identifier: a local
    /// echo that has not reached the server has its pending send
    /// cancelled; anything else becomes a redaction request. Only items
    /// currently in the projection are addressable.
    pub fn redact_event(
        &self,
        event_or_transaction_id: &EventOrTransactionId,
        reason: Option<String>,
    ) -> (r: Result<RedactAction, ClientError>)
        ensures
            r is Ok <==> contains_item(self.projection.items@, event_or_transaction_id@),
            r matches Err(e) ==> e is ItemNotFound,
            r matches Ok(a) ==> exists|i: int|
                {
                    &&& 0 <= i < self.projection.items@.len()
                    &&& item_matches(#[trigger] self.projection.items@[i]@, event_or_transaction_id@)
                    &&& redact_action_for(a, self.projection.items@[i]@, opt_view(reason))
                },
    {
        let i = match find_item(&self.projection.items, event_or_transaction_id) {
            Some(i) => i,
            None => {
                return Err(
                    ClientError::ItemNotFound {
                        message: String::from_str("no timeline item for the given identifier"),
                    },
                );
            },
        };
        let item = item_ref(&self.projection.items[i]);
        let event = match &item.kind {
            TimelineItemKind::Event { event } => event,
            TimelineItemKind::Virtual { .. } => {
                return Err(
                    ClientError::ItemNotFound {
                        message: String::from_str("no timeline item for the given identifier"),
                    },
                );
            },
        };
        let action = match &event.event_or_transaction_id {
            EventOrTransactionId::EventId { event_id } => RedactAction::SendRedaction {
                event_id: event_id.clone(),
                reason,
            },
            EventOrTransactionId::TransactionId { transaction_id } => {
                match &event.local_send_state {
                    Some(EventSendState::Sent { event_id }) => RedactAction::SendRedaction {
                        event_id: event_id.clone(),
                        reason,
                    },
                    _ => RedactAction::CancelSend { transaction_id: transaction_id.clone() },
                }
            },
        };
        proof {
            assert(item_matches(self.projection.items@[i as int]@, event_or_transaction_id@));
            assert(redact_action_for(
                action,
                self.projection.items@[i as int]@,
                opt_view(reason),
            ));
        }
        Ok(action)
    }
}

/// The view of an optional string value.
pub open spec fn opt_view(s: Option<String>) -> Option<Seq<char>> {
    match s {
        Some(s) => Some(s@),
        None => None,
    }
}

/// Whether a redact decision fits the item it addresses.
pub open spec fn redact_action_for(
    a: RedactAction,
    v: crate::item::TimelineItemView,
    reason: Option<Seq<char>>,
) -> bool {
    match v.kind {
        TimelineItemKindView::Event { event } => match event.event_or_transaction_id {
            EventOrTransactionIdView::EventId { event_id } => match a {
                RedactAction::SendRedaction { event_id: aid, reason: areason } => aid@ == event_id
                    && opt_view(areason) == reason,
                RedactAction::CancelSend { .. } => false,
            },
            EventOrTransactionIdView::TransactionId { transaction_id } => {
                match event.local_send_state {
                    Some(EventSendStateView::Sent { event_id }) => match a {
                        RedactAction::SendRedaction { event_id: aid, reason: areason } => aid@
                            == event_id && opt_view(areason) == reason,
                        RedactAction::CancelSend { .. } => false,
                    },
                    _ => match a {
                        RedactAction::CancelSend { transaction_id: atxn } => atxn@
                            == transaction_id,
                        RedactAction::SendRedaction { .. } => false,
                    },
                }
            },
        },
        TimelineItemKindView::Virtual { .. } => false,
    }
}


/// The projected content of a plain message payload.
pub open spec fn message_item_content(m: MessageTypeView) -> TimelineItemContentView {
    match m {
        MessageTypeView::Text { body } => TimelineItemContentView::Message { body },
        MessageTypeView::Emote { body } => TimelineItemContentView::Message { body },
        MessageTypeView::Notice { body } => TimelineItemContentView::Message { body },
        MessageTypeView::Unsupported { .. } => TimelineItemContentView::Other,
    }
}

/// Builds the projected content of a plain message payload.
fn message_item_content_exec(m: &MessageContent) -> (r: TimelineItemContent)
    ensures
        r@ == message_item_content(m@),
{
    match &m.msg_type {
        MessageType::Text { body } => TimelineItemContent::Message { body: body.clone() },
        MessageType::Emote { body } => TimelineItemContent::Message { body: body.clone() },
        MessageType::Notice { body } => TimelineItemContent::Message { body: body.clone() },
        MessageType::Unsupported { .. } => TimelineItemContent::Other,
    }
}

/// The view of a freshly enqueued local echo: identified by its
/// transaction id, not yet sent, owned and editable, with no reactions or
/// receipts yet.
pub open spec fn local_echo_view(
    content: TimelineItemContentView,
    txn: Seq<char>,
    sender: Seq<char>,
    timestamp: u64,
) -> crate::item::TimelineItemView {
    crate::item::TimelineItemView {
        unique_id: txn,
        kind: TimelineItemKindView::Event {
            event: EventTimelineItemView {
                is_remote: false,
                event_or_transaction_id: EventOrTransactionIdView::TransactionId {
                    transaction_id: txn,
                },
                sender,
                sender_profile: crate::item::ProfileDetailsView::Unavailable,
                is_own: true,
                is_editable: true,
                content,
                timestamp,
                reactions: Seq::empty(),
                local_send_state: Some(EventSendStateView::NotSentYet),
                read_receipts: Seq::empty(),
                origin: Some(crate::item::EventItemOrigin::Local),
                can_be_replied_to: true,
                lazy_provider: crate::item::LazyTimelineItemProviderView {
                    shield_strict: None,
                    shield_lenient: None,
                    debug: crate::item::EventTimelineItemDebugInfoView {
                        model: "local echo"@,
                        original_json: None,
                        latest_edit_json: None,
                    },
                },
            },
        },
    }
}

/// Finds the tracked send with the given transaction id.
fn find_send(sends: &Vec<SendEntry>, transaction_id: &String) -> (r: Option<usize>)
    ensures
        match r {
            Some(i) => i < sends@.len() && sends@[i as int]@.transaction_id == transaction_id@
                && forall|j: int|
                0 <= j < i ==> (#[trigger] sends@[j])@.transaction_id != transaction_id@,
            None => !sends_contain(sends@, transaction_id@),
        },
{
    let mut i: usize = 0;
    while i < sends.len()
        invariant
            i <= sends@.len(),
            forall|j: int| 0 <= j < i ==> (#[trigger] sends@[j])@.transaction_id != transaction_id@,
        decreases sends@.len() - i,
    {
        if sends[i].transaction_id.eq(transaction_id) {
            return Some(i);
        }
        i += 1;
    }
    None
}

impl Timeline {
    /// Enqueues a message: a local echo appears at the back of the
    /// projection immediately, in the not-yet-sent state, and the caller
    /// receives the single-owner handle over the pending send. The
    /// delivery attempt itself is the collaborator's work; its outcome
    /// comes back through `mark_sent` or `mark_failed`.
    pub fn send(
        &mut self,
        content: MessageContent,
        transaction_id: String,
        sender: String,
        timestamp: u64,
    ) -> (r: SendHandle)
        requires
            old(self).wf(),
            !sends_contain(old(self).sends@, transaction_id@),
        ensures
            final(self).wf(),
            final(self).pinned_event_ids == old(self).pinned_event_ids,
            final(self).reaction_guards == old(self).reaction_guards,
            r.transaction_id@ == transaction_id@,
            !r.consumed,
            final(self).sends@.len() == old(self).sends@.len() + 1,
            final(self).sends@.take(old(self).sends@.len() as int) == old(self).sends@,
            final(self).sends@.last()@ == (SendEntryView {
                transaction_id: transaction_id@,
                lifecycle: SendLifecycleView::Pending,
            }),
            exists|a: Arc<TimelineItem>|
                {
                    &&& final(self).projection.items@ == old(self).projection.items@.push(a)
                    &&& a@ == local_echo_view(
                        message_item_content(content@),
                        transaction_id@,
                        sender@,
                        timestamp,
                    )
                    &&& final(self).projection.log.deep_view() == old(self).projection.log.deep_view().push(TimelineDiffView::PushBack { value: a })
                },
    {
        let item_content = message_item_content_exec(&content);
        let event = EventTimelineItem {
            is_remote: false,
            event_or_transaction_id: EventOrTransactionId::TransactionId {
                transaction_id: transaction_id.clone(),
            },
            sender,
            sender_profile: crate::item::ProfileDetails::Unavailable,
            is_own: true,
            is_editable: true,
            content: item_content,
            timestamp,
            reactions: Vec::new(),
            local_send_state: Some(EventSendState::NotSentYet),
            read_receipts: Vec::new(),
            origin: Some(crate::item::EventItemOrigin::Local),
            can_be_replied_to: true,
            lazy_provider: crate::item::LazyTimelineItemProvider {
                shield_strict: None,
                shield_lenient: None,
                debug: crate::item::EventTimelineItemDebugInfo {
                    model: String::from_str("local echo"),
                    original_json: None,
                    latest_edit_json: None,
                },
            },
        };
        let item = TimelineItem {
            unique_id: TimelineUniqueId { id: transaction_id.clone() },
            kind: TimelineItemKind::Event { event },
        };
        let arc = Arc::new(item);
        let ghost arc_ghost: Arc<TimelineItem> = arc;
        proof {
            assert(arc_ghost@ =~= local_echo_view(
                message_item_content(content@),
                transaction_id@,
                sender@,
                timestamp,
            ));
            assert(crate::reaction::reactions_wf(Seq::empty()));
            assert(arc_ghost@.wf());
            lemma_apply_preserves_items_wf(
                self.projection.items@,
                TimelineDiffView::PushBack { value: arc_ghost },
            );
        }
        self.projection.handle_diff(TimelineDiff::PushBack { value: arc });
        let entry = SendEntry {
            transaction_id: transaction_id.clone(),
            lifecycle: SendLifecycle::Pending,
        };
        self.sends.push(entry);
        proof {
            assert(self.sends@.take(old(self).sends@.len() as int) =~= old(self).sends@);
            assert forall|i: int, j: int|
                0 <= i < j < self.sends@.len() implies (#[trigger] self.sends@[i])@.transaction_id
                != (#[trigger] self.sends@[j])@.transaction_id by {
                if j == self.sends@.len() - 1 {
                    assert(self.sends@[i] == old(self).sends@[i]);
                }
            }
        }
        SendHandle::new(transaction_id)
    }
}

/// How an identifier-addressed local echo's items change when its send
/// state moves to `state`: absent, the items stay put; present, exactly
/// the first matching item is replaced, its send state updated and every
/// other field kept.
pub open spec fn echo_state_updated(
    old_items: Seq<Arc<TimelineItem>>,
    new_items: Seq<Arc<TimelineItem>>,
    txn: Seq<char>,
    state: EventSendStateView,
) -> bool {
    let id = EventOrTransactionIdView::TransactionId { transaction_id: txn };
    if !contains_item(old_items, id) {
        new_items == old_items
    } else {
        exists|j: int|
            {
                &&& 0 <= j < old_items.len()
                &&& item_matches(#[trigger] old_items[j]@, id)
                &&& forall|k: int| 0 <= k < j ==> !item_matches(old_items[k]@, id)
                &&& new_items == old_items.update(j, new_items[j])
                &&& match old_items[j]@.kind {
                    TimelineItemKindView::Event { event } => new_items[j]@ == (
                    crate::item::TimelineItemView {
                        unique_id: old_items[j]@.unique_id,
                        kind: TimelineItemKindView::Event {
                            event: EventTimelineItemView {
                                local_send_state: Some(state),
                                ..event
                            },
                        },
                    }),
                    TimelineItemKindView::Virtual { .. } => false,
                }
            }
    }
}

/// How the items change when the local echo with the transaction id is
/// withdrawn: absent, the items stay put; present, exactly the first
/// matching item is removed.
pub open spec fn echo_removed(
    old_items: Seq<Arc<TimelineItem>>,
    new_items: Seq<Arc<TimelineItem>>,
    txn: Seq<char>,
) -> bool {
    let id = EventOrTransactionIdView::TransactionId { transaction_id: txn };
    if !contains_item(old_items, id) {
        new_items == old_items
    } else {
        exists|j: int|
            {
                &&& 0 <= j < old_items.len()
                &&& item_matches(#[trigger] old_items[j]@, id)
                &&& forall|k: int| 0 <= k < j ==> !item_matches(old_items[k]@, id)
                &&& new_items == old_items.remove(j)
            }
    }
}

impl Timeline {
    /// Tries to abort the pending send the handle controls.
    ///
    /// The underlying capability is consumed by the first call: that call
    /// returns `true` exactly when the delivery attempt had not finished,
    /// and then withdraws the local echo from the projection through the
    /// normal diff mechanism. Every other call returns `false` and leaves
    /// everything as it was.
    pub fn abort_send(&mut self, handle: &mut SendHandle) -> (r: bool)
        requires
            old(self).wf(),
            sends_contain(old(self).sends@, old(handle).transaction_id@),
        ensures
            final(self).wf(),
            final(self).pinned_event_ids == old(self).pinned_event_ids,
            final(self).reaction_guards == old(self).reaction_guards,
            final(handle).consumed,
            final(handle).transaction_id == old(handle).transaction_id,
            exists|i: int|
                {
                    &&& 0 <= i < old(self).sends@.len()
                    &&& (#[trigger] old(self).sends@[i])@.transaction_id == old(
                        handle,
                    ).transaction_id@
                    &&& r == crate::send::spec_abort_wins(
                        old(handle).consumed,
                        old(self).sends@[i]@.lifecycle,
                    )
                    &&& (r ==> final(self).sends.deep_view() == old(self).sends.deep_view().update(
                        i,
                        SendEntryView {
                            transaction_id: old(handle).transaction_id@,
                            lifecycle: SendLifecycleView::Aborted,
                        },
                    ))
                    &&& (!r ==> final(self).sends.deep_view() == old(self).sends.deep_view())
                },
            r ==> echo_removed(
                old(self).projection.items@,
                final(self).projection.items@,
                old(handle).transaction_id@,
            ),
            !r ==> final(self).projection.items@ == old(self).projection.items@
                && final(self).projection.log == old(self).projection.log,
    {
        let ghost sends0 = self.sends@;
        let i = match find_send(&self.sends, &handle.transaction_id) {
            Some(i) => i,
            None => {
                proof {
                    assert(false);
                }
                vstd::pervasive::unreached()
            },
        };
        let mut entry = self.sends.remove(i);
        let won = handle.abort(&mut entry.lifecycle);
        self.sends.insert(i, entry);
        proof {
            let after = self.sends@;
            sends0.remove_ensures(i as int);
            sends0.remove(i as int).insert_ensures(i as int, after[i as int]);
            assert forall|k: int| 0 <= k < after.len() && k != i implies after[k] == sends0[k] by {
                if k < i {
                    assert(after[k] == sends0.remove(i as int)[k]);
                } else {
                    assert(after[k] == sends0.remove(i as int)[k - 1]);
                }
            }
            assert(after[i as int]@.transaction_id == old(handle).transaction_id@);
            if won {
                assert(self.sends.deep_view()[i as int] =~= SendEntryView {
                    transaction_id: old(handle).transaction_id@,
                    lifecycle: SendLifecycleView::Aborted,
                });
                assert(self.sends.deep_view() =~= old(self).sends.deep_view().update(
                    i as int,
                    SendEntryView {
                        transaction_id: old(handle).transaction_id@,
                        lifecycle: SendLifecycleView::Aborted,
                    },
                ));
            } else {
                assert(self.sends.deep_view()[i as int] =~= old(self).sends.deep_view()[i as int]);
                assert(self.sends.deep_view() =~= old(self).sends.deep_view());
            }
        }
        if won {
            let id = EventOrTransactionId::TransactionId {
                transaction_id: handle.transaction_id.clone(),
            };
            match find_item(&self.projection.items, &id) {
                Some(j) => {
                    proof {
                        lemma_apply_preserves_items_wf(
                            self.projection.items@,
                            TimelineDiffView::Remove { index: j },
                        );
                    }
                    self.projection.handle_diff(TimelineDiff::Remove { index: j });
                },
                None => {},
            }
        }
        proof {
            assert forall|a: int, b: int|
                0 <= a < b < self.sends@.len() implies (#[trigger] self.sends@[a])@.transaction_id
                != (#[trigger] self.sends@[b])@.transaction_id by {
                assert(self.sends@[a]@.transaction_id == sends0[a]@.transaction_id);
                assert(self.sends@[b]@.transaction_id == sends0[b]@.transaction_id);
            }
        }
        won
    }
}

impl Timeline {
    /// Replaces the send state of the local echo with the given
    /// transaction id, through a set operation on the projection; when the
    /// echo is no longer present nothing changes.
    fn set_echo_state(&mut self, transaction_id: &String, state: EventSendState)
        requires
            old(self).wf(),
        ensures
            final(self).wf(),
            final(self).pinned_event_ids == old(self).pinned_event_ids,
            final(self).sends == old(self).sends,
            final(self).reaction_guards == old(self).reaction_guards,
            echo_state_updated(
                old(self).projection.items@,
                final(self).projection.items@,
                transaction_id@,
                state@,
            ),
    {
        let id = EventOrTransactionId::TransactionId { transaction_id: transaction_id.clone() };
        let j = match find_item(&self.projection.items, &id) {
            Some(j) => j,
            None => {
                return ;
            },
        };
        let item = item_ref(&self.projection.items[j]);
        let event = match &item.kind {
            TimelineItemKind::Event { event } => event,
            TimelineItemKind::Virtual { .. } => {
                proof {
                    assert(false);
                }
                vstd::pervasive::unreached()
            },
        };
        let new_event = event.with_send_state(state);
        let new_item = TimelineItem {
            unique_id: item.unique_id.dup(),
            kind: TimelineItemKind::Event { event: new_event },
        };
        let arc = Arc::new(new_item);
        let ghost arc_ghost: Arc<TimelineItem> = arc;
        proof {
            let items0 = self.projection.items@;
            assert(items0[j as int]@.wf());
            assert(arc_ghost@.kind is Event);
            assert(arc_ghost@.wf());
            lemma_apply_preserves_items_wf(
                items0,
                TimelineDiffView::SetItem { index: j, value: arc_ghost },
            );
        }
        self.projection.handle_diff(TimelineDiff::SetItem { index: j, value: arc });
        proof {
            let items0 = old(self).projection.items@;
            let items1 = self.projection.items@;
            assert(items1[j as int] == arc_ghost);
            assert(items1 == items0.update(j as int, items1[j as int]));
            match items0[j as int]@.kind {
                TimelineItemKindView::Event { event: ev0 } => {
                    assert(arc_ghost@ =~= crate::item::TimelineItemView {
                        unique_id: items0[j as int]@.unique_id,
                        kind: TimelineItemKindView::Event {
                            event: EventTimelineItemView {
                                local_send_state: Some(state@),
                                ..ev0
                            },
                        },
                    });
                },
                TimelineItemKindView::Virtual { .. } => {
                    assert(false);
                },
            }
        }
    }

    /// Records that the delivery attempt for the transaction id succeeded:
    /// the tracked send moves to `Sent` with the event id the server
    /// assigned, and the local echo's item, if still present, shows the
    /// same.
    pub fn mark_sent(&mut self, transaction_id: &String, event_id: String)
        requires
            old(self).wf(),
            exists|i: int|
                0 <= i < old(self).sends@.len() && (#[trigger] old(self).sends@[i])@.transaction_id == transaction_id@ && old(self).sends@[i]@.lifecycle is Pending,
        ensures
            final(self).wf(),
            final(self).pinned_event_ids == old(self).pinned_event_ids,
            final(self).reaction_guards == old(self).reaction_guards,
            exists|i: int|
                {
                    &&& 0 <= i < old(self).sends@.len()
                    &&& (#[trigger] old(self).sends@[i])@.transaction_id == transaction_id@
                    &&& final(self).sends.deep_view() == old(self).sends.deep_view().update(
                        i,
                        SendEntryView {
                            transaction_id: transaction_id@,
                            lifecycle: SendLifecycleView::Sent { event_id: event_id@ },
                        },
                    )
                },
            echo_state_updated(
                old(self).projection.items@,
                final(self).projection.items@,
                transaction_id@,
                EventSendStateView::Sent { event_id: event_id@ },
            ),
    {
        self.set_lifecycle_and_echo(
            transaction_id,
            SendLifecycle::Sent { event_id: event_id.clone() },
            EventSendState::Sent { event_id },
        );
    }

    /// Records that the delivery attempt for the transaction id failed:
    /// the tracked send moves to `Failed`, and the local echo's item, if
    /// still present, shows the failure and whether it is recoverable.
    pub fn mark_failed(&mut self, transaction_id: &String, error: String, is_recoverable: bool)
        requires
            old(self).wf(),
            exists|i: int|
                0 <= i < old(self).sends@.len() && (#[trigger] old(self).sends@[i])@.transaction_id == transaction_id@ && old(self).sends@[i]@.lifecycle is Pending,
        ensures
            final(self).wf(),
            final(self).pinned_event_ids == old(self).pinned_event_ids,
            final(self).reaction_guards == old(self).reaction_guards,
            exists|i: int|
                {
                    &&& 0 <= i < old(self).sends@.len()
                    &&& (#[trigger] old(self).sends@[i])@.transaction_id == transaction_id@
                    &&& final(self).sends.deep_view() == old(self).sends.deep_view().update(
                        i,
                        SendEntryView {
                            transaction_id: transaction_id@,
                            lifecycle: SendLifecycleView::Failed {
                                error: error@,
                                is_recoverable,
                            },
                        },
                    )
                },
            echo_state_updated(
                old(self).projection.items@,
                final(self).projection.items@,
                transaction_id@,
                EventSendStateView::SendingFailed { error: error@, is_recoverable },
            ),
    {
        self.set_lifecycle_and_echo(
            transaction_id,
            SendLifecycle::Failed { error: error.clone(), is_recoverable },
            EventSendState::SendingFailed { error, is_recoverable },
        );
    }

    /// Moves the tracked send to `lifecycle` and the echo's item state to
    /// `state`.
    fn set_lifecycle_and_echo(
        &mut self,
        transaction_id: &String,
        lifecycle: SendLifecycle,
        state: EventSendState,
    )
        requires
            old(self).wf(),
            sends_contain(old(self).sends@, transaction_id@),
        ensures
            final(self).wf(),
            final(self).pinned_event_ids == old(self).pinned_event_ids,
            final(self).reaction_guards == old(self).reaction_guards,
            exists|i: int|
                {
                    &&& 0 <= i < old(self).sends@.len()
                    &&& (#[trigger] old(self).sends@[i])@.transaction_id == transaction_id@
                    &&& final(self).sends.deep_view() == old(self).sends.deep_view().update(
                        i,
                        SendEntryView {
                            transaction_id: transaction_id@,
                            lifecycle: lifecycle@,
                        },
                    )
                },
            echo_state_updated(
                old(self).projection.items@,
                final(self).projection.items@,
                transaction_id@,
                state@,
            ),
    {
        let ghost sends0 = self.sends@;
        let i = match find_send(&self.sends, transaction_id) {
            Some(i) => i,
            None => {
                proof {
                    assert(false);
                }
                vstd::pervasive::unreached()
            },
        };
        let mut entry = self.sends.remove(i);
        entry.lifecycle = lifecycle;
        self.sends.insert(i, entry);
        proof {
            let after = self.sends@;
            sends0.remove_ensures(i as int);
            sends0.remove(i as int).insert_ensures(i as int, after[i as int]);
            assert forall|k: int| 0 <= k < after.len() && k != i implies after[k] == sends0[k] by {
                if k < i {
                    assert(after[k] == sends0.remove(i as int)[k]);
                } else {
                    assert(after[k] == sends0.remove(i as int)[k - 1]);
                }
            }
            assert(self.sends.deep_view()[i as int] =~= SendEntryView {
                transaction_id: transaction_id@,
                lifecycle: after[i as int]@.lifecycle,
            });
            assert(self.sends.deep_view() =~= old(self).sends.deep_view().update(
                i as int,
                SendEntryView { transaction_id: transaction_id@, lifecycle: after[i as int]@.lifecycle },
            ));
            assert forall|a: int, b: int|
                0 <= a < b < self.sends@.len() implies (#[trigger] self.sends@[a])@.transaction_id
                != (#[trigger] self.sends@[b])@.transaction_id by {
                assert(self.sends@[a]@.transaction_id == sends0[a]@.transaction_id);
                assert(self.sends@[b]@.transaction_id == sends0[b]@.transaction_id);
            }
        }
        self.set_echo_state(transaction_id, state);
    }
}

/// Whether a pinned-events list holds the event id.
pub open spec fn pinned_contains(pinned: Seq<String>, event_id: Seq<char>) -> bool {
    exists|i: int| 0 <= i < pinned.len() && pinned[i]@ == event_id
}

impl Timeline {
    /// Claims the single-flight slot for toggling `key` on the item, so
    /// that no two toggles for the same item and key are in flight at
    /// once. Returns `false`, changing nothing, while another toggle
    /// holds the slot.
    pub fn begin_reaction_toggle(&mut self, item_id: &EventOrTransactionId, key: &String) -> (r:
        bool)
        requires
            old(self).wf(),
        ensures
            final(self).wf(),
            final(self).projection == old(self).projection,
            final(self).pinned_event_ids == old(self).pinned_event_ids,
            final(self).sends == old(self).sends,
            r == !guard_held(old(self).reaction_guards@, item_id@, key@),
            r ==> final(self).reaction_guards@ == old(self).reaction_guards@.push(
                final(self).reaction_guards@.last(),
            ) && guard_is(final(self).reaction_guards@.last(), item_id@, key@),
            !r ==> final(self).reaction_guards == old(self).reaction_guards,
    {
        let mut i: usize = 0;
        while i < self.reaction_guards.len()
            invariant
                old(self).wf(),
                i <= self.reaction_guards@.len(),
                *self == *old(self),
                forall|j: int|
                    0 <= j < i ==> !guard_is(#[trigger] self.reaction_guards@[j], item_id@, key@),
            decreases self.reaction_guards@.len() - i,
        {
            let g = &self.reaction_guards[i];
            let same_id = match (&g.item_id, item_id) {
                (
                    EventOrTransactionId::EventId { event_id: a },
                    EventOrTransactionId::EventId { event_id: b },
                ) => a.eq(b),
                (
                    EventOrTransactionId::TransactionId { transaction_id: a },
                    EventOrTransactionId::TransactionId { transaction_id: b },
                ) => a.eq(b),
                _ => false,
            };
            if same_id && g.key.eq(key) {
                proof {
                    assert(*self == *old(self));
                    assert(self.wf());
                }
                return false;
            }
            i += 1;
        }
        let guard = ReactionGuard { item_id: item_id.dup(), key: key.clone() };
        self.reaction_guards.push(guard);
        proof {
            assert forall|a: int, b: int|
                0 <= a < b < self.reaction_guards@.len() implies !((
            #[trigger] self.reaction_guards@[a]).item_id@ == (
            #[trigger] self.reaction_guards@[b]).item_id@ && self.reaction_guards@[a].key@
                == self.reaction_guards@[b].key@) by {
                if b == self.reaction_guards@.len() - 1 {
                    assert(self.reaction_guards@[a] == old(self).reaction_guards@[a]);
                    assert(!guard_is(old(self).reaction_guards@[a], item_id@, key@));
                } else {
                    assert(self.reaction_guards@[a] == old(self).reaction_guards@[a]);
                    assert(self.reaction_guards@[b] == old(self).reaction_guards@[b]);
                    assert(!((#[trigger] old(self).reaction_guards@[a]).item_id@ == (
                    #[trigger] old(self).reaction_guards@[b]).item_id@ && old(
                        self,
                    ).reaction_guards@[a].key@ == old(self).reaction_guards@[b].key@));
                }
            }
        }
        true
    }

    /// Releases the single-flight slot for the item and key; releasing a
    /// slot that is not held changes nothing.
    pub fn end_reaction_toggle(&mut self, item_id: &EventOrTransactionId, key: &String)
        requires
            old(self).wf(),
        ensures
            final(self).wf(),
            final(self).projection == old(self).projection,
            final(self).pinned_event_ids == old(self).pinned_event_ids,
            final(self).sends == old(self).sends,
            !guard_held(old(self).reaction_guards@, item_id@, key@) ==> final(self).reaction_guards == old(self).reaction_guards,
            guard_held(old(self).reaction_guards@, item_id@, key@) ==> exists|i: int|
                {
                    &&& 0 <= i < old(self).reaction_guards@.len()
                    &&& guard_is(#[trigger] old(self).reaction_guards@[i], item_id@, key@)
                    &&& final(self).reaction_guards@ == old(self).reaction_guards@.remove(i)
                },
            !guard_held(final(self).reaction_guards@, item_id@, key@),
    {
        let ghost guards0 = self.reaction_guards@;
        let mut i: usize = 0;
        while i < self.reaction_guards.len()
            invariant
                old(self).wf(),
                i <= self.reaction_guards@.len(),
                *self == *old(self),
                self.reaction_guards@ == guards0,
                forall|j: int|
                    0 <= j < i ==> !guard_is(#[trigger] self.reaction_guards@[j], item_id@, key@),
            decreases self.reaction_guards@.len() - i,
        {
            let g = &self.reaction_guards[i];
            let same_id = match (&g.item_id, item_id) {
                (
                    EventOrTransactionId::EventId { event_id: a },
                    EventOrTransactionId::EventId { event_id: b },
                ) => a.eq(b),
                (
                    EventOrTransactionId::TransactionId { transaction_id: a },
                    EventOrTransactionId::TransactionId { transaction_id: b },
                ) => a.eq(b),
                _ => false,
            };
            if same_id && g.key.eq(key) {
                self.reaction_guards.remove(i);
                proof {
                    guards0.remove_ensures(i as int);
                    assert forall|a: int, b: int|
                        0 <= a < b < self.reaction_guards@.len() implies !((
                    #[trigger] self.reaction_guards@[a]).item_id@ == (
                    #[trigger] self.reaction_guards@[b]).item_id@ && self.reaction_guards@[a].key@
                        == self.reaction_guards@[b].key@) by {
                        let a0: int = if a < i { a } else { a + 1 };
                        let b0: int = if b < i { b } else { b + 1 };
                        assert(self.reaction_guards@[a] == guards0.remove(i as int)[a]);
                        assert(self.reaction_guards@[b] == guards0.remove(i as int)[b]);
                        assert(self.reaction_guards@[a] == guards0[a0]);
                        assert(self.reaction_guards@[b] == guards0[b0]);
                        assert(!((#[trigger] old(self).reaction_guards@[a0]).item_id@ == (
                        #[trigger] old(self).reaction_guards@[b0]).item_id@ && old(
                            self,
                        ).reaction_guards@[a0].key@ == old(self).reaction_guards@[b0].key@));
                    }
                    assert forall|j: int|
                        0 <= j < self.reaction_guards@.len() implies !guard_is(
                        #[trigger] self.reaction_guards@[j],
                        item_id@,
                        key@,
                    ) by {
                        let j0: int = if j < i { j } else { j + 1 };
                        assert(self.reaction_guards@[j] == guards0.remove(i as int)[j]);
                        assert(self.reaction_guards@[j] == guards0[j0]);
                        if j >= i {
                            assert(!((#[trigger] old(self).reaction_guards@[i as int]).item_id@
                                == (#[trigger] old(self).reaction_guards@[j0]).item_id@ && old(
                                self,
                            ).reaction_guards@[i as int].key@ == old(
                                self,
                            ).reaction_guards@[j0].key@));
                        }
                    }
                }
                return ;
            }
            i += 1;
        }
    }

    /// Toggles the caller's reaction with `key` on the addressed item:
    /// the reaction is added, with the given timestamp, when the caller
    /// has not reacted with that key, and retracted when they have.
    /// Returns whether a reaction was added; addressing an identifier
    /// with no item fails.
    pub fn toggle_reaction(
        &mut self,
        item_id: &EventOrTransactionId,
        key: &String,
        user_id: &String,
        timestamp: u64,
    ) -> (r: Result<bool, ClientError>)
        requires
            old(self).wf(),
        ensures
            final(self).wf(),
            final(self).pinned_event_ids == old(self).pinned_event_ids,
            final(self).sends == old(self).sends,
            final(self).reaction_guards == old(self).reaction_guards,
            r is Ok <==> contains_item(old(self).projection.items@, item_id@),
            r matches Err(e) ==> e is ItemNotFound && final(self).projection.items@ == old(self).projection.items@ && final(self).projection.log == old(self).projection.log,
            r matches Ok(added) ==> exists|j: int|
                {
                    &&& 0 <= j < old(self).projection.items@.len()
                    &&& item_matches(#[trigger] old(self).projection.items@[j]@, item_id@)
                    &&& forall|k: int|
                        0 <= k < j ==> !item_matches(old(self).projection.items@[k]@, item_id@)
                    &&& final(self).projection.items@ == old(self).projection.items@.update(
                        j,
                        final(self).projection.items@[j],
                    )
                    &&& match old(self).projection.items@[j]@.kind {
                        TimelineItemKindView::Event { event } => {
                            &&& final(self).projection.items@[j]@ == (
                            crate::item::TimelineItemView {
                                unique_id: old(self).projection.items@[j]@.unique_id,
                                kind: TimelineItemKindView::Event {
                                    event: EventTimelineItemView {
                                        reactions: crate::reaction::spec_toggle(
                                            event.reactions,
                                            key@,
                                            user_id@,
                                            timestamp,
                                        ),
                                        ..event
                                    },
                                },
                            })
                            &&& added == !crate::reaction::has_reacted(
                                event.reactions,
                                key@,
                                user_id@,
                            )
                        },
                        TimelineItemKindView::Virtual { .. } => false,
                    }
                },
    {
        let j = match find_item(&self.projection.items, item_id) {
            Some(j) => j,
            None => {
                return Err(
                    ClientError::ItemNotFound {
                        message: String::from_str("no timeline item for the given identifier"),
                    },
                );
            },
        };
        let item = item_ref(&self.projection.items[j]);
        let event = match &item.kind {
            TimelineItemKind::Event { event } => event,
            TimelineItemKind::Virtual { .. } => {
                proof {
                    assert(false);
                }
                vstd::pervasive::unreached()
            },
        };
        let mut reactions = crate::item::dup_reactions(&event.reactions);
        let added = crate::reaction::apply_toggle(&mut reactions, key, user_id, timestamp);
        let new_event = event.with_reactions(reactions);
        let new_item = TimelineItem {
            unique_id: item.unique_id.dup(),
            kind: TimelineItemKind::Event { event: new_event },
        };
        let arc = Arc::new(new_item);
        let ghost arc_ghost: Arc<TimelineItem> = arc;
        proof {
            let items0 = self.projection.items@;
            assert(items0[j as int]@.wf());
            match items0[j as int]@.kind {
                TimelineItemKindView::Event { event: ev0 } => {
                    crate::reaction::lemma_toggle_preserves_wf(
                        ev0.reactions,
                        key@,
                        user_id@,
                        timestamp,
                    );
                    crate::reaction::lemma_toggle_flips(ev0.reactions, key@, user_id@, timestamp);
                    assert(arc_ghost@ =~= crate::item::TimelineItemView {
                        unique_id: items0[j as int]@.unique_id,
                        kind: TimelineItemKindView::Event {
                            event: EventTimelineItemView {
                                reactions: crate::reaction::spec_toggle(
                                    ev0.reactions,
                                    key@,
                                    user_id@,
                                    timestamp,
                                ),
                                ..ev0
                            },
                        },
                    });
                    assert(arc_ghost@.wf());
                },
                TimelineItemKindView::Virtual { .. } => {
                    assert(false);
                },
            }
            lemma_apply_preserves_items_wf(
                self.projection.items@,
                TimelineDiffView::SetItem { index: j, value: arc_ghost },
            );
        }
        self.projection.handle_diff(TimelineDiff::SetItem { index: j, value: arc });
        proof {
            let items0 = old(self).projection.items@;
            let items1 = self.projection.items@;
            assert(items1[j as int] == arc_ghost);
            assert(items1 == items0.update(j as int, items1[j as int]));
        }
        Ok(added)
    }

    /// Pins the event: a no-op returning `false` when it is already
    /// pinned, otherwise the id joins the pinned set and the call returns
    /// `true`, telling the caller to issue the room-state update. A
    /// malformed event id fails.
    pub fn pin_event(&mut self, event_id: &String) -> (r: Result<bool, ClientError>)
        requires
            old(self).wf(),
        ensures
            final(self).wf(),
            final(self).projection == old(self).projection,
            final(self).sends == old(self).sends,
            final(self).reaction_guards == old(self).reaction_guards,
            r is Ok <==> event_id_ok(event_id@),
            r matches Err(e) ==> e is InvalidEventId && final(self).pinned_event_ids == old(self).pinned_event_ids,
            r == Ok::<bool, ClientError>(true) ==> !pinned_contains(
                old(self).pinned_event_ids@,
                event_id@,
            ) && final(self).pinned_event_ids@ == old(self).pinned_event_ids@.push(*event_id),
            r == Ok::<bool, ClientError>(false) ==> pinned_contains(
                old(self).pinned_event_ids@,
                event_id@,
            ) && final(self).pinned_event_ids == old(self).pinned_event_ids,
    {
        if let Err(e) = validate_event_id(event_id) {
            return Err(e);
        }
        let mut i: usize = 0;
        while i < self.pinned_event_ids.len()
            invariant
                old(self).wf(),
                event_id_ok(event_id@),
                i <= self.pinned_event_ids@.len(),
                *self == *old(self),
                forall|j: int|
                    0 <= j < i ==> (#[trigger] self.pinned_event_ids@[j])@ != event_id@,
            decreases self.pinned_event_ids@.len() - i,
        {
            if self.pinned_event_ids[i].eq(event_id) {
                return Ok(false);
            }
            i += 1;
        }
        self.pinned_event_ids.push(event_id.clone());
        proof {
            assert forall|a: int, b: int|
                0 <= a < b < self.pinned_event_ids@.len() implies (
            #[trigger] self.pinned_event_ids@[a])@ != (#[trigger] self.pinned_event_ids@[b])@ by {
                if b == self.pinned_event_ids@.len() - 1 {
                    assert(self.pinned_event_ids@[a] == old(self).pinned_event_ids@[a]);
                }
            }
        }
        Ok(true)
    }

    /// Unpins the event: a no-op returning `false` when it is not pinned,
    /// otherwise the id leaves the pinned set and the call returns `true`,
    /// telling the caller to issue the room-state update. A malformed
    /// event id fails.
    pub fn unpin_event(&mut self, event_id: &String) -> (r: Result<bool, ClientError>)
        requires
            old(self).wf(),
        ensures
            final(self).wf(),
            final(self).projection == old(self).projection,
            final(self).sends == old(self).sends,
            final(self).reaction_guards == old(self).reaction_guards,
            r is Ok <==> event_id_ok(event_id@),
            r matches Err(e) ==> e is InvalidEventId && final(self).pinned_event_ids == old(self).pinned_event_ids,
            r == Ok::<bool, ClientError>(true) ==> exists|i: int|
                {
                    &&& 0 <= i < old(self).pinned_event_ids@.len()
                    &&& (#[trigger] old(self).pinned_event_ids@[i])@ == event_id@
                    &&& final(self).pinned_event_ids@ == old(self).pinned_event_ids@.remove(i)
                },
            r == Ok::<bool, ClientError>(false) ==> !pinned_contains(
                old(self).pinned_event_ids@,
                event_id@,
            ) && final(self).pinned_event_ids == old(self).pinned_event_ids,
            !(r matches Err(_)) ==> !pinned_contains(final(self).pinned_event_ids@, event_id@),
    {
        if let Err(e) = validate_event_id(event_id) {
            return Err(e);
        }
        let ghost pinned0 = self.pinned_event_ids@;
        let mut i: usize = 0;
        while i < self.pinned_event_ids.len()
            invariant
                old(self).wf(),
                event_id_ok(event_id@),
                i <= self.pinned_event_ids@.len(),
                *self == *old(self),
                self.pinned_event_ids@ == pinned0,
                forall|j: int|
                    0 <= j < i ==> (#[trigger] self.pinned_event_ids@[j])@ != event_id@,
            decreases self.pinned_event_ids@.len() - i,
        {
            if self.pinned_event_ids[i].eq(event_id) {
                self.pinned_event_ids.remove(i);
                proof {
                    pinned0.remove_ensures(i as int);
                    assert forall|a: int, b: int|
                        0 <= a < b < self.pinned_event_ids@.len() implies (
                    #[trigger] self.pinned_event_ids@[a])@ != (
                    #[trigger] self.pinned_event_ids@[b])@ by {
                        let a0: int = if a < i { a } else { a + 1 };
                        let b0: int = if b < i { b } else { b + 1 };
                        assert(self.pinned_event_ids@[a] == pinned0.remove(i as int)[a]);
                        assert(self.pinned_event_ids@[b] == pinned0.remove(i as int)[b]);
                        assert(self.pinned_event_ids@[a] == pinned0[a0]);
                        assert(self.pinned_event_ids@[b] == pinned0[b0]);
                        assert((#[trigger] old(self).pinned_event_ids@[a0])@ != (
                        #[trigger] old(self).pinned_event_ids@[b0])@);
                    }
                    assert forall|j: int|
                        0 <= j < self.pinned_event_ids@.len() implies (
                    #[trigger] self.pinned_event_ids@[j])@ != event_id@ by {
                        let j0: int = if j < i { j } else { j + 1 };
                        assert(self.pinned_event_ids@[j] == pinned0.remove(i as int)[j]);
                        assert(self.pinned_event_ids@[j] == pinned0[j0]);
                        if j >= i {
                            assert((#[trigger] old(self).pinned_event_ids@[i as int])@ != (
                            #[trigger] old(self).pinned_event_ids@[j0])@);
                        }
                    }
                }
                return Ok(true);
            }
            i += 1;
        }
        Ok(false)
    }
}

/// What a fetched replied-to event resolves to, as plain values.
#[derive(Clone, Debug, PartialEq)]
pub struct RepliedToEventInfo {
    pub content: TimelineItemContent,
    pub sender: String,
    pub sender_profile: crate::item::ProfileDetails,
}

/// The resolution of a replied-to event: ready details, or the failure
/// captured as data so that reply rendering can degrade gracefully.
#[derive(Clone, Debug, PartialEq)]
pub enum RepliedToEventDetails {
    Ready {
        content: TimelineItemContent,
        sender: String,
        sender_profile: crate::item::ProfileDetails,
    },
    Error { message: String },
}

/// The details behind a reply: the replied-to event id and its resolution.
#[derive(Clone, Debug, PartialEq)]
pub struct InReplyToDetails {
    pub event_id: String,
    pub state: RepliedToEventDetails,
}

/// A validated read-receipt request; the receipt is unthreaded.
#[derive(Clone, Debug, PartialEq)]
pub struct ReadReceiptRequest {
    pub receipt_type: crate::item::ReceiptType,
    pub event_id: String,
}

/// A validated reply request: the payload and the event it replies to.
#[derive(Clone, Debug, PartialEq)]
pub struct ReplyRequest {
    pub content: MessageContent,
    pub replied_to_event_id: String,
}

/// What a shared location stands for.
#[derive(Clone, Copy, Debug, PartialEq, Eq, Structural)]
pub enum AssetType {
    /// The sender's own location.
    Sender,
    /// A pinned location.
    Pin,
}

/// The largest zoom level a location may carry.
pub const MAX_ZOOM_LEVEL: u8 = 20;

/// A location message payload.
#[derive(Clone, Debug, PartialEq)]
pub struct LocationContent {
    pub body: String,
    pub geo_uri: String,
    pub description: Option<String>,
    /// Kept only when within `0..=MAX_ZOOM_LEVEL`.
    pub zoom_level: Option<u8>,
    pub asset_type: Option<AssetType>,
}

impl Timeline {
    /// The current timeline item carrying the given event id: a remote
    /// event, or a local echo that has been sent but not yet replaced by
    /// its remote echo. A malformed id or an absent item fails.
    pub fn get_event_timeline_item_by_event_id(&self, event_id: &String) -> (r: Result<
        &EventTimelineItem,
        ClientError,
    >)
        ensures
            r is Ok <==> event_id_ok(event_id@) && contains_item(
                self.projection.items@,
                EventOrTransactionIdView::EventId { event_id: event_id@ },
            ),
            r matches Err(e) ==> (e is InvalidEventId <==> !event_id_ok(event_id@)),
            r matches Err(e) ==> (e is ItemNotFound <==> event_id_ok(event_id@)),
            r matches Ok(event) ==> exists|i: int|
                {
                    &&& 0 <= i < self.projection.items@.len()
                    &&& item_matches(
                        #[trigger] self.projection.items@[i]@,
                        EventOrTransactionIdView::EventId { event_id: event_id@ },
                    )
                    &&& self.projection.items@[i]@.kind == (TimelineItemKindView::Event {
                        event: event@,
                    })
                },
    {
        if let Err(e) = validate_event_id(event_id) {
            return Err(e);
        }
        let id = EventOrTransactionId::EventId { event_id: event_id.clone() };
        let i = match find_item(&self.projection.items, &id) {
            Some(i) => i,
            None => {
                return Err(
                    ClientError::ItemNotFound {
                        message: String::from_str("Item with given event ID not found"),
                    },
                );
            },
        };
        let item = item_ref(&self.projection.items[i]);
        match &item.kind {
            TimelineItemKind::Event { event } => Ok(event),
            TimelineItemKind::Virtual { .. } => {
                proof {
                    assert(false);
                }
                vstd::pervasive::unreached()
            },
        }
    }

    /// Tries to resolve the reply details from the projection alone: the
    /// ready details when the event id addresses an item here, or nothing
    /// when the caller must fetch the event from the room. A malformed
    /// event id fails.
    pub fn load_reply_details_local(&self, event_id: &String) -> (r: Result<
        Option<InReplyToDetails>,
        ClientError,
    >)
        ensures
            r is Ok <==> event_id_ok(event_id@),
            r matches Err(e) ==> e is InvalidEventId,
            r matches Ok(found) ==> (found is Some <==> contains_item(
                self.projection.items@,
                EventOrTransactionIdView::EventId { event_id: event_id@ },
            )),
            r matches Ok(found) ==> found matches Some(details) ==> details.event_id@ == event_id@
                && exists|i: int|
                {
                    &&& 0 <= i < self.projection.items@.len()
                    &&& item_matches(
                        #[trigger] self.projection.items@[i]@,
                        EventOrTransactionIdView::EventId { event_id: event_id@ },
                    )
                    &&& match self.projection.items@[i]@.kind {
                        TimelineItemKindView::Event { event } => details.state matches
                            RepliedToEventDetails::Ready { content, sender, sender_profile }
                            && content@ == event.content && sender@ == event.sender
                            && sender_profile@ == event.sender_profile,
                        TimelineItemKindView::Virtual { .. } => false,
                    }
                },
    {
        if let Err(e) = validate_event_id(event_id) {
            return Err(e);
        }
        let id = EventOrTransactionId::EventId { event_id: event_id.clone() };
        let i = match find_item(&self.projection.items, &id) {
            Some(i) => i,
            None => {
                return Ok(None);
            },
        };
        let item = item_ref(&self.projection.items[i]);
        let event = match &item.kind {
            TimelineItemKind::Event { event } => event,
            TimelineItemKind::Virtual { .. } => {
                proof {
                    assert(false);
                }
                vstd::pervasive::unreached()
            },
        };
        let details = InReplyToDetails {
            event_id: event_id.clone(),
            state: RepliedToEventDetails::Ready {
                content: event.content.dup(),
                sender: event.sender.clone(),
                sender_profile: event.sender_profile.dup(),
            },
        };
        Ok(Some(details))
    }

    /// Turns what the room collaborator fetched into reply details: ready
    /// details on success, the failure captured as an error value on
    /// failure. The caller never fails.
    pub fn reply_details_from_fetch(
        &self,
        event_id: String,
        fetched: Result<RepliedToEventInfo, String>,
    ) -> (r: InReplyToDetails)
        ensures
            r.event_id == event_id,
            fetched matches Ok(info) ==> r.state == (RepliedToEventDetails::Ready {
                content: info.content,
                sender: info.sender,
                sender_profile: info.sender_profile,
            }),
            fetched matches Err(message) ==> r.state == (RepliedToEventDetails::Error { message }),
    {
        match fetched {
            Ok(info) => InReplyToDetails {
                event_id,
                state: RepliedToEventDetails::Ready {
                    content: info.content,
                    sender: info.sender,
                    sender_profile: info.sender_profile,
                },
            },
            Err(message) => InReplyToDetails {
                event_id,
                state: RepliedToEventDetails::Error { message },
            },
        }
    }

    /// Builds the poll start payload: one fresh answer id per answer and
    /// the plain-text fallback, a numbered list with one answer per line.
    /// Fails when the answer list is empty or too long.
    pub fn create_poll(
        &self,
        question: String,
        answers: Vec<String>,
        max_selections: u8,
        poll_kind: crate::poll::PollKind,
    ) -> (r: Result<crate::poll::PollStartEventContent, ClientError>)
        ensures
            r is Ok <==> 1 <= answers@.len() <= crate::poll::MAX_POLL_ANSWERS,
            r matches Err(e) ==> e is Generic,
            r matches Ok(c) ==> {
                &&& c.fallback_text@ == crate::poll::spec_fallback_text(
                    question@,
                    answers.deep_view(),
                )
                &&& c.block.question@ == question@
                &&& c.block.kind == poll_kind
                &&& c.block.max_selections == max_selections
                &&& c.block.answers@.len() == answers@.len()
                &&& forall|i: int|
                    0 <= i < c.block.answers@.len() ==> (#[trigger] c.block.answers@[i]).text@
                        == answers@[i]@ && c.block.answers@[i].id@.len() == 36
            },
    {
        let poll_data = crate::poll::PollData { question, answers, max_selections, poll_kind };
        let fallback_text = poll_data.fallback_text();
        match poll_data.start_block() {
            Ok(block) => Ok(crate::poll::PollStartEventContent { fallback_text, block }),
            Err(e) => Err(e),
        }
    }

    /// Builds a poll response payload addressed to the poll's start event.
    /// A malformed start event id fails; delivery is fire-and-forget.
    pub fn send_poll_response(&self, poll_start_event_id: String, answers: Vec<String>) -> (r:
        Result<crate::poll::PollResponseContent, ClientError>)
        ensures
            r is Ok <==> event_id_ok(poll_start_event_id@),
            r matches Err(e) ==> e is InvalidEventId,
            r matches Ok(c) ==> c.poll_start_event_id == poll_start_event_id && c.answers
                == answers,
    {
        if let Err(e) = validate_event_id(&poll_start_event_id) {
            return Err(e);
        }
        Ok(crate::poll::PollResponseContent { poll_start_event_id, answers })
    }

    /// Builds a poll end payload addressed to the poll's start event. A
    /// malformed start event id fails; delivery is fire-and-forget.
    pub fn end_poll(&self, poll_start_event_id: String, text: String) -> (r: Result<
        crate::poll::PollEndContent,
        ClientError,
    >)
        ensures
            r is Ok <==> event_id_ok(poll_start_event_id@),
            r matches Err(e) ==> e is InvalidEventId,
            r matches Ok(c) ==> c.poll_start_event_id == poll_start_event_id && c.text == text,
    {
        if let Err(e) = validate_event_id(&poll_start_event_id) {
            return Err(e);
        }
        Ok(crate::poll::PollEndContent { poll_start_event_id, text })
    }

    /// Builds a reply request: the payload and the validated id of the
    /// event it replies to. The collaborator resolves the replied-to
    /// details and delivers the reply.
    pub fn send_reply(&self, content: MessageContent, event_id: &String) -> (r: Result<
        ReplyRequest,
        ClientError,
    >)
        ensures
            r is Ok <==> event_id_ok(event_id@),
            r matches Err(e) ==> e is InvalidEventId,
            r matches Ok(req) ==> req.content == content && req.replied_to_event_id@ == event_id@,
    {
        if let Err(e) = validate_event_id(event_id) {
            return Err(e);
        }
        Ok(ReplyRequest { content, replied_to_event_id: event_id.clone() })
    }

    /// Builds a location message payload. A zoom level outside
    /// `0..=MAX_ZOOM_LEVEL` is dropped rather than rejected.
    pub fn send_location(
        &self,
        body: String,
        geo_uri: String,
        description: Option<String>,
        zoom_level: Option<u8>,
        asset_type: Option<AssetType>,
    ) -> (r: LocationContent)
        ensures
            r.body == body,
            r.geo_uri == geo_uri,
            r.description == description,
            r.asset_type == asset_type,
            r.zoom_level == (match zoom_level {
                Some(z) => if z <= MAX_ZOOM_LEVEL {
                    Some(z)
                } else {
                    None
                },
                None => None::<u8>,
            }),
    {
        let zoom_level = match zoom_level {
            Some(z) => if z <= MAX_ZOOM_LEVEL {
                Some(z)
            } else {
                None
            },
            None => None,
        };
        LocationContent { body, geo_uri, description, zoom_level, asset_type }
    }

    /// Builds an unthreaded read-receipt request for the event. A
    /// malformed event id fails.
    pub fn send_read_receipt(
        &self,
        receipt_type: crate::item::ReceiptType,
        event_id: String,
    ) -> (r: Result<ReadReceiptRequest, ClientError>)
        ensures
            r is Ok <==> event_id_ok(event_id@),
            r matches Err(e) ==> e is InvalidEventId,
            r matches Ok(req) ==> req.receipt_type == receipt_type && req.event_id == event_id,
    {
        if let Err(e) = validate_event_id(&event_id) {
            return Err(e);
        }
        Ok(ReadReceiptRequest { receipt_type, event_id })
    }

    /// Validates the event id whose details the caller wants fetched; the
    /// fetch itself is the collaborator's work.
    pub fn fetch_details_for_event(&self, event_id: &String) -> (r: Result<(), ClientError>)
        ensures
            r is Ok <==> event_id_ok(event_id@),
            r matches Err(e) ==> e is InvalidEventId,
    {
        validate_event_id(event_id)
    }

    /// Builds a plain message payload from a tagged message-type value;
    /// an unsupported tag yields nothing.
    pub fn create_message_content(&self, msg_type: MessageType) -> (r: Option<MessageContent>)
        ensures
            r is Some <==> !(msg_type is Unsupported),
            r matches Some(c) ==> c.msg_type == msg_type,
    {
        match msg_type {
            MessageType::Unsupported { .. } => None,
            supported => Some(MessageContent { msg_type: supported }),
        }
    }
}

/// A validated attachment transfer request: the file, its checked MIME
/// type, and the assembled configuration.
#[derive(Clone, Debug, PartialEq)]
pub struct AttachmentRequest {
    pub filename: String,
    pub mime_type: String,
    pub config: crate::attachment::AttachmentConfig,
}

/// Which error an unusable thumbnail pair produces: an unreadable source
/// first, then missing dimensions, then the MIME type.
pub open spec fn thumbnail_error(
    src: crate::attachment::ThumbnailSource,
    info: crate::attachment::ThumbnailInfo,
) -> crate::error::RoomError {
    if src is Unreadable {
        crate::error::RoomError::InvalidThumbnailData
    } else if !(info.height is Some && info.width is Some && info.size is Some) {
        crate::error::RoomError::InvalidAttachmentData
    } else {
        crate::error::RoomError::InvalidAttachmentMimeType
    }
}

/// Whether the optional thumbnail inputs are acceptable: absent entirely,
/// half-supplied (which proceeds without a thumbnail), or a valid pair.
pub open spec fn thumbnail_inputs_ok(
    src: Option<crate::attachment::ThumbnailSource>,
    info: Option<crate::attachment::ThumbnailInfo>,
) -> bool {
    match (src, info) {
        (Some(src), Some(info)) => crate::attachment::thumbnail_pair_ok(src, info),
        _ => true,
    }
}

/// Whether an attachment's own MIME type is present and parseable.
pub open spec fn attachment_mime_ok(mimetype: Option<String>) -> bool {
    match mimetype {
        Some(m) => crate::attachment::mime_ok(m@),
        None => false,
    }
}

/// What a finished request must look like, relative to its inputs.
pub open spec fn attachment_request_matches(
    r: AttachmentRequest,
    filename: Seq<char>,
    mimetype: Option<String>,
    info: crate::attachment::AttachmentInfo,
    caption: Option<Seq<char>>,
    formatted_caption: Option<Seq<char>>,
) -> bool {
    &&& r.filename@ == filename
    &&& match mimetype {
        Some(m) => r.mime_type@ == m@,
        None => false,
    }
    &&& r.config.info == Some(info)
    &&& opt_view(r.config.caption) == caption
    &&& opt_view(r.config.formatted_caption) == formatted_caption
}

impl Timeline {
    /// Assembles the validated request once the type-specific metadata
    /// has converted: the attachment's MIME type must be present and
    /// parseable.
    fn finish_attachment(
        &self,
        filename: String,
        mimetype: Option<String>,
        info: crate::attachment::AttachmentInfo,
        mut config: crate::attachment::AttachmentConfig,
        caption: Option<String>,
        formatted_caption: Option<String>,
    ) -> (r: Result<AttachmentRequest, crate::error::RoomError>)
        requires
            config.info is None,
            config.caption is None,
            config.formatted_caption is None,
        ensures
            r is Ok <==> attachment_mime_ok(mimetype),
            r matches Err(e) ==> e == crate::error::RoomError::InvalidAttachmentMimeType,
            r matches Ok(req) ==> attachment_request_matches(
                req,
                filename@,
                mimetype,
                info,
                opt_view(caption),
                opt_view(formatted_caption),
            ) && req.config.thumbnail == config.thumbnail,
    {
        crate::attachment::validate_mime_type(&mimetype)?;
        let mime_type = match mimetype {
            Some(m) => m,
            None => {
                proof {
                    assert(false);
                }
                vstd::pervasive::unreached()
            },
        };
        config.info = Some(info);
        config.caption = caption;
        config.formatted_caption = formatted_caption;
        Ok(AttachmentRequest { filename, mime_type, config })
    }

    /// Validates and assembles an image upload: the image metadata must
    /// convert, a half-supplied thumbnail is dropped rather than
    /// rejected, and the image's MIME type must be present and
    /// parseable.
    pub fn send_image(
        &self,
        filename: String,
        thumbnail_source: Option<crate::attachment::ThumbnailSource>,
        image_info: crate::attachment::ImageInfo,
        caption: Option<String>,
        formatted_caption: Option<String>,
    ) -> (r: Result<AttachmentRequest, crate::error::RoomError>)
        ensures
            r is Ok <==> image_info.height is Some && image_info.width is Some
                && image_info.size is Some && thumbnail_inputs_ok(
                thumbnail_source,
                image_info.thumbnail_info,
            ) && attachment_mime_ok(image_info.mimetype),
            r matches Err(e) ==> {
                if !(image_info.height is Some && image_info.width is Some
                    && image_info.size is Some) {
                    e == crate::error::RoomError::InvalidAttachmentData
                } else if !thumbnail_inputs_ok(thumbnail_source, image_info.thumbnail_info) {
                    e == thumbnail_error(
                        thumbnail_source.unwrap(),
                        image_info.thumbnail_info.unwrap(),
                    )
                } else {
                    e == crate::error::RoomError::InvalidAttachmentMimeType
                }
            },
            r matches Ok(req) ==> attachment_request_matches(
                req,
                filename@,
                image_info.mimetype,
                crate::attachment::AttachmentInfo::Image {
                    height: image_info.height.unwrap(),
                    width: image_info.width.unwrap(),
                    size: image_info.size.unwrap(),
                },
                opt_view(caption),
                opt_view(formatted_caption),
            ),
    {
        let info = crate::attachment::base_image_info(&image_info)?;
        let config = crate::attachment::build_thumbnail_info(
            thumbnail_source,
            image_info.thumbnail_info,
        )?;
        self.finish_attachment(
            filename,
            image_info.mimetype,
            info,
            config,
            caption,
            formatted_caption,
        )
    }

    /// Validates and assembles a video upload, with the same rules as an
    /// image upload plus the video's duration.
    pub fn send_video(
        &self,
        filename: String,
        thumbnail_source: Option<crate::attachment::ThumbnailSource>,
        video_info: crate::attachment::VideoInfo,
        caption: Option<String>,
        formatted_caption: Option<String>,
    ) -> (r: Result<AttachmentRequest, crate::error::RoomError>)
        ensures
            r is Ok <==> video_info.duration is Some && video_info.height is Some
                && video_info.width is Some && video_info.size is Some && thumbnail_inputs_ok(
                thumbnail_source,
                video_info.thumbnail_info,
            ) && attachment_mime_ok(video_info.mimetype),
            r matches Err(e) ==> {
                if !(video_info.duration is Some && video_info.height is Some
                    && video_info.width is Some && video_info.size is Some) {
                    e == crate::error::RoomError::InvalidAttachmentData
                } else if !thumbnail_inputs_ok(thumbnail_source, video_info.thumbnail_info) {
                    e == thumbnail_error(
                        thumbnail_source.unwrap(),
                        video_info.thumbnail_info.unwrap(),
                    )
                } else {
                    e == crate::error::RoomError::InvalidAttachmentMimeType
                }
            },
            r matches Ok(req) ==> attachment_request_matches(
                req,
                filename@,
                video_info.mimetype,
                crate::attachment::AttachmentInfo::Video {
                    duration: video_info.duration.unwrap(),
                    height: video_info.height.unwrap(),
                    width: video_info.width.unwrap(),
                    size: video_info.size.unwrap(),
                },
                opt_view(caption),
                opt_view(formatted_caption),
            ),
    {
        let info = crate::attachment::base_video_info(&video_info)?;
        let config = crate::attachment::build_thumbnail_info(
            thumbnail_source,
            video_info.thumbnail_info,
        )?;
        self.finish_attachment(
            filename,
            video_info.mimetype,
            info,
            config,
            caption,
            formatted_caption,
        )
    }

    /// Validates and assembles an audio upload: no thumbnail, the audio
    /// metadata must convert, and the MIME type must be present and
    /// parseable.
    pub fn send_audio(
        &self,
        filename: String,
        audio_info: crate::attachment::AudioInfo,
        caption: Option<String>,
        formatted_caption: Option<String>,
    ) -> (r: Result<AttachmentRequest, crate::error::RoomError>)
        ensures
            r is Ok <==> audio_info.duration is Some && audio_info.size is Some
                && attachment_mime_ok(audio_info.mimetype),
            r matches Err(e) ==> {
                if !(audio_info.duration is Some && audio_info.size is Some) {
                    e == crate::error::RoomError::InvalidAttachmentData
                } else {
                    e == crate::error::RoomError::InvalidAttachmentMimeType
                }
            },
            r matches Ok(req) ==> attachment_request_matches(
                req,
                filename@,
                audio_info.mimetype,
                crate::attachment::AttachmentInfo::Audio {
                    duration: audio_info.duration.unwrap(),
                    size: audio_info.size.unwrap(),
                },
                opt_view(caption),
                opt_view(formatted_caption),
            ) && req.config.thumbnail is None,
    {
        let info = crate::attachment::base_audio_info(&audio_info)?;
        let config = crate::attachment::AttachmentConfig::new();
        self.finish_attachment(
            filename,
            audio_info.mimetype,
            info,
            config,
            caption,
            formatted_caption,
        )
    }

    /// Validates and assembles a voice message upload: an audio upload
    /// whose payload carries the recorded waveform.
    pub fn send_voice_message(
        &self,
        filename: String,
        audio_info: crate::attachment::AudioInfo,
        waveform: Vec<u16>,
        caption: Option<String>,
        formatted_caption: Option<String>,
    ) -> (r: Result<AttachmentRequest, crate::error::RoomError>)
        ensures
            r is Ok <==> audio_info.duration is Some && audio_info.size is Some
                && attachment_mime_ok(audio_info.mimetype),
            r matches Err(e) ==> {
                if !(audio_info.duration is Some && audio_info.size is Some) {
                    e == crate::error::RoomError::InvalidAttachmentData
                } else {
                    e == crate::error::RoomError::InvalidAttachmentMimeType
                }
            },
            r matches Ok(req) ==> attachment_request_matches(
                req,
                filename@,
                audio_info.mimetype,
                crate::attachment::AttachmentInfo::Voice {
                    duration: audio_info.duration.unwrap(),
                    size: audio_info.size.unwrap(),
                    waveform,
                },
                opt_view(caption),
                opt_view(formatted_caption),
            ),
    {
        let duration_and_size = match (audio_info.duration, audio_info.size) {
            (Some(duration), Some(size)) => (duration, size),
            _ => {
                return Err(crate::error::RoomError::InvalidAttachmentData);
            },
        };
        let info = crate::attachment::AttachmentInfo::Voice {
            duration: duration_and_size.0,
            size: duration_and_size.1,
            waveform,
        };
        let config = crate::attachment::AttachmentConfig::new();
        self.finish_attachment(
            filename,
            audio_info.mimetype,
            info,
            config,
            caption,
            formatted_caption,
        )
    }

    /// Validates and assembles a generic file upload: the file metadata
    /// must convert and the MIME type must be present and parseable.
    pub fn send_file(&self, filename: String, file_info: crate::attachment::FileInfo) -> (r:
        Result<AttachmentRequest, crate::error::RoomError>)
        ensures
            r is Ok <==> file_info.size is Some && attachment_mime_ok(file_info.mimetype),
            r matches Err(e) ==> {
                if !(file_info.size is Some) {
                    e == crate::error::RoomError::InvalidAttachmentData
                } else {
                    e == crate::error::RoomError::InvalidAttachmentMimeType
                }
            },
            r matches Ok(req) ==> attachment_request_matches(
                req,
                filename@,
                file_info.mimetype,
                crate::attachment::AttachmentInfo::File { size: file_info.size.unwrap() },
                None,
                None,
            ),
    {
        let info = crate::attachment::base_file_info(&file_info)?;
        let config = crate::attachment::AttachmentConfig::new();
        self.finish_attachment(filename, file_info.mimetype, info, config, None, None)
    }
}

} // verus!
