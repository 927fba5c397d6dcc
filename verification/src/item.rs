//! The timeline item model: one renderable unit (event or virtual marker)
//! and its projected fields.

use std::sync::Arc;
use vstd::prelude::*;

use crate::content::TimelineItemContent;
use crate::content::TimelineItemContentView;
use crate::ids::EventOrTransactionId;
use crate::ids::EventOrTransactionIdView;
use crate::ids::TimelineUniqueId;
use crate::reaction::Reaction;
use crate::reaction::ReactionView;
use crate::reaction::reactions_wf;

verus! {

/// A sender's profile, resolved lazily: it never throws and always lands in
/// one of these four states.
#[derive(Clone, Debug, PartialEq)]
pub enum ProfileDetails {
    Unavailable,
    Pending,
    Ready {
        display_name: Option<String>,
        display_name_ambiguous: bool,
        avatar_url: Option<String>,
    },
    Error { message: String },
}

/// Ghost mirror of [`ProfileDetails`].
#[verifier::ext_equal]
pub enum ProfileDetailsView {
    Unavailable,
    Pending,
    Ready {
        display_name: Option<Seq<char>>,
        display_name_ambiguous: bool,
        avatar_url: Option<Seq<char>>,
    },
    Error { message: Seq<char> },
}

/// The view of an optional string.
pub open spec fn opt_str_view(s: Option<String>) -> Option<Seq<char>> {
    match s {
        Some(s) => Some(s@),
        None => None,
    }
}

impl View for ProfileDetails {
    type V = ProfileDetailsView;

    open spec fn view(&self) -> ProfileDetailsView {
        match self {
            ProfileDetails::Unavailable => ProfileDetailsView::Unavailable,
            ProfileDetails::Pending => ProfileDetailsView::Pending,
            ProfileDetails::Ready { display_name, display_name_ambiguous, avatar_url } => {
                ProfileDetailsView::Ready {
                    display_name: opt_str_view(*display_name),
                    display_name_ambiguous: *display_name_ambiguous,
                    avatar_url: opt_str_view(*avatar_url),
                }
            },
            ProfileDetails::Error { message } => ProfileDetailsView::Error { message: message@ },
        }
    }
}

/// Duplicates an optional string; the copy has the same view.
fn dup_opt_string(s: &Option<String>) -> (r: Option<String>)
    ensures
        opt_str_view(r) == opt_str_view(*s),
{
    match s {
        Some(s) => Some(s.clone()),
        None => None,
    }
}

impl ProfileDetails {
    /// Duplicates the profile details; the copy has the same view.
    pub fn dup(&self) -> (r: ProfileDetails)
        ensures
            r@ == self@,
    {
        match self {
            ProfileDetails::Unavailable => ProfileDetails::Unavailable,
            ProfileDetails::Pending => ProfileDetails::Pending,
            ProfileDetails::Ready { display_name, display_name_ambiguous, avatar_url } => {
                ProfileDetails::Ready {
                    display_name: dup_opt_string(display_name),
                    display_name_ambiguous: *display_name_ambiguous,
                    avatar_url: dup_opt_string(avatar_url),
                }
            },
            ProfileDetails::Error { message } => ProfileDetails::Error {
                message: message.clone(),
            },
        }
    }
}

/// The send state of a local event timeline item; present only for local
/// echoes.
#[derive(Clone, Debug, PartialEq)]
pub enum EventSendState {
    /// The local event has not been sent yet.
    NotSentYet,
    /// The delivery attempt failed.
    SendingFailed { error: String, is_recoverable: bool },
    /// The local event reached the server, which assigned it an event id.
    Sent { event_id: String },
}

/// Ghost mirror of [`EventSendState`].
#[verifier::ext_equal]
pub enum EventSendStateView {
    NotSentYet,
    SendingFailed { error: Seq<char>, is_recoverable: bool },
    Sent { event_id: Seq<char> },
}

impl View for EventSendState {
    type V = EventSendStateView;

    open spec fn view(&self) -> EventSendStateView {
        match self {
            EventSendState::NotSentYet => EventSendStateView::NotSentYet,
            EventSendState::SendingFailed { error, is_recoverable } => {
                EventSendStateView::SendingFailed {
                    error: error@,
                    is_recoverable: *is_recoverable,
                }
            },
            EventSendState::Sent { event_id } => EventSendStateView::Sent { event_id: event_id@ },
        }
    }
}

impl EventSendState {
    /// Duplicates the send state; the copy has the same view.
    pub fn dup(&self) -> (r: EventSendState)
        ensures
            r@ == self@,
    {
        match self {
            EventSendState::NotSentYet => EventSendState::NotSentYet,
            EventSendState::SendingFailed { error, is_recoverable } => {
                EventSendState::SendingFailed {
                    error: error.clone(),
                    is_recoverable: *is_recoverable,
                }
            },
            EventSendState::Sent { event_id } => EventSendState::Sent {
                event_id: event_id.clone(),
            },
        }
    }
}

/// The view of an optional send state.
pub open spec fn opt_send_state_view(s: Option<EventSendState>) -> Option<EventSendStateView> {
    match s {
        Some(s) => Some(s@),
        None => None,
    }
}

/// A read receipt, with its timestamp when one was reported.
#[derive(Clone, Copy, Debug, PartialEq, Eq, Structural)]
pub struct Receipt {
    pub timestamp: Option<u64>,
}

/// One user's read receipt on an item.
#[derive(Clone, Debug, PartialEq)]
pub struct ReadReceipt {
    pub user_id: String,
    pub receipt: Receipt,
}

/// Ghost mirror of [`ReadReceipt`].
#[verifier::ext_equal]
pub struct ReadReceiptView {
    pub user_id: Seq<char>,
    pub receipt: Receipt,
}

impl View for ReadReceipt {
    type V = ReadReceiptView;

    open spec fn view(&self) -> ReadReceiptView {
        ReadReceiptView { user_id: self.user_id@, receipt: self.receipt }
    }
}

impl DeepView for ReadReceipt {
    type V = ReadReceiptView;

    open spec fn deep_view(&self) -> ReadReceiptView {
        self.view()
    }
}

/// The receipt kind used when marking events as read.
#[derive(Clone, Copy, Debug, PartialEq, Eq, Structural)]
pub enum ReceiptType {
    Read,
    ReadPrivate,
    FullyRead,
}

/// Where an event item came from.
#[derive(Clone, Copy, Debug, PartialEq, Eq, Structural)]
pub enum EventItemOrigin {
    /// The item is a local echo.
    Local,
    /// The item arrived through live sync.
    Sync,
    /// The item was brought in by pagination.
    Pagination,
}

/// The machine-readable reason behind a shield decoration.
#[derive(Clone, Copy, Debug, PartialEq, Eq, Structural)]
pub enum ShieldStateCode {
    AuthenticityNotGuaranteed,
    UnknownDevice,
    UnsignedDevice,
    UnverifiedIdentity,
    SentInClear,
}

/// The recommended decoration for a decrypted message, consumed here as an
/// opaque reported value.
#[derive(Clone, Debug, PartialEq)]
pub enum ShieldState {
    Red { code: ShieldStateCode, message: String },
    Grey { code: ShieldStateCode, message: String },
    NoShield,
}

/// Ghost mirror of [`ShieldState`].
#[verifier::ext_equal]
pub enum ShieldStateView {
    Red { code: ShieldStateCode, message: Seq<char> },
    Grey { code: ShieldStateCode, message: Seq<char> },
    NoShield,
}

impl View for ShieldState {
    type V = ShieldStateView;

    open spec fn view(&self) -> ShieldStateView {
        match self {
            ShieldState::Red { code, message } => ShieldStateView::Red {
                code: *code,
                message: message@,
            },
            ShieldState::Grey { code, message } => ShieldStateView::Grey {
                code: *code,
                message: message@,
            },
            ShieldState::NoShield => ShieldStateView::NoShield,
        }
    }
}

/// The view of an optional shield state.
pub open spec fn opt_shield_view(s: Option<ShieldState>) -> Option<ShieldStateView> {
    match s {
        Some(s) => Some(s@),
        None => None,
    }
}

/// Raw details behind an event item, captured for inspection.
#[derive(Clone, Debug, PartialEq)]
pub struct EventTimelineItemDebugInfo {
    pub model: String,
    pub original_json: Option<String>,
    pub latest_edit_json: Option<String>,
}

/// Ghost mirror of [`EventTimelineItemDebugInfo`].
#[verifier::ext_equal]
pub struct EventTimelineItemDebugInfoView {
    pub model: Seq<char>,
    pub original_json: Option<Seq<char>>,
    pub latest_edit_json: Option<Seq<char>>,
}

impl View for EventTimelineItemDebugInfo {
    type V = EventTimelineItemDebugInfoView;

    open spec fn view(&self) -> EventTimelineItemDebugInfoView {
        EventTimelineItemDebugInfoView {
            model: self.model@,
            original_json: opt_str_view(self.original_json),
            latest_edit_json: opt_str_view(self.latest_edit_json),
        }
    }
}

impl EventTimelineItemDebugInfo {
    /// Duplicates the debug info; the copy has the same view.
    pub fn dup(&self) -> (r: EventTimelineItemDebugInfo)
        ensures
            r@ == self@,
    {
        EventTimelineItemDebugInfo {
            model: self.model.clone(),
            original_json: dup_opt_string(&self.original_json),
            latest_edit_json: dup_opt_string(&self.latest_edit_json),
        }
    }
}

/// On-demand views over an immutable snapshot of one event item: the
/// reported shields and the captured raw details.
#[derive(Clone, Debug, PartialEq)]
pub struct LazyTimelineItemProvider {
    pub shield_strict: Option<ShieldState>,
    pub shield_lenient: Option<ShieldState>,
    pub debug: EventTimelineItemDebugInfo,
}

/// Ghost mirror of [`LazyTimelineItemProvider`].
#[verifier::ext_equal]
pub struct LazyTimelineItemProviderView {
    pub shield_strict: Option<ShieldStateView>,
    pub shield_lenient: Option<ShieldStateView>,
    pub debug: EventTimelineItemDebugInfoView,
}

impl View for LazyTimelineItemProvider {
    type V = LazyTimelineItemProviderView;

    open spec fn view(&self) -> LazyTimelineItemProviderView {
        LazyTimelineItemProviderView {
            shield_strict: opt_shield_view(self.shield_strict),
            shield_lenient: opt_shield_view(self.shield_lenient),
            debug: self.debug@,
        }
    }
}

fn dup_opt_shield(s: &Option<ShieldState>) -> (r: Option<ShieldState>)
    ensures
        opt_shield_view(r) == opt_shield_view(*s),
{
    match s {
        Some(ShieldState::Red { code, message }) => Some(
            ShieldState::Red { code: *code, message: message.clone() },
        ),
        Some(ShieldState::Grey { code, message }) => Some(
            ShieldState::Grey { code: *code, message: message.clone() },
        ),
        Some(ShieldState::NoShield) => Some(ShieldState::NoShield),
        None => None,
    }
}

impl LazyTimelineItemProvider {
    /// The shields reported for this event item, for the requested
    /// strictness.
    pub fn get_shields(&self, strict: bool) -> (r: &Option<ShieldState>)
        ensures
            strict ==> r == &self.shield_strict,
            !strict ==> r == &self.shield_lenient,
    {
        if strict {
            &self.shield_strict
        } else {
            &self.shield_lenient
        }
    }

    /// The raw details captured for this event item.
    pub fn debug_info(&self) -> (r: &EventTimelineItemDebugInfo)
        ensures
            r == &self.debug,
    {
        &self.debug
    }

    /// Duplicates the provider; the copy has the same view.
    pub fn dup(&self) -> (r: LazyTimelineItemProvider)
        ensures
            r@ == self@,
    {
        LazyTimelineItemProvider {
            shield_strict: dup_opt_shield(&self.shield_strict),
            shield_lenient: dup_opt_shield(&self.shield_lenient),
            debug: self.debug.dup(),
        }
    }
}

/// One event's projected fields.
#[derive(Clone, Debug, PartialEq)]
pub struct EventTimelineItem {
    /// True once the server-confirmed copy exists.
    pub is_remote: bool,
    pub event_or_transaction_id: EventOrTransactionId,
    pub sender: String,
    pub sender_profile: ProfileDetails,
    pub is_own: bool,
    pub is_editable: bool,
    pub content: TimelineItemContent,
    pub timestamp: u64,
    pub reactions: Vec<Reaction>,
    /// Present only for local echoes.
    pub local_send_state: Option<EventSendState>,
    pub read_receipts: Vec<ReadReceipt>,
    pub origin: Option<EventItemOrigin>,
    pub can_be_replied_to: bool,
    pub lazy_provider: LazyTimelineItemProvider,
}

/// Ghost mirror of [`EventTimelineItem`].
#[verifier::ext_equal]
pub struct EventTimelineItemView {
    pub is_remote: bool,
    pub event_or_transaction_id: EventOrTransactionIdView,
    pub sender: Seq<char>,
    pub sender_profile: ProfileDetailsView,
    pub is_own: bool,
    pub is_editable: bool,
    pub content: TimelineItemContentView,
    pub timestamp: u64,
    pub reactions: Seq<ReactionView>,
    pub local_send_state: Option<EventSendStateView>,
    pub read_receipts: Seq<ReadReceiptView>,
    pub origin: Option<EventItemOrigin>,
    pub can_be_replied_to: bool,
    pub lazy_provider: LazyTimelineItemProviderView,
}

impl View for EventTimelineItem {
    type V = EventTimelineItemView;

    open spec fn view(&self) -> EventTimelineItemView {
        EventTimelineItemView {
            is_remote: self.is_remote,
            event_or_transaction_id: self.event_or_transaction_id@,
            sender: self.sender@,
            sender_profile: self.sender_profile@,
            is_own: self.is_own,
            is_editable: self.is_editable,
            content: self.content@,
            timestamp: self.timestamp,
            reactions: self.reactions.deep_view(),
            local_send_state: opt_send_state_view(self.local_send_state),
            read_receipts: self.read_receipts.deep_view(),
            origin: self.origin,
            can_be_replied_to: self.can_be_replied_to,
            lazy_provider: self.lazy_provider@,
        }
    }
}

impl EventTimelineItemView {
    /// Well-formed event item: the identity kind matches the remote flag, a
    /// send state is carried exactly by local echoes, the reactions mapping
    /// is well-formed, and no user holds two read receipts.
    pub open spec fn wf(self) -> bool {
        &&& self.is_remote <==> self.event_or_transaction_id is EventId
        &&& self.is_remote <==> self.local_send_state is None
        &&& reactions_wf(self.reactions)
        &&& forall|i: int, j: int|
            0 <= i < j < self.read_receipts.len() ==> (#[trigger] self.read_receipts[i]).user_id
                != (#[trigger] self.read_receipts[j]).user_id
    }
}

pub(crate) fn dup_reactions(reactions: &Vec<Reaction>) -> (r: Vec<Reaction>)
    ensures
        r.deep_view() == reactions.deep_view(),
{
    let mut out: Vec<Reaction> = Vec::new();
    let mut i: usize = 0;
    while i < reactions.len()
        invariant
            i <= reactions.len(),
            out@.len() == i,
            forall|j: int| 0 <= j < i ==> (#[trigger] out@[j])@ == reactions@[j]@,
        decreases reactions.len() - i,
    {
        out.push(reactions[i].dup());
        i += 1;
    }
    proof {
        assert(out.deep_view() =~= reactions.deep_view());
    }
    out
}

fn dup_read_receipts(receipts: &Vec<ReadReceipt>) -> (r: Vec<ReadReceipt>)
    ensures
        r.deep_view() == receipts.deep_view(),
{
    let mut out: Vec<ReadReceipt> = Vec::new();
    let mut i: usize = 0;
    while i < receipts.len()
        invariant
            i <= receipts.len(),
            out@.len() == i,
            forall|j: int| 0 <= j < i ==> (#[trigger] out@[j])@ == receipts@[j]@,
        decreases receipts.len() - i,
    {
        out.push(
            ReadReceipt { user_id: receipts[i].user_id.clone(), receipt: receipts[i].receipt },
        );
        i += 1;
    }
    proof {
        assert(out.deep_view() =~= receipts.deep_view());
    }
    out
}

fn dup_opt_send_state(s: &Option<EventSendState>) -> (r: Option<EventSendState>)
    ensures
        opt_send_state_view(r) == opt_send_state_view(*s),
{
    match s {
        Some(s) => Some(s.dup()),
        None => None,
    }
}

impl EventTimelineItem {
    /// Duplicates the event item; the copy has the same view.
    pub fn dup(&self) -> (r: EventTimelineItem)
        ensures
            r@ == self@,
    {
        let r = EventTimelineItem {
            is_remote: self.is_remote,
            event_or_transaction_id: self.event_or_transaction_id.dup(),
            sender: self.sender.clone(),
            sender_profile: self.sender_profile.dup(),
            is_own: self.is_own,
            is_editable: self.is_editable,
            content: self.content.dup(),
            timestamp: self.timestamp,
            reactions: dup_reactions(&self.reactions),
            local_send_state: dup_opt_send_state(&self.local_send_state),
            read_receipts: dup_read_receipts(&self.read_receipts),
            origin: self.origin,
            can_be_replied_to: self.can_be_replied_to,
            lazy_provider: self.lazy_provider.dup(),
        };
        proof {
            assert(r@ =~= self@);
        }
        r
    }

    /// Duplicates the event item with its send state replaced.
    pub fn with_send_state(&self, state: EventSendState) -> (r: EventTimelineItem)
        ensures
            r@ == (EventTimelineItemView { local_send_state: Some(state@), ..self@ }),
    {
        let r = EventTimelineItem { local_send_state: Some(state), ..self.dup() };
        proof {
            assert(r@ =~= EventTimelineItemView { local_send_state: Some(state@), ..self@ });
        }
        r
    }

    /// Duplicates the event item with its reactions replaced.
    pub fn with_reactions(&self, reactions: Vec<Reaction>) -> (r: EventTimelineItem)
        ensures
            r@ == (EventTimelineItemView { reactions: reactions.deep_view(), ..self@ }),
    {
        let r = EventTimelineItem { reactions, ..self.dup() };
        proof {
            assert(r@ =~= EventTimelineItemView { reactions: r.reactions.deep_view(), ..self@ });
        }
        r
    }
}

/// A timeline item that does not correspond to an event.
#[derive(Clone, Copy, Debug, PartialEq, Eq, Structural)]
pub enum VirtualTimelineItem {
    /// A divider between messages of two days, carrying a timestamp in
    /// milliseconds since the Unix epoch on that day.
    DayDivider { ts: u64 },
    /// The user's own read marker.
    ReadMarker,
}

/// What one timeline item is: an event or a virtual marker.
#[derive(Clone, Debug, PartialEq)]
pub enum TimelineItemKind {
    Event { event: EventTimelineItem },
    Virtual { virtual_item: VirtualTimelineItem },
}

/// Ghost mirror of [`TimelineItemKind`].
#[verifier::ext_equal]
pub enum TimelineItemKindView {
    Event { event: EventTimelineItemView },
    Virtual { virtual_item: VirtualTimelineItem },
}

impl View for TimelineItemKind {
    type V = TimelineItemKindView;

    open spec fn view(&self) -> TimelineItemKindView {
        match self {
            TimelineItemKind::Event { event } => TimelineItemKindView::Event { event: event@ },
            TimelineItemKind::Virtual { virtual_item } => TimelineItemKindView::Virtual {
                virtual_item: *virtual_item,
            },
        }
    }
}

/// One renderable unit of the timeline, keyed by its stable unique id.
#[derive(Clone, Debug, PartialEq)]
pub struct TimelineItem {
    pub unique_id: TimelineUniqueId,
    pub kind: TimelineItemKind,
}

/// Ghost mirror of [`TimelineItem`].
#[verifier::ext_equal]
pub struct TimelineItemView {
    pub unique_id: Seq<char>,
    pub kind: TimelineItemKindView,
}

impl View for TimelineItem {
    type V = TimelineItemView;

    open spec fn view(&self) -> TimelineItemView {
        TimelineItemView { unique_id: self.unique_id@, kind: self.kind@ }
    }
}

impl TimelineItemView {
    /// Well-formed item: an event payload is itself well-formed.
    pub open spec fn wf(self) -> bool {
        match self.kind {
            TimelineItemKindView::Event { event } => event.wf(),
            TimelineItemKindView::Virtual { .. } => true,
        }
    }
}

impl TimelineItem {
    /// The event payload, for an event item.
    pub fn as_event(&self) -> (r: Option<&EventTimelineItem>)
        ensures
            match r {
                Some(event) => self@.kind == (TimelineItemKindView::Event { event: event@ }),
                None => (self@.kind is Virtual),
            },
    {
        match &self.kind {
            TimelineItemKind::Event { event } => Some(event),
            TimelineItemKind::Virtual { .. } => None,
        }
    }

    /// The virtual payload, for a virtual item.
    pub fn as_virtual(&self) -> (r: Option<VirtualTimelineItem>)
        ensures
            match r {
                Some(v) => self@.kind == (TimelineItemKindView::Virtual { virtual_item: v }),
                None => (self@.kind is Event),
            },
    {
        match &self.kind {
            TimelineItemKind::Event { .. } => None,
            TimelineItemKind::Virtual { virtual_item } => Some(*virtual_item),
        }
    }

    /// The opaque unique identifier of this item.
    pub fn unique_id(&self) -> (r: &TimelineUniqueId)
        ensures
            r@ == self@.unique_id,
    {
        &self.unique_id
    }

    /// A short rendering of the item for inspection, naming its unique id.
    pub fn fmt_debug(&self) -> (r: String)
        ensures
            r@ == "TimelineItem { unique_id: "@ + self@.unique_id + " }"@,
    {
        let mut s = String::from_str("TimelineItem { unique_id: ");
        s.append(self.unique_id.id.as_str());
        s.append(" }");
        s
    }

    /// Duplicates the item; the copy has the same view.
    pub fn dup(&self) -> (r: TimelineItem)
        ensures
            r@ == self@,
    {
        let kind = match &self.kind {
            TimelineItemKind::Event { event } => TimelineItemKind::Event { event: event.dup() },
            TimelineItemKind::Virtual { virtual_item } => TimelineItemKind::Virtual {
                virtual_item: *virtual_item,
            },
        };
        let r = TimelineItem { unique_id: self.unique_id.dup(), kind };
        proof {
            assert(r@ =~= self@);
        }
        r
    }
}

/// Relies on std's `Arc::clone`: the returned handle refers to the same
/// shared item.
#[verifier::external_body]
pub fn share_item(item: &Arc<TimelineItem>) -> (r: Arc<TimelineItem>)
    ensures
        r == *item,
{
    Arc::clone(item)
}

/// Relies on std's `Arc` deref: the reference is to the shared item
/// itself.
#[verifier::external_body]
pub fn item_ref(item: &Arc<TimelineItem>) -> (r: &TimelineItem)
    ensures
        *r == **item,
{
    item
}

/// The display line for one item: the event's identifier and a plain body,
/// or nothing for a virtual item.
pub open spec fn spec_display(v: TimelineItemView) -> Option<Seq<char>> {
    match v.kind {
        TimelineItemKindView::Event { event } => {
            let id = match event.event_or_transaction_id {
                EventOrTransactionIdView::EventId { event_id } => event_id,
                EventOrTransactionIdView::TransactionId { transaction_id } => transaction_id,
            };
            let body = match event.content {
                TimelineItemContentView::Message { body } => body,
                TimelineItemContentView::UnableToDecrypt => "Unable to decrypt"@,
                _ => "---"@,
            };
            Some(id + ": "@ + body)
        },
        TimelineItemKindView::Virtual { .. } => None,
    }
}

/// Formats a timeline item as a string for display; virtual items render as
/// nothing.
pub fn display(item: &TimelineItem) -> (r: Option<String>)
    ensures
        opt_str_view(r) == spec_display(item@),
{
    match &item.kind {
        TimelineItemKind::Event { event } => {
            let mut s = match &event.event_or_transaction_id {
                EventOrTransactionId::EventId { event_id } => event_id.clone(),
                EventOrTransactionId::TransactionId { transaction_id } => transaction_id.clone(),
            };
            s.append(": ");
            match &event.content {
                TimelineItemContent::Message { body } => s.append(body.as_str()),
                TimelineItemContent::UnableToDecrypt => s.append("Unable to decrypt"),
                TimelineItemContent::RedactedMessage => s.append("---"),
                TimelineItemContent::Poll { .. } => s.append("---"),
                TimelineItemContent::Other => s.append("---"),
            }
            Some(s)
        },
        TimelineItemKind::Virtual { .. } => None,
    }
}

} // verus!
