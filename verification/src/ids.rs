//! Identifiers: event ids, transaction ids, and the opaque unique id used
//! for list-diff key matching.
//!
//! Event id strings are validated through `ruma`'s identifier grammar; the
//! outcome of that grammar is named by [`event_id_ok`] and every contract
//! that speaks of validity goes through that name.

use vstd::prelude::*;

use crate::error::ClientError;

verus! {

/// Whether a string passes `ruma`'s event-id validation.
pub uninterp spec fn event_id_ok(s: Seq<char>) -> bool;

/// Relies on `ruma::EventId::parse`: accepts exactly the strings that pass
/// ruma's event-id validation, and reports the parse error's text otherwise.
/// A valid event id always starts with the `$` sigil.
#[verifier::external_body]
fn check_event_id(s: &str) -> (r: Result<(), String>)
    ensures
        r is Ok <==> event_id_ok(s@),
        r is Ok ==> s@.len() > 0 && s@[0] == '$',
{
    match ruma::EventId::parse(s) {
        Ok(_) => Ok(()),
        Err(e) => Err(e.to_string()),
    }
}

/// Validates an event id string, surfacing the parse error directly.
pub fn validate_event_id(event_id: &String) -> (r: Result<(), ClientError>)
    ensures
        r is Ok <==> event_id_ok(event_id@),
        r matches Err(e) ==> e is InvalidEventId,
{
    match check_event_id(event_id.as_str()) {
        Ok(()) => Ok(()),
        Err(message) => Err(ClientError::InvalidEventId { message }),
    }
}

/// The identity of an event timeline item: a persisted event id once the
/// server has confirmed the event, or a transaction id while the item is a
/// local echo.
#[derive(Clone, Debug, PartialEq)]
pub enum EventOrTransactionId {
    EventId { event_id: String },
    TransactionId { transaction_id: String },
}

/// Ghost mirror of [`EventOrTransactionId`].
#[verifier::ext_equal]
pub enum EventOrTransactionIdView {
    EventId { event_id: Seq<char> },
    TransactionId { transaction_id: Seq<char> },
}

impl View for EventOrTransactionId {
    type V = EventOrTransactionIdView;

    open spec fn view(&self) -> EventOrTransactionIdView {
        match self {
            EventOrTransactionId::EventId { event_id } => EventOrTransactionIdView::EventId {
                event_id: event_id@,
            },
            EventOrTransactionId::TransactionId { transaction_id } => {
                EventOrTransactionIdView::TransactionId { transaction_id: transaction_id@ }
            },
        }
    }
}

impl EventOrTransactionId {
    /// Duplicates the identifier; the copy has the same view.
    pub fn dup(&self) -> (r: EventOrTransactionId)
        ensures
            r@ == self@,
    {
        match self {
            EventOrTransactionId::EventId { event_id } => EventOrTransactionId::EventId {
                event_id: event_id.clone(),
            },
            EventOrTransactionId::TransactionId { transaction_id } => {
                EventOrTransactionId::TransactionId { transaction_id: transaction_id.clone() }
            },
        }
    }
}

/// An opaque, stable identifier used for efficient list-diff key matching.
///
/// The id is never reused for a different logical item and stays stable
/// across projection updates to the same item's content.
#[derive(Clone, Debug, PartialEq)]
pub struct TimelineUniqueId {
    pub id: String,
}

impl View for TimelineUniqueId {
    type V = Seq<char>;

    open spec fn view(&self) -> Seq<char> {
        self.id@
    }
}

impl TimelineUniqueId {
    pub fn new(id: String) -> (r: TimelineUniqueId)
        ensures
            r@ == id@,
    {
        TimelineUniqueId { id }
    }

    pub fn dup(&self) -> (r: TimelineUniqueId)
        ensures
            r@ == self@,
    {
        TimelineUniqueId { id: self.id.clone() }
    }
}

} // verus!
