//! Error types surfaced by the timeline's mutation operations.

use vstd::prelude::*;

verus! {

/// Errors from the attachment transfer path.
///
/// Validation errors are returned before any side effect; a transfer that
/// fails mid-flight is reported as `FailedSendingAttachment`.
#[derive(Clone, Copy, Debug, PartialEq, Eq, Structural)]
pub enum RoomError {
    /// The attachment's MIME type was missing or failed to parse.
    InvalidAttachmentMimeType,
    /// The attachment's type-specific metadata did not convert to the
    /// internal attachment-info shape.
    InvalidAttachmentData,
    /// The thumbnail source could not be read.
    InvalidThumbnailData,
    /// The transfer itself failed after validation had passed.
    FailedSendingAttachment,
}

impl RoomError {
    /// A human-readable description of the error.
    pub fn message(&self) -> (r: &'static str)
        ensures
            r@ == self.spec_message(),
    {
        match self {
            RoomError::InvalidAttachmentMimeType => "Invalid attachment mime type",
            RoomError::InvalidAttachmentData => "Invalid attachment data",
            RoomError::InvalidThumbnailData => "Invalid thumbnail data",
            RoomError::FailedSendingAttachment => "Failed sending attachment",
        }
    }

    pub open spec fn spec_message(self) -> Seq<char> {
        match self {
            RoomError::InvalidAttachmentMimeType => "Invalid attachment mime type"@,
            RoomError::InvalidAttachmentData => "Invalid attachment data"@,
            RoomError::InvalidThumbnailData => "Invalid thumbnail data"@,
            RoomError::FailedSendingAttachment => "Failed sending attachment"@,
        }
    }
}

/// Errors from the general mutation operations.
#[derive(Clone, Debug, PartialEq)]
pub enum ClientError {
    /// An identifier string did not pass event-id validation.
    InvalidEventId { message: String },
    /// No timeline item corresponds to the addressed identifier.
    ItemNotFound { message: String },
    /// A wrapped collaborator failure.
    Generic { message: String },
}

impl ClientError {
    /// The error's message text.
    pub fn message(&self) -> (r: &String)
        ensures
            r@ == self.spec_message(),
    {
        match self {
            ClientError::InvalidEventId { message } => message,
            ClientError::ItemNotFound { message } => message,
            ClientError::Generic { message } => message,
        }
    }

    pub open spec fn spec_message(self) -> Seq<char> {
        match self {
            ClientError::InvalidEventId { message } => message@,
            ClientError::ItemNotFound { message } => message@,
            ClientError::Generic { message } => message@,
        }
    }
}

/// Errors when focusing the timeline on one event.
#[derive(Clone, Debug, PartialEq)]
pub enum FocusEventError {
    /// The event id parameter is malformed.
    InvalidEventId { event_id: String, err: String },
    /// The event could not be found.
    EventNotFound { event_id: String },
    /// Any other failure while focusing.
    Other { msg: String },
}

} // verus!
