//! The content carried by event timeline items.
//!
//! The mutation and reconciliation machinery is content-type agnostic:
//! content is treated as an opaque structured value after decoding, so the
//! model here keeps only what the coordinators and the display path read.

use vstd::prelude::*;

verus! {

/// A tagged message-type value, as handed in by callers that want to build
/// a plain message payload.
#[derive(Clone, Debug, PartialEq)]
pub enum MessageType {
    Text { body: String },
    Emote { body: String },
    Notice { body: String },
    /// A tag this core cannot build a plain payload from (media and other
    /// types whose payloads need the attachment path).
    Unsupported { msgtype: String },
}

/// Ghost mirror of [`MessageType`].
#[verifier::ext_equal]
pub enum MessageTypeView {
    Text { body: Seq<char> },
    Emote { body: Seq<char> },
    Notice { body: Seq<char> },
    Unsupported { msgtype: Seq<char> },
}

impl View for MessageType {
    type V = MessageTypeView;

    open spec fn view(&self) -> MessageTypeView {
        match self {
            MessageType::Text { body } => MessageTypeView::Text { body: body@ },
            MessageType::Emote { body } => MessageTypeView::Emote { body: body@ },
            MessageType::Notice { body } => MessageTypeView::Notice { body: body@ },
            MessageType::Unsupported { msgtype } => MessageTypeView::Unsupported {
                msgtype: msgtype@,
            },
        }
    }
}

/// A plain message payload, ready to be enqueued for sending.
#[derive(Clone, Debug, PartialEq)]
pub struct MessageContent {
    pub msg_type: MessageType,
}

impl View for MessageContent {
    type V = MessageTypeView;

    open spec fn view(&self) -> MessageTypeView {
        self.msg_type@
    }
}

/// The projected content of one event timeline item, reduced to what the
/// coordinators and the display path read.
#[derive(Clone, Debug, PartialEq)]
pub enum TimelineItemContent {
    /// An ordinary message with its plain-text body.
    Message { body: String },
    /// An event whose payload could not be decrypted.
    UnableToDecrypt,
    /// A message that has been redacted.
    RedactedMessage,
    /// A poll, addressed by its start event.
    Poll { question: String },
    /// Any other content kind; the machinery never reads inside it.
    Other,
}

/// Ghost mirror of [`TimelineItemContent`].
#[verifier::ext_equal]
pub enum TimelineItemContentView {
    Message { body: Seq<char> },
    UnableToDecrypt,
    RedactedMessage,
    Poll { question: Seq<char> },
    Other,
}

impl View for TimelineItemContent {
    type V = TimelineItemContentView;

    open spec fn view(&self) -> TimelineItemContentView {
        match self {
            TimelineItemContent::Message { body } => TimelineItemContentView::Message {
                body: body@,
            },
            TimelineItemContent::UnableToDecrypt => TimelineItemContentView::UnableToDecrypt,
            TimelineItemContent::RedactedMessage => TimelineItemContentView::RedactedMessage,
            TimelineItemContent::Poll { question } => TimelineItemContentView::Poll {
                question: question@,
            },
            TimelineItemContent::Other => TimelineItemContentView::Other,
        }
    }
}

impl TimelineItemContent {
    /// Duplicates the content; the copy has the same view.
    pub fn dup(&self) -> (r: TimelineItemContent)
        ensures
            r@ == self@,
    {
        match self {
            TimelineItemContent::Message { body } => TimelineItemContent::Message {
                body: body.clone(),
            },
            TimelineItemContent::UnableToDecrypt => TimelineItemContent::UnableToDecrypt,
            TimelineItemContent::RedactedMessage => TimelineItemContent::RedactedMessage,
            TimelineItemContent::Poll { question } => TimelineItemContent::Poll {
                question: question.clone(),
            },
            TimelineItemContent::Other => TimelineItemContent::Other,
        }
    }
}

} // verus!
