//! Live timeline projection and mutation coordination.
//!
//! This crate maintains a client-local, incrementally updated ordered view of
//! a conversation's events and coordinates user-initiated mutations (send,
//! edit, redact, react, reply, pin, attach, poll) against that view, with
//! well-defined cancellation, fallback, and at-most-once semantics.
//!
//! The wire-level sync protocol, encryption, storage, and network transport
//! are external collaborators: they hand the coordinator plain values (diff
//! operations, delivery outcomes, fetched event details) and receive plain
//! values back.

pub mod attachment;
pub mod content;
pub mod decimal;
pub mod diff;
pub mod error;
pub mod ids;
pub mod item;
pub mod pagination;
pub mod poll;
pub mod projection;
pub mod reaction;
pub mod send;
pub mod timeline;

pub use attachment::AttachmentConfig;
pub use attachment::AttachmentInfo;
pub use attachment::AttachmentTransfer;
pub use attachment::AudioInfo;
pub use attachment::FileInfo;
pub use attachment::ImageInfo;
pub use attachment::JoinOutcome;
pub use attachment::Thumbnail;
pub use attachment::ThumbnailInfo;
pub use attachment::ThumbnailSource;
pub use attachment::TransferOutcome;
pub use attachment::VideoInfo;
pub use content::MessageContent;
pub use content::MessageType;
pub use content::TimelineItemContent;
pub use diff::InsertData;
pub use diff::SetData;
pub use diff::TimelineChange;
pub use diff::TimelineDiff;
pub use error::ClientError;
pub use error::FocusEventError;
pub use error::RoomError;
pub use ids::EventOrTransactionId;
pub use ids::TimelineUniqueId;
pub use item::EventSendState;
pub use item::EventTimelineItem;
pub use item::EventTimelineItemDebugInfo;
pub use item::LazyTimelineItemProvider;
pub use item::ProfileDetails;
pub use item::ReadReceipt;
pub use item::Receipt;
pub use item::ReceiptType;
pub use item::ShieldState;
pub use item::ShieldStateCode;
pub use item::TimelineItem;
pub use item::TimelineItemKind;
pub use item::VirtualTimelineItem;
pub use pagination::LiveBackPaginationStatus;
pub use pagination::PaginationController;
pub use pagination::PaginationStatusListener;
pub use pagination::PaginationStatusSubscription;
pub use pagination::TimelineFocus;
pub use poll::EditPayload;
pub use poll::EditedContent;
pub use poll::PollData;
pub use poll::PollKind;
pub use projection::TimelineListener;
pub use projection::TimelineProjection;
pub use projection::TimelineSubscription;
pub use reaction::Reaction;
pub use reaction::ReactionSenderData;
pub use send::SendHandle;
pub use send::SendLifecycle;
pub use timeline::AssetType;
pub use timeline::AttachmentRequest;
pub use timeline::EditAction;
pub use timeline::InReplyToDetails;
pub use timeline::LocationContent;
pub use timeline::ReactionGuard;
pub use timeline::ReadReceiptRequest;
pub use timeline::RedactAction;
pub use timeline::RepliedToEventDetails;
pub use timeline::RepliedToEventInfo;
pub use timeline::ReplyRequest;
pub use timeline::SendEntry;
pub use timeline::Timeline;
