//! The attachment transfer manager: validation of the attachment's
//! metadata, thumbnail handling, and a cooperatively cancellable transfer
//! with monotonic progress reporting.

use vstd::prelude::*;

use crate::error::RoomError;

verus! {

/// Whether a string parses as a MIME type.
pub uninterp spec fn mime_ok(s: Seq<char>) -> bool;

/// Relies on `mime`'s `FromStr`: accepts exactly the strings that parse as
/// a MIME type.
#[verifier::external_body]
fn mime_parses(s: &str) -> (r: bool)
    ensures
        r == mime_ok(s@),
{
    s.parse::<mime::Mime>().is_ok()
}

/// Checks the attachment's MIME type: it must be present and parseable.
pub fn validate_mime_type(mime_type: &Option<String>) -> (r: Result<(), RoomError>)
    ensures
        r is Ok <==> (mime_type matches Some(m) && mime_ok(m@)),
        r matches Err(e) ==> e == RoomError::InvalidAttachmentMimeType,
{
    match mime_type {
        Some(m) => {
            if mime_parses(m.as_str()) {
                Ok(())
            } else {
                Err(RoomError::InvalidAttachmentMimeType)
            }
        },
        None => Err(RoomError::InvalidAttachmentMimeType),
    }
}

/// Thumbnail metadata, as supplied by the caller.
#[derive(Clone, Debug, PartialEq)]
pub struct ThumbnailInfo {
    pub height: Option<u64>,
    pub width: Option<u64>,
    pub mimetype: Option<String>,
    pub size: Option<u64>,
}

/// Image metadata, as supplied by the caller.
#[derive(Clone, Debug, PartialEq)]
pub struct ImageInfo {
    pub height: Option<u64>,
    pub width: Option<u64>,
    pub mimetype: Option<String>,
    pub size: Option<u64>,
    pub thumbnail_info: Option<ThumbnailInfo>,
    pub blurhash: Option<String>,
}

/// Video metadata, as supplied by the caller.
#[derive(Clone, Debug, PartialEq)]
pub struct VideoInfo {
    pub duration: Option<u64>,
    pub height: Option<u64>,
    pub width: Option<u64>,
    pub mimetype: Option<String>,
    pub size: Option<u64>,
    pub thumbnail_info: Option<ThumbnailInfo>,
    pub blurhash: Option<String>,
}

/// Audio metadata, as supplied by the caller.
#[derive(Clone, Debug, PartialEq)]
pub struct AudioInfo {
    pub duration: Option<u64>,
    pub size: Option<u64>,
    pub mimetype: Option<String>,
}

/// Generic file metadata, as supplied by the caller.
#[derive(Clone, Debug, PartialEq)]
pub struct FileInfo {
    pub mimetype: Option<String>,
    pub size: Option<u64>,
    pub thumbnail_info: Option<ThumbnailInfo>,
}

/// The internal attachment-info shape: every dimension the transfer needs,
/// made mandatory.
#[derive(Clone, Debug, PartialEq)]
pub enum AttachmentInfo {
    Image { height: u64, width: u64, size: u64 },
    Video { duration: u64, height: u64, width: u64, size: u64 },
    Audio { duration: u64, size: u64 },
    Voice { duration: u64, size: u64, waveform: Vec<u16> },
    File { size: u64 },
}

/// A validated thumbnail: its bytes, its MIME type, and its dimensions.
#[derive(Clone, Debug, PartialEq)]
pub struct Thumbnail {
    pub data: Vec<u8>,
    pub content_type: String,
    pub height: u64,
    pub width: u64,
    pub size: u64,
}

/// Everything a validated transfer carries besides the file itself.
#[derive(Clone, Debug, PartialEq)]
pub struct AttachmentConfig {
    pub thumbnail: Option<Thumbnail>,
    pub info: Option<AttachmentInfo>,
    pub caption: Option<String>,
    pub formatted_caption: Option<String>,
}

impl AttachmentConfig {
    /// An empty configuration: no thumbnail, no info, no caption.
    pub fn new() -> (r: AttachmentConfig)
        ensures
            r.thumbnail is None,
            r.info is None,
            r.caption is None,
            r.formatted_caption is None,
    {
        AttachmentConfig { thumbnail: None, info: None, caption: None, formatted_caption: None }
    }
}

/// The thumbnail source as the caller handed it over: the bytes when the
/// source file could be read, or a marker that reading it failed.
#[derive(Clone, Debug, PartialEq)]
pub enum ThumbnailSource {
    Data { bytes: Vec<u8> },
    Unreadable,
}

/// Converts caller-supplied image metadata to the internal shape: height,
/// width and size must all be present.
pub fn base_image_info(info: &ImageInfo) -> (r: Result<AttachmentInfo, RoomError>)
    ensures
        r is Ok <==> info.height is Some && info.width is Some && info.size is Some,
        r matches Ok(a) ==> a == (AttachmentInfo::Image {
            height: info.height.unwrap(),
            width: info.width.unwrap(),
            size: info.size.unwrap(),
        }),
        r matches Err(e) ==> e == RoomError::InvalidAttachmentData,
{
    match (info.height, info.width, info.size) {
        (Some(height), Some(width), Some(size)) => Ok(
            AttachmentInfo::Image { height, width, size },
        ),
        _ => Err(RoomError::InvalidAttachmentData),
    }
}

/// Converts caller-supplied video metadata to the internal shape:
/// duration, height, width and size must all be present.
pub fn base_video_info(info: &VideoInfo) -> (r: Result<AttachmentInfo, RoomError>)
    ensures
        r is Ok <==> info.duration is Some && info.height is Some && info.width is Some
            && info.size is Some,
        r matches Ok(a) ==> a == (AttachmentInfo::Video {
            duration: info.duration.unwrap(),
            height: info.height.unwrap(),
            width: info.width.unwrap(),
            size: info.size.unwrap(),
        }),
        r matches Err(e) ==> e == RoomError::InvalidAttachmentData,
{
    match (info.duration, info.height, info.width, info.size) {
        (Some(duration), Some(height), Some(width), Some(size)) => Ok(
            AttachmentInfo::Video { duration, height, width, size },
        ),
        _ => Err(RoomError::InvalidAttachmentData),
    }
}

/// Converts caller-supplied audio metadata to the internal shape: duration
/// and size must be present.
pub fn base_audio_info(info: &AudioInfo) -> (r: Result<AttachmentInfo, RoomError>)
    ensures
        r is Ok <==> info.duration is Some && info.size is Some,
        r matches Ok(a) ==> a == (AttachmentInfo::Audio {
            duration: info.duration.unwrap(),
            size: info.size.unwrap(),
        }),
        r matches Err(e) ==> e == RoomError::InvalidAttachmentData,
{
    match (info.duration, info.size) {
        (Some(duration), Some(size)) => Ok(AttachmentInfo::Audio { duration, size }),
        _ => Err(RoomError::InvalidAttachmentData),
    }
}

/// Converts caller-supplied file metadata to the internal shape: the size
/// must be present.
pub fn base_file_info(info: &FileInfo) -> (r: Result<AttachmentInfo, RoomError>)
    ensures
        r is Ok <==> info.size is Some,
        r matches Ok(a) ==> a == (AttachmentInfo::File { size: info.size.unwrap() }),
        r matches Err(e) ==> e == RoomError::InvalidAttachmentData,
{
    match info.size {
        Some(size) => Ok(AttachmentInfo::File { size }),
        _ => Err(RoomError::InvalidAttachmentData),
    }
}

/// A usable thumbnail pair: readable bytes, full dimensions, and a
/// parseable MIME type.
pub open spec fn thumbnail_pair_ok(src: ThumbnailSource, info: ThumbnailInfo) -> bool {
    &&& src is Data
    &&& info.height is Some
    &&& info.width is Some
    &&& info.size is Some
    &&& match info.mimetype {
        Some(m) => mime_ok(m@),
        None => false,
    }
}

/// Whether a built thumbnail carries exactly the supplied source bytes and
/// metadata.
pub open spec fn thumbnail_matches(t: Thumbnail, src: ThumbnailSource, info: ThumbnailInfo) -> bool {
    &&& match src {
        ThumbnailSource::Data { bytes } => t.data@ == bytes@,
        ThumbnailSource::Unreadable => false,
    }
    &&& match info.mimetype {
        Some(m) => t.content_type@ == m@,
        None => false,
    }
    &&& Some(t.height) == info.height
    &&& Some(t.width) == info.width
    &&& Some(t.size) == info.size
}

/// Builds the attachment configuration from the thumbnail source and its
/// metadata.
///
/// Supplying only one of the two is not an error: the attachment proceeds
/// without a thumbnail. When both are supplied, an unreadable source fails
/// with `InvalidThumbnailData`; metadata without height, width and size
/// fails with `InvalidAttachmentData`; a missing or unparseable thumbnail
/// MIME type fails with `InvalidAttachmentMimeType`.
pub fn build_thumbnail_info(
    thumbnail_source: Option<ThumbnailSource>,
    thumbnail_info: Option<ThumbnailInfo>,
) -> (r: Result<AttachmentConfig, RoomError>)
    ensures
        (thumbnail_source is None || thumbnail_info is None) ==> (r matches Ok(c)
            && c.thumbnail is None && c.info is None && c.caption is None
            && c.formatted_caption is None),
        thumbnail_source matches Some(src) ==> thumbnail_info matches Some(info) ==> (match r {
            Ok(c) => thumbnail_pair_ok(src, info) && (c.thumbnail matches Some(t)
                && thumbnail_matches(t, src, info)) && c.info is None && c.caption is None
                && c.formatted_caption is None,
            Err(e) => !thumbnail_pair_ok(src, info) && (src is Unreadable ==> e
                == RoomError::InvalidThumbnailData) && (src is Data && !(info.height is Some
                && info.width is Some && info.size is Some) ==> e
                == RoomError::InvalidAttachmentData) && (src is Data && info.height is Some
                && info.width is Some && info.size is Some ==> e
                == RoomError::InvalidAttachmentMimeType),
        }),
{
    match (thumbnail_source, thumbnail_info) {
        (Some(source), Some(info)) => {
            let bytes = match source {
                ThumbnailSource::Data { bytes } => bytes,
                ThumbnailSource::Unreadable => {
                    return Err(RoomError::InvalidThumbnailData);
                },
            };
            let (height, width, size) = match (info.height, info.width, info.size) {
                (Some(height), Some(width), Some(size)) => (height, width, size),
                _ => {
                    return Err(RoomError::InvalidAttachmentData);
                },
            };
            let content_type = match &info.mimetype {
                Some(m) => {
                    if mime_parses(m.as_str()) {
                        m.clone()
                    } else {
                        return Err(RoomError::InvalidAttachmentMimeType);
                    }
                },
                None => {
                    return Err(RoomError::InvalidAttachmentMimeType);
                },
            };
            let thumbnail = Thumbnail { data: bytes, content_type, height, width, size };
            Ok(
                AttachmentConfig {
                    thumbnail: Some(thumbnail),
                    info: None,
                    caption: None,
                    formatted_caption: None,
                },
            )
        },
        _ => Ok(AttachmentConfig::new()),
    }
}

/// How a settled transfer ended.
#[derive(Clone, Copy, Debug, PartialEq, Eq, Structural)]
pub enum TransferOutcome {
    /// The transfer ran to completion.
    Completed,
    /// The transfer was cancelled before it completed.
    Cancelled,
    /// The transfer itself failed.
    TransferFailed,
    /// A programming fault ended the task; it must propagate to whoever
    /// joins, never be swallowed.
    InternalFault,
}

/// What joining a settled transfer reports.
#[derive(Clone, Copy, Debug, PartialEq, Eq, Structural)]
pub enum JoinOutcome {
    /// The transfer completed, or was cancelled: cancellation is not an
    /// error to the joiner.
    Success,
    /// The transfer genuinely failed.
    Failed { error: RoomError },
    /// A programming fault: the joiner re-raises it.
    Fault,
}

/// One cancellable attachment transfer with progress reporting.
pub struct AttachmentTransfer {
    /// The total bytes to transfer.
    pub total_bytes: u64,
    /// The bytes transferred so far; never decreases.
    pub sent_bytes: u64,
    /// Whether cooperative cancellation has been requested.
    pub cancel_requested: bool,
    /// Set once, when the transfer settles.
    pub outcome: Option<TransferOutcome>,
}

impl AttachmentTransfer {
    /// Whether the transfer is still running.
    pub open spec fn running(self) -> bool {
        self.outcome is None
    }

    /// A fresh transfer of `total_bytes` bytes.
    pub fn begin(total_bytes: u64) -> (r: AttachmentTransfer)
        ensures
            r.total_bytes == total_bytes,
            r.sent_bytes == 0,
            !r.cancel_requested,
            r.running(),
    {
        AttachmentTransfer {
            total_bytes,
            sent_bytes: 0,
            cancel_requested: false,
            outcome: None,
        }
    }

    /// Records one chunk of progress. The progress sequence a watcher
    /// observes is monotonically increasing and never exceeds the total.
    pub fn record_progress(&mut self, chunk: u64)
        requires
            old(self).running(),
            old(self).sent_bytes + chunk <= old(self).total_bytes,
        ensures
            final(self).sent_bytes == old(self).sent_bytes + chunk,
            final(self).sent_bytes >= old(self).sent_bytes,
            final(self).sent_bytes <= final(self).total_bytes,
            final(self).total_bytes == old(self).total_bytes,
            final(self).cancel_requested == old(self).cancel_requested,
            final(self).outcome == old(self).outcome,
    {
        self.sent_bytes = self.sent_bytes + chunk;
    }

    /// Requests cooperative cancellation; the transfer itself decides when
    /// to stop. Nothing else changes.
    pub fn cancel(&mut self)
        ensures
            final(self).cancel_requested,
            final(self).total_bytes == old(self).total_bytes,
            final(self).sent_bytes == old(self).sent_bytes,
            final(self).outcome == old(self).outcome,
    {
        self.cancel_requested = true;
    }

    /// Settles a transfer that observed its cancellation request:
    /// cancelling never corrupts anything, the transfer just ends in the
    /// cancelled outcome.
    pub fn settle_cancelled(&mut self)
        requires
            old(self).running(),
            old(self).cancel_requested,
        ensures
            final(self).outcome == Some(TransferOutcome::Cancelled),
            final(self).total_bytes == old(self).total_bytes,
            final(self).sent_bytes == old(self).sent_bytes,
            final(self).cancel_requested,
    {
        self.outcome = Some(TransferOutcome::Cancelled);
    }

    /// Settles a transfer that ran to its end: success, genuine failure,
    /// or a programming fault.
    pub fn settle(&mut self, outcome: TransferOutcome)
        requires
            old(self).running(),
            outcome != TransferOutcome::Cancelled,
        ensures
            final(self).outcome == Some(outcome),
            final(self).total_bytes == old(self).total_bytes,
            final(self).sent_bytes == old(self).sent_bytes,
            final(self).cancel_requested == old(self).cancel_requested,
    {
        self.outcome = Some(outcome);
    }

    /// What a joiner of the settled transfer is told.
    pub open spec fn spec_join(outcome: TransferOutcome) -> JoinOutcome {
        match outcome {
            TransferOutcome::Completed => JoinOutcome::Success,
            TransferOutcome::Cancelled => JoinOutcome::Success,
            TransferOutcome::TransferFailed => JoinOutcome::Failed {
                error: RoomError::FailedSendingAttachment,
            },
            TransferOutcome::InternalFault => JoinOutcome::Fault,
        }
    }

    /// Joins a settled transfer: completion and cancellation both report
    /// success, a genuine transfer failure reports
    /// `FailedSendingAttachment`, and a programming fault is handed back
    /// to be re-raised.
    pub fn join(&self) -> (r: JoinOutcome)
        requires
            !self.running(),
        ensures
            r == AttachmentTransfer::spec_join(self.outcome.unwrap()),
    {
        match self.outcome {
            Some(TransferOutcome::Completed) => JoinOutcome::Success,
            Some(TransferOutcome::Cancelled) => JoinOutcome::Success,
            Some(TransferOutcome::TransferFailed) => JoinOutcome::Failed {
                error: RoomError::FailedSendingAttachment,
            },
            Some(TransferOutcome::InternalFault) => JoinOutcome::Fault,
            None => JoinOutcome::Fault,
        }
    }
}

/// Cancel-then-join: a transfer that settles after its cancellation
/// request reports success to the joiner, not an error, even though no
/// event was sent.
pub proof fn lemma_cancel_then_join_succeeds(t: AttachmentTransfer)
    requires
        t.outcome == Some(TransferOutcome::Cancelled),
    ensures
        AttachmentTransfer::spec_join(t.outcome.unwrap()) == JoinOutcome::Success,
{
}

} // verus!
