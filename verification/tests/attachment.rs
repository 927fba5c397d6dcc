//! The attachment transfer manager: validation order, thumbnail pairing,
//! progress, and cancellation semantics.

use timeline_core::AttachmentTransfer;
use timeline_core::JoinOutcome;
use timeline_core::RoomError;
use timeline_core::ThumbnailInfo;
use timeline_core::ThumbnailSource;
use timeline_core::TransferOutcome;
use timeline_core::attachment::base_audio_info;
use timeline_core::attachment::base_file_info;
use timeline_core::attachment::base_image_info;
use timeline_core::attachment::base_video_info;
use timeline_core::attachment::build_thumbnail_info;
use timeline_core::attachment::validate_mime_type;
use timeline_core::AttachmentInfo;
use timeline_core::AudioInfo;
use timeline_core::FileInfo;
use timeline_core::ImageInfo;
use timeline_core::VideoInfo;

fn full_thumbnail_info() -> ThumbnailInfo {
    ThumbnailInfo {
        height: Some(64),
        width: Some(64),
        mimetype: Some("image/png".to_string()),
        size: Some(1024),
    }
}

#[test]
fn mime_type_must_be_present_and_parseable() {
    assert!(validate_mime_type(&Some("image/jpeg".to_string())).is_ok());
    assert!(validate_mime_type(&Some("text/plain; charset=utf-8".to_string())).is_ok());
    assert_eq!(
        validate_mime_type(&None),
        Err(RoomError::InvalidAttachmentMimeType)
    );
    assert_eq!(
        validate_mime_type(&Some("not a mime type".to_string())),
        Err(RoomError::InvalidAttachmentMimeType)
    );
    assert_eq!(
        validate_mime_type(&Some(String::new())),
        Err(RoomError::InvalidAttachmentMimeType)
    );
}

#[test]
fn thumbnail_supplied_without_metadata_proceeds_without_thumbnail() {
    let source = ThumbnailSource::Data { bytes: vec![1, 2, 3] };
    let config = build_thumbnail_info(Some(source), None).expect("not an error");
    assert!(config.thumbnail.is_none());

    let config =
        build_thumbnail_info(None, Some(full_thumbnail_info())).expect("not an error");
    assert!(config.thumbnail.is_none());

    let config = build_thumbnail_info(None, None).expect("not an error");
    assert!(config.thumbnail.is_none());
}

#[test]
fn a_complete_thumbnail_pair_is_kept() {
    let source = ThumbnailSource::Data { bytes: vec![9, 9, 9] };
    let config = build_thumbnail_info(Some(source), Some(full_thumbnail_info()))
        .expect("a valid pair builds");
    let thumbnail = config.thumbnail.expect("the thumbnail is kept");
    assert_eq!(thumbnail.data, vec![9, 9, 9]);
    assert_eq!(thumbnail.content_type, "image/png");
    assert_eq!(thumbnail.height, 64);
    assert_eq!(thumbnail.width, 64);
    assert_eq!(thumbnail.size, 1024);
}

#[test]
fn thumbnail_failures_carry_their_own_errors() {
    // An unreadable source file.
    assert_eq!(
        build_thumbnail_info(Some(ThumbnailSource::Unreadable), Some(full_thumbnail_info())),
        Err(RoomError::InvalidThumbnailData)
    );

    // Metadata that does not convert to the internal shape.
    let mut no_dims = full_thumbnail_info();
    no_dims.height = None;
    assert_eq!(
        build_thumbnail_info(
            Some(ThumbnailSource::Data { bytes: vec![1] }),
            Some(no_dims)
        ),
        Err(RoomError::InvalidAttachmentData)
    );

    // A missing or malformed thumbnail MIME type.
    let mut no_mime = full_thumbnail_info();
    no_mime.mimetype = None;
    assert_eq!(
        build_thumbnail_info(
            Some(ThumbnailSource::Data { bytes: vec![1] }),
            Some(no_mime)
        ),
        Err(RoomError::InvalidAttachmentMimeType)
    );
    let mut bad_mime = full_thumbnail_info();
    bad_mime.mimetype = Some("???".to_string());
    assert_eq!(
        build_thumbnail_info(
            Some(ThumbnailSource::Data { bytes: vec![1] }),
            Some(bad_mime)
        ),
        Err(RoomError::InvalidAttachmentMimeType)
    );
}

#[test]
fn base_infos_require_their_mandatory_fields() {
    let image = ImageInfo {
        height: Some(100),
        width: Some(200),
        mimetype: Some("image/png".to_string()),
        size: Some(5000),
        thumbnail_info: None,
        blurhash: None,
    };
    assert_eq!(
        base_image_info(&image),
        Ok(AttachmentInfo::Image { height: 100, width: 200, size: 5000 })
    );
    let mut incomplete = image.clone();
    incomplete.size = None;
    assert_eq!(base_image_info(&incomplete), Err(RoomError::InvalidAttachmentData));

    let video = VideoInfo {
        duration: Some(90),
        height: Some(720),
        width: Some(1280),
        mimetype: None,
        size: Some(7000),
        thumbnail_info: None,
        blurhash: None,
    };
    assert_eq!(
        base_video_info(&video),
        Ok(AttachmentInfo::Video { duration: 90, height: 720, width: 1280, size: 7000 })
    );
    let mut incomplete = video.clone();
    incomplete.duration = None;
    assert_eq!(base_video_info(&incomplete), Err(RoomError::InvalidAttachmentData));

    let audio = AudioInfo { duration: Some(30), size: Some(900), mimetype: None };
    assert_eq!(
        base_audio_info(&audio),
        Ok(AttachmentInfo::Audio { duration: 30, size: 900 })
    );
    assert_eq!(
        base_audio_info(&AudioInfo { duration: None, size: Some(900), mimetype: None }),
        Err(RoomError::InvalidAttachmentData)
    );

    let file = FileInfo { mimetype: None, size: Some(400), thumbnail_info: None };
    assert_eq!(base_file_info(&file), Ok(AttachmentInfo::File { size: 400 }));
    assert_eq!(
        base_file_info(&FileInfo { mimetype: None, size: None, thumbnail_info: None }),
        Err(RoomError::InvalidAttachmentData)
    );
}

#[test]
fn cancel_then_join_reports_success() {
    let mut transfer = AttachmentTransfer::begin(1000);
    transfer.record_progress(100);
    transfer.cancel();
    // The runner observes the request and settles the transfer as
    // cancelled; nothing was sent.
    transfer.settle_cancelled();
    assert_eq!(transfer.join(), JoinOutcome::Success);
}

#[test]
fn transfer_outcomes_map_to_join_outcomes() {
    let mut ok = AttachmentTransfer::begin(10);
    ok.settle(TransferOutcome::Completed);
    assert_eq!(ok.join(), JoinOutcome::Success);

    let mut failed = AttachmentTransfer::begin(10);
    failed.settle(TransferOutcome::TransferFailed);
    assert_eq!(
        failed.join(),
        JoinOutcome::Failed { error: RoomError::FailedSendingAttachment }
    );

    // A programming fault is not swallowed: the joiner re-raises it.
    let mut faulty = AttachmentTransfer::begin(10);
    faulty.settle(TransferOutcome::InternalFault);
    assert_eq!(faulty.join(), JoinOutcome::Fault);
}

#[test]
fn progress_is_monotonic_up_to_the_total() {
    let mut transfer = AttachmentTransfer::begin(300);
    let mut seen: Vec<u64> = vec![transfer.sent_bytes];
    for _ in 0..3 {
        transfer.record_progress(100);
        seen.push(transfer.sent_bytes);
    }
    assert_eq!(seen, vec![0, 100, 200, 300]);
    assert!(seen.windows(2).all(|w| w[0] <= w[1]));
    assert!(transfer.sent_bytes <= transfer.total_bytes);
}

#[test]
fn room_error_messages_name_the_failure() {
    assert_eq!(
        RoomError::InvalidAttachmentMimeType.message(),
        "Invalid attachment mime type"
    );
    assert_eq!(RoomError::InvalidAttachmentData.message(), "Invalid attachment data");
    assert_eq!(RoomError::InvalidThumbnailData.message(), "Invalid thumbnail data");
    assert_eq!(
        RoomError::FailedSendingAttachment.message(),
        "Failed sending attachment"
    );
}

#[test]
fn send_image_validates_in_order() {
    let timeline = timeline_core::Timeline::new();
    let info = ImageInfo {
        height: Some(100),
        width: Some(200),
        mimetype: Some("image/png".to_string()),
        size: Some(5000),
        thumbnail_info: Some(full_thumbnail_info()),
        blurhash: None,
    };

    // The full, valid request.
    let request = timeline
        .send_image(
            "cat.png".to_string(),
            Some(ThumbnailSource::Data { bytes: vec![7] }),
            info.clone(),
            Some("a cat".to_string()),
            None,
        )
        .expect("everything is valid");
    assert_eq!(request.filename, "cat.png");
    assert_eq!(request.mime_type, "image/png");
    assert_eq!(
        request.config.info,
        Some(AttachmentInfo::Image { height: 100, width: 200, size: 5000 })
    );
    assert_eq!(request.config.caption, Some("a cat".to_string()));
    assert!(request.config.thumbnail.is_some());

    // Metadata that does not convert comes first.
    let mut no_size = info.clone();
    no_size.size = None;
    assert_eq!(
        timeline.send_image("cat.png".to_string(), None, no_size, None, None),
        Err(RoomError::InvalidAttachmentData)
    );

    // Then the thumbnail pair; a half-supplied one just drops out.
    let half = timeline
        .send_image(
            "cat.png".to_string(),
            Some(ThumbnailSource::Data { bytes: vec![7] }),
            ImageInfo { thumbnail_info: None, ..info.clone() },
            None,
            None,
        )
        .expect("a half-supplied thumbnail is not an error");
    assert!(half.config.thumbnail.is_none());
    assert_eq!(
        timeline.send_image(
            "cat.png".to_string(),
            Some(ThumbnailSource::Unreadable),
            info.clone(),
            None,
            None,
        ),
        Err(RoomError::InvalidThumbnailData)
    );

    // The image's own MIME type comes last.
    let mut no_mime = info.clone();
    no_mime.mimetype = None;
    assert_eq!(
        timeline.send_image("cat.png".to_string(), None, ImageInfo { thumbnail_info: None, ..no_mime }, None, None),
        Err(RoomError::InvalidAttachmentMimeType)
    );
}

#[test]
fn the_other_attachment_kinds_follow_the_same_rules() {
    let timeline = timeline_core::Timeline::new();

    let video = VideoInfo {
        duration: Some(90),
        height: Some(720),
        width: Some(1280),
        mimetype: Some("video/mp4".to_string()),
        size: Some(9000),
        thumbnail_info: None,
        blurhash: None,
    };
    let request = timeline
        .send_video("clip.mp4".to_string(), None, video, None, None)
        .expect("a valid video");
    assert_eq!(
        request.config.info,
        Some(AttachmentInfo::Video { duration: 90, height: 720, width: 1280, size: 9000 })
    );

    let audio = AudioInfo {
        duration: Some(30),
        size: Some(800),
        mimetype: Some("audio/ogg".to_string()),
    };
    let request = timeline
        .send_audio("note.ogg".to_string(), audio.clone(), None, None)
        .expect("a valid audio clip");
    assert!(request.config.thumbnail.is_none());

    let request = timeline
        .send_voice_message("voice.ogg".to_string(), audio, vec![1, 2, 3], None, None)
        .expect("a valid voice message");
    assert_eq!(
        request.config.info,
        Some(AttachmentInfo::Voice { duration: 30, size: 800, waveform: vec![1, 2, 3] })
    );

    let request = timeline
        .send_file(
            "notes.txt".to_string(),
            FileInfo {
                mimetype: Some("text/plain".to_string()),
                size: Some(120),
                thumbnail_info: None,
            },
        )
        .expect("a valid file");
    assert_eq!(request.config.info, Some(AttachmentInfo::File { size: 120 }));
    assert_eq!(
        timeline.send_file(
            "notes.txt".to_string(),
            FileInfo { mimetype: None, size: Some(120), thumbnail_info: None },
        ),
        Err(RoomError::InvalidAttachmentMimeType)
    );
}
