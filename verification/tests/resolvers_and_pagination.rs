//! Reply resolution, read receipts, locations, display, and the
//! pagination controller.

use std::sync::Arc;

use timeline_core::AssetType;
use timeline_core::ClientError;
use timeline_core::EventOrTransactionId;
use timeline_core::EventTimelineItem;
use timeline_core::EventTimelineItemDebugInfo;
use timeline_core::LazyTimelineItemProvider;
use timeline_core::LiveBackPaginationStatus;
use timeline_core::PaginationController;
use timeline_core::ProfileDetails;
use timeline_core::ReceiptType;
use timeline_core::RepliedToEventDetails;
use timeline_core::RepliedToEventInfo;
use timeline_core::ShieldState;
use timeline_core::ShieldStateCode;
use timeline_core::Timeline;
use timeline_core::TimelineDiff;
use timeline_core::TimelineFocus;
use timeline_core::TimelineItem;
use timeline_core::TimelineItemContent;
use timeline_core::TimelineItemKind;
use timeline_core::TimelineUniqueId;
use timeline_core::VirtualTimelineItem;
use timeline_core::item::display;
use timeline_core::pagination::needs_more_items;

fn remote_item(event_id: &str, content: TimelineItemContent) -> Arc<TimelineItem> {
    let event = EventTimelineItem {
        is_remote: true,
        event_or_transaction_id: EventOrTransactionId::EventId {
            event_id: event_id.to_string(),
        },
        sender: "@alice:example.org".to_string(),
        sender_profile: ProfileDetails::Ready {
            display_name: Some("Alice".to_string()),
            display_name_ambiguous: false,
            avatar_url: None,
        },
        is_own: false,
        is_editable: false,
        content,
        timestamp: 1,
        reactions: Vec::new(),
        local_send_state: None,
        read_receipts: Vec::new(),
        origin: None,
        can_be_replied_to: true,
        lazy_provider: LazyTimelineItemProvider {
            shield_strict: Some(ShieldState::Red {
                code: ShieldStateCode::UnverifiedIdentity,
                message: "unverified".to_string(),
            }),
            shield_lenient: Some(ShieldState::NoShield),
            debug: EventTimelineItemDebugInfo {
                model: "remote event".to_string(),
                original_json: Some("{}".to_string()),
                latest_edit_json: None,
            },
        },
    };
    Arc::new(TimelineItem {
        unique_id: TimelineUniqueId { id: event_id.to_string() },
        kind: TimelineItemKind::Event { event },
    })
}

#[test]
fn reply_details_resolve_from_the_projection_first() {
    let mut timeline = Timeline::new();
    timeline.handle_remote_diff(TimelineDiff::PushBack {
        value: remote_item("$a", TimelineItemContent::Message { body: "hi".to_string() }),
    });

    let found = timeline
        .load_reply_details_local(&"$a".to_string())
        .expect("a valid id")
        .expect("the item is local");
    assert_eq!(found.event_id, "$a");
    match found.state {
        RepliedToEventDetails::Ready { content, sender, .. } => {
            assert_eq!(content, TimelineItemContent::Message { body: "hi".to_string() });
            assert_eq!(sender, "@alice:example.org");
        }
        RepliedToEventDetails::Error { .. } => panic!("the details are ready"),
    }

    // Absent from the projection: the caller must fetch.
    let absent = timeline.load_reply_details_local(&"$b".to_string()).expect("a valid id");
    assert!(absent.is_none());

    // A malformed id is surfaced directly.
    assert!(matches!(
        timeline.load_reply_details_local(&"b".to_string()),
        Err(ClientError::InvalidEventId { .. })
    ));
}

#[test]
fn reply_details_from_a_fetch_never_fail_the_caller() {
    let timeline = Timeline::new();
    let ready = timeline.reply_details_from_fetch(
        "$a".to_string(),
        Ok(RepliedToEventInfo {
            content: TimelineItemContent::Message { body: "fetched".to_string() },
            sender: "@bob:example.org".to_string(),
            sender_profile: ProfileDetails::Pending,
        }),
    );
    assert!(matches!(ready.state, RepliedToEventDetails::Ready { .. }));

    let failed = timeline
        .reply_details_from_fetch("$a".to_string(), Err("404 not found".to_string()));
    assert_eq!(
        failed.state,
        RepliedToEventDetails::Error { message: "404 not found".to_string() }
    );
}

#[test]
fn read_receipts_and_event_detail_fetches_validate_ids() {
    let timeline = Timeline::new();
    let request = timeline
        .send_read_receipt(ReceiptType::Read, "$seen".to_string())
        .expect("a valid id");
    assert_eq!(request.receipt_type, ReceiptType::Read);
    assert_eq!(request.event_id, "$seen");
    assert!(matches!(
        timeline.send_read_receipt(ReceiptType::FullyRead, "seen".to_string()),
        Err(ClientError::InvalidEventId { .. })
    ));

    assert!(timeline.fetch_details_for_event(&"$x".to_string()).is_ok());
    assert!(timeline.fetch_details_for_event(&"x".to_string()).is_err());

    let reply = timeline
        .send_reply(
            timeline_core::MessageContent {
                msg_type: timeline_core::MessageType::Text { body: "re".to_string() },
            },
            &"$orig".to_string(),
        )
        .expect("a valid id");
    assert_eq!(reply.replied_to_event_id, "$orig");
}

#[test]
fn locations_keep_only_zoom_levels_in_range() {
    let timeline = Timeline::new();
    let kept = timeline.send_location(
        "at the park".to_string(),
        "geo:51.5,-0.1".to_string(),
        Some("the park".to_string()),
        Some(20),
        Some(AssetType::Sender),
    );
    assert_eq!(kept.zoom_level, Some(20));
    assert_eq!(kept.geo_uri, "geo:51.5,-0.1");
    assert_eq!(kept.asset_type, Some(AssetType::Sender));

    let dropped = timeline.send_location(
        "x".to_string(),
        "geo:0,0".to_string(),
        None,
        Some(21),
        Some(AssetType::Pin),
    );
    assert_eq!(dropped.zoom_level, None);
}

#[test]
fn display_renders_events_and_skips_virtual_items() {
    let event = remote_item("$a", TimelineItemContent::Message { body: "hello".to_string() });
    assert_eq!(display(&event), Some("$a: hello".to_string()));

    let undecryptable = remote_item("$b", TimelineItemContent::UnableToDecrypt);
    assert_eq!(display(&undecryptable), Some("$b: Unable to decrypt".to_string()));

    let redacted = remote_item("$c", TimelineItemContent::RedactedMessage);
    assert_eq!(display(&redacted), Some("$c: ---".to_string()));

    let divider = TimelineItem {
        unique_id: TimelineUniqueId { id: "virtual-0".to_string() },
        kind: TimelineItemKind::Virtual {
            virtual_item: VirtualTimelineItem::DayDivider { ts: 1000 },
        },
    };
    assert_eq!(display(&divider), None);
}

#[test]
fn item_accessors_expose_kind_and_identity() {
    let item = remote_item("$a", TimelineItemContent::Other);
    assert!(item.as_event().is_some());
    assert!(item.as_virtual().is_none());
    assert_eq!(item.unique_id().id, "$a");
    assert_eq!(item.fmt_debug(), "TimelineItem { unique_id: $a }");

    let marker = TimelineItem {
        unique_id: TimelineUniqueId { id: "virtual-1".to_string() },
        kind: TimelineItemKind::Virtual { virtual_item: VirtualTimelineItem::ReadMarker },
    };
    assert!(marker.as_event().is_none());
    assert_eq!(marker.as_virtual(), Some(VirtualTimelineItem::ReadMarker));

    let event = item.as_event().expect("an event item");
    let provider = &event.lazy_provider;
    assert!(matches!(
        provider.get_shields(true),
        Some(ShieldState::Red { code: ShieldStateCode::UnverifiedIdentity, .. })
    ));
    assert_eq!(provider.get_shields(false), &Some(ShieldState::NoShield));
    assert_eq!(provider.debug_info().model, "remote event");
}

#[test]
fn back_pagination_status_is_delivered_current_first() {
    let mut controller = PaginationController::new(TimelineFocus::Live);
    let (initial, mut subscription) = controller
        .subscribe_to_back_pagination_status()
        .expect("a live timeline has the status");
    assert_eq!(
        initial,
        LiveBackPaginationStatus::Idle { hit_start_of_timeline: false }
    );

    controller.start_pagination();
    assert!(!controller.finish_pagination(false));
    controller.start_pagination();
    assert!(controller.finish_pagination(true));

    let updates = controller.next_statuses(&mut subscription).expect("four updates");
    assert_eq!(
        updates,
        vec![
            LiveBackPaginationStatus::Paginating,
            LiveBackPaginationStatus::Idle { hit_start_of_timeline: false },
            LiveBackPaginationStatus::Paginating,
            LiveBackPaginationStatus::Idle { hit_start_of_timeline: true },
        ]
    );
    assert!(controller.next_statuses(&mut subscription).is_none());

    subscription.cancel();
    controller.start_pagination();
    assert!(controller.next_statuses(&mut subscription).is_none());
}

#[test]
fn pagination_respects_the_timeline_focus() {
    let focused = PaginationController::new(TimelineFocus::Event);
    assert!(matches!(
        focused.subscribe_to_back_pagination_status(),
        Err(ClientError::Generic { .. })
    ));
    assert!(focused.validate_focused_forward().is_ok());

    let live = PaginationController::new(TimelineFocus::Live);
    assert!(live.validate_focused_forward().is_err());
    assert_eq!(
        live.current_status(),
        LiveBackPaginationStatus::Idle { hit_start_of_timeline: false }
    );
}

#[test]
fn the_window_requests_more_until_the_target() {
    assert!(needs_more_items(0, 20));
    assert!(needs_more_items(19, 20));
    assert!(!needs_more_items(20, 20));
    assert!(!needs_more_items(25, 20));
}
