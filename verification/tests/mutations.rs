//! Edit fallback, reaction toggling, and pin idempotence.

use std::sync::Arc;

use timeline_core::ClientError;
use timeline_core::EditAction;
use timeline_core::EditedContent;
use timeline_core::EventOrTransactionId;
use timeline_core::EventTimelineItem;
use timeline_core::EventTimelineItemDebugInfo;
use timeline_core::LazyTimelineItemProvider;
use timeline_core::MessageContent;
use timeline_core::MessageType;
use timeline_core::ProfileDetails;
use timeline_core::Timeline;
use timeline_core::TimelineDiff;
use timeline_core::TimelineItem;
use timeline_core::TimelineItemContent;
use timeline_core::TimelineItemKind;
use timeline_core::TimelineUniqueId;

fn text(body: &str) -> EditedContent {
    EditedContent::RoomMessage {
        content: MessageContent { msg_type: MessageType::Text { body: body.to_string() } },
    }
}

fn remote_item(event_id: &str, body: &str) -> Arc<TimelineItem> {
    let event = EventTimelineItem {
        is_remote: true,
        event_or_transaction_id: EventOrTransactionId::EventId {
            event_id: event_id.to_string(),
        },
        sender: "@alice:example.org".to_string(),
        sender_profile: ProfileDetails::Unavailable,
        is_own: false,
        is_editable: false,
        content: TimelineItemContent::Message { body: body.to_string() },
        timestamp: 1,
        reactions: Vec::new(),
        local_send_state: None,
        read_receipts: Vec::new(),
        origin: None,
        can_be_replied_to: true,
        lazy_provider: LazyTimelineItemProvider {
            shield_strict: None,
            shield_lenient: None,
            debug: EventTimelineItemDebugInfo {
                model: String::new(),
                original_json: None,
                latest_edit_json: None,
            },
        },
    };
    Arc::new(TimelineItem {
        unique_id: TimelineUniqueId { id: event_id.to_string() },
        kind: TimelineItemKind::Event { event },
    })
}

#[test]
fn edit_in_the_projection_edits_in_place() {
    let mut timeline = Timeline::new();
    timeline.handle_remote_diff(TimelineDiff::PushBack { value: remote_item("$a", "a") });
    let id = EventOrTransactionId::EventId { event_id: "$a".to_string() };
    assert!(matches!(
        timeline.edit(&id, text("new")),
        EditAction::EditedInTimeline { .. }
    ));
}

#[test]
fn edit_of_an_absent_event_id_falls_back_to_the_room() {
    let timeline = Timeline::new();
    let id = EventOrTransactionId::EventId { event_id: "$not-here".to_string() };
    let action = timeline.edit(&id, text("new"));
    match action {
        EditAction::FallbackViaRoom { content } => assert_eq!(content, text("new")),
        other => panic!("expected the fallback path, got {:?}", other),
    }
}

#[test]
fn edit_of_an_absent_transaction_id_is_a_noop_success() {
    let timeline = Timeline::new();
    let id = EventOrTransactionId::TransactionId { transaction_id: "txn-gone".to_string() };
    assert_eq!(timeline.edit(&id, text("new")), EditAction::NoopMissingLocalEcho);
}

#[test]
fn toggling_a_reaction_twice_is_a_net_zero() {
    let mut timeline = Timeline::new();
    timeline.handle_remote_diff(TimelineDiff::PushBack { value: remote_item("$a", "a") });
    let id = EventOrTransactionId::EventId { event_id: "$a".to_string() };
    let key = "👍".to_string();
    let me = "@me:example.org".to_string();

    let added = timeline.toggle_reaction(&id, &key, &me, 100).expect("the item exists");
    assert!(added);
    match &timeline.projection.items[0].kind {
        TimelineItemKind::Event { event } => {
            assert_eq!(event.reactions.len(), 1);
            assert_eq!(event.reactions[0].key, "👍");
            assert_eq!(event.reactions[0].senders.len(), 1);
            assert_eq!(event.reactions[0].senders[0].sender_id, "@me:example.org");
            assert_eq!(event.reactions[0].senders[0].timestamp, 100);
        }
        TimelineItemKind::Virtual { .. } => panic!("an event item"),
    }

    let added = timeline.toggle_reaction(&id, &key, &me, 200).expect("the item exists");
    assert!(!added);
    match &timeline.projection.items[0].kind {
        TimelineItemKind::Event { event } => assert!(event.reactions.is_empty()),
        TimelineItemKind::Virtual { .. } => panic!("an event item"),
    }
}

#[test]
fn toggles_by_different_users_share_one_key() {
    let mut timeline = Timeline::new();
    timeline.handle_remote_diff(TimelineDiff::PushBack { value: remote_item("$a", "a") });
    let id = EventOrTransactionId::EventId { event_id: "$a".to_string() };
    let key = "🎉".to_string();

    assert!(timeline.toggle_reaction(&id, &key, &"@me:example.org".to_string(), 1).unwrap());
    assert!(timeline.toggle_reaction(&id, &key, &"@you:example.org".to_string(), 2).unwrap());
    match &timeline.projection.items[0].kind {
        TimelineItemKind::Event { event } => {
            assert_eq!(event.reactions.len(), 1);
            assert_eq!(event.reactions[0].senders.len(), 2);
        }
        TimelineItemKind::Virtual { .. } => panic!("an event item"),
    }

    // Retracting one user's reaction leaves the other's.
    assert!(!timeline.toggle_reaction(&id, &key, &"@me:example.org".to_string(), 3).unwrap());
    match &timeline.projection.items[0].kind {
        TimelineItemKind::Event { event } => {
            assert_eq!(event.reactions.len(), 1);
            assert_eq!(event.reactions[0].senders.len(), 1);
            assert_eq!(event.reactions[0].senders[0].sender_id, "@you:example.org");
        }
        TimelineItemKind::Virtual { .. } => panic!("an event item"),
    }
}

#[test]
fn toggle_on_a_missing_item_fails() {
    let mut timeline = Timeline::new();
    let id = EventOrTransactionId::EventId { event_id: "$gone".to_string() };
    let result = timeline.toggle_reaction(&id, &"👍".to_string(), &"@me:x.org".to_string(), 1);
    assert!(matches!(result, Err(ClientError::ItemNotFound { .. })));
}

#[test]
fn reaction_toggles_are_single_flight_per_key() {
    let mut timeline = Timeline::new();
    let id = EventOrTransactionId::EventId { event_id: "$a".to_string() };
    let key = "👍".to_string();

    assert!(timeline.begin_reaction_toggle(&id, &key));
    // A concurrent toggle on the same item and key must wait.
    assert!(!timeline.begin_reaction_toggle(&id, &key));
    // Another key, or another item, is independent.
    assert!(timeline.begin_reaction_toggle(&id, &"🎉".to_string()));
    let other = EventOrTransactionId::EventId { event_id: "$b".to_string() };
    assert!(timeline.begin_reaction_toggle(&other, &key));

    timeline.end_reaction_toggle(&id, &key);
    assert!(timeline.begin_reaction_toggle(&id, &key));
}

#[test]
fn pinning_is_idempotent() {
    let mut timeline = Timeline::new();
    let id = "$pinned".to_string();

    // A new pin issues the update.
    assert_eq!(timeline.pin_event(&id), Ok(true));
    // Pinning an already-pinned event is a no-op that reports so.
    assert_eq!(timeline.pin_event(&id), Ok(false));
    assert_eq!(timeline.pinned_event_ids, vec!["$pinned".to_string()]);

    // Unpinning mirrors it.
    assert_eq!(timeline.unpin_event(&id), Ok(true));
    assert_eq!(timeline.unpin_event(&id), Ok(false));
    assert!(timeline.pinned_event_ids.is_empty());
}

#[test]
fn pinning_validates_the_event_id() {
    let mut timeline = Timeline::new();
    assert!(matches!(
        timeline.pin_event(&"no-sigil".to_string()),
        Err(ClientError::InvalidEventId { .. })
    ));
    assert!(matches!(
        timeline.unpin_event(&"no-sigil".to_string()),
        Err(ClientError::InvalidEventId { .. })
    ));
    assert!(timeline.pinned_event_ids.is_empty());
}
