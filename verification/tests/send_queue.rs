//! The send queue: local echoes, delivery outcomes, and the at-most-once
//! abort capability.

use timeline_core::ClientError;
use timeline_core::EventOrTransactionId;
use timeline_core::EventSendState;
use timeline_core::MessageContent;
use timeline_core::MessageType;
use timeline_core::RedactAction;
use timeline_core::SendHandle;
use timeline_core::SendLifecycle;
use timeline_core::Timeline;
use timeline_core::TimelineItemContent;
use timeline_core::TimelineItemKind;

fn text(body: &str) -> MessageContent {
    MessageContent { msg_type: MessageType::Text { body: body.to_string() } }
}

fn send_message(timeline: &mut Timeline, body: &str, txn: &str) -> SendHandle {
    timeline.send(text(body), txn.to_string(), "@me:example.org".to_string(), 10)
}

#[test]
fn send_creates_a_visible_local_echo() {
    let mut timeline = Timeline::new();
    let handle = send_message(&mut timeline, "hello", "txn-1");
    assert_eq!(handle.transaction_id, "txn-1");
    assert!(!handle.consumed);

    assert_eq!(timeline.projection.items.len(), 1);
    let item = &timeline.projection.items[0];
    match &item.kind {
        TimelineItemKind::Event { event } => {
            assert!(!event.is_remote);
            assert_eq!(
                event.event_or_transaction_id,
                EventOrTransactionId::TransactionId { transaction_id: "txn-1".to_string() }
            );
            assert_eq!(event.local_send_state, Some(EventSendState::NotSentYet));
            assert_eq!(
                event.content,
                TimelineItemContent::Message { body: "hello".to_string() }
            );
        }
        TimelineItemKind::Virtual { .. } => panic!("the local echo is an event item"),
    }
}

#[test]
fn abort_before_completion_wins_once_and_removes_the_echo() {
    let mut timeline = Timeline::new();
    let mut handle = send_message(&mut timeline, "hello", "txn-1");

    // First abort: the send had not completed, so it wins and the echo
    // disappears through the normal diff mechanism.
    assert!(timeline.abort_send(&mut handle));
    assert!(handle.consumed);
    assert!(timeline.projection.items.is_empty());
    assert_eq!(timeline.sends[0].lifecycle, SendLifecycle::Aborted);

    // Second abort: always false.
    assert!(!timeline.abort_send(&mut handle));
    assert_eq!(timeline.sends[0].lifecycle, SendLifecycle::Aborted);
}

#[test]
fn abort_after_completion_returns_false() {
    let mut timeline = Timeline::new();
    let mut handle = send_message(&mut timeline, "hello", "txn-1");
    timeline.mark_sent(&"txn-1".to_string(), "$confirmed".to_string());

    // The send completed first: the abort loses, nothing is removed.
    assert!(!timeline.abort_send(&mut handle));
    assert!(handle.consumed);
    assert_eq!(timeline.projection.items.len(), 1);
    assert_eq!(
        timeline.sends[0].lifecycle,
        SendLifecycle::Sent { event_id: "$confirmed".to_string() }
    );

    // And a repeat is still false.
    assert!(!timeline.abort_send(&mut handle));
}

#[test]
fn abort_on_a_bare_handle_is_exactly_once() {
    let mut handle = SendHandle::new("txn-9".to_string());
    let mut lifecycle = SendLifecycle::Pending;
    assert!(handle.abort(&mut lifecycle));
    assert_eq!(lifecycle, SendLifecycle::Aborted);
    // The capability was taken: every further call observes that.
    assert!(!handle.abort(&mut lifecycle));
    let mut completed = SendLifecycle::Sent { event_id: "$done".to_string() };
    assert!(!handle.abort(&mut completed));
    assert_eq!(completed, SendLifecycle::Sent { event_id: "$done".to_string() });
}

#[test]
fn mark_sent_updates_the_echo_and_makes_it_addressable() {
    let mut timeline = Timeline::new();
    let _handle = send_message(&mut timeline, "hello", "txn-1");
    timeline.mark_sent(&"txn-1".to_string(), "$evt".to_string());

    match &timeline.projection.items[0].kind {
        TimelineItemKind::Event { event } => {
            assert_eq!(
                event.local_send_state,
                Some(EventSendState::Sent { event_id: "$evt".to_string() })
            );
            // The other fields survived the update.
            assert_eq!(
                event.content,
                TimelineItemContent::Message { body: "hello".to_string() }
            );
        }
        TimelineItemKind::Virtual { .. } => panic!("the local echo is an event item"),
    }

    // A sent local echo is addressable by the event id the server gave it.
    let found = timeline
        .get_event_timeline_item_by_event_id(&"$evt".to_string())
        .expect("the sent echo is addressable by event id");
    assert!(!found.is_remote);
}

#[test]
fn mark_failed_records_the_failure_in_item_state() {
    let mut timeline = Timeline::new();
    let _handle = send_message(&mut timeline, "hello", "txn-1");
    timeline.mark_failed(&"txn-1".to_string(), "connection reset".to_string(), true);

    assert_eq!(
        timeline.sends[0].lifecycle,
        SendLifecycle::Failed { error: "connection reset".to_string(), is_recoverable: true }
    );
    match &timeline.projection.items[0].kind {
        TimelineItemKind::Event { event } => {
            assert_eq!(
                event.local_send_state,
                Some(EventSendState::SendingFailed {
                    error: "connection reset".to_string(),
                    is_recoverable: true
                })
            );
        }
        TimelineItemKind::Virtual { .. } => panic!("the local echo is an event item"),
    }
}

#[test]
fn redact_cancels_a_pending_echo_and_redacts_a_sent_one() {
    let mut timeline = Timeline::new();
    let _handle = send_message(&mut timeline, "hello", "txn-1");

    let id = EventOrTransactionId::TransactionId { transaction_id: "txn-1".to_string() };
    let action = timeline.redact_event(&id, None).expect("the echo is addressable");
    assert_eq!(action, RedactAction::CancelSend { transaction_id: "txn-1".to_string() });

    timeline.mark_sent(&"txn-1".to_string(), "$evt".to_string());
    let action = timeline
        .redact_event(&id, Some("spam".to_string()))
        .expect("the echo is addressable");
    assert_eq!(
        action,
        RedactAction::SendRedaction {
            event_id: "$evt".to_string(),
            reason: Some("spam".to_string())
        }
    );

    let missing = EventOrTransactionId::EventId { event_id: "$absent".to_string() };
    assert!(matches!(
        timeline.redact_event(&missing, None),
        Err(ClientError::ItemNotFound { .. })
    ));
}
