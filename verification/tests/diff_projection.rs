//! The diff stream projection: replay correctness, batching invariance,
//! and the snapshot-before-feed ordering for listeners.

use std::sync::Arc;

use timeline_core::ClientError;
use timeline_core::EventOrTransactionId;
use timeline_core::EventSendState;
use timeline_core::EventTimelineItem;
use timeline_core::EventTimelineItemDebugInfo;
use timeline_core::LazyTimelineItemProvider;
use timeline_core::ProfileDetails;
use timeline_core::TimelineDiff;
use timeline_core::TimelineItem;
use timeline_core::TimelineItemContent;
use timeline_core::TimelineItemKind;
use timeline_core::TimelineProjection;
use timeline_core::TimelineUniqueId;
use timeline_core::diff::apply_batch;
use timeline_core::diff::apply_diff;

fn remote_item(event_id: &str, body: &str) -> Arc<TimelineItem> {
    let event = EventTimelineItem {
        is_remote: true,
        event_or_transaction_id: EventOrTransactionId::EventId {
            event_id: event_id.to_string(),
        },
        sender: "@alice:example.org".to_string(),
        sender_profile: ProfileDetails::Unavailable,
        is_own: false,
        is_editable: false,
        content: TimelineItemContent::Message { body: body.to_string() },
        timestamp: 1,
        reactions: Vec::new(),
        local_send_state: None,
        read_receipts: Vec::new(),
        origin: None,
        can_be_replied_to: true,
        lazy_provider: LazyTimelineItemProvider {
            shield_strict: None,
            shield_lenient: None,
            debug: EventTimelineItemDebugInfo {
                model: String::new(),
                original_json: None,
                latest_edit_json: None,
            },
        },
    };
    Arc::new(TimelineItem {
        unique_id: TimelineUniqueId { id: event_id.to_string() },
        kind: TimelineItemKind::Event { event },
    })
}

fn ids(items: &Vec<Arc<TimelineItem>>) -> Vec<String> {
    items.iter().map(|i| i.unique_id.id.clone()).collect()
}

#[test]
fn apply_diff_covers_every_operation() {
    let mut items: Vec<Arc<TimelineItem>> = Vec::new();
    apply_diff(
        &mut items,
        &TimelineDiff::Append { values: vec![remote_item("$a", "a"), remote_item("$b", "b")] },
    );
    assert_eq!(ids(&items), vec!["$a".to_string(), "$b".to_string()]);
    apply_diff(&mut items, &TimelineDiff::PushFront { value: remote_item("$c", "c") });
    assert_eq!(ids(&items), vec!["$c".to_string(), "$a".to_string(), "$b".to_string()]);
    apply_diff(&mut items, &TimelineDiff::PushBack { value: remote_item("$d", "d") });
    apply_diff(&mut items, &TimelineDiff::Insert { index: 1, value: remote_item("$e", "e") });
    assert_eq!(
        ids(&items),
        vec![
            "$c".to_string(),
            "$e".to_string(),
            "$a".to_string(),
            "$b".to_string(),
            "$d".to_string()
        ]
    );
    apply_diff(&mut items, &TimelineDiff::SetItem { index: 2, value: remote_item("$f", "f") });
    assert_eq!(items[2].unique_id.id, "$f");
    apply_diff(&mut items, &TimelineDiff::Remove { index: 1 });
    assert_eq!(
        ids(&items),
        vec!["$c".to_string(), "$f".to_string(), "$b".to_string(), "$d".to_string()]
    );
    apply_diff(&mut items, &TimelineDiff::PopFront);
    apply_diff(&mut items, &TimelineDiff::PopBack);
    assert_eq!(ids(&items), vec!["$f".to_string(), "$b".to_string()]);
    apply_diff(&mut items, &TimelineDiff::Truncate { length: 1 });
    assert_eq!(ids(&items), vec!["$f".to_string()]);
    apply_diff(&mut items, &TimelineDiff::Reset { values: vec![remote_item("$g", "g")] });
    assert_eq!(ids(&items), vec!["$g".to_string()]);
    apply_diff(&mut items, &TimelineDiff::Clear);
    assert!(items.is_empty());
}

#[test]
fn replay_is_insensitive_to_batch_boundaries() {
    let ops = || {
        vec![
            TimelineDiff::PushBack { value: remote_item("$a", "a") },
            TimelineDiff::PushBack { value: remote_item("$b", "b") },
            TimelineDiff::Insert { index: 1, value: remote_item("$c", "c") },
            TimelineDiff::Remove { index: 0 },
            TimelineDiff::PushFront { value: remote_item("$d", "d") },
        ]
    };

    // One batch holding everything.
    let mut one: Vec<Arc<TimelineItem>> = Vec::new();
    apply_batch(&mut one, &ops());

    // The same operations cut in two, then applied in order.
    let mut split: Vec<Arc<TimelineItem>> = Vec::new();
    let mut all = ops();
    let tail = all.split_off(2);
    apply_batch(&mut split, &all);
    apply_batch(&mut split, &tail);

    // One operation at a time.
    let mut single: Vec<Arc<TimelineItem>> = Vec::new();
    for op in ops() {
        apply_batch(&mut single, &vec![op]);
    }

    assert_eq!(ids(&one), vec!["$d".to_string(), "$c".to_string(), "$b".to_string()]);
    assert_eq!(ids(&split), ids(&one));
    assert_eq!(ids(&single), ids(&one));
}

#[test]
fn snapshot_then_feed_reproduces_the_projection() {
    let mut projection = TimelineProjection::new();
    projection.handle_diff(TimelineDiff::PushBack { value: remote_item("$a", "a") });
    projection.handle_diff(TimelineDiff::PushBack { value: remote_item("$b", "b") });

    // A listener subscribes mid-stream: it gets the snapshot as one
    // synthetic reset, before anything produced later.
    let (snapshot, mut subscription) = projection.subscribe();

    projection.handle_diff(TimelineDiff::Insert { index: 1, value: remote_item("$c", "c") });
    projection.handle_diff(TimelineDiff::Remove { index: 0 });

    // The mirror starts from stale garbage on purpose: the reset must
    // erase it.
    let mut mirror: Vec<Arc<TimelineItem>> = vec![remote_item("$stale", "stale")];
    apply_diff(&mut mirror, &snapshot);
    let feed = projection.next_batch(&mut subscription).expect("two operations are pending");
    apply_batch(&mut mirror, &feed);

    assert_eq!(ids(&mirror), ids(&projection.items));
    assert_eq!(ids(&mirror), vec!["$c".to_string(), "$b".to_string()]);

    // Nothing new: no delivery.
    assert!(projection.next_batch(&mut subscription).is_none());
}

#[test]
fn subscriptions_are_independent_and_cancellable() {
    let mut projection = TimelineProjection::new();
    projection.handle_diff(TimelineDiff::PushBack { value: remote_item("$a", "a") });

    let (_snap_one, mut first) = projection.subscribe();
    let (_snap_two, mut second) = projection.subscribe();

    projection.handle_diff(TimelineDiff::PushBack { value: remote_item("$b", "b") });

    first.cancel();
    assert!(projection.next_batch(&mut first).is_none());

    let delivered = projection.next_batch(&mut second).expect("one operation is pending");
    assert_eq!(delivered.len(), 1);

    // Cancelling a subscription had no effect on the projection itself.
    assert_eq!(ids(&projection.items), vec!["$a".to_string(), "$b".to_string()]);
}

#[test]
fn timeline_diff_accessors_expose_the_payload() {
    let diff = TimelineDiff::Insert { index: 3, value: remote_item("$a", "a") };
    assert!(matches!(diff.change(), timeline_core::TimelineChange::Insert));
    let data = diff.insert().expect("an insert payload");
    assert_eq!(data.index, 3);
    assert_eq!(data.item.unique_id.id, "$a");

    let diff = TimelineDiff::SetItem { index: 2, value: remote_item("$b", "b") };
    assert!(matches!(diff.change(), timeline_core::TimelineChange::SetItem));
    let data = diff.set().expect("a set payload");
    assert_eq!(data.index, 2);

    let diff = TimelineDiff::Remove { index: 5 };
    assert_eq!(diff.remove(), Some(5));
    assert_eq!(diff.truncate(), None);

    let diff = TimelineDiff::Truncate { length: 4 };
    assert_eq!(diff.truncate(), Some(4));

    let diff = TimelineDiff::Reset { values: vec![remote_item("$c", "c")] };
    let values = diff.reset().expect("reset values");
    assert_eq!(values.len(), 1);

    assert!(TimelineDiff::Clear.append().is_none());
    let appended = TimelineDiff::Append { values: vec![remote_item("$d", "d")] }
        .append()
        .expect("append values");
    assert_eq!(appended.len(), 1);
    assert!(
        TimelineDiff::PushBack { value: remote_item("$e", "e") }.push_back().is_some()
    );
    assert!(
        TimelineDiff::PushFront { value: remote_item("$f", "f") }.push_front().is_some()
    );
}

#[test]
fn handle_remote_diff_rejects_nothing_it_accepts() {
    // The coordinator applies a remote reset and then an in-range edit.
    let mut timeline = timeline_core::Timeline::new();
    timeline.handle_remote_diff(TimelineDiff::Reset {
        values: vec![remote_item("$a", "a"), remote_item("$b", "b")],
    });
    timeline.handle_remote_diff(TimelineDiff::SetItem {
        index: 0,
        value: remote_item("$a", "a edited"),
    });
    let found = timeline
        .get_event_timeline_item_by_event_id(&"$a".to_string())
        .expect("the item is present");
    assert_eq!(
        found.content,
        TimelineItemContent::Message { body: "a edited".to_string() }
    );
    let missing = timeline.get_event_timeline_item_by_event_id(&"$zzz".to_string());
    assert!(matches!(missing, Err(ClientError::ItemNotFound { .. })));
}
