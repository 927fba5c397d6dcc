//! Poll content construction, the fallback rendering, and the plain
//! message helpers.

use timeline_core::ClientError;
use timeline_core::EditPayload;
use timeline_core::EditedContent;
use timeline_core::MessageContent;
use timeline_core::MessageType;
use timeline_core::PollData;
use timeline_core::PollKind;
use timeline_core::Timeline;
use timeline_core::decimal::u64_to_decimal;

#[test]
fn fallback_text_is_the_question_then_a_numbered_list() {
    let timeline = Timeline::new();
    let content = timeline
        .create_poll(
            "Q".to_string(),
            vec!["A".to_string(), "B".to_string()],
            1,
            PollKind::Disclosed,
        )
        .expect("two answers are fine");
    assert_eq!(content.fallback_text, "Q\n1. A\n2. B");
    assert_eq!(content.block.question, "Q");
    assert_eq!(content.block.max_selections, 1);
    assert_eq!(content.block.kind, PollKind::Disclosed);
    assert_eq!(content.block.answers.len(), 2);
    assert_eq!(content.block.answers[0].text, "A");
    assert_eq!(content.block.answers[1].text, "B");
}

#[test]
fn fallback_text_numbers_past_nine() {
    let answers: Vec<String> = (0..12).map(|i| format!("answer {}", i)).collect();
    let data = PollData {
        question: "How many?".to_string(),
        answers,
        max_selections: 1,
        poll_kind: PollKind::Undisclosed,
    };
    let text = data.fallback_text();
    assert!(text.starts_with("How many?\n1. answer 0\n"));
    assert!(text.contains("\n10. answer 9\n"));
    assert!(text.ends_with("\n12. answer 11"));
}

#[test]
fn poll_answer_ids_are_generated_per_answer() {
    let data = PollData {
        question: "Q".to_string(),
        answers: vec!["A".to_string(), "B".to_string()],
        max_selections: 1,
        poll_kind: PollKind::Disclosed,
    };
    let block = data.start_block().expect("two answers are fine");
    assert_eq!(block.answers[0].id.len(), 36);
    assert_eq!(block.answers[1].id.len(), 36);
    assert_ne!(block.answers[0].id, block.answers[1].id);
}

#[test]
fn poll_answer_counts_are_bounded() {
    let timeline = Timeline::new();
    let none = timeline.create_poll("Q".to_string(), Vec::new(), 1, PollKind::Disclosed);
    assert!(matches!(none, Err(ClientError::Generic { .. })));

    let too_many: Vec<String> = (0..21).map(|i| format!("a{}", i)).collect();
    let r = timeline.create_poll("Q".to_string(), too_many, 1, PollKind::Disclosed);
    assert!(matches!(r, Err(ClientError::Generic { .. })));

    let just_right: Vec<String> = (0..20).map(|i| format!("a{}", i)).collect();
    assert!(timeline.create_poll("Q".to_string(), just_right, 1, PollKind::Disclosed).is_ok());
}

#[test]
fn poll_response_and_end_validate_the_start_event_id() {
    let timeline = Timeline::new();
    let response = timeline
        .send_poll_response("$poll".to_string(), vec!["id-1".to_string()])
        .expect("a valid id");
    assert_eq!(response.poll_start_event_id, "$poll");
    assert_eq!(response.answers, vec!["id-1".to_string()]);

    assert!(matches!(
        timeline.send_poll_response("poll".to_string(), Vec::new()),
        Err(ClientError::InvalidEventId { .. })
    ));

    let end = timeline
        .end_poll("$poll".to_string(), "the poll has ended".to_string())
        .expect("a valid id");
    assert_eq!(end.poll_start_event_id, "$poll");
    assert_eq!(end.text, "the poll has ended");

    assert!(matches!(
        timeline.end_poll("nope".to_string(), "text".to_string()),
        Err(ClientError::InvalidEventId { .. })
    ));
}

#[test]
fn editing_a_poll_rebuilds_its_block_and_fallback() {
    let edited = EditedContent::PollStart {
        poll_data: PollData {
            question: "Q2".to_string(),
            answers: vec!["C".to_string(), "D".to_string()],
            max_selections: 2,
            poll_kind: PollKind::Undisclosed,
        },
    };
    match edited.into_edit_payload().expect("two answers are fine") {
        EditPayload::PollStart { fallback_text, new_content } => {
            assert_eq!(fallback_text, "Q2\n1. C\n2. D");
            assert_eq!(new_content.question, "Q2");
            assert_eq!(new_content.max_selections, 2);
            assert_eq!(new_content.answers.len(), 2);
        }
        EditPayload::RoomMessage { .. } => panic!("a poll payload"),
    }

    let message = EditedContent::RoomMessage {
        content: MessageContent { msg_type: MessageType::Text { body: "hi".to_string() } },
    };
    assert!(matches!(
        message.into_edit_payload(),
        Ok(EditPayload::RoomMessage { .. })
    ));

    let empty_poll = EditedContent::PollStart {
        poll_data: PollData {
            question: "Q".to_string(),
            answers: Vec::new(),
            max_selections: 1,
            poll_kind: PollKind::Disclosed,
        },
    };
    assert!(empty_poll.into_edit_payload().is_err());
}

#[test]
fn create_message_content_rejects_unsupported_tags() {
    let timeline = Timeline::new();
    let text = timeline
        .create_message_content(MessageType::Text { body: "hello".to_string() })
        .expect("text is supported");
    assert_eq!(text.msg_type, MessageType::Text { body: "hello".to_string() });
    assert!(timeline
        .create_message_content(MessageType::Emote { body: "waves".to_string() })
        .is_some());
    assert!(timeline
        .create_message_content(MessageType::Notice { body: "note".to_string() })
        .is_some());
    assert!(timeline
        .create_message_content(MessageType::Unsupported { msgtype: "m.image".to_string() })
        .is_none());
}

#[test]
fn decimal_rendering_matches_the_usual_notation() {
    assert_eq!(u64_to_decimal(0), "0");
    assert_eq!(u64_to_decimal(7), "7");
    assert_eq!(u64_to_decimal(10), "10");
    assert_eq!(u64_to_decimal(305), "305");
    assert_eq!(u64_to_decimal(18446744073709551615), "18446744073709551615");
}
