use poison_queue::model::{DlqEnvelope, Metadata};
use poison_queue::scan::{
    examine, matches_target, scan_topic, BrokerPosition, Examined, RawMessage, ScanOutcome,
};

fn at(offset: i64) -> BrokerPosition {
    BrokerPosition { topic: "dlq-orders".to_string(), partition: 0, offset }
}

fn message(offset: i64, payload: &str) -> RawMessage {
    RawMessage { payload: Some(payload.as_bytes().to_vec()), position: at(offset) }
}

fn empty(offset: i64) -> RawMessage {
    RawMessage { payload: None, position: at(offset) }
}

fn envelope(id: &str, correlation: &str) -> String {
    format!(r#"{{"id":"{}","correlationId":"{}","payload":{{"n":1}}}}"#, id, correlation)
}

fn outcome_index(outcome: &ScanOutcome) -> Option<usize> {
    match outcome {
        ScanOutcome::Matched { index, .. } => Some(*index),
        ScanOutcome::EndOfPartition => None,
    }
}

fn outcome_id(outcome: &ScanOutcome) -> Option<String> {
    match outcome {
        ScanOutcome::Matched { envelope, .. } => Some(envelope.id.clone()),
        ScanOutcome::EndOfPartition => None,
    }
}

#[test]
fn the_only_envelope_with_the_id_is_found() {
    let topic = vec![
        message(0, &envelope("x", "cx")),
        message(1, &envelope("y", "cy")),
        message(2, &envelope("z", "cz")),
    ];
    let outcome = scan_topic(&topic, "y");
    assert_eq!(outcome_index(&outcome), Some(1));
    assert_eq!(outcome_id(&outcome), Some("y".to_string()));
}

#[test]
fn a_topic_without_the_id_ends_not_found() {
    let topic = vec![message(0, &envelope("x", "cx")), message(1, &envelope("z", "cz"))];
    assert!(matches!(scan_topic(&topic, "y"), ScanOutcome::EndOfPartition));
}

#[test]
fn an_empty_topic_ends_not_found() {
    assert!(matches!(scan_topic(&Vec::new(), "y"), ScanOutcome::EndOfPartition));
}

#[test]
fn garbage_does_not_hide_the_match() {
    let topic = vec![message(0, "garbage"), message(1, &envelope("a", "ca")), message(2, &envelope("b", "cb"))];
    let outcome = scan_topic(&topic, "b");
    assert_eq!(outcome_index(&outcome), Some(2));
    assert_eq!(outcome_id(&outcome), Some("b".to_string()));
}

#[test]
fn messages_without_payload_are_passed_over() {
    let topic = vec![empty(0), message(1, ""), message(2, "{\"id\":"), empty(3), message(4, &envelope("b", "-"))];
    let outcome = scan_topic(&topic, "b");
    assert_eq!(outcome_index(&outcome), Some(4));
}

#[test]
fn taking_the_unreadable_out_changes_nothing() {
    let with = vec![message(0, "garbage"), empty(1), message(2, &envelope("a", "ca")), message(3, "[")];
    let without = vec![message(2, &envelope("a", "ca"))];
    assert_eq!(outcome_id(&scan_topic(&with, "a")), outcome_id(&scan_topic(&without, "a")));
    assert_eq!(outcome_id(&scan_topic(&with, "q")), outcome_id(&scan_topic(&without, "q")));
}

#[test]
fn the_correlation_id_matches_too() {
    let topic = vec![message(0, &envelope("x", "cx")), message(1, &envelope("y", "target"))];
    let outcome = scan_topic(&topic, "target");
    assert_eq!(outcome_index(&outcome), Some(1));
    assert_eq!(outcome_id(&outcome), Some("y".to_string()));
}

#[test]
fn the_earliest_match_wins() {
    let topic = vec![
        message(0, &envelope("x", "t")),
        message(1, &envelope("t", "c1")),
        message(2, &envelope("t", "c2")),
    ];
    let outcome = scan_topic(&topic, "t");
    assert_eq!(outcome_index(&outcome), Some(0));
    assert_eq!(outcome_id(&outcome), Some("x".to_string()));
}

#[test]
fn the_sentinel_matches_a_message_without_id() {
    let topic = vec![message(0, &envelope("x", "cx")), message(1, "[1,2]")];
    assert_eq!(outcome_index(&scan_topic(&topic, "-")), Some(1));
}

#[test]
fn examine_returns_only_a_match() {
    assert!(matches!(examine(&message(0, &envelope("a", "c")), "a"), Examined::Hit { .. }));
    assert!(matches!(examine(&message(0, &envelope("a", "c")), "c"), Examined::Hit { .. }));
    assert!(matches!(examine(&message(0, &envelope("a", "c")), "b"), Examined::Miss));
    assert!(matches!(examine(&message(0, "nope"), "a"), Examined::Unreadable { .. }));
    assert!(matches!(examine(&empty(0), "a"), Examined::NoPayload));
    assert!(matches!(examine(&empty(0), "-"), Examined::NoPayload));
}

#[test]
fn examine_hands_out_the_row_and_the_reason() {
    match examine(&message(0, r#"{"id":"a","payload":[1],"metadata":{"note":"kept"}}"#), "a") {
        Examined::Hit { envelope, row } => {
            assert_eq!(envelope.id, "a");
            assert_eq!(row.id, "a");
            assert_eq!(row.payload, "[\n  1\n]");
            assert_eq!(row.metadata, "{\n  \"note\": \"kept\"\n}");
        }
        _ => panic!("no hit"),
    }
    match examine(&message(0, "{\"id\":"), "a") {
        Examined::Unreadable { reason } => assert!(reason.contains("EOF"), "{}", reason),
        _ => panic!("readable"),
    }
}

#[test]
fn the_match_predicate_compares_whole_ids() {
    let envelope = DlqEnvelope {
        id: "abc".to_string(),
        correlation_id: "corr".to_string(),
        payload: serde_json::Value::Null,
        metadata: Metadata::from_fields(None, None, None, None, None),
    };
    assert!(matches_target(&envelope, "abc"));
    assert!(matches_target(&envelope, "corr"));
    assert!(!matches_target(&envelope, "ab"));
    assert!(!matches_target(&envelope, "abcd"));
    assert!(!matches_target(&envelope, ""));
    assert!(!matches_target(&envelope, "ABC"));
}

#[test]
fn a_position_is_copied_whole() {
    let copy = at(42).duplicate();
    assert_eq!(copy.topic, "dlq-orders");
    assert_eq!(copy.partition, 0);
    assert_eq!(copy.offset, 42);
}

#[test]
fn the_offset_behind_the_message_is_committed() {
    assert_eq!(at(41).offset_to_commit(), Some(42));
    assert_eq!(at(0).offset_to_commit(), Some(1));
    assert_eq!(at(i64::MAX - 1).offset_to_commit(), Some(i64::MAX));
    assert_eq!(at(i64::MAX).offset_to_commit(), None);
}
