use poison_queue::commands::{archive_message, republish_message, view_message_by_id, ReplacementFile};
use poison_queue::plan::RecoveryKind;
use poison_queue::preview::Span;
use poison_queue::scan::{BrokerPosition, RawMessage};
use poison_queue::report::failure_report;
use poison_queue::session::{covers, has_ended, Purpose, RecoverySession, Verdict};
use poison_queue::workflow::{Directive, Stage};

fn message(offset: i64, payload: &str) -> RawMessage {
    RawMessage {
        payload: Some(payload.as_bytes().to_vec()),
        position: BrokerPosition { topic: "dlq-orders".to_string(), partition: 1, offset },
    }
}

fn envelope(id: &str) -> String {
    format!(
        r#"{{"id":"{}","correlationId":"c-{}","payload":{{"amount":"twelve"}},"metadata":{{"failureReason":"bad amount","retryCount":2,"originalTopic":"orders","movedToDlqAt":"2024-05-01T10:00:00Z"}}}}"#,
        id, id
    )
}

fn topic() -> Vec<RawMessage> {
    vec![message(0, "garbage"), message(1, &envelope("a")), message(2, &envelope("b")), message(3, &envelope("c"))]
}

fn text_of(spans: &Vec<Span>) -> String {
    spans.iter().map(|s| s.text.as_str()).collect()
}

/// What a run did to the broker, in order.
struct Run {
    stage: Stage,
    calls: Vec<String>,
    polled: usize,
    prompted: usize,
}

fn run(mut session: RecoverySession, topic: Vec<RawMessage>, answer: &str, publish_ok: bool, commit_ok: bool) -> Run {
    let mut calls = Vec::new();
    let mut polled = 0;
    let mut prompted = 0;
    let mut rest = topic.into_iter();
    for _ in 0..100 {
        match session.next() {
            Directive::Poll => {
                polled += 1;
                match rest.next() {
                    Some(message) => {
                        session.on_message(message, "2024-06-01T00:00:00+00:00");
                    }
                    None => session.on_end_of_partition(),
                }
            }
            Directive::Confirm => {
                prompted += 1;
                assert!(session.preview().is_some());
                session.on_confirmation(answer);
            }
            Directive::Publish => {
                let record = session.record.as_ref().unwrap();
                calls.push(format!("publish {} key={}", record.topic, record.key));
                session.on_publish_result(publish_ok);
            }
            Directive::Commit => {
                let position = &session.plan.as_ref().unwrap().position;
                calls.push(format!("commit {}/{}@{}", position.topic, position.partition, position.offset));
                session.on_commit_result(commit_ok);
            }
            Directive::Wait => panic!("told to wait"),
            Directive::Stop => {
                return Run { stage: session.workflow.stage, calls, polled, prompted };
            }
        }
    }
    panic!("the session did not end");
}

#[test]
fn republish_moves_the_message_out_of_the_dlq() {
    let session = republish_message("dlq-orders", "b", None, false).ok().unwrap();
    let done = run(session, topic(), "y\n", true, true);
    assert_eq!(done.stage, Stage::Committed);
    assert_eq!(done.calls, vec!["publish orders key=b", "commit dlq-orders/1@2"]);
    assert_eq!(done.polled, 3);
    assert_eq!(done.prompted, 1);
}

#[test]
fn republish_by_correlation_id() {
    let session = republish_message("dlq-orders", "c-c", None, false).ok().unwrap();
    let done = run(session, topic(), "Y", true, true);
    assert_eq!(done.stage, Stage::Committed);
    assert_eq!(done.calls, vec!["publish orders key=c", "commit dlq-orders/1@3"]);
}

#[test]
fn a_declined_republish_does_nothing() {
    for answer in ["n\n", "", "no", "yes", "\n"] {
        let session = republish_message("dlq-orders", "b", None, false).ok().unwrap();
        let done = run(session, topic(), answer, true, true);
        assert_eq!(done.stage, Stage::Cancelled);
        assert!(done.calls.is_empty());
        assert_eq!(done.prompted, 1);
    }
}

#[test]
fn a_dry_run_does_nothing_with_or_without_replacement() {
    let file = ReplacementFile { path: "fixed.json".to_string(), content: b"{\"amount\":12}".to_vec() };
    for payload_file in [None, Some(file)] {
        let session = republish_message("dlq-orders", "b", payload_file, true).ok().unwrap();
        let done = run(session, topic(), "y", true, true);
        assert_eq!(done.stage, Stage::Previewed);
        assert!(done.calls.is_empty());
        assert_eq!(done.prompted, 0);
    }
}

#[test]
fn a_failed_publish_leaves_the_offset_alone() {
    let session = republish_message("dlq-orders", "b", None, false).ok().unwrap();
    let done = run(session, topic(), "y", false, true);
    assert_eq!(done.stage, Stage::PublishFailed);
    assert_eq!(done.calls, vec!["publish orders key=b"]);
}

#[test]
fn a_failed_commit_comes_after_the_publish() {
    let session = republish_message("dlq-orders", "b", None, false).ok().unwrap();
    let done = run(session, topic(), "y", true, false);
    assert_eq!(done.stage, Stage::CommitFailed);
    assert_eq!(done.calls, vec!["publish orders key=b", "commit dlq-orders/1@2"]);
}

#[test]
fn a_missing_message_is_not_found() {
    let session = republish_message("dlq-orders", "zzz", None, false).ok().unwrap();
    let done = run(session, topic(), "y", true, true);
    assert_eq!(done.stage, Stage::NotFound);
    assert!(done.calls.is_empty());
    assert_eq!(done.polled, 5);
}

#[test]
fn a_broker_error_aborts_the_scan() {
    let mut session = republish_message("dlq-orders", "b", None, false).ok().unwrap();
    assert_eq!(session.next(), Directive::Poll);
    session.on_message(message(0, &envelope("a")), "now");
    assert_eq!(session.next(), Directive::Poll);
    session.on_broker_error("broker transport failure");
    assert_eq!(session.workflow.stage, Stage::ScanFailed);
    assert_eq!(session.detail, "broker transport failure");
    assert_eq!(
        failure_report(session.workflow.stage, session.detail.as_str()),
        Some("Kafka error while reading message: broker transport failure".to_string())
    );
    assert_eq!(session.next(), Directive::Stop);
    assert!(session.plan.is_none());
    assert!(session.preview().is_none());
}

#[test]
fn an_invalid_replacement_is_refused_before_any_session() {
    let file = ReplacementFile { path: "broken.json".to_string(), content: b"{\"amount\":".to_vec() };
    let refused = republish_message("dlq-orders", "b", Some(file), false);
    assert!(refused.is_err());
    assert!(!refused.err().unwrap().reason.is_empty());
}

#[test]
fn a_replacement_goes_out_in_place_of_the_payload() {
    let file = ReplacementFile { path: "fixed.json".to_string(), content: b"{\"amount\": 12}".to_vec() };
    let mut session = republish_message("dlq-orders", "b", Some(file), false).ok().unwrap();
    assert_eq!(session.replacement_source, "fixed.json");
    for raw in topic() {
        session.next();
        session.on_message(raw, "2024-06-01T00:00:00+00:00");
    }
    assert_eq!(session.workflow.stage, Stage::AwaitingConfirmation);
    let record = session.record.as_ref().unwrap();
    assert_eq!(record.topic, "orders");
    assert_eq!(
        String::from_utf8(record.payload.clone()).unwrap(),
        r#"{"correlationId":"c-b","id":"b","metadata":{"failureReason":"bad amount","movedToDlqAt":"2024-05-01T10:00:00Z","originalTopic":"orders","retryCount":2},"payload":{"amount":12}}"#
    );
    let headers: Vec<(String, String)> = record.headers.iter().map(|h| (h.key.clone(), h.value.clone())).collect();
    assert_eq!(
        headers,
        vec![
            ("id".to_string(), "b".to_string()),
            ("republished_at".to_string(), "2024-06-01T00:00:00+00:00".to_string()),
            ("correlation_id".to_string(), "c-b".to_string()),
        ]
    );
    let plan = session.plan.as_ref().unwrap();
    assert_eq!(plan.position.offset, 2);
    assert!(matches!(plan.kind, RecoveryKind::Republish));
}

#[test]
fn the_preview_of_a_replacement_shows_the_difference() {
    let file = ReplacementFile { path: "fixed.json".to_string(), content: b"{\"amount\": 12}".to_vec() };
    let mut session = republish_message("dlq-orders", "b", Some(file), false).ok().unwrap();
    session.on_message(message(9, &envelope("b")), "T");
    let preview = session.preview().unwrap();
    assert_eq!(preview.row.id, "b");
    assert_eq!(preview.row.payload, "{\n  \"amount\": \"twelve\"\n}");
    assert_eq!(preview.new_payload, Some("{\n  \"amount\": 12\n}".to_string()));
    let text = text_of(&preview.spans);
    assert!(text.contains("Found message in DLQ: dlq-orders\n"));
    assert!(text.contains("AFTER (From file: fixed.json):\n{\n  \"amount\": 12\n}\n"));
    assert!(text.contains("\nDIFF:\n  {\n-   \"amount\": \"twelve\"\n+   \"amount\": 12\n  }\n"));
    assert!(text.contains("  → Publish fixed message to: orders\n"));
    assert!(text.contains("  → Remove from DLQ: dlq-orders (commit offset)\n"));
    assert!(text.contains("  republished_at: T\n"));
    assert!(!text.contains("[DRY RUN"));
}

#[test]
fn the_preview_without_replacement_shows_the_payload() {
    let mut session = republish_message("dlq-orders", "b", None, true).ok().unwrap();
    session.on_message(message(9, &envelope("b")), "T");
    let preview = session.preview().unwrap();
    assert_eq!(preview.new_payload, None);
    let text = text_of(&preview.spans);
    assert!(text.contains("[DRY RUN MODE]\n"));
    assert!(text.contains("PAYLOAD (will be republished as-is):\n{\n  \"amount\": \"twelve\"\n}\n"));
    assert!(text.contains("  [DRY RUN] → Republish message to: orders\n"));
    assert!(text.contains("  [DRY RUN] → Remove from DLQ: dlq-orders\n"));
    assert!(!text.contains("DIFF:"));
}

#[test]
fn archive_sends_to_the_archive_topic_without_asking() {
    let session = archive_message("dlq-orders", "a", "dlq-archive");
    assert!(matches!(session.purpose, Purpose::Archive));
    let done = run(session, topic(), "n", true, true);
    assert_eq!(done.stage, Stage::Committed);
    assert_eq!(done.calls, vec!["publish dlq-archive key=a", "commit dlq-orders/1@1"]);
    assert_eq!(done.prompted, 0);
}

#[test]
fn an_archived_message_is_stamped() {
    let mut session = archive_message("dlq-orders", "a", "dlq-archive");
    session.on_message(message(4, &envelope("a")), "2024-06-01T00:00:00+00:00");
    assert_eq!(session.workflow.stage, Stage::Planned);
    let record = session.record.as_ref().unwrap();
    assert_eq!(
        String::from_utf8(record.payload.clone()).unwrap(),
        r#"{"correlationId":"c-a","id":"a","metadata":{"archivedAt":"2024-06-01T00:00:00+00:00","failureReason":"bad amount","movedToDlqAt":"2024-05-01T10:00:00Z","originalTopic":"orders","retryCount":2},"payload":{"amount":"twelve"}}"#
    );
    let preview = session.preview().unwrap();
    assert_eq!(preview.row.id, "a");
    assert!(preview.spans.is_empty());
}

#[test]
fn viewing_finds_and_stops() {
    let session = view_message_by_id("dlq-orders", "c");
    assert!(matches!(session.purpose, Purpose::View));
    let done = run(session, topic(), "y", true, true);
    assert_eq!(done.stage, Stage::Previewed);
    assert!(done.calls.is_empty());
    assert_eq!(done.polled, 4);
}

#[test]
fn a_viewed_message_has_a_row_and_no_record() {
    let mut session = view_message_by_id("dlq-orders", "c-c");
    session.on_message(message(0, &envelope("a")), "T");
    assert_eq!(session.workflow.stage, Stage::Scanning);
    assert!(session.plan.is_none());
    session.on_message(message(1, &envelope("c")), "T");
    assert_eq!(session.workflow.stage, Stage::Previewed);
    assert!(session.record.is_none());
    assert_eq!(session.preview().unwrap().row.id, "c");
}

#[test]
fn messages_after_the_match_are_ignored() {
    let mut session = archive_message("dlq-orders", "a", "dlq-archive");
    session.on_message(message(1, &envelope("a")), "T1");
    session.on_message(message(2, &envelope("a")), "T2");
    let plan = session.plan.as_ref().unwrap();
    assert_eq!(plan.position.offset, 1);
    assert_eq!(plan.timestamp, "T1");
    assert_eq!(session.workflow.stage, Stage::Planned);
}

#[test]
fn the_clock_stamps_a_match() {
    let mut session = archive_message("dlq-orders", "a", "dlq-archive");
    session.on_message_now(message(1, &envelope("a")));
    let plan = session.plan.as_ref().unwrap();
    assert!(plan.timestamp.len() >= 20, "{}", plan.timestamp);
    assert!(plan.timestamp.starts_with("20"));
    assert!(plan.timestamp.contains('T'));
    assert!(plan.timestamp.ends_with("+00:00"));
    assert_eq!(plan.outgoing().metadata.archived_at, Some(plan.timestamp.clone()));
}

#[test]
fn a_driven_session_is_sound_at_every_step() {
    let mut session = republish_message("dlq-orders", "b", None, false).ok().unwrap();
    assert!(session.is_sound());
    for raw in topic() {
        session.next();
        session.on_message(raw, "T");
        assert!(session.is_sound());
    }
    session.on_confirmation("y");
    assert!(session.is_sound());
    session.next();
    session.on_publish_result(true);
    session.next();
    session.on_commit_result(true);
    assert!(session.is_sound());
    assert_eq!(session.workflow.stage, Stage::Committed);
}

#[test]
fn a_session_with_a_foreign_record_is_not_sound() {
    let mut session = archive_message("dlq-orders", "a", "dlq-archive");
    session.on_message(message(1, &envelope("a")), "T");
    assert!(session.is_sound());
    session.record.as_mut().unwrap().topic = "orders".to_string();
    assert!(!session.is_sound());
    session.record = None;
    assert!(!session.is_sound());
}

#[test]
fn the_scan_ends_when_every_assigned_partition_has_ended() {
    let mut session = republish_message("dlq-orders", "zzz", None, false).ok().unwrap();
    let assigned = vec![0, 1, 2];
    session.on_partition_end(1, &assigned);
    assert_eq!(session.workflow.stage, Stage::Scanning);
    assert_eq!(session.next(), Directive::Poll);
    session.on_message(message(5, &envelope("a")), "T");
    session.on_partition_end(1, &assigned);
    session.on_partition_end(0, &assigned);
    assert_eq!(session.workflow.stage, Stage::Scanning);
    session.on_partition_end(2, &assigned);
    assert_eq!(session.workflow.stage, Stage::NotFound);
    assert_eq!(session.ended, vec![1, 1, 0, 2]);
    assert_eq!(session.next(), Directive::Stop);
}

#[test]
fn a_match_on_a_later_partition_is_still_found() {
    let mut session = archive_message("dlq-orders", "b", "dlq-archive");
    let assigned = vec![0, 1];
    session.on_partition_end(0, &assigned);
    assert_eq!(session.next(), Directive::Poll);
    assert!(matches!(session.on_message(message(3, &envelope("b")), "T"), Verdict::Matched));
    assert_eq!(session.next(), Directive::Publish);
    session.on_partition_end(1, &assigned);
    assert_eq!(session.workflow.stage, Stage::Publishing);
}

#[test]
fn one_partition_ends_the_scan_of_one_partition() {
    let mut session = view_message_by_id("dlq-orders", "zzz");
    session.on_partition_end(4, &vec![4]);
    assert_eq!(session.workflow.stage, Stage::NotFound);
    assert!(covers(&vec![4], &vec![1, 4]));
    assert!(!covers(&vec![4, 5], &vec![4]));
    assert!(covers(&Vec::new(), &Vec::new()));
    assert!(has_ended(&vec![1, 4], 4));
    assert!(!has_ended(&vec![1, 4], 2));
}

#[test]
fn a_session_says_what_it_made_of_a_message() {
    let mut session = republish_message("dlq-orders", "b", None, false).ok().unwrap();
    let bare = RawMessage { payload: None, position: message(0, "").position };
    assert!(matches!(session.on_message(bare, "T"), Verdict::NoPayload));
    match session.on_message(message(1, "garbage"), "T") {
        Verdict::Unreadable { reason } => assert!(!reason.is_empty()),
        _ => panic!("readable"),
    }
    assert!(matches!(session.on_message(message(2, &envelope("a")), "T"), Verdict::PassedOver));
    assert_eq!(session.workflow.stage, Stage::Scanning);
    assert!(matches!(session.on_message(message(3, &envelope("b")), "T"), Verdict::Matched));
    assert!(matches!(session.on_message(message(4, &envelope("b")), "T"), Verdict::Ignored));
}

#[test]
fn a_republish_to_no_topic_is_refused() {
    for body in [r#"{"id":"b"}"#, r#"{"id":"b","metadata":{"originalTopic":""}}"#, r#"{"id":"b","metadata":{"originalTopic":"-"}}"#] {
        let mut session = republish_message("dlq-orders", "b", None, false).ok().unwrap();
        assert!(matches!(session.on_message(message(1, body), "T"), Verdict::Refused));
        assert_eq!(session.workflow.stage, Stage::PlanFailed);
        assert!(session.plan.is_none());
        assert!(session.record.is_none());
        assert_eq!(session.detail, "the message names no topic to go to");
        assert_eq!(session.next(), Directive::Stop);
        assert_eq!(
            failure_report(session.workflow.stage, session.detail.as_str()),
            Some("The message cannot be recovered: the message names no topic to go to".to_string())
        );
        assert!(session.is_sound());
    }
}

#[test]
fn a_dry_run_previews_a_message_without_topic() {
    let mut session = republish_message("dlq-orders", "b", None, true).ok().unwrap();
    assert!(matches!(session.on_message(message(1, r#"{"id":"b"}"#), "T"), Verdict::Matched));
    assert_eq!(session.workflow.stage, Stage::Previewed);
    assert!(session.plan.as_ref().unwrap().lacks_destination());
}

#[test]
fn an_archive_of_a_message_without_topic_goes_ahead() {
    let session = archive_message("dlq-orders", "b", "dlq-archive");
    let done = run(session, vec![message(1, r#"{"id":"b"}"#)], "n", true, true);
    assert_eq!(done.stage, Stage::Committed);
    assert_eq!(done.calls, vec!["publish dlq-archive key=b", "commit dlq-orders/1@1"]);
}

#[test]
fn without_a_time_a_match_is_refused() {
    let mut session = archive_message("dlq-orders", "a", "dlq-archive");
    assert!(matches!(session.take_message(message(0, &envelope("x")), None), Verdict::PassedOver));
    assert_eq!(session.workflow.stage, Stage::Scanning);
    assert!(matches!(session.take_message(message(1, &envelope("a")), None), Verdict::Refused));
    assert_eq!(session.workflow.stage, Stage::PlanFailed);
    assert_eq!(session.detail, "the clock gives no time");
    assert!(session.plan.is_none());
}

#[test]
fn the_row_shows_the_metadata_as_the_message_has_it() {
    let mut session = view_message_by_id("dlq-orders", "b");
    session.on_message(message(1, r#"{"id":"b","metadata":{"retryCount":1,"note":"kept"}}"#), "T");
    let row = session.preview().unwrap().row;
    assert_eq!(row.id, "b");
    assert_eq!(row.correlation_id, "-");
    assert_eq!(row.retries, 1);
    assert_eq!(row.payload, "null");
    assert_eq!(row.metadata, "{\n  \"note\": \"kept\",\n  \"retryCount\": 1\n}");
    let mut session = view_message_by_id("dlq-orders", "b");
    for body in ["garbage", r#"{"id":"a"}"#, r#"{"id":"b"}"#] {
        session.on_message(message(1, body), "T");
    }
    let row = session.preview().unwrap().row;
    assert_eq!(row.id, "b");
    assert_eq!(row.retries, 0);
    assert_eq!(row.payload, "null");
    assert_eq!(row.metadata, "null");
}

#[test]
fn a_message_without_correlation_id_goes_out_without_that_header() {
    let mut session = archive_message("dlq-orders", "b", "dlq-archive");
    session.on_message(message(1, r#"{"id":"b"}"#), "T");
    let headers: Vec<(String, String)> =
        session.record.as_ref().unwrap().headers.iter().map(|h| (h.key.clone(), h.value.clone())).collect();
    assert_eq!(headers, vec![("id".to_string(), "b".to_string()), ("archivedAt".to_string(), "T".to_string())]);
}
