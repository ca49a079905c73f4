use poison_queue::diff::{compare_lines, ChangeKind, LineChange};
use poison_queue::model::DlqMessage;
use poison_queue::plan::Header;
use poison_queue::preview::{
    display_diff_and_plan, display_republish_info, print_diff, print_dry_run_info, push_span, Span, Style,
};
use poison_queue::report::{confirm_action, exit_code, failure_message, failure_report, progress_notice};
use poison_queue::session::Purpose;
use poison_queue::workflow::Stage;

fn pieces(spans: &Vec<Span>) -> Vec<(String, Style)> {
    spans.iter().map(|s| (s.text.clone(), s.style)).collect()
}

fn text_of(spans: &Vec<Span>) -> String {
    spans.iter().map(|s| s.text.as_str()).collect()
}

fn row() -> DlqMessage {
    DlqMessage {
        payload: "{\n  \"a\": 1\n}".to_string(),
        metadata: "{}".to_string(),
        moved_at: "2024-05-01T10:00:00Z".to_string(),
        original_topic: "orders".to_string(),
        retries: 12,
        reason: "boom".to_string(),
        correlation_id: "c-1".to_string(),
        id: "a-1".to_string(),
    }
}

fn headers() -> Vec<Header> {
    vec![
        Header { key: "id".to_string(), value: "a-1".to_string() },
        Header { key: "republished_at".to_string(), value: "T".to_string() },
    ]
}

const RULE: &str = "=================================================================";

#[test]
fn a_span_is_appended() {
    let mut spans = Vec::new();
    push_span(&mut spans, "a", Style::Bold);
    push_span(&mut spans, "b", Style::Plain);
    assert_eq!(pieces(&spans), vec![("a".to_string(), Style::Bold), ("b".to_string(), Style::Plain)]);
}

#[test]
fn the_difference_of_two_payloads() {
    let changes = compare_lines("{\n  \"a\": 1\n}", "{\n  \"a\": 2\n}").unwrap();
    let seen: Vec<(ChangeKind, String)> = changes.iter().map(|c| (c.kind, c.line.clone())).collect();
    assert_eq!(
        seen,
        vec![
            (ChangeKind::Equal, "{\n".to_string()),
            (ChangeKind::Delete, "  \"a\": 1\n".to_string()),
            (ChangeKind::Insert, "  \"a\": 2\n".to_string()),
            (ChangeKind::Equal, "}\n".to_string()),
        ]
    );
}

#[test]
fn equal_texts_differ_nowhere() {
    let changes = compare_lines("a\nb\n", "a\nb\n").unwrap();
    assert_eq!(changes.len(), 2);
    assert!(changes.iter().all(|c| c.kind == ChangeKind::Equal));
    assert_eq!(compare_lines("", "").unwrap().len(), 0);
}

#[test]
fn a_difference_is_rendered_line_by_line() {
    let changes = vec![
        LineChange { kind: ChangeKind::Equal, line: "{\n".to_string() },
        LineChange { kind: ChangeKind::Delete, line: "old\n".to_string() },
        LineChange { kind: ChangeKind::Insert, line: "new\n".to_string() },
    ];
    assert_eq!(
        pieces(&print_diff(&changes)),
        vec![
            ("  ".to_string(), Style::Plain),
            ("{\n".to_string(), Style::Plain),
            ("- ".to_string(), Style::Plain),
            ("old\n".to_string(), Style::Red),
            ("+ ".to_string(), Style::Plain),
            ("new\n".to_string(), Style::Green),
        ]
    );
    assert!(print_diff(&Vec::new()).is_empty());
}

#[test]
fn the_preview_of_an_unchanged_republish() {
    let spans = display_republish_info(&row(), "dlq-orders", false, &headers());
    let expected = format!(
        "\n{rule}\nFound message in DLQ: dlq-orders\n{rule}\n\
         \nMESSAGE METADATA:\n  ID:             a-1\n  Correlation ID: c-1\n  Failure Reason: boom\n  Retry Count:    12\n  Original Topic: orders\n  Moved to DLQ:   2024-05-01T10:00:00Z\n\
         \nMESSAGE HEADERS (will be republished as-is):\n  id: a-1\n  republished_at: T\n\
         \nPAYLOAD (will be republished as-is):\n{{\n  \"a\": 1\n}}\n\
         \n{rule}\nPLANNED ACTION:\n  → Republish message to: orders\n  → Remove from DLQ: dlq-orders\n{rule}\n",
        rule = RULE
    );
    assert_eq!(text_of(&spans), expected);
    assert!(pieces(&spans).contains(&("dlq-orders".to_string(), Style::Cyan)));
    assert!(pieces(&spans).contains(&("orders".to_string(), Style::Green)));
    assert!(pieces(&spans).contains(&("MESSAGE METADATA:".to_string(), Style::Bold)));
    assert!(pieces(&spans).contains(&("MESSAGE HEADERS (will be republished as-is):".to_string(), Style::Yellow)));
}

#[test]
fn the_preview_of_a_fixed_republish() {
    let changes = compare_lines("{\n  \"a\": 1\n}", "{\n  \"a\": 2\n}");
    let spans = display_diff_and_plan(&row(), "{\n  \"a\": 2\n}", "dlq-orders", "fix.json", true, &headers(), &changes);
    let expected = format!(
        "\n{rule}\nFound message in DLQ: dlq-orders\n[DRY RUN MODE]\n{rule}\n\
         \nMESSAGE METADATA:\n  ID:             a-1\n  Correlation ID: c-1\n  Failure Reason: boom\n  Retry Count:    12\n  Original Topic: orders\n  Moved to DLQ:   2024-05-01T10:00:00Z\n\
         \nMESSAGE HEADERS (will be republished as-is):\n  id: a-1\n  republished_at: T\n\
         \n{rule}\nPAYLOAD COMPARISON\n{rule}\n\
         \nBEFORE (Current in DLQ):\n{{\n  \"a\": 1\n}}\n\
         \nAFTER (From file: fix.json):\n{{\n  \"a\": 2\n}}\n\
         \nDIFF:\n  {{\n-   \"a\": 1\n+   \"a\": 2\n  }}\n\
         \n{rule}\nPLANNED ACTION:\n  [DRY RUN] → Publish fixed message to: orders\n  [DRY RUN] → Remove from DLQ: dlq-orders\n{rule}\n",
        rule = RULE
    );
    assert_eq!(text_of(&spans), expected);
    assert!(pieces(&spans).contains(&("[DRY RUN MODE]".to_string(), Style::YellowBold)));
    assert!(pieces(&spans).contains(&("  \"a\": 1\n".to_string(), Style::Red)));
    assert!(pieces(&spans).contains(&("  \"a\": 2\n".to_string(), Style::Green)));
    assert!(pieces(&spans).contains(&("MESSAGE HEADERS (will be republished as-is):".to_string(), Style::YellowBold)));
}

#[test]
fn a_fixed_republish_names_the_commit() {
    let spans = display_diff_and_plan(&row(), "1", "dlq-orders", "fix.json", false, &Vec::new(), &None);
    let text = text_of(&spans);
    assert!(text.contains("  → Publish fixed message to: orders\n  → Remove from DLQ: dlq-orders (commit offset)\n"));
    assert!(text.contains("\nDIFF:\n(payloads too large to compare)\n"));
}

#[test]
fn what_a_dry_run_says_at_its_end() {
    let spans = print_dry_run_info("dlq-orders", "orders");
    let expected = format!(
        "\n{rule}\n🔍 DRY RUN MODE - No changes will be made\n{rule}\n\
         \nWhat would happen:\n  → Message would be published to: orders\n  → DLQ offset would be committed (message removed from dlq-orders)\n\
         \nTo actually perform this operation, run without --dry-run\n",
        rule = RULE
    );
    assert_eq!(text_of(&spans), expected);
    assert!(pieces(&spans)
        .contains(&("To actually perform this operation, run without --dry-run".to_string(), Style::Dimmed)));
}

#[test]
fn the_question_to_the_operator() {
    assert_eq!(
        pieces(&confirm_action()),
        vec![
            ("\n".to_string(), Style::Plain),
            ("Proceed with this change? [y/N]:".to_string(), Style::YellowBold),
            (" ".to_string(), Style::Plain),
        ]
    );
}

#[test]
fn failures_exit_with_one() {
    for stage in [Stage::NotFound, Stage::ScanFailed, Stage::PlanFailed, Stage::PublishFailed, Stage::CommitFailed] {
        assert_eq!(exit_code(stage), 1);
        assert!(failure_message(stage).is_some());
    }
    for stage in [Stage::Committed, Stage::Previewed, Stage::Cancelled, Stage::Scanning, Stage::Publishing] {
        assert_eq!(exit_code(stage), 0);
        assert!(failure_message(stage).is_none());
    }
}

#[test]
fn each_failure_has_its_own_message() {
    assert_eq!(failure_message(Stage::NotFound), Some("Message not found"));
    let publish = failure_message(Stage::PublishFailed).unwrap();
    let commit = failure_message(Stage::CommitFailed).unwrap();
    assert_ne!(publish, commit);
    assert!(publish.starts_with("Failed to publish"));
    assert!(publish.contains("still in the DLQ"));
    assert!(commit.starts_with("Failed to commit DLQ offset"));
    assert!(commit.contains("delivered again"));
    assert_ne!(failure_message(Stage::ScanFailed), failure_message(Stage::PlanFailed));
}

#[test]
fn progress_is_told_stage_by_stage() {
    assert_eq!(text_of(&progress_notice(Purpose::Republish, Stage::Publishing, "dlq", "orders")), "\nPublishing to orders...\n");
    assert_eq!(text_of(&progress_notice(Purpose::Republish, Stage::Committing, "dlq", "orders")), "✅ Message published successfully\n");
    assert_eq!(
        text_of(&progress_notice(Purpose::Republish, Stage::Committed, "dlq", "orders")),
        "✅ DLQ message committed (removed from dlq)\n\nDone!\n"
    );
    assert_eq!(text_of(&progress_notice(Purpose::Republish, Stage::Cancelled, "dlq", "orders")), "Operation cancelled.\n");
    assert_eq!(
        text_of(&progress_notice(Purpose::Republish, Stage::Previewed, "dlq", "orders")),
        text_of(&print_dry_run_info("dlq", "orders"))
    );
    assert_eq!(text_of(&progress_notice(Purpose::Archive, Stage::Publishing, "dlq", "archive")), "Archiving..\n");
    assert_eq!(text_of(&progress_notice(Purpose::Archive, Stage::Committing, "dlq", "archive")), "Archived to archive\n");
    assert!(progress_notice(Purpose::Archive, Stage::Committed, "dlq", "archive").is_empty());
    assert!(progress_notice(Purpose::View, Stage::Previewed, "dlq", "orders").is_empty());
    assert!(progress_notice(Purpose::Republish, Stage::Scanning, "dlq", "orders").is_empty());
}

#[test]
fn a_failure_is_reported_with_its_detail() {
    assert_eq!(
        failure_report(Stage::ScanFailed, "broker down"),
        Some("Kafka error while reading message: broker down".to_string())
    );
    assert_eq!(failure_report(Stage::ScanFailed, ""), Some("Kafka error while reading message".to_string()));
    assert_eq!(
        failure_report(Stage::PlanFailed, "the clock gives no time"),
        Some("The message cannot be recovered: the clock gives no time".to_string())
    );
    assert_eq!(failure_report(Stage::NotFound, "stale"), Some("Message not found".to_string()));
    assert_eq!(
        failure_report(Stage::PublishFailed, "stale"),
        failure_message(Stage::PublishFailed).map(|m| m.to_string())
    );
    assert_eq!(failure_report(Stage::Committed, "stale"), None);
    assert_eq!(failure_report(Stage::Cancelled, ""), None);
}
