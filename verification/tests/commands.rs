use poison_queue::commands::{list_message, list_messages, Args, Commands, USAGE_HINT};
use poison_queue::config::ConnectionConfig;
use poison_queue::scan::{BrokerPosition, RawMessage};
use poison_queue::topics::{classify, list_topics, print_topic_table, sort_by_name, TopicDisplayInfo, TopicKind};

fn message(payload: Option<&str>) -> RawMessage {
    RawMessage {
        payload: payload.map(|p| p.as_bytes().to_vec()),
        position: BrokerPosition { topic: "dlq".to_string(), partition: 0, offset: 0 },
    }
}

fn pairs(settings: &Vec<poison_queue::config::Setting>) -> Vec<(String, String)> {
    settings.iter().map(|s| (s.key.clone(), s.value.clone())).collect()
}

fn pair(key: &str, value: &str) -> (String, String) {
    (key.to_string(), value.to_string())
}

#[test]
fn each_command_reports_failure_under_its_own_words() {
    assert_eq!(Commands::ListTopics.error_prefix(), "Error listing topics");
    assert_eq!(Commands::ListMessages { topic: "t".to_string() }.error_prefix(), "Error listing messages");
    assert_eq!(
        Commands::ViewMessage { topic: "t".to_string(), message_id: "m".to_string() }.error_prefix(),
        "Error listing messages"
    );
    assert_eq!(
        Commands::ArchiveMessage { topic: "t".to_string(), message_id: "m".to_string() }.error_prefix(),
        "Error archiving message"
    );
    let republish = Commands::RepublishMessage {
        topic: "t".to_string(),
        message_id: "m".to_string(),
        payload_file: None,
        dry_run: false,
    };
    assert_eq!(republish.error_prefix(), "Error republishing message");
    let args = Args { command: None };
    assert!(args.command.is_none());
    assert_eq!(USAGE_HINT, "Run with --help to see instructions");
}

#[test]
fn the_listing_skips_what_it_cannot_read() {
    let topic = vec![
        message(Some(r#"{"id":"a","metadata":{"retryCount":1}}"#)),
        message(Some("garbage")),
        message(None),
        message(Some(r#"{"id":"b","correlationId":"cb"}"#)),
    ];
    let items = list_messages(&topic);
    assert_eq!(items.len(), 2);
    assert_eq!(items[0].id, "a");
    assert_eq!(items[0].retries, 1);
    assert_eq!(items[0].correlation_id, "-");
    assert_eq!(items[1].id, "b");
    assert_eq!(items[1].correlation_id, "cb");
    assert_eq!(items[1].reason, "-");
    assert!(list_messages(&Vec::new()).is_empty());
    assert!(list_message(&message(None)).is_none());
    assert!(list_message(&message(Some("{"))).is_none());
    assert_eq!(list_message(&message(Some("{}"))).unwrap().id, "-");
}

#[test]
fn the_consumer_reads_from_the_start_and_commits_nothing_itself() {
    let config = ConnectionConfig::new("localhost:9092", "group-1", "dlq-archive");
    assert_eq!(config.archive_topic, "dlq-archive");
    assert_eq!(
        pairs(&config.consumer_settings()),
        vec![
            pair("group.id", "group-1"),
            pair("bootstrap.servers", "localhost:9092"),
            pair("enable.partition.eof", "true"),
            pair("auto.offset.reset", "earliest"),
            pair("enable.auto.commit", "false"),
            pair("session.timeout.ms", "6000"),
        ]
    );
}

#[test]
fn the_producer_has_a_bounded_delivery_timeout() {
    let config = ConnectionConfig::new("broker:1", "g", "archive");
    assert_eq!(
        pairs(&config.producer_settings()),
        vec![pair("bootstrap.servers", "broker:1"), pair("message.timeout.ms", "6000")]
    );
}

#[test]
fn topics_are_classed_by_name() {
    assert_eq!(classify("orders"), TopicKind::Regular);
    assert_eq!(classify("dlq-orders"), TopicKind::Dlq);
    assert_eq!(classify("orders-dlq"), TopicKind::Dlq);
    assert_eq!(classify("orders-dlq-v2"), TopicKind::Dlq);
    assert_eq!(classify("__consumer_offsets"), TopicKind::Internal);
    assert_eq!(classify("__x-dlq"), TopicKind::Internal);
    assert_eq!(classify("dlq"), TopicKind::Regular);
    assert_eq!(classify("_dlq-"), TopicKind::Regular);
    assert_eq!(classify(""), TopicKind::Regular);
}

fn names(topics: &Vec<TopicDisplayInfo>) -> Vec<String> {
    topics.iter().map(|t| t.name.clone()).collect()
}

#[test]
fn topics_are_sorted_by_name() {
    let topics = vec![
        TopicDisplayInfo::new("payments", 3, 2),
        TopicDisplayInfo::new("orders", 1, 1),
        TopicDisplayInfo::new("Zeta", 1, 1),
        TopicDisplayInfo::new("orders-v2", 6, 3),
        TopicDisplayInfo::new("alpha", 1, 1),
    ];
    let sorted = sort_by_name(&topics);
    assert_eq!(names(&sorted), vec!["Zeta", "alpha", "orders", "orders-v2", "payments"]);
    assert_eq!(sorted[3].partitions, 6);
    assert_eq!(sorted[3].replication_factor, 3);
    let mut by_std = names(&topics);
    by_std.sort();
    assert_eq!(names(&sorted), by_std);
    assert!(sort_by_name(&Vec::new()).is_empty());
}

#[test]
fn topics_of_one_name_keep_their_order() {
    let topics = vec![
        TopicDisplayInfo::new("b", 1, 0),
        TopicDisplayInfo::new("a", 2, 0),
        TopicDisplayInfo::new("b", 3, 0),
        TopicDisplayInfo::new("a", 4, 0),
    ];
    let sorted = sort_by_name(&topics);
    let seen: Vec<(String, usize)> = sorted.iter().map(|t| (t.name.clone(), t.partitions)).collect();
    assert_eq!(
        seen,
        vec![("a".to_string(), 2), ("a".to_string(), 4), ("b".to_string(), 1), ("b".to_string(), 3)]
    );
}

#[test]
fn a_table_of_topics() {
    let topics = vec![TopicDisplayInfo::new("orders", 3, 2), TopicDisplayInfo::new("dlq-orders", 12, 1)];
    let expected = format!(
        "{:<35} {:<12} {:<8} {:<10}\n{}\n{:<35} {:<12} {:<8} {:<10}\n{:<35} {:<12} {:<8} {:<10}\n",
        "TOPIC NAME",
        "TYPE",
        "PARTS",
        "REPLICATION",
        "─".repeat(70),
        "🟢 orders",
        "Regular",
        3,
        2,
        "🟢 dlq-orders",
        "DLQ",
        12,
        1
    );
    assert_eq!(print_topic_table(&topics, "🟢"), expected);
}

#[test]
fn an_internal_topic_is_labelled_internal() {
    let info = TopicDisplayInfo::new("__consumer_offsets", 50, 3);
    assert!(info.is_internal);
    assert!(!TopicDisplayInfo::new("orders", 1, 1).is_internal);
    let table = print_topic_table(&vec![info], "⚙️");
    assert!(table.ends_with(&format!("{:<35} {:<12} {:<8} {:<10}\n", "⚙️ __consumer_offsets", "Internal", 50, 3)));
}

#[test]
fn a_cluster_without_topics() {
    assert_eq!(list_topics("localhost:9092", &Vec::new()), "🔍 No topics found in Kafka cluster\n");
}

#[test]
fn the_overview_of_a_cluster() {
    let topics = vec![
        TopicDisplayInfo::new("payments", 3, 2),
        TopicDisplayInfo::new("__consumer_offsets", 50, 1),
        TopicDisplayInfo::new("orders-dlq", 1, 1),
        TopicDisplayInfo::new("orders", 6, 2),
    ];
    let thick = "═".repeat(70);
    let thin = "─".repeat(70);
    let head = format!("{:<35} {:<12} {:<8} {:<10}\n{}\n", "TOPIC NAME", "TYPE", "PARTS", "REPLICATION", thin);
    let row = |first: &str, kind: &str, parts: usize, replicas: usize| {
        format!("{:<35} {:<12} {:<8} {:<10}\n", first, kind, parts, replicas)
    };
    let expected = format!(
        "📋 Kafka Topics Overview\n{thick}\n🔗 Broker: localhost:9092\n📊 Total Topics: 4\n\n\
         📋 Regular Topics (2)\n{thin}\n{head}{}{}\n\
         💀 Dead Letter Queue Topics (1)\n{thin}\n{head}{}\n\
         🔧 Internal Topics (1)\n{thin}\n{head}{}\n\
         {thick}\n📈 Summary:\n   • Regular Topics: 2\n   • DLQ Topics: 1\n   • Internal Topics: 1\n   • Total: 4\n",
        row("🟢 orders", "Regular", 6, 2),
        row("🟢 payments", "Regular", 3, 2),
        row("🔴 orders-dlq", "DLQ", 1, 1),
        row("⚙️ __consumer_offsets", "Internal", 50, 1),
        thick = thick,
        thin = thin,
        head = head
    );
    assert_eq!(list_topics("localhost:9092", &topics), expected);
}

#[test]
fn a_class_without_topics_is_left_out() {
    let overview = list_topics("b:1", &vec![TopicDisplayInfo::new("orders", 1, 1)]);
    assert!(overview.contains("📋 Regular Topics (1)\n"));
    assert!(!overview.contains("Dead Letter Queue Topics"));
    assert!(!overview.contains("🔧 Internal Topics"));
    assert!(overview.contains("   • DLQ Topics: 0\n"));
}

#[test]
fn the_metadata_consumer_has_a_group_of_its_own() {
    let config = ConnectionConfig::local();
    assert_eq!(config.brokers, "localhost:9092");
    assert_eq!(config.group_id, "poison_queue_cli_consumer_group_id");
    assert_eq!(config.archive_topic, "dlq-archive");
    assert_eq!(
        pairs(&config.metadata_settings()),
        vec![pair("bootstrap.servers", "localhost:9092"), pair("group.id", "topic-lister"), pair("session.timeout.ms", "6000")]
    );
}

#[test]
fn the_replication_factor_is_that_of_the_first_partition() {
    let info = TopicDisplayInfo::from_replicas("orders", &vec![3, 2, 2]);
    assert_eq!(info.name, "orders");
    assert_eq!(info.partitions, 3);
    assert_eq!(info.replication_factor, 3);
    let info = TopicDisplayInfo::from_replicas("__empty", &Vec::new());
    assert_eq!(info.partitions, 0);
    assert_eq!(info.replication_factor, 0);
    assert!(info.is_internal);
}
