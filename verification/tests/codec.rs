use poison_queue::codec::{decode, encode, read_message};
use poison_queue::model::{DlqEnvelope, DlqMessage, MessageListItem, Metadata};

fn sample_bytes() -> Vec<u8> {
    br#"{"id":"a-1","correlationId":"c-9","payload":{"amount":12,"tags":["x","y"]},
        "metadata":{"failureReason":"boom","retryCount":3,"originalTopic":"orders",
        "movedToDlqAt":"2024-05-01T10:00:00Z","extra":true},"unknown":1}"#
        .to_vec()
}

fn sample_envelope() -> DlqEnvelope {
    DlqEnvelope {
        id: "a".to_string(),
        correlation_id: "c".to_string(),
        payload: serde_json::from_str(r#"{"k":1}"#).unwrap(),
        metadata: Metadata {
            failure_reason: "boom".to_string(),
            retry_count: 3,
            original_topic: "orders".to_string(),
            moved_to_dlq_at: "2024-01-01T00:00:00Z".to_string(),
            archived_at: None,
        },
    }
}

#[test]
fn decode_reads_every_field() {
    let envelope = decode(&sample_bytes()).ok().unwrap();
    assert_eq!(envelope.id, "a-1");
    assert_eq!(envelope.correlation_id, "c-9");
    assert_eq!(envelope.payload, serde_json::from_str::<serde_json::Value>(r#"{"amount":12,"tags":["x","y"]}"#).unwrap());
    assert_eq!(envelope.metadata.failure_reason, "boom");
    assert_eq!(envelope.metadata.retry_count, 3);
    assert_eq!(envelope.metadata.original_topic, "orders");
    assert_eq!(envelope.metadata.moved_to_dlq_at, "2024-05-01T10:00:00Z");
    assert_eq!(envelope.metadata.archived_at, None);
}

#[test]
fn decode_reads_the_archival_time() {
    let envelope = decode(br#"{"metadata":{"archivedAt":"2024-06-01T00:00:00+00:00"}}"#).ok().unwrap();
    assert_eq!(envelope.metadata.archived_at, Some("2024-06-01T00:00:00+00:00".to_string()));
}

#[test]
fn decode_falls_back_to_the_sentinels() {
    let envelope = decode(b"{}").ok().unwrap();
    assert_eq!(envelope.id, "-");
    assert_eq!(envelope.correlation_id, "-");
    assert_eq!(envelope.payload, serde_json::Value::Null);
    assert_eq!(envelope.metadata.failure_reason, "-");
    assert_eq!(envelope.metadata.retry_count, 0);
    assert_eq!(envelope.metadata.original_topic, "-");
    assert_eq!(envelope.metadata.moved_to_dlq_at, "-");
    assert_eq!(envelope.metadata.archived_at, None);
}

#[test]
fn decode_treats_fields_of_the_wrong_type_as_missing() {
    let envelope = decode(br#"{"id":7,"correlationId":null,"metadata":{"retryCount":"3","failureReason":[]}}"#).ok().unwrap();
    assert_eq!(envelope.id, "-");
    assert_eq!(envelope.correlation_id, "-");
    assert_eq!(envelope.metadata.retry_count, 0);
    assert_eq!(envelope.metadata.failure_reason, "-");
}

#[test]
fn decode_accepts_any_json_value() {
    for text in ["[1,2]", "\"text\"", "12", "null", "true"] {
        let envelope = decode(text.as_bytes()).ok().unwrap();
        assert_eq!(envelope.id, "-");
        assert_eq!(envelope.payload, serde_json::Value::Null);
    }
}

#[test]
fn decode_keeps_a_count_that_is_not_a_small_integer_out() {
    let envelope = decode(br#"{"metadata":{"retryCount":2.5}}"#).ok().unwrap();
    assert_eq!(envelope.metadata.retry_count, 0);
    let envelope = decode(br#"{"metadata":{"retryCount":18446744073709551615}}"#).ok().unwrap();
    assert_eq!(envelope.metadata.retry_count, 0);
    let envelope = decode(br#"{"metadata":{"retryCount":9223372036854775807}}"#).ok().unwrap();
    assert_eq!(envelope.metadata.retry_count, i64::MAX);
}

#[test]
fn a_negative_count_is_read_as_a_missing_one() {
    for text in [r#"{"metadata":{"retryCount":-1}}"#, r#"{"metadata":{"retryCount":-9223372036854775808}}"#] {
        assert_eq!(decode(text.as_bytes()).ok().unwrap().metadata.retry_count, 0);
        assert_eq!(DlqMessage::parse(serde_json::from_str(text).unwrap()).retries, 0);
        assert_eq!(MessageListItem::parse(serde_json::from_str(text).unwrap()).retries, 0);
        assert_eq!(read_message(text.as_bytes()).ok().unwrap().row.retries, 0);
    }
    assert_eq!(Metadata::from_fields(None, Some(-7), None, None, None).retry_count, 0);
    assert_eq!(Metadata::from_fields(None, Some(0), None, None, None).retry_count, 0);
    assert_eq!(Metadata::from_fields(None, Some(7), None, None, None).retry_count, 7);
}

#[test]
fn a_message_is_read_as_envelope_and_as_row() {
    let read = read_message(&sample_bytes()).ok().unwrap();
    assert_eq!(read.envelope.id, "a-1");
    assert_eq!(read.envelope.metadata.retry_count, 3);
    assert_eq!(read.row.id, "a-1");
    assert_eq!(read.row.payload, "{\n  \"amount\": 12,\n  \"tags\": [\n    \"x\",\n    \"y\"\n  ]\n}");
    assert!(read.row.metadata.contains("\"extra\": true"));
    let refused = read_message(b"{\"id\":");
    assert!(refused.is_err());
    assert!(!refused.err().unwrap().reason.is_empty());
}

#[test]
fn the_texts_of_a_row_parse_back_to_the_members() {
    let json: serde_json::Value = serde_json::from_slice(&sample_bytes()).unwrap();
    let row = DlqMessage::parse(json.clone());
    assert_eq!(serde_json::from_str::<serde_json::Value>(&row.payload).unwrap(), json["payload"]);
    assert_eq!(serde_json::from_str::<serde_json::Value>(&row.metadata).unwrap(), json["metadata"]);
    let row = DlqMessage::parse_ref(&serde_json::from_str(r#"{"id":7,"payload":null,"metadata":3}"#).unwrap());
    assert_eq!(row.id, "-");
    assert_eq!(row.payload, "null");
    assert_eq!(row.metadata, "3");
}

#[test]
fn decode_refuses_what_is_not_json() {
    for bytes in [&b"garbage"[..], b"", b"{", b"{\"id\":}", b"{} trailing", &[0xff, 0xfe][..], b"\"\xff\""] {
        let refused = decode(bytes);
        assert!(refused.is_err(), "{:?}", bytes);
        assert!(!refused.err().unwrap().reason.is_empty());
    }
}

#[test]
fn encode_writes_the_four_fields() {
    let bytes = encode(&sample_envelope()).ok().unwrap();
    assert_eq!(
        String::from_utf8(bytes).unwrap(),
        r#"{"correlationId":"c","id":"a","metadata":{"failureReason":"boom","movedToDlqAt":"2024-01-01T00:00:00Z","originalTopic":"orders","retryCount":3},"payload":{"k":1}}"#
    );
}

#[test]
fn encode_writes_the_archival_time_where_there_is_one() {
    let mut envelope = sample_envelope();
    envelope.metadata.archived_at = Some("2024-02-02T00:00:00+00:00".to_string());
    envelope.metadata.retry_count = -2;
    let bytes = encode(&envelope).ok().unwrap();
    assert_eq!(
        String::from_utf8(bytes).unwrap(),
        r#"{"correlationId":"c","id":"a","metadata":{"archivedAt":"2024-02-02T00:00:00+00:00","failureReason":"boom","movedToDlqAt":"2024-01-01T00:00:00Z","originalTopic":"orders","retryCount":-2},"payload":{"k":1}}"#
    );
}

#[test]
fn encode_escapes_text() {
    let mut envelope = sample_envelope();
    envelope.id = "a\"b\\c\n".to_string();
    let bytes = encode(&envelope).ok().unwrap();
    let text = String::from_utf8(bytes).unwrap();
    assert!(text.contains(r#""id":"a\"b\\c\n""#), "{}", text);
}

#[test]
fn encode_then_decode_gives_the_envelope_back() {
    let mut envelope = sample_envelope();
    envelope.metadata.archived_at = Some("t".to_string());
    envelope.payload = serde_json::from_str(r#"{"nested":{"list":[1,"two",null,true]},"text":"é→"}"#).unwrap();
    let back = decode(&encode(&envelope).ok().unwrap()).ok().unwrap();
    assert_eq!(back.id, envelope.id);
    assert_eq!(back.correlation_id, envelope.correlation_id);
    assert_eq!(back.payload, envelope.payload);
    assert_eq!(back.metadata.failure_reason, envelope.metadata.failure_reason);
    assert_eq!(back.metadata.retry_count, envelope.metadata.retry_count);
    assert_eq!(back.metadata.original_topic, envelope.metadata.original_topic);
    assert_eq!(back.metadata.moved_to_dlq_at, envelope.metadata.moved_to_dlq_at);
    assert_eq!(back.metadata.archived_at, envelope.metadata.archived_at);
}

#[test]
fn decode_then_encode_drops_unknown_fields() {
    let envelope = decode(&sample_bytes()).ok().unwrap();
    let text = String::from_utf8(encode(&envelope).ok().unwrap()).unwrap();
    assert!(!text.contains("unknown"));
    assert!(!text.contains("extra"));
    assert!(text.contains(r#""payload":{"amount":12,"tags":["x","y"]}"#));
}

#[test]
fn duplicate_copies_an_envelope() {
    let envelope = sample_envelope();
    let copy = envelope.duplicate();
    assert_eq!(copy.id, "a");
    assert_eq!(copy.payload, envelope.payload);
    assert_eq!(copy.metadata.retry_count, 3);
    assert_eq!(copy.metadata.original_topic, "orders");
}

#[test]
fn a_row_flattens_the_message() {
    let json: serde_json::Value = serde_json::from_slice(&sample_bytes()).unwrap();
    let row = DlqMessage::parse(json);
    assert_eq!(row.id, "a-1");
    assert_eq!(row.correlation_id, "c-9");
    assert_eq!(row.reason, "boom");
    assert_eq!(row.retries, 3);
    assert_eq!(row.original_topic, "orders");
    assert_eq!(row.moved_at, "2024-05-01T10:00:00Z");
    assert_eq!(row.payload, "{\n  \"amount\": 12,\n  \"tags\": [\n    \"x\",\n    \"y\"\n  ]\n}");
    assert_eq!(
        row.metadata,
        "{\n  \"extra\": true,\n  \"failureReason\": \"boom\",\n  \"movedToDlqAt\": \"2024-05-01T10:00:00Z\",\n  \"originalTopic\": \"orders\",\n  \"retryCount\": 3\n}"
    );
}

#[test]
fn a_row_of_an_empty_message_holds_sentinels() {
    let row = DlqMessage::parse(serde_json::from_str("{}").unwrap());
    assert_eq!(row.id, "-");
    assert_eq!(row.correlation_id, "-");
    assert_eq!(row.reason, "-");
    assert_eq!(row.retries, 0);
    assert_eq!(row.original_topic, "-");
    assert_eq!(row.moved_at, "-");
    assert_eq!(row.payload, "null");
    assert_eq!(row.metadata, "null");
}

#[test]
fn a_row_describes_an_envelope() {
    let row = DlqMessage::describe(&sample_envelope());
    assert_eq!(row.id, "a");
    assert_eq!(row.correlation_id, "c");
    assert_eq!(row.retries, 3);
    assert_eq!(row.payload, "{\n  \"k\": 1\n}");
    assert_eq!(
        row.metadata,
        "{\n  \"failureReason\": \"boom\",\n  \"movedToDlqAt\": \"2024-01-01T00:00:00Z\",\n  \"originalTopic\": \"orders\",\n  \"retryCount\": 3\n}"
    );
    let copy = row.duplicate();
    assert_eq!(copy.payload, row.payload);
    assert_eq!(copy.id, row.id);
}

#[test]
fn a_listing_line_holds_the_identifying_fields() {
    let json: serde_json::Value = serde_json::from_slice(&sample_bytes()).unwrap();
    let item = MessageListItem::parse(json);
    assert_eq!(item.id, "a-1");
    assert_eq!(item.correlation_id, "c-9");
    assert_eq!(item.reason, "boom");
    assert_eq!(item.retries, 3);
    assert_eq!(item.original_topic, "orders");
    assert_eq!(item.moved_at, "2024-05-01T10:00:00Z");
}

#[test]
fn metadata_from_fields_applies_the_fallbacks() {
    let metadata = Metadata::from_fields(None, Some(5), Some("t"), None, Some("now"));
    assert_eq!(metadata.failure_reason, "-");
    assert_eq!(metadata.retry_count, 5);
    assert_eq!(metadata.original_topic, "t");
    assert_eq!(metadata.moved_to_dlq_at, "-");
    assert_eq!(metadata.archived_at, Some("now".to_string()));
    let metadata = Metadata::from_fields(Some("r"), None, None, Some("m"), None);
    assert_eq!(metadata.failure_reason, "r");
    assert_eq!(metadata.retry_count, 0);
    assert_eq!(metadata.original_topic, "-");
    assert_eq!(metadata.moved_to_dlq_at, "m");
    assert_eq!(metadata.archived_at, None);
}
