//! The DLQ envelope and the flattened rows that are shown to an operator.

use crate::json::{
    as_i64, as_str, clone_value, json_doc, json_integer, json_member, json_pretty, json_string,
    member, to_string_pretty,
};
use vstd::prelude::*;

verus! {

// Top-level fields of the envelope.
pub const FIELD_ID: &'static str = "id";

pub const FIELD_CORRELATION_ID: &'static str = "correlationId";

pub const FIELD_PAYLOAD: &'static str = "payload";

pub const FIELD_METADATA: &'static str = "metadata";

// Fields of the envelope's metadata.
pub const METADATA_ARCHIVED_AT: &'static str = "archivedAt";

pub const METADATA_FAILURE_REASON: &'static str = "failureReason";

pub const METADATA_RETRY_COUNT: &'static str = "retryCount";

pub const METADATA_ORIGINAL_TOPIC: &'static str = "originalTopic";

pub const METADATA_MOVED_TO_DLQ_AT: &'static str = "movedToDlqAt";

/// What stands for a text field that a message does not carry.
pub const ABSENT: &'static str = "-";

/// Why a message came to the DLQ.
pub struct Metadata {
    pub failure_reason: String,
    pub retry_count: i64,
    pub original_topic: String,
    pub moved_to_dlq_at: String,
    pub archived_at: Option<String>,
}

pub struct MetadataView {
    pub failure_reason: Seq<char>,
    pub retry_count: i64,
    pub original_topic: Seq<char>,
    pub moved_to_dlq_at: Seq<char>,
    pub archived_at: Option<Seq<char>>,
}

/// The unit of recovery: one message of the DLQ, with its payload kept as
/// the JSON value it arrived as.
pub struct DlqEnvelope {
    pub id: String,
    pub correlation_id: String,
    pub payload: serde_json::Value,
    pub metadata: Metadata,
}

pub struct EnvelopeView {
    pub id: Seq<char>,
    pub correlation_id: Seq<char>,
    /// The payload's JSON document.
    pub payload: Seq<u8>,
    pub metadata: MetadataView,
}

/// The view of an optional string.
pub open spec fn opt_text(o: Option<String>) -> Option<Seq<char>> {
    match o {
        Some(s) => Some(s@),
        None => None,
    }
}

/// The view of an optional string slice.
pub open spec fn opt_str(o: Option<&str>) -> Option<Seq<char>> {
    match o {
        Some(s) => Some(s@),
        None => None,
    }
}

impl View for Metadata {
    type V = MetadataView;

    open spec fn view(&self) -> MetadataView {
        MetadataView {
            failure_reason: self.failure_reason@,
            retry_count: self.retry_count,
            original_topic: self.original_topic@,
            moved_to_dlq_at: self.moved_to_dlq_at@,
            archived_at: opt_text(self.archived_at),
        }
    }
}

impl View for DlqEnvelope {
    type V = EnvelopeView;

    open spec fn view(&self) -> EnvelopeView {
        EnvelopeView {
            id: self.id@,
            correlation_id: self.correlation_id@,
            payload: json_doc(self.payload),
            metadata: self.metadata@,
        }
    }
}

/// A text field as it is read: the text where the message carries one, the
/// sentinel `"-"` where it does not.
pub open spec fn text_or_absent(o: Option<Seq<char>>) -> Seq<char> {
    match o {
        Some(s) => s,
        None => ABSENT@,
    }
}

/// A count as it is read: the number where the message carries one that is
/// not negative, zero where it carries none or a negative one.
pub open spec fn count_or_zero(o: Option<i64>) -> i64 {
    match o {
        Some(n) => if n >= 0 {
            n
        } else {
            0
        },
        None => 0,
    }
}

/// The text field `key` of the JSON object written as `doc`.
pub open spec fn text_field(doc: Seq<u8>, key: Seq<char>) -> Seq<char> {
    text_or_absent(json_string(json_member(doc, key)))
}

/// The metadata that the envelope written as `doc` carries.
pub open spec fn metadata_in(doc: Seq<u8>) -> MetadataView {
    let meta = json_member(doc, FIELD_METADATA@);
    MetadataView {
        failure_reason: text_field(meta, METADATA_FAILURE_REASON@),
        retry_count: count_or_zero(json_integer(json_member(meta, METADATA_RETRY_COUNT@))),
        original_topic: text_field(meta, METADATA_ORIGINAL_TOPIC@),
        moved_to_dlq_at: text_field(meta, METADATA_MOVED_TO_DLQ_AT@),
        archived_at: json_string(json_member(meta, METADATA_ARCHIVED_AT@)),
    }
}

/// The envelope that the JSON value written as `doc` carries. Any JSON value
/// is read as an envelope: what it lacks falls back to the sentinels.
pub open spec fn envelope_in(doc: Seq<u8>) -> EnvelopeView {
    EnvelopeView {
        id: text_field(doc, FIELD_ID@),
        correlation_id: text_field(doc, FIELD_CORRELATION_ID@),
        payload: json_member(doc, FIELD_PAYLOAD@),
        metadata: metadata_in(doc),
    }
}

/// An owned copy of a text field, with the sentinel for a missing one.
pub fn owned_or_absent(field: Option<&str>) -> (r: String)
    ensures
        r@ == text_or_absent(opt_str(field)),
{
    match field {
        Some(s) => s.to_owned(),
        None => ABSENT.to_owned(),
    }
}

/// A count, with zero for a missing or a negative one.
pub fn number_or_zero(field: Option<i64>) -> (r: i64)
    ensures
        r == count_or_zero(field),
        r >= 0,
{
    match field {
        Some(n) => if n >= 0 {
            n
        } else {
            0
        },
        None => 0,
    }
}

/// An owned copy of an optional text field.
pub fn owned_text(field: Option<&str>) -> (r: Option<String>)
    ensures
        opt_text(r) == opt_str(field),
{
    match field {
        Some(s) => Some(s.to_owned()),
        None => None,
    }
}

impl Metadata {
    /// Builds the metadata from fields as they were read, each present or
    /// not: a missing text becomes `"-"`, a missing or negative count zero,
    /// and a missing archival time stays missing.
    pub fn from_fields(
        failure_reason: Option<&str>,
        retry_count: Option<i64>,
        original_topic: Option<&str>,
        moved_to_dlq_at: Option<&str>,
        archived_at: Option<&str>,
    ) -> (r: Metadata)
        ensures
            r@ == (MetadataView {
                failure_reason: text_or_absent(opt_str(failure_reason)),
                retry_count: count_or_zero(retry_count),
                original_topic: text_or_absent(opt_str(original_topic)),
                moved_to_dlq_at: text_or_absent(opt_str(moved_to_dlq_at)),
                archived_at: opt_str(archived_at),
            }),
            r.retry_count >= 0,
    {
        Metadata {
            failure_reason: owned_or_absent(failure_reason),
            retry_count: number_or_zero(retry_count),
            original_topic: owned_or_absent(original_topic),
            moved_to_dlq_at: owned_or_absent(moved_to_dlq_at),
            archived_at: owned_text(archived_at),
        }
    }

    /// Reads the metadata of the envelope `json`.
    pub fn from_json(json: &serde_json::Value) -> (r: Metadata)
        ensures
            r@ == metadata_in(json_doc(*json)),
            r.retry_count >= 0,
    {
        let meta = member(json, FIELD_METADATA);
        Metadata::from_fields(
            as_str(member(meta, METADATA_FAILURE_REASON)),
            as_i64(member(meta, METADATA_RETRY_COUNT)),
            as_str(member(meta, METADATA_ORIGINAL_TOPIC)),
            as_str(member(meta, METADATA_MOVED_TO_DLQ_AT)),
            as_str(member(meta, METADATA_ARCHIVED_AT)),
        )
    }

    /// A copy of the metadata.
    pub fn duplicate(&self) -> (r: Metadata)
        ensures
            r@ == self@,
    {
        Metadata {
            failure_reason: self.failure_reason.clone(),
            retry_count: self.retry_count,
            original_topic: self.original_topic.clone(),
            moved_to_dlq_at: self.moved_to_dlq_at.clone(),
            archived_at: match &self.archived_at {
                Some(s) => Some(s.clone()),
                None => None,
            },
        }
    }
}

impl DlqEnvelope {
    /// Reads `json` as an envelope. Every JSON value is accepted: a field
    /// that is missing, or is not of the expected JSON type, is read as if
    /// the message did not carry it.
    pub fn from_json(json: &serde_json::Value) -> (r: DlqEnvelope)
        ensures
            r@ == envelope_in(json_doc(*json)),
            r.metadata.retry_count >= 0,
    {
        DlqEnvelope {
            id: owned_or_absent(as_str(member(json, FIELD_ID))),
            correlation_id: owned_or_absent(as_str(member(json, FIELD_CORRELATION_ID))),
            payload: clone_value(member(json, FIELD_PAYLOAD)),
            metadata: Metadata::from_json(json),
        }
    }

    /// A copy of the envelope.
    pub fn duplicate(&self) -> (r: DlqEnvelope)
        ensures
            r@ == self@,
    {
        DlqEnvelope {
            id: self.id.clone(),
            correlation_id: self.correlation_id.clone(),
            payload: clone_value(&self.payload),
            metadata: self.metadata.duplicate(),
        }
    }
}

/// A message of the DLQ flattened into one row of text, as it is shown to an
/// operator. `metadata` and `payload` hold pretty-printed JSON.
pub struct DlqMessage {
    pub payload: String,
    pub metadata: String,
    pub moved_at: String,
    pub original_topic: String,
    pub retries: i64,
    pub reason: String,
    pub correlation_id: String,
    pub id: String,
}

pub struct MessageView {
    pub payload: Seq<char>,
    pub metadata: Seq<char>,
    pub moved_at: Seq<char>,
    pub original_topic: Seq<char>,
    pub retries: i64,
    pub reason: Seq<char>,
    pub correlation_id: Seq<char>,
    pub id: Seq<char>,
}

impl View for DlqMessage {
    type V = MessageView;

    open spec fn view(&self) -> MessageView {
        MessageView {
            payload: self.payload@,
            metadata: self.metadata@,
            moved_at: self.moved_at@,
            original_topic: self.original_topic@,
            retries: self.retries,
            reason: self.reason@,
            correlation_id: self.correlation_id@,
            id: self.id@,
        }
    }
}

/// The row that shows `envelope`, given the two pretty-printed texts.
pub open spec fn row_of(envelope: EnvelopeView, metadata: Seq<char>, payload: Seq<char>) -> MessageView {
    MessageView {
        payload,
        metadata,
        moved_at: envelope.metadata.moved_to_dlq_at,
        original_topic: envelope.metadata.original_topic,
        retries: envelope.metadata.retry_count,
        reason: envelope.metadata.failure_reason,
        correlation_id: envelope.correlation_id,
        id: envelope.id,
    }
}

/// The text that was rendered, or the sentinel `"-"` where rendering failed.
pub fn rendered_or_absent(rendered: Result<String, serde_json::Error>) -> (r: String)
    ensures
        r@ == (match rendered {
            Ok(s) => s@,
            Err(_) => ABSENT@,
        }),
{
    match rendered {
        Ok(s) => s,
        Err(_) => ABSENT.to_owned(),
    }
}

/// Pretty-prints `json`.
pub fn pretty_print(json: &serde_json::Value) -> (r: String)
    ensures
        r@ == json_pretty(json_doc(*json)),
{
    rendered_or_absent(to_string_pretty(json))
}

/// The row that shows the envelope written as `doc`: its identifying fields,
/// and its `metadata` and `payload` members pretty-printed as they stand in
/// the message.
pub open spec fn row_in(doc: Seq<u8>) -> MessageView {
    row_of(
        envelope_in(doc),
        json_pretty(json_member(doc, FIELD_METADATA@)),
        json_pretty(json_member(doc, FIELD_PAYLOAD@)),
    )
}

impl DlqMessage {
    /// The row for `envelope`, with the given pretty-printed metadata and
    /// payload.
    pub fn from_envelope(envelope: &DlqEnvelope, metadata: String, payload: String) -> (r:
        DlqMessage)
        ensures
            r@ == row_of(envelope@, metadata@, payload@),
    {
        DlqMessage {
            payload,
            metadata,
            moved_at: envelope.metadata.moved_to_dlq_at.clone(),
            original_topic: envelope.metadata.original_topic.clone(),
            retries: envelope.metadata.retry_count,
            reason: envelope.metadata.failure_reason.clone(),
            correlation_id: envelope.correlation_id.clone(),
            id: envelope.id.clone(),
        }
    }

    /// Flattens the envelope `json` into a row. The identifying fields are
    /// those of `DlqEnvelope::from_json`; `metadata` and `payload` are the
    /// pretty-printed members of those names.
    pub fn parse(json: serde_json::Value) -> (r: Self)
        ensures
            r@ == row_in(json_doc(json)),
            r.retries >= 0,
    {
        DlqMessage::parse_ref(&json)
    }

    /// Flattens the envelope `json` into a row, leaving `json` with the
    /// caller.
    pub fn parse_ref(json: &serde_json::Value) -> (r: Self)
        ensures
            r@ == row_in(json_doc(*json)),
            r.retries >= 0,
    {
        let envelope = DlqEnvelope::from_json(json);
        let metadata = pretty_print(member(json, FIELD_METADATA));
        let payload = pretty_print(member(json, FIELD_PAYLOAD));
        DlqMessage::from_envelope(&envelope, metadata, payload)
    }

    /// A copy of the row.
    pub fn duplicate(&self) -> (r: DlqMessage)
        ensures
            r@ == self@,
    {
        DlqMessage {
            payload: self.payload.clone(),
            metadata: self.metadata.clone(),
            moved_at: self.moved_at.clone(),
            original_topic: self.original_topic.clone(),
            retries: self.retries,
            reason: self.reason.clone(),
            correlation_id: self.correlation_id.clone(),
            id: self.id.clone(),
        }
    }
}

/// One line of a listing of the DLQ: the identifying fields of a message,
/// without its payload.
pub struct MessageListItem {
    pub id: String,
    pub correlation_id: String,
    pub reason: String,
    pub retries: i64,
    pub original_topic: String,
    pub moved_at: String,
}

pub struct ListItemView {
    pub id: Seq<char>,
    pub correlation_id: Seq<char>,
    pub reason: Seq<char>,
    pub retries: i64,
    pub original_topic: Seq<char>,
    pub moved_at: Seq<char>,
}

impl View for MessageListItem {
    type V = ListItemView;

    open spec fn view(&self) -> ListItemView {
        ListItemView {
            id: self.id@,
            correlation_id: self.correlation_id@,
            reason: self.reason@,
            retries: self.retries,
            original_topic: self.original_topic@,
            moved_at: self.moved_at@,
        }
    }
}

/// The listing line for `envelope`.
pub open spec fn list_item_of(envelope: EnvelopeView) -> ListItemView {
    ListItemView {
        id: envelope.id,
        correlation_id: envelope.correlation_id,
        reason: envelope.metadata.failure_reason,
        retries: envelope.metadata.retry_count,
        original_topic: envelope.metadata.original_topic,
        moved_at: envelope.metadata.moved_to_dlq_at,
    }
}

impl MessageListItem {
    /// The listing line for the envelope `json`.
    pub fn parse(json: serde_json::Value) -> (r: Self)
        ensures
            r@ == list_item_of(envelope_in(json_doc(json))),
            r.retries >= 0,
    {
        MessageListItem::from_envelope(DlqEnvelope::from_json(&json))
    }

    /// The listing line for `envelope`.
    pub fn from_envelope(envelope: DlqEnvelope) -> (r: Self)
        ensures
            r@ == list_item_of(envelope@),
            r.retries == envelope.metadata.retry_count,
    {
        MessageListItem {
            id: envelope.id,
            correlation_id: envelope.correlation_id,
            reason: envelope.metadata.failure_reason,
            retries: envelope.metadata.retry_count,
            original_topic: envelope.metadata.original_topic,
            moved_at: envelope.metadata.moved_to_dlq_at,
        }
    }
}

} // verus!
