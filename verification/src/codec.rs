//! The envelope codec: from the bytes of a broker message to a `DlqEnvelope`
//! and back.

use crate::json::{
    clone_value, error_text, insert_member, integer_value, json_doc, json_integer_doc,
    json_object_doc, json_parse, json_pretty, json_string_doc, new_object, no_members, object_value,
    parse, string_value, to_vec,
};
use crate::model::{
    DlqEnvelope, DlqMessage, envelope_in, EnvelopeView, FIELD_CORRELATION_ID, FIELD_ID,
    FIELD_METADATA, FIELD_PAYLOAD, MessageView, Metadata, METADATA_ARCHIVED_AT,
    METADATA_FAILURE_REASON, METADATA_MOVED_TO_DLQ_AT, METADATA_ORIGINAL_TOPIC,
    METADATA_RETRY_COUNT, MetadataView, pretty_print, row_in, row_of,
};
use vstd::prelude::*;

verus! {

/// A message whose bytes are not one JSON value.
pub struct DecodeError {
    /// What the JSON parser said.
    pub reason: String,
}

/// An envelope that could not be written out.
pub struct EncodeError {
    /// What the JSON writer said.
    pub reason: String,
}

/// The envelope that `bytes` decode to: any JSON value decodes, read as
/// `envelope_in` reads it, and bytes that are not JSON do not.
pub open spec fn decoded(bytes: Seq<u8>) -> Option<EnvelopeView> {
    match json_parse(bytes) {
        Some(doc) => Some(envelope_in(doc)),
        None => None,
    }
}

/// The members of the JSON object that carries `metadata`. `archivedAt` is
/// written only where the envelope has been archived.
pub open spec fn metadata_members(metadata: MetadataView) -> Map<Seq<char>, Seq<u8>> {
    let written = no_members().insert(
        METADATA_FAILURE_REASON@,
        json_string_doc(metadata.failure_reason),
    ).insert(METADATA_RETRY_COUNT@, json_integer_doc(metadata.retry_count)).insert(
        METADATA_ORIGINAL_TOPIC@,
        json_string_doc(metadata.original_topic),
    ).insert(METADATA_MOVED_TO_DLQ_AT@, json_string_doc(metadata.moved_to_dlq_at));
    match metadata.archived_at {
        Some(at) => written.insert(METADATA_ARCHIVED_AT@, json_string_doc(at)),
        None => written,
    }
}

/// The members of the JSON object that carries `envelope`: its four fields,
/// the payload as the JSON value it is, and nothing else.
pub open spec fn envelope_members(envelope: EnvelopeView) -> Map<Seq<char>, Seq<u8>> {
    no_members().insert(FIELD_ID@, json_string_doc(envelope.id)).insert(
        FIELD_CORRELATION_ID@,
        json_string_doc(envelope.correlation_id),
    ).insert(FIELD_PAYLOAD@, envelope.payload).insert(
        FIELD_METADATA@,
        json_object_doc(metadata_members(envelope.metadata)),
    )
}

/// The bytes that `envelope` is written as.
pub open spec fn envelope_doc(envelope: EnvelopeView) -> Seq<u8> {
    json_object_doc(envelope_members(envelope))
}

/// Turns what the parser returned into what `decode` returns.
pub fn decoded_from(parsed: Result<serde_json::Value, serde_json::Error>) -> (r: Result<
    DlqEnvelope,
    DecodeError,
>)
    ensures
        match parsed {
            Ok(json) => r matches Ok(envelope) && envelope@ == envelope_in(json_doc(json))
                && envelope.metadata.retry_count >= 0,
            Err(_) => r is Err,
        },
{
    match parsed {
        Ok(json) => Ok(DlqEnvelope::from_json(&json)),
        Err(error) => Err(DecodeError { reason: error_text(&error) }),
    }
}

/// Decodes the bytes of a broker message. Succeeds exactly where the bytes
/// are one JSON value; fields that the value lacks fall back to the
/// sentinels.
pub fn decode(bytes: &[u8]) -> (r: Result<DlqEnvelope, DecodeError>)
    ensures
        match r {
            Ok(envelope) => decoded(bytes@) == Some(envelope@) && envelope.metadata.retry_count
                >= 0,
            Err(_) => decoded(bytes@) is None,
        },
{
    decoded_from(parse(bytes))
}

impl Metadata {
    /// The JSON object that carries the metadata.
    pub fn to_json(&self) -> (r: serde_json::Value)
        ensures
            json_doc(r) == json_object_doc(metadata_members(self@)),
    {
        let mut object = new_object();
        insert_member(&mut object, METADATA_FAILURE_REASON, string_value(self.failure_reason.as_str()));
        insert_member(&mut object, METADATA_RETRY_COUNT, integer_value(self.retry_count));
        insert_member(&mut object, METADATA_ORIGINAL_TOPIC, string_value(self.original_topic.as_str()));
        insert_member(&mut object, METADATA_MOVED_TO_DLQ_AT, string_value(self.moved_to_dlq_at.as_str()));
        match &self.archived_at {
            Some(at) => {
                insert_member(&mut object, METADATA_ARCHIVED_AT, string_value(at.as_str()));
            },
            None => {},
        }
        object_value(object)
    }
}

impl DlqEnvelope {
    /// The JSON object that carries the envelope.
    pub fn to_json(&self) -> (r: serde_json::Value)
        ensures
            json_doc(r) == envelope_doc(self@),
    {
        let mut object = new_object();
        insert_member(&mut object, FIELD_ID, string_value(self.id.as_str()));
        insert_member(&mut object, FIELD_CORRELATION_ID, string_value(self.correlation_id.as_str()));
        insert_member(&mut object, FIELD_PAYLOAD, clone_value(&self.payload));
        insert_member(&mut object, FIELD_METADATA, self.metadata.to_json());
        object_value(object)
    }
}

/// Turns what the writer returned into what `encode` returns.
pub fn encoded_from(written: Result<Vec<u8>, serde_json::Error>) -> (r: Result<Vec<u8>, EncodeError>)
    ensures
        match written {
            Ok(bytes) => r == Ok::<Vec<u8>, EncodeError>(bytes),
            Err(_) => r is Err,
        },
{
    match written {
        Ok(bytes) => Ok(bytes),
        Err(error) => Err(EncodeError { reason: error_text(&error) }),
    }
}

/// Encodes an envelope as the bytes of a broker message: always succeeds,
/// and the bytes are `envelope_doc`.
pub fn encode(envelope: &DlqEnvelope) -> (r: Result<Vec<u8>, EncodeError>)
    ensures
        r is Ok,
        r matches Ok(bytes) ==> bytes@ == envelope_doc(envelope@),
{
    let json = envelope.to_json();
    encoded_from(to_vec(&json))
}

/// The row that shows `envelope`: its identifying fields, and its metadata
/// and payload pretty-printed as `encode` would write them.
pub open spec fn described(envelope: EnvelopeView) -> MessageView {
    row_of(
        envelope,
        json_pretty(json_object_doc(metadata_members(envelope.metadata))),
        json_pretty(envelope.payload),
    )
}

impl DlqMessage {
    /// The row that shows `envelope`.
    pub fn describe(envelope: &DlqEnvelope) -> (r: DlqMessage)
        ensures
            r@ == described(envelope@),
    {
        let metadata = pretty_print(&envelope.metadata.to_json());
        let payload = pretty_print(&envelope.payload);
        DlqMessage::from_envelope(envelope, metadata, payload)
    }
}

/// A message read in full: the envelope that it carries, and the row that
/// it is shown as.
pub struct ReadMessage {
    pub envelope: DlqEnvelope,
    pub row: DlqMessage,
}

/// The row that `bytes` are shown as: that of the JSON value they hold, none
/// for bytes that are not JSON.
pub open spec fn decoded_row(bytes: Seq<u8>) -> Option<MessageView> {
    match json_parse(bytes) {
        Some(doc) => Some(row_in(doc)),
        None => None,
    }
}

/// Turns what the parser returned into what `read_message` returns.
pub fn read_from(parsed: Result<serde_json::Value, serde_json::Error>) -> (r: Result<
    ReadMessage,
    DecodeError,
>)
    ensures
        match parsed {
            Ok(json) => r matches Ok(message) && message.envelope@ == envelope_in(json_doc(json))
                && message.row@ == row_in(json_doc(json)) && message.envelope.metadata.retry_count
                >= 0,
            Err(_) => r is Err,
        },
{
    match parsed {
        Ok(json) => Ok(
            ReadMessage {
                envelope: DlqEnvelope::from_json(&json),
                row: DlqMessage::parse_ref(&json),
            },
        ),
        Err(error) => Err(DecodeError { reason: error_text(&error) }),
    }
}

/// Reads the bytes of a broker message as an envelope and as a row.
/// Succeeds exactly where `decode` does, with the envelope that `decode`
/// gives.
pub fn read_message(bytes: &[u8]) -> (r: Result<ReadMessage, DecodeError>)
    ensures
        match r {
            Ok(message) => decoded(bytes@) == Some(message.envelope@) && decoded_row(bytes@)
                == Some(message.row@) && message.envelope.metadata.retry_count >= 0,
            Err(_) => decoded(bytes@) is None,
        },
{
    read_from(parse(bytes))
}

} // verus!
