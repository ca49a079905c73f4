//! The recovery planner: from a matched envelope to the message that leaves
//! the DLQ, with its destination, its key and its headers.

use crate::codec::{encode, EncodeError, envelope_doc};
use crate::config::{
    MESSAGE_HEADER_ARCHIVED_AT, MESSAGE_HEADER_CORRELATION_ID, MESSAGE_HEADER_MESSAGE_ID,
    MESSAGE_HEADER_REPUBLISHED_AT,
};
use crate::json::{clone_value, error_text, json_doc, json_parse, json_pretty, parse};
use crate::model::{ABSENT, DlqEnvelope, EnvelopeView, Metadata, MetadataView};
use crate::scan::{BrokerPosition, PositionView};
use crate::text::str_eq;
use vstd::prelude::*;

verus! {

/// One header of an outgoing message.
pub struct Header {
    pub key: String,
    pub value: String,
}

/// The headers as pairs of texts, in their order.
pub open spec fn header_views(headers: Seq<Header>) -> Seq<(Seq<char>, Seq<char>)> {
    headers.map_values(|h: Header| (h.key@, h.value@))
}

/// Appends one header.
pub fn push_header(headers: &mut Vec<Header>, key: &str, value: &str)
    ensures
        header_views(final(headers)@) == header_views(old(headers)@).push((key@, value@)),
{
    headers.push(Header { key: key.to_owned(), value: value.to_owned() });
    assert(header_views(headers@) =~= header_views(old(headers)@).push((key@, value@)));
}

/// Copies a list of headers.
pub fn copy_headers(headers: &Vec<Header>) -> (r: Vec<Header>)
    ensures
        header_views(r@) == header_views(headers@),
{
    let mut copy: Vec<Header> = Vec::new();
    let mut i: usize = 0;
    while i < headers.len()
        invariant
            i <= headers.len(),
            header_views(copy@) == header_views(headers@).take(i as int),
        decreases headers.len() - i,
    {
        push_header(&mut copy, headers[i].key.as_str(), headers[i].value.as_str());
        assert(header_views(headers@).take(i + 1) =~= header_views(headers@).take(i as int).push(
            (headers[i as int].key@, headers[i as int].value@),
        ));
        i += 1;
    }
    assert(header_views(headers@).take(i as int) =~= header_views(headers@));
    copy
}

/// Whether two lists of headers hold the same keys and values in the same
/// order.
pub fn same_headers(a: &Vec<Header>, b: &Vec<Header>) -> (r: bool)
    ensures
        r == (header_views(a@) == header_views(b@)),
{
    if a.len() != b.len() {
        assert(header_views(a@).len() != header_views(b@).len());
        return false;
    }
    let mut i: usize = 0;
    while i < a.len()
        invariant
            i <= a.len(),
            a.len() == b.len(),
            forall|j: int| 0 <= j < i ==> header_views(a@)[j] == header_views(b@)[j],
        decreases a.len() - i,
    {
        if !str_eq(a[i].key.as_str(), b[i].key.as_str()) || !str_eq(
            a[i].value.as_str(),
            b[i].value.as_str(),
        ) {
            assert(header_views(a@)[i as int] != header_views(b@)[i as int]);
            return false;
        }
        i += 1;
    }
    assert(header_views(a@) =~= header_views(b@));
    true
}

/// Whether two byte strings are the same.
pub fn same_bytes(a: &Vec<u8>, b: &Vec<u8>) -> (r: bool)
    ensures
        r == (a@ == b@),
{
    if a.len() != b.len() {
        return false;
    }
    let mut i: usize = 0;
    while i < a.len()
        invariant
            i <= a.len(),
            a.len() == b.len(),
            forall|j: int| 0 <= j < i ==> a@[j] == b@[j],
        decreases a.len() - i,
    {
        if a[i] != b[i] {
            return false;
        }
        i += 1;
    }
    assert(a@ =~= b@);
    true
}

/// The two ways out of the DLQ.
#[derive(Clone, Copy, PartialEq, Eq, Structural, Debug)]
pub enum RecoveryKind {
    /// Back to the topic that the message came from.
    Republish,
    /// To the archive topic.
    Archive,
}

/// The header that carries the time of the recovery.
pub open spec fn stamp_header(kind: RecoveryKind) -> Seq<char> {
    match kind {
        RecoveryKind::Republish => MESSAGE_HEADER_REPUBLISHED_AT@,
        RecoveryKind::Archive => MESSAGE_HEADER_ARCHIVED_AT@,
    }
}

/// Whether an envelope has a correlation id: the field is neither empty nor
/// the sentinel `"-"` that stands for a missing one.
pub open spec fn has_correlation_id(envelope: EnvelopeView) -> bool {
    envelope.correlation_id.len() > 0 && envelope.correlation_id != ABSENT@
}

/// The headers of the outgoing message: always the id and the time of the
/// recovery, and the correlation id where the envelope has one.
pub open spec fn headers_for(kind: RecoveryKind, envelope: EnvelopeView, timestamp: Seq<char>) -> Seq<
    (Seq<char>, Seq<char>),
> {
    let always = seq![(MESSAGE_HEADER_MESSAGE_ID@, envelope.id), (stamp_header(kind), timestamp)];
    if has_correlation_id(envelope) {
        always.push((MESSAGE_HEADER_CORRELATION_ID@, envelope.correlation_id))
    } else {
        always
    }
}

/// Builds the headers of the outgoing message.
pub fn build_headers(kind: RecoveryKind, envelope: &DlqEnvelope, timestamp: &str) -> (r: Vec<Header>)
    ensures
        header_views(r@) == headers_for(kind, envelope@, timestamp@),
{
    let mut headers: Vec<Header> = Vec::new();
    assert(header_views(headers@) =~= Seq::empty());
    push_header(&mut headers, MESSAGE_HEADER_MESSAGE_ID, envelope.id.as_str());
    match kind {
        RecoveryKind::Republish => {
            push_header(&mut headers, MESSAGE_HEADER_REPUBLISHED_AT, timestamp);
        },
        RecoveryKind::Archive => {
            push_header(&mut headers, MESSAGE_HEADER_ARCHIVED_AT, timestamp);
        },
    }
    if !envelope.correlation_id.as_str().is_empty() && !str_eq(
        envelope.correlation_id.as_str(),
        ABSENT,
    ) {
        push_header(&mut headers, MESSAGE_HEADER_CORRELATION_ID, envelope.correlation_id.as_str());
    }
    assert(header_views(headers@) =~= headers_for(kind, envelope@, timestamp@));
    headers
}

/// The document of an optional JSON value.
pub open spec fn opt_doc(value: Option<serde_json::Value>) -> Option<Seq<u8>> {
    match value {
        Some(v) => Some(json_doc(v)),
        None => None,
    }
}

/// What is to be done with one matched message. A plan lives for one
/// recovery attempt.
pub struct RecoveryPlan {
    pub kind: RecoveryKind,
    /// The envelope as it was found in the DLQ.
    pub source: DlqEnvelope,
    /// Where it was found: the offset that a successful recovery commits.
    pub position: BrokerPosition,
    /// The payload that replaces the source's, where one was supplied.
    pub replacement: Option<serde_json::Value>,
    /// The topic that the outgoing message goes to.
    pub destination: String,
    /// The time of the recovery.
    pub timestamp: String,
    pub headers: Vec<Header>,
}

pub struct PlanView {
    pub kind: RecoveryKind,
    pub source: EnvelopeView,
    pub position: PositionView,
    pub replacement: Option<Seq<u8>>,
    pub destination: Seq<char>,
    pub timestamp: Seq<char>,
    pub headers: Seq<(Seq<char>, Seq<char>)>,
}

impl View for RecoveryPlan {
    type V = PlanView;

    open spec fn view(&self) -> PlanView {
        PlanView {
            kind: self.kind,
            source: self.source@,
            position: self.position@,
            replacement: opt_doc(self.replacement),
            destination: self.destination@,
            timestamp: self.timestamp@,
            headers: header_views(self.headers@),
        }
    }
}

/// The plan that republishes `source`: to the topic it came from, with the
/// replacement payload where there is one.
pub open spec fn republish_plan(
    source: EnvelopeView,
    position: PositionView,
    replacement: Option<Seq<u8>>,
    timestamp: Seq<char>,
) -> PlanView {
    PlanView {
        kind: RecoveryKind::Republish,
        source,
        position,
        replacement,
        destination: source.metadata.original_topic,
        timestamp,
        headers: headers_for(RecoveryKind::Republish, source, timestamp),
    }
}

/// The plan that archives `source`: to the archive topic, payload untouched.
pub open spec fn archive_plan(
    source: EnvelopeView,
    position: PositionView,
    archive_topic: Seq<char>,
    timestamp: Seq<char>,
) -> PlanView {
    PlanView {
        kind: RecoveryKind::Archive,
        source,
        position,
        replacement: None,
        destination: archive_topic,
        timestamp,
        headers: headers_for(RecoveryKind::Archive, source, timestamp),
    }
}

/// The envelope that a plan sends out. A republish substitutes the
/// replacement payload in full, where there is one, and changes nothing
/// else. An archive stamps the metadata with the time of the recovery and
/// changes nothing else.
pub open spec fn outgoing_of(plan: PlanView) -> EnvelopeView {
    match plan.kind {
        RecoveryKind::Republish => EnvelopeView {
            payload: match plan.replacement {
                Some(payload) => payload,
                None => plan.source.payload,
            },
            ..plan.source
        },
        RecoveryKind::Archive => EnvelopeView {
            metadata: MetadataView { archived_at: Some(plan.timestamp), ..plan.source.metadata },
            ..plan.source
        },
    }
}

/// A message ready to be handed to the producer.
pub struct OutgoingRecord {
    pub topic: String,
    pub key: String,
    pub payload: Vec<u8>,
    pub headers: Vec<Header>,
}

/// The record that a plan sends out: the encoded outgoing envelope, to the
/// plan's destination, keyed by the envelope's id, with the plan's headers.
pub open spec fn is_record_of(record: OutgoingRecord, plan: PlanView) -> bool {
    &&& record.topic@ == plan.destination
    &&& record.key@ == plan.source.id
    &&& record.payload@ == envelope_doc(outgoing_of(plan))
    &&& header_views(record.headers@) == plan.headers
}

/// Whether two records are alike: the same topic, key, payload and headers.
pub open spec fn alike(a: OutgoingRecord, b: OutgoingRecord) -> bool {
    &&& a.topic@ == b.topic@
    &&& a.key@ == b.key@
    &&& a.payload@ == b.payload@
    &&& header_views(a.headers@) == header_views(b.headers@)
}

impl OutgoingRecord {
    /// Whether this record and `other` are alike.
    pub fn same_as(&self, other: &OutgoingRecord) -> (r: bool)
        ensures
            r == alike(*self, *other),
    {
        str_eq(self.topic.as_str(), other.topic.as_str()) && str_eq(
            self.key.as_str(),
            other.key.as_str(),
        ) && same_bytes(&self.payload, &other.payload) && same_headers(
            &self.headers,
            &other.headers,
        )
    }
}

impl RecoveryPlan {
    /// Plans the republication of `source`, found at `position`, at the time
    /// `timestamp`.
    pub fn republish(
        source: DlqEnvelope,
        position: BrokerPosition,
        replacement: Option<serde_json::Value>,
        timestamp: &str,
    ) -> (r: RecoveryPlan)
        ensures
            r@ == republish_plan(source@, position@, opt_doc(replacement), timestamp@),
    {
        let headers = build_headers(RecoveryKind::Republish, &source, timestamp);
        let destination = source.metadata.original_topic.clone();
        RecoveryPlan {
            kind: RecoveryKind::Republish,
            source,
            position,
            replacement,
            destination,
            timestamp: timestamp.to_owned(),
            headers,
        }
    }

    /// Plans the archival of `source`, found at `position`, to
    /// `archive_topic` at the time `timestamp`.
    pub fn archive(
        source: DlqEnvelope,
        position: BrokerPosition,
        archive_topic: &str,
        timestamp: &str,
    ) -> (r: RecoveryPlan)
        ensures
            r@ == archive_plan(source@, position@, archive_topic@, timestamp@),
    {
        let headers = build_headers(RecoveryKind::Archive, &source, timestamp);
        RecoveryPlan {
            kind: RecoveryKind::Archive,
            source,
            position,
            replacement: None,
            destination: archive_topic.to_owned(),
            timestamp: timestamp.to_owned(),
            headers,
        }
    }

    /// The envelope that the plan sends out.
    pub fn outgoing(&self) -> (r: DlqEnvelope)
        ensures
            r@ == outgoing_of(self@),
    {
        match self.kind {
            RecoveryKind::Republish => {
                let payload = match &self.replacement {
                    Some(payload) => clone_value(payload),
                    None => clone_value(&self.source.payload),
                };
                DlqEnvelope {
                    id: self.source.id.clone(),
                    correlation_id: self.source.correlation_id.clone(),
                    payload,
                    metadata: self.source.metadata.duplicate(),
                }
            },
            RecoveryKind::Archive => {
                let metadata = Metadata {
                    failure_reason: self.source.metadata.failure_reason.clone(),
                    retry_count: self.source.metadata.retry_count,
                    original_topic: self.source.metadata.original_topic.clone(),
                    moved_to_dlq_at: self.source.metadata.moved_to_dlq_at.clone(),
                    archived_at: Some(self.timestamp.clone()),
                };
                DlqEnvelope {
                    id: self.source.id.clone(),
                    correlation_id: self.source.correlation_id.clone(),
                    payload: clone_value(&self.source.payload),
                    metadata,
                }
            },
        }
    }

    /// Puts the encoded outgoing envelope into the record that the plan
    /// sends out.
    pub fn record_with(&self, encoded: Result<Vec<u8>, EncodeError>) -> (r: Result<
        OutgoingRecord,
        EncodeError,
    >)
        ensures
            match encoded {
                Ok(payload) => r matches Ok(record) && record.payload@ == payload@ && record.topic@
                    == self@.destination && record.key@ == self@.source.id && header_views(
                    record.headers@,
                ) == self@.headers,
                Err(_) => r is Err,
            },
    {
        match encoded {
            Ok(payload) => Ok(
                OutgoingRecord {
                    topic: self.destination.clone(),
                    key: self.source.id.clone(),
                    payload,
                    headers: copy_headers(&self.headers),
                },
            ),
            Err(error) => Err(error),
        }
    }

    /// The record that the plan sends out. There always is one.
    pub fn record(&self) -> (r: Result<OutgoingRecord, EncodeError>)
        ensures
            r is Ok,
            r matches Ok(record) ==> is_record_of(record, self@),
    {
        let outgoing = self.outgoing();
        self.record_with(encode(&outgoing))
    }

    /// What a comparison of `record` with the plan's record comes to, given
    /// the plan's record as it was built anew: whether the two are alike
    /// where there is one, the writer's refusal where there is none.
    pub fn compare_record(record: &OutgoingRecord, rebuilt: Result<OutgoingRecord, EncodeError>) -> (r:
        Result<bool, EncodeError>)
        ensures
            match rebuilt {
                Ok(built) => r matches Ok(held) && held == alike(*record, built),
                Err(_) => r is Err,
            },
    {
        match rebuilt {
            Ok(built) => Ok(record.same_as(&built)),
            Err(error) => Err(error),
        }
    }

    /// Checks whether `record` is the record of this plan, by building the
    /// plan's record anew and comparing the two. There always is an answer.
    pub fn holds_record(&self, record: &OutgoingRecord) -> (r: Result<bool, EncodeError>)
        ensures
            r is Ok,
            r matches Ok(held) ==> held == is_record_of(*record, self@),
    {
        RecoveryPlan::compare_record(record, self.record())
    }

    /// Whether the plan has no real destination: the source named no topic
    /// that it came from, so the destination is empty or the sentinel `"-"`.
    /// A republish of such a message goes nowhere useful, and it is for the
    /// caller to refuse it.
    pub fn lacks_destination(&self) -> (r: bool)
        ensures
            r == (self@.destination.len() == 0 || self@.destination == ABSENT@),
    {
        self.destination.as_str().is_empty() || str_eq(self.destination.as_str(), ABSENT)
    }
}

/// A replacement payload that is not JSON.
pub struct InvalidReplacement {
    /// What the JSON parser said.
    pub reason: String,
}

/// Turns what the parser returned into what `parse_replacement` returns.
pub fn replacement_from(parsed: Result<serde_json::Value, serde_json::Error>) -> (r: Result<
    serde_json::Value,
    InvalidReplacement,
>)
    ensures
        match parsed {
            Ok(value) => r matches Ok(payload) && payload == value,
            Err(_) => r is Err,
        },
{
    match parsed {
        Ok(value) => Ok(value),
        Err(error) => Err(InvalidReplacement { reason: error_text(&error) }),
    }
}

/// Validates a replacement payload: the content of the replacement file must
/// be one JSON value, and is refused otherwise.
pub fn parse_replacement(content: &[u8]) -> (r: Result<serde_json::Value, InvalidReplacement>)
    ensures
        match r {
            Ok(payload) => json_parse(content@) == Some(json_doc(payload)),
            Err(_) => json_parse(content@) is None,
        },
{
    replacement_from(parse(content))
}

/// The replacement round trip. Where the replacement file holds the JSON
/// value `payload`, the outgoing envelope of a republish carries exactly that
/// value as its payload, pretty-prints as it does, and has the id, the
/// correlation id and the metadata of the source.
pub proof fn law_replacement_round_trip(
    content: Seq<u8>,
    payload: Seq<u8>,
    source: EnvelopeView,
    position: PositionView,
    timestamp: Seq<char>,
)
    requires
        json_parse(content) == Some(payload),
    ensures
        outgoing_of(republish_plan(source, position, json_parse(content), timestamp)).payload
            == payload,
        json_pretty(
            outgoing_of(republish_plan(source, position, json_parse(content), timestamp)).payload,
        ) == json_pretty(payload),
        outgoing_of(republish_plan(source, position, json_parse(content), timestamp)).id
            == source.id,
        outgoing_of(
            republish_plan(source, position, json_parse(content), timestamp),
        ).correlation_id == source.correlation_id,
        outgoing_of(republish_plan(source, position, json_parse(content), timestamp)).metadata
            == source.metadata,
{
}

/// A republish without a replacement sends the source out as it is.
pub proof fn law_republish_as_is(source: EnvelopeView, position: PositionView, timestamp: Seq<char>)
    ensures
        outgoing_of(republish_plan(source, position, None, timestamp)) == source,
{
}

/// The archive variant. Archiving stamps `archivedAt` with the time of the
/// recovery, leaves every other field of the envelope as it was, and sends
/// the message to the archive topic, whatever topic it came from.
pub proof fn law_archive_stamps_and_preserves(
    source: EnvelopeView,
    position: PositionView,
    archive_topic: Seq<char>,
    timestamp: Seq<char>,
)
    ensures
        archive_plan(source, position, archive_topic, timestamp).destination == archive_topic,
        outgoing_of(archive_plan(source, position, archive_topic, timestamp)).metadata.archived_at
            == Some(timestamp),
        outgoing_of(archive_plan(source, position, archive_topic, timestamp)) == (EnvelopeView {
            metadata: MetadataView { archived_at: Some(timestamp), ..source.metadata },
            ..source
        }),
        outgoing_of(archive_plan(source, position, archive_topic, timestamp)).id == source.id,
        outgoing_of(archive_plan(source, position, archive_topic, timestamp)).correlation_id
            == source.correlation_id,
        outgoing_of(archive_plan(source, position, archive_topic, timestamp)).payload
            == source.payload,
        outgoing_of(
            archive_plan(source, position, archive_topic, timestamp),
        ).metadata.failure_reason == source.metadata.failure_reason,
        outgoing_of(archive_plan(source, position, archive_topic, timestamp)).metadata.retry_count
            == source.metadata.retry_count,
        outgoing_of(
            archive_plan(source, position, archive_topic, timestamp),
        ).metadata.original_topic == source.metadata.original_topic,
        outgoing_of(
            archive_plan(source, position, archive_topic, timestamp),
        ).metadata.moved_to_dlq_at == source.metadata.moved_to_dlq_at,
{
}

} // verus!
