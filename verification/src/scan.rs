//! The topic scanner: reading a DLQ from its earliest message until the
//! message looked for turns up or the topic ends.

use crate::codec::{decoded, decoded_row, read_message};
use crate::model::{DlqEnvelope, DlqMessage, EnvelopeView, MessageView};
use crate::text::str_eq;
use vstd::prelude::*;

verus! {

/// Where a message sits in the DLQ. The scan that read the message owns its
/// position, and hands it to the commit or drops it.
pub struct BrokerPosition {
    pub topic: String,
    pub partition: i32,
    pub offset: i64,
}

pub struct PositionView {
    pub topic: Seq<char>,
    pub partition: i32,
    pub offset: i64,
}

impl View for BrokerPosition {
    type V = PositionView;

    open spec fn view(&self) -> PositionView {
        PositionView { topic: self.topic@, partition: self.partition, offset: self.offset }
    }
}

/// The offset that is committed to take the message at `position` out of
/// future scans: the one behind it. The last offset there is has none.
pub open spec fn offset_behind(position: PositionView) -> Option<i64> {
    if position.offset < i64::MAX {
        Some((position.offset + 1) as i64)
    } else {
        None
    }
}

impl BrokerPosition {
    /// The offset to commit for the message at this position.
    pub fn offset_to_commit(&self) -> (r: Option<i64>)
        ensures
            r == offset_behind(self@),
    {
        if self.offset < i64::MAX {
            Some(self.offset + 1)
        } else {
            None
        }
    }

    /// A copy of the position.
    pub fn duplicate(&self) -> (r: BrokerPosition)
        ensures
            r@ == self@,
    {
        BrokerPosition {
            topic: self.topic.clone(),
            partition: self.partition,
            offset: self.offset,
        }
    }
}

/// A message as the broker delivered it. The payload may be missing.
pub struct RawMessage {
    pub payload: Option<Vec<u8>>,
    pub position: BrokerPosition,
}

/// The bytes of an optional payload.
pub open spec fn opt_bytes(payload: Option<Vec<u8>>) -> Option<Seq<u8>> {
    match payload {
        Some(bytes) => Some(bytes@),
        None => None,
    }
}

/// The payloads of a topic's messages, in the order of the topic.
pub open spec fn payloads(messages: Seq<RawMessage>) -> Seq<Option<Seq<u8>>> {
    messages.map_values(|m: RawMessage| opt_bytes(m.payload))
}

/// The envelope that a message carries. A message without a payload, or with
/// a payload that is not JSON, carries none: the scan passes over it.
pub open spec fn readable(payload: Option<Seq<u8>>) -> Option<EnvelopeView> {
    match payload {
        Some(bytes) => decoded(bytes),
        None => None,
    }
}

/// The match predicate: the target is the envelope's id or its correlation
/// id.
pub open spec fn is_match(envelope: EnvelopeView, target: Seq<char>) -> bool {
    envelope.id == target || envelope.correlation_id == target
}

/// Whether a message carries an envelope that matches the target.
pub open spec fn hit(payload: Option<Seq<u8>>, target: Seq<char>) -> bool {
    readable(payload) matches Some(envelope) && is_match(envelope, target)
}

/// The index at which a scan of `topic` for `target` stops: that of the
/// earliest message that is a hit, `None` where the scan reaches the end of
/// the topic.
pub open spec fn first_match(topic: Seq<Option<Seq<u8>>>, target: Seq<char>) -> Option<int>
    decreases topic.len(),
{
    if topic.len() == 0 {
        None
    } else {
        match first_match(topic.drop_last(), target) {
            Some(i) => Some(i),
            None => if hit(topic.last(), target) {
                Some(topic.len() - 1)
            } else {
                None
            },
        }
    }
}

/// The envelope that a scan of `topic` for `target` yields.
pub open spec fn found(topic: Seq<Option<Seq<u8>>>, target: Seq<char>) -> Option<EnvelopeView> {
    match first_match(topic, target) {
        Some(i) => readable(topic[i]),
        None => None,
    }
}

/// Whether `envelope` matches `target`.
pub fn matches_target(envelope: &DlqEnvelope, target: &str) -> (r: bool)
    ensures
        r == is_match(envelope@, target@),
{
    str_eq(envelope.id.as_str(), target) || str_eq(envelope.correlation_id.as_str(), target)
}

/// The row that a message is shown as, where it carries an envelope.
pub open spec fn row_carried(payload: Option<Seq<u8>>) -> Option<MessageView> {
    match payload {
        Some(bytes) => decoded_row(bytes),
        None => None,
    }
}

/// What a look at one message finds.
pub enum Examined {
    /// The message carries `envelope`, which matches; `row` shows it.
    Hit { envelope: DlqEnvelope, row: DlqMessage },
    /// The message carries an envelope that does not match.
    Miss,
    /// The message has no payload.
    NoPayload,
    /// The payload is not JSON; `reason` is what the parser said.
    Unreadable { reason: String },
}

/// Looks at one message: finds the envelope it carries if that matches the
/// target, and says why the message is passed over if it is.
pub fn examine(message: &RawMessage, target: &str) -> (r: Examined)
    ensures
        match r {
            Examined::Hit { envelope, row } => hit(opt_bytes(message.payload), target@)
                && readable(opt_bytes(message.payload)) == Some(envelope@) && row_carried(
                opt_bytes(message.payload),
            ) == Some(row@) && envelope.metadata.retry_count >= 0,
            Examined::Miss => readable(opt_bytes(message.payload)) is Some && !hit(
                opt_bytes(message.payload),
                target@,
            ),
            Examined::NoPayload => message.payload is None,
            Examined::Unreadable { .. } => message.payload is Some && readable(
                opt_bytes(message.payload),
            ) is None,
        },
{
    match &message.payload {
        None => Examined::NoPayload,
        Some(bytes) => match read_message(bytes.as_slice()) {
            Err(error) => Examined::Unreadable { reason: error.reason },
            Ok(read) => if matches_target(&read.envelope, target) {
                Examined::Hit { envelope: read.envelope, row: read.row }
            } else {
                Examined::Miss
            },
        },
    }
}

/// How a scan ended.
pub enum ScanOutcome {
    /// The message at `index` carries `envelope`, which matches.
    Matched { index: usize, envelope: DlqEnvelope },
    /// The topic ended without a match.
    EndOfPartition,
}

/// `first_match` is the least index of a hit.
pub proof fn lemma_first_match_is_least(topic: Seq<Option<Seq<u8>>>, target: Seq<char>)
    ensures
        match first_match(topic, target) {
            Some(i) => 0 <= i < topic.len() && hit(topic[i], target) && forall|j: int|
                0 <= j < i ==> !hit(topic[j], target),
            None => forall|j: int| 0 <= j < topic.len() ==> !hit(topic[j], target),
        },
    decreases topic.len(),
{
    if topic.len() > 0 {
        let front = topic.drop_last();
        lemma_first_match_is_least(front, target);
        assert forall|j: int| 0 <= j < front.len() implies front[j] == topic[j] by {}
        match first_match(front, target) {
            Some(i) => {
                assert(front[i] == topic[i]);
            },
            None => {
                assert forall|j: int| 0 <= j < front.len() implies !hit(topic[j], target) by {
                    assert(front[j] == topic[j]);
                }
            },
        }
    }
}

/// Scans an in-memory topic from its first message: stops at the earliest
/// message that carries a matching envelope and returns it, or reports that
/// the topic ended. Unreadable messages are passed over.
pub fn scan_topic(messages: &Vec<RawMessage>, target: &str) -> (r: ScanOutcome)
    ensures
        match r {
            ScanOutcome::Matched { index, envelope } => first_match(payloads(messages@), target@)
                == Some(index as int) && found(payloads(messages@), target@) == Some(envelope@),
            ScanOutcome::EndOfPartition => first_match(payloads(messages@), target@) is None,
        },
{
    let ghost topic = payloads(messages@);
    let mut i: usize = 0;
    while i < messages.len()
        invariant
            i <= messages.len(),
            topic == payloads(messages@),
            first_match(topic.take(i as int), target@) is None,
        decreases messages.len() - i,
    {
        proof {
            assert(topic.take(i + 1).drop_last() =~= topic.take(i as int));
        }
        match examine(&messages[i], target) {
            Examined::Hit { envelope, row: _ } => {
                proof {
                    lemma_first_match_extends(topic, target@, i + 1);
                }
                return ScanOutcome::Matched { index: i, envelope };
            },
            _ => {},
        }
        i += 1;
    }
    assert(topic.take(i as int) =~= topic);
    ScanOutcome::EndOfPartition
}

/// A match within the first `n` messages is the match of the whole topic.
proof fn lemma_first_match_extends(topic: Seq<Option<Seq<u8>>>, target: Seq<char>, n: int)
    requires
        0 <= n <= topic.len(),
        first_match(topic.take(n), target) is Some,
    ensures
        first_match(topic, target) == first_match(topic.take(n), target),
    decreases topic.len() - n,
{
    if n < topic.len() {
        assert(topic.take(n + 1).drop_last() =~= topic.take(n));
        lemma_first_match_extends(topic, target, n + 1);
    } else {
        assert(topic.take(n) =~= topic);
    }
}

/// The envelope with a unique id is found. If message `i` of a topic carries
/// an envelope whose id is the target, no other message carries an envelope
/// with that id, and no message before it carries an envelope with the
/// target as its correlation id, then the scan stops at `i` and yields that
/// envelope.
pub proof fn law_unique_id_is_found(topic: Seq<Option<Seq<u8>>>, target: Seq<char>, i: int)
    requires
        0 <= i < topic.len(),
        readable(topic[i]) matches Some(envelope) && envelope.id == target,
        forall|j: int|
            0 <= j < topic.len() && j != i ==> !(#[trigger] readable(topic[j]) matches Some(other)
                && other.id == target),
        forall|j: int|
            0 <= j < i ==> !(#[trigger] readable(topic[j]) matches Some(other)
                && other.correlation_id == target),
    ensures
        first_match(topic, target) == Some(i),
        found(topic, target) == readable(topic[i]),
{
    lemma_first_match_is_least(topic, target);
    assert(hit(topic[i], target));
    if first_match(topic, target) != Some(i) {
        // An earlier hit would carry the target as its id or as its
        // correlation id, and neither is there before `i`.
        let j = first_match(topic, target)->0;
        assert(readable(topic[j]) is Some);
    }
}

/// A target that no envelope carries is not found. If no message of a topic
/// carries an envelope with the target as its id or its correlation id, the
/// scan reaches the end of the topic.
pub proof fn law_missing_id_is_not_found(topic: Seq<Option<Seq<u8>>>, target: Seq<char>)
    requires
        forall|j: int|
            0 <= j < topic.len() ==> !(#[trigger] readable(topic[j]) matches Some(other)
                && is_match(other, target)),
    ensures
        first_match(topic, target) is None,
        found(topic, target) is None,
{
    lemma_first_match_is_least(topic, target);
    if first_match(topic, target) is Some {
        let i = first_match(topic, target)->0;
        assert(readable(topic[i]) is Some);
    }
}

/// Whether a message carries an envelope at all.
pub open spec fn is_readable(payload: Option<Seq<u8>>) -> bool {
    readable(payload) is Some
}

/// Unreadable messages do not stand in the way of a match. A scan yields the
/// envelope that it would yield if every message without a payload, or with
/// a payload that is not JSON, were taken out of the topic.
pub proof fn law_unreadable_messages_are_passed_over(
    topic: Seq<Option<Seq<u8>>>,
    target: Seq<char>,
)
    ensures
        found(topic, target) == found(topic.filter(|p: Option<Seq<u8>>| is_readable(p)), target),
    decreases topic.len(),
{
    let keep = |p: Option<Seq<u8>>| is_readable(p);
    reveal(Seq::filter);
    if topic.len() > 0 {
        let front = topic.drop_last();
        law_unreadable_messages_are_passed_over(front, target);
        lemma_first_match_is_least(front, target);
        lemma_first_match_is_least(front.filter(keep), target);
        if is_readable(topic.last()) {
            assert(topic.filter(keep) == front.filter(keep).push(topic.last()));
            assert(front.filter(keep).push(topic.last()).drop_last() =~= front.filter(keep));
        } else {
            assert(topic.filter(keep) == front.filter(keep));
        }
    }
}

} // verus!
