//! The commands of the tool, and what each of them sets up.

use crate::codec::decode;
use crate::json::json_parse;
use crate::model::{list_item_of, ListItemView, MessageListItem};
use crate::plan::{InvalidReplacement, opt_doc, parse_replacement};
use crate::scan::{opt_bytes, payloads, RawMessage, readable};
use crate::session::{policy_for, Purpose, RecoverySession};
use vstd::prelude::*;

verus! {

/// The command line, parsed.
pub struct Args {
    pub command: Option<Commands>,
}

/// What the operator asks for.
pub enum Commands {
    /// List the topics of the cluster.
    ListTopics,
    /// List the messages of a topic.
    ListMessages { topic: String },
    /// Show one message of a topic.
    ViewMessage { topic: String, message_id: String },
    /// Move one message of a DLQ to the archive topic.
    ArchiveMessage { topic: String, message_id: String },
    /// Send one message of a DLQ back to the topic it came from, with the
    /// payload of `payload_file` in place of its own where a file is given.
    RepublishMessage {
        topic: String,
        message_id: String,
        payload_file: Option<String>,
        dry_run: bool,
    },
}

/// What is said to someone who gave no command.
pub const USAGE_HINT: &'static str = "Run with --help to see instructions";

/// The words that a command's failure is reported under.
pub open spec fn failure_label(command: Commands) -> Seq<char> {
    match command {
        Commands::ListTopics => "Error listing topics"@,
        Commands::ListMessages { .. } => "Error listing messages"@,
        Commands::ViewMessage { .. } => "Error listing messages"@,
        Commands::ArchiveMessage { .. } => "Error archiving message"@,
        Commands::RepublishMessage { .. } => "Error republishing message"@,
    }
}

impl Commands {
    /// The words that the command's failure is reported under.
    pub fn error_prefix(&self) -> (r: &'static str)
        ensures
            r@ == failure_label(*self),
    {
        match self {
            Commands::ListTopics => "Error listing topics",
            Commands::ListMessages { .. } => "Error listing messages",
            Commands::ViewMessage { .. } => "Error listing messages",
            Commands::ArchiveMessage { .. } => "Error archiving message",
            Commands::RepublishMessage { .. } => "Error republishing message",
        }
    }
}

/// A replacement payload as it was read: the file's name and its content.
pub struct ReplacementFile {
    pub path: String,
    pub content: Vec<u8>,
}

/// The content of an optional replacement file.
pub open spec fn opt_content(file: Option<ReplacementFile>) -> Option<Seq<u8>> {
    match file {
        Some(f) => Some(f.content@),
        None => None,
    }
}

/// The name of an optional replacement file; empty where there is none.
pub open spec fn opt_path(file: Option<ReplacementFile>) -> Seq<char> {
    match file {
        Some(f) => f.path@,
        None => Seq::empty(),
    }
}

/// The payload that a replacement file supplies: none without a file, the
/// JSON value that the content parses to with one.
pub open spec fn replacement_in(content: Option<Seq<u8>>) -> Option<Seq<u8>> {
    match content {
        Some(bytes) => json_parse(bytes),
        None => None,
    }
}

/// Sets up the republication of the message `message_id` of `dlq_topic`. A
/// replacement file whose content is not JSON is refused here, before
/// anything is read from the broker.
pub fn republish_message(
    dlq_topic: &str,
    message_id: &str,
    payload_file: Option<ReplacementFile>,
    dry_run: bool,
) -> (r: Result<RecoverySession, InvalidReplacement>)
    ensures
        match r {
            Ok(session) => {
                &&& session.wf()
                &&& session.is_fresh()
                &&& session.purpose == Purpose::Republish
                &&& session.workflow.policy == policy_for(Purpose::Republish, dry_run)
                &&& session.dlq_topic@ == dlq_topic@
                &&& session.target@ == message_id@
                &&& session.replacement_source@ == opt_path(payload_file)
                &&& opt_doc(session.replacement) == replacement_in(opt_content(payload_file))
                &&& payload_file is Some ==> session.replacement is Some
            },
            Err(_) => payload_file matches Some(file) && json_parse(file.content@) is None,
        },
{
    proof {
        reveal_strlit("");
    }
    match payload_file {
        None => {
            assert(""@ =~= Seq::<char>::empty());
            Ok(RecoverySession::republish(dlq_topic, message_id, None, "", dry_run))
        },
        Some(file) => {
            match parse_replacement(file.content.as_slice()) {
                Ok(payload) => Ok(
                    RecoverySession::republish(
                        dlq_topic,
                        message_id,
                        Some(payload),
                        file.path.as_str(),
                        dry_run,
                    ),
                ),
                Err(refusal) => Err(refusal),
            }
        },
    }
}

/// Sets up the archival of the message `id` of `topic` to `archive_topic`.
pub fn archive_message(topic: &str, id: &str, archive_topic: &str) -> (r: RecoverySession)
    ensures
        r.wf(),
        r.is_fresh(),
        r.purpose == Purpose::Archive,
        r.workflow.policy == policy_for(Purpose::Archive, false),
        r.dlq_topic@ == topic@,
        r.target@ == id@,
        r.archive_topic@ == archive_topic@,
        r.replacement is None,
{
    RecoverySession::archive(topic, id, archive_topic)
}

/// Sets up the display of the message `id` of `topic`.
pub fn view_message_by_id(topic: &str, id: &str) -> (r: RecoverySession)
    ensures
        r.wf(),
        r.is_fresh(),
        r.purpose == Purpose::View,
        r.workflow.policy == policy_for(Purpose::View, true),
        r.dlq_topic@ == topic@,
        r.target@ == id@,
        r.replacement is None,
{
    RecoverySession::view(topic, id)
}

/// The listing of a topic: one line for each message that carries an
/// envelope, in the order of the topic. Unreadable messages leave no line.
pub open spec fn listing(topic: Seq<Option<Seq<u8>>>) -> Seq<ListItemView>
    decreases topic.len(),
{
    if topic.len() == 0 {
        Seq::empty()
    } else {
        match readable(topic.last()) {
            Some(envelope) => listing(topic.drop_last()).push(list_item_of(envelope)),
            None => listing(topic.drop_last()),
        }
    }
}

/// The lines as their views, in their order.
pub open spec fn item_views(items: Seq<MessageListItem>) -> Seq<ListItemView> {
    items.map_values(|item: MessageListItem| item@)
}

/// The view of an optional line.
pub open spec fn opt_item(item: Option<MessageListItem>) -> Option<ListItemView> {
    match item {
        Some(i) => Some(i@),
        None => None,
    }
}

/// The line of the listing that `payload` leaves.
pub open spec fn line_of(payload: Option<Seq<u8>>) -> Option<ListItemView> {
    match readable(payload) {
        Some(envelope) => Some(list_item_of(envelope)),
        None => None,
    }
}

/// The line that one message leaves in the listing, if it leaves one.
pub fn list_message(message: &RawMessage) -> (r: Option<MessageListItem>)
    ensures
        opt_item(r) == line_of(opt_bytes(message.payload)),
{
    match &message.payload {
        None => None,
        Some(bytes) => match decode(bytes.as_slice()) {
            Err(_) => None,
            Ok(envelope) => Some(MessageListItem::from_envelope(envelope)),
        },
    }
}

/// Lists the messages of a topic that was read to its end.
pub fn list_messages(messages: &Vec<RawMessage>) -> (r: Vec<MessageListItem>)
    ensures
        item_views(r@) == listing(payloads(messages@)),
{
    let ghost topic = payloads(messages@);
    let mut items: Vec<MessageListItem> = Vec::new();
    assert(item_views(items@) =~= listing(topic.take(0)));
    let mut i: usize = 0;
    while i < messages.len()
        invariant
            i <= messages.len(),
            topic == payloads(messages@),
            item_views(items@) == listing(topic.take(i as int)),
        decreases messages.len() - i,
    {
        proof {
            assert(topic.take(i + 1).drop_last() =~= topic.take(i as int));
            assert(topic.take(i + 1).last() == opt_bytes(messages[i as int].payload));
        }
        let ghost before = item_views(items@);
        match list_message(&messages[i]) {
            Some(item) => {
                items.push(item);
                assert(item_views(items@) =~= before.push(item@));
            },
            None => {},
        }
        i += 1;
    }
    assert(topic.take(i as int) =~= topic);
    items
}

} // verus!
