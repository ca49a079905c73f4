//! The connection configuration: one value, made once, from which the
//! settings of the consumer and of the producer are derived.

use vstd::prelude::*;

verus! {

// Keys of the broker client's configuration.
pub const BOOTSTRAP_SERVERS: &'static str = "bootstrap.servers";

pub const GROUP_ID: &'static str = "group.id";

pub const ENABLE_PARTITION_EOF: &'static str = "enable.partition.eof";

pub const AUTO_OFFSET_RESET: &'static str = "auto.offset.reset";

pub const ENABLE_AUTO_COMMIT: &'static str = "enable.auto.commit";

pub const SESSION_TIMEOUT_MS: &'static str = "session.timeout.ms";

pub const MESSAGE_TIMEOUT_MS: &'static str = "message.timeout.ms";

/// The session and delivery timeout, in milliseconds.
pub const TIMEOUT_MS: &'static str = "6000";

pub const ENABLED: &'static str = "true";

pub const DISABLED: &'static str = "false";

pub const EARLIEST: &'static str = "earliest";

/// The consumer group under which the cluster's metadata is asked for.
pub const TOPIC_LISTER_GROUP: &'static str = "topic-lister";

// Where the tool connects unless it is told otherwise.
pub const DEFAULT_BROKERS: &'static str = "localhost:9092";

pub const DEFAULT_GROUP_ID: &'static str = "poison_queue_cli_consumer_group_id";

pub const DEFAULT_ARCHIVE_TOPIC: &'static str = "dlq-archive";

// Headers of an outgoing message.
pub const MESSAGE_HEADER_MESSAGE_ID: &'static str = "id";

pub const MESSAGE_HEADER_CORRELATION_ID: &'static str = "correlation_id";

pub const MESSAGE_HEADER_REPUBLISHED_AT: &'static str = "republished_at";

pub const MESSAGE_HEADER_ARCHIVED_AT: &'static str = "archivedAt";

/// One setting of a broker client.
pub struct Setting {
    pub key: String,
    pub value: String,
}

/// The settings as pairs of texts.
pub open spec fn setting_views(settings: Seq<Setting>) -> Seq<(Seq<char>, Seq<char>)> {
    settings.map_values(|s: Setting| (s.key@, s.value@))
}

/// Appends one setting.
pub fn push_setting(settings: &mut Vec<Setting>, key: &str, value: &str)
    ensures
        setting_views(final(settings)@) == setting_views(old(settings)@).push((key@, value@)),
{
    settings.push(Setting { key: key.to_owned(), value: value.to_owned() });
    assert(setting_views(settings@) =~= setting_views(old(settings)@).push((key@, value@)));
}

/// Where the broker is, who the tool reads as, and where archived messages
/// go.
pub struct ConnectionConfig {
    pub brokers: String,
    pub group_id: String,
    pub archive_topic: String,
}

/// The settings of a consumer that reads a DLQ: from the earliest retained
/// offset, told when a partition ends, and never committing by itself.
pub open spec fn consumer_settings_of(brokers: Seq<char>, group_id: Seq<char>) -> Seq<
    (Seq<char>, Seq<char>),
> {
    seq![
        (GROUP_ID@, group_id),
        (BOOTSTRAP_SERVERS@, brokers),
        (ENABLE_PARTITION_EOF@, ENABLED@),
        (AUTO_OFFSET_RESET@, EARLIEST@),
        (ENABLE_AUTO_COMMIT@, DISABLED@),
        (SESSION_TIMEOUT_MS@, TIMEOUT_MS@),
    ]
}

/// The settings of the producer: a delivery that is not acknowledged within
/// the timeout fails.
pub open spec fn producer_settings_of(brokers: Seq<char>) -> Seq<(Seq<char>, Seq<char>)> {
    seq![(BOOTSTRAP_SERVERS@, brokers), (MESSAGE_TIMEOUT_MS@, TIMEOUT_MS@)]
}

/// The settings of a consumer that only asks for the cluster's metadata.
pub open spec fn metadata_settings_of(brokers: Seq<char>) -> Seq<(Seq<char>, Seq<char>)> {
    seq![
        (BOOTSTRAP_SERVERS@, brokers),
        (GROUP_ID@, TOPIC_LISTER_GROUP@),
        (SESSION_TIMEOUT_MS@, TIMEOUT_MS@),
    ]
}

impl ConnectionConfig {
    /// The configuration of a tool that runs beside a local broker.
    pub fn local() -> (r: ConnectionConfig)
        ensures
            r.brokers@ == DEFAULT_BROKERS@,
            r.group_id@ == DEFAULT_GROUP_ID@,
            r.archive_topic@ == DEFAULT_ARCHIVE_TOPIC@,
    {
        ConnectionConfig::new(DEFAULT_BROKERS, DEFAULT_GROUP_ID, DEFAULT_ARCHIVE_TOPIC)
    }

    /// The settings of a consumer that only asks for the cluster's metadata.
    pub fn metadata_settings(&self) -> (r: Vec<Setting>)
        ensures
            setting_views(r@) == metadata_settings_of(self.brokers@),
    {
        let mut settings: Vec<Setting> = Vec::new();
        assert(setting_views(settings@) =~= Seq::empty());
        push_setting(&mut settings, BOOTSTRAP_SERVERS, self.brokers.as_str());
        push_setting(&mut settings, GROUP_ID, TOPIC_LISTER_GROUP);
        push_setting(&mut settings, SESSION_TIMEOUT_MS, TIMEOUT_MS);
        assert(setting_views(settings@) =~= metadata_settings_of(self.brokers@));
        settings
    }

    /// The configuration for the given broker, consumer group and archive
    /// topic.
    pub fn new(brokers: &str, group_id: &str, archive_topic: &str) -> (r: ConnectionConfig)
        ensures
            r.brokers@ == brokers@,
            r.group_id@ == group_id@,
            r.archive_topic@ == archive_topic@,
    {
        ConnectionConfig {
            brokers: brokers.to_owned(),
            group_id: group_id.to_owned(),
            archive_topic: archive_topic.to_owned(),
        }
    }

    /// The settings of the consumer.
    pub fn consumer_settings(&self) -> (r: Vec<Setting>)
        ensures
            setting_views(r@) == consumer_settings_of(self.brokers@, self.group_id@),
    {
        let mut settings: Vec<Setting> = Vec::new();
        assert(setting_views(settings@) =~= Seq::empty());
        push_setting(&mut settings, GROUP_ID, self.group_id.as_str());
        push_setting(&mut settings, BOOTSTRAP_SERVERS, self.brokers.as_str());
        push_setting(&mut settings, ENABLE_PARTITION_EOF, ENABLED);
        push_setting(&mut settings, AUTO_OFFSET_RESET, EARLIEST);
        push_setting(&mut settings, ENABLE_AUTO_COMMIT, DISABLED);
        push_setting(&mut settings, SESSION_TIMEOUT_MS, TIMEOUT_MS);
        assert(setting_views(settings@) =~= consumer_settings_of(self.brokers@, self.group_id@));
        settings
    }

    /// The settings of the producer.
    pub fn producer_settings(&self) -> (r: Vec<Setting>)
        ensures
            setting_views(r@) == producer_settings_of(self.brokers@),
    {
        let mut settings: Vec<Setting> = Vec::new();
        assert(setting_views(settings@) =~= Seq::empty());
        push_setting(&mut settings, BOOTSTRAP_SERVERS, self.brokers.as_str());
        push_setting(&mut settings, MESSAGE_TIMEOUT_MS, TIMEOUT_MS);
        assert(setting_views(settings@) =~= producer_settings_of(self.brokers@));
        settings
    }
}

} // verus!
