//! The overview of a cluster's topics: each topic classed as regular, DLQ
//! or internal by its name, each class in the order of a dictionary.

use crate::text::{
    contains, decimal_digits, has_infix, has_prefix, lemma_text_le_total, lemma_text_le_transitive,
    pad_right, padded, push_decimal_digits, repeat, repeated, starts_with, str_le, text_le,
};
use vstd::prelude::*;
use vstd::seq_lib::lemma_multiset_commutative;
use vstd::string::StringExecFns;

verus! {

/// The class of a topic.
#[derive(Clone, Copy, PartialEq, Eq, Structural, Debug)]
pub enum TopicKind {
    Regular,
    Dlq,
    Internal,
}

/// Whether a name is that of a topic of the broker's own.
pub open spec fn is_internal_name(name: Seq<char>) -> bool {
    has_prefix(name, "__"@)
}

/// Whether a name marks a dead-letter queue.
pub open spec fn is_dlq_name(name: Seq<char>) -> bool {
    has_prefix(name, "dlq-"@) || has_infix(name, "-dlq"@)
}

/// The class that a topic's name puts it in. A name that marks both is
/// internal.
pub open spec fn kind_of(name: Seq<char>) -> TopicKind {
    if is_internal_name(name) {
        TopicKind::Internal
    } else if is_dlq_name(name) {
        TopicKind::Dlq
    } else {
        TopicKind::Regular
    }
}

/// Classes a topic by its name.
pub fn classify(name: &str) -> (r: TopicKind)
    ensures
        r == kind_of(name@),
{
    if starts_with(name, "__") {
        TopicKind::Internal
    } else if starts_with(name, "dlq-") || contains(name, "-dlq") {
        TopicKind::Dlq
    } else {
        TopicKind::Regular
    }
}

/// A topic as the overview shows it.
pub struct TopicDisplayInfo {
    pub name: String,
    pub partitions: usize,
    pub replication_factor: usize,
    pub is_internal: bool,
}

pub struct TopicView {
    pub name: Seq<char>,
    pub partitions: usize,
    pub replication_factor: usize,
    pub is_internal: bool,
}

impl View for TopicDisplayInfo {
    type V = TopicView;

    open spec fn view(&self) -> TopicView {
        TopicView {
            name: self.name@,
            partitions: self.partitions,
            replication_factor: self.replication_factor,
            is_internal: self.is_internal,
        }
    }
}

/// The topics as their views, in their order.
pub open spec fn topic_views(topics: Seq<TopicDisplayInfo>) -> Seq<TopicView> {
    topics.map_values(|t: TopicDisplayInfo| t@)
}

impl TopicDisplayInfo {
    /// The entry for a topic of the given name, number of partitions and
    /// replication factor.
    pub fn new(name: &str, partitions: usize, replication_factor: usize) -> (r: TopicDisplayInfo)
        ensures
            r@ == (TopicView {
                name: name@,
                partitions,
                replication_factor,
                is_internal: is_internal_name(name@),
            }),
    {
        TopicDisplayInfo {
            name: name.to_owned(),
            partitions,
            replication_factor,
            is_internal: starts_with(name, "__"),
        }
    }

    /// The entry for a topic of the given name, from the number of replicas
    /// of each of its partitions. The replication factor is that of the
    /// first partition, zero for a topic without partitions.
    pub fn from_replicas(name: &str, replicas: &Vec<usize>) -> (r: TopicDisplayInfo)
        ensures
            r@ == (TopicView {
                name: name@,
                partitions: replicas.len(),
                replication_factor: if replicas.len() > 0 {
                    replicas[0]
                } else {
                    0
                },
                is_internal: is_internal_name(name@),
            }),
    {
        let replication_factor = if replicas.len() > 0 {
            replicas[0]
        } else {
            0
        };
        TopicDisplayInfo::new(name, replicas.len(), replication_factor)
    }

    /// A copy of the entry.
    pub fn duplicate(&self) -> (r: TopicDisplayInfo)
        ensures
            r@ == self@,
    {
        TopicDisplayInfo {
            name: self.name.clone(),
            partitions: self.partitions,
            replication_factor: self.replication_factor,
            is_internal: self.is_internal,
        }
    }
}

/// Where a topic named `name` goes into `sorted`: behind the last entry
/// whose name does not come after it.
pub open spec fn insertion_point(sorted: Seq<TopicView>, name: Seq<char>) -> int
    decreases sorted.len(),
{
    if sorted.len() == 0 {
        0
    } else if text_le(sorted.last().name, name) {
        sorted.len() as int
    } else {
        insertion_point(sorted.drop_last(), name)
    }
}

/// The topics in the order of their names. Topics of the same name keep the
/// order they came in.
pub open spec fn sorted_by_name(topics: Seq<TopicView>) -> Seq<TopicView>
    decreases topics.len(),
{
    if topics.len() == 0 {
        Seq::empty()
    } else {
        let sorted = sorted_by_name(topics.drop_last());
        sorted.insert(insertion_point(sorted, topics.last().name), topics.last())
    }
}

/// Whether the names of `topics` ascend.
pub open spec fn ascending(topics: Seq<TopicView>) -> bool {
    forall|i: int, j: int|
        0 <= i < j < topics.len() ==> text_le(
            (#[trigger] topics[i]).name,
            (#[trigger] topics[j]).name,
        )
}

proof fn lemma_insertion_point_splits(sorted: Seq<TopicView>, name: Seq<char>)
    requires
        ascending(sorted),
    ensures
        0 <= insertion_point(sorted, name) <= sorted.len(),
        forall|i: int|
            0 <= i < insertion_point(sorted, name) ==> text_le((#[trigger] sorted[i]).name, name),
        forall|i: int|
            insertion_point(sorted, name) <= i < sorted.len() ==> text_le(
                name,
                (#[trigger] sorted[i]).name,
            ),
    decreases sorted.len(),
{
    if sorted.len() > 0 {
        let front = sorted.drop_last();
        assert forall|i: int, j: int| 0 <= i < j < front.len() implies text_le(
            (#[trigger] front[i]).name,
            (#[trigger] front[j]).name,
        ) by {
            assert(front[i] == sorted[i] && front[j] == sorted[j]);
        }
        if text_le(sorted.last().name, name) {
            assert forall|i: int| 0 <= i < sorted.len() implies text_le(
                (#[trigger] sorted[i]).name,
                name,
            ) by {
                if i < sorted.len() - 1 {
                    assert(text_le(sorted[i].name, sorted[sorted.len() - 1].name));
                    lemma_text_le_transitive(sorted[i].name, sorted.last().name, name);
                }
            }
        } else {
            lemma_insertion_point_splits(front, name);
            lemma_text_le_total(sorted.last().name, name);
            assert forall|i: int| 0 <= i < front.len() implies front[i] == sorted[i] by {}
        }
    }
}

/// Sorting puts the names in ascending order and keeps every topic: the
/// result has the length of the input.
pub proof fn lemma_sorted_ascends(topics: Seq<TopicView>)
    ensures
        ascending(sorted_by_name(topics)),
        sorted_by_name(topics).len() == topics.len(),
    decreases topics.len(),
{
    if topics.len() > 0 {
        let sorted = sorted_by_name(topics.drop_last());
        lemma_sorted_ascends(topics.drop_last());
        let x = topics.last();
        let p = insertion_point(sorted, x.name);
        lemma_insertion_point_splits(sorted, x.name);
        let out = sorted.insert(p, x);
        assert forall|i: int, j: int| 0 <= i < j < out.len() implies text_le(
            (#[trigger] out[i]).name,
            (#[trigger] out[j]).name,
        ) by {
            if j < p {
                assert(out[i] == sorted[i] && out[j] == sorted[j]);
            } else if j == p {
                assert(out[i] == sorted[i]);
            } else if i < p {
                assert(out[i] == sorted[i] && out[j] == sorted[j - 1]);
            } else if i == p {
                assert(out[j] == sorted[j - 1]);
            } else {
                assert(out[i] == sorted[i - 1] && out[j] == sorted[j - 1]);
            }
        }
    }
}

proof fn lemma_insert_adds_one(sorted: Seq<TopicView>, at: int, topic: TopicView)
    requires
        0 <= at <= sorted.len(),
    ensures
        sorted.insert(at, topic).to_multiset() == sorted.to_multiset().insert(topic),
{
    let front = sorted.subrange(0, at);
    let back = sorted.subrange(at, sorted.len() as int);
    assert(sorted =~= front + back);
    lemma_multiset_commutative(front, back);
    lemma_multiset_commutative(front.push(topic), back);
    front.to_multiset_ensures();
    assert(sorted.insert(at, topic).to_multiset() =~= sorted.to_multiset().insert(topic));
}

/// Sorting keeps the topics: the result holds every topic of the input as
/// often as the input does, and nothing else.
pub proof fn lemma_sorted_keeps_topics(topics: Seq<TopicView>)
    ensures
        sorted_by_name(topics).to_multiset() == topics.to_multiset(),
    decreases topics.len(),
{
    if topics.len() == 0 {
        assert(sorted_by_name(topics) =~= topics);
    } else {
        let front = topics.drop_last();
        let sorted = sorted_by_name(front);
        lemma_sorted_keeps_topics(front);
        lemma_sorted_ascends(front);
        lemma_insertion_point_splits(sorted, topics.last().name);
        lemma_insert_adds_one(sorted, insertion_point(sorted, topics.last().name), topics.last());
        front.to_multiset_ensures();
        assert(topics =~= front.push(topics.last()));
    }
}

/// Sorts topics by name.
pub fn sort_by_name(topics: &Vec<TopicDisplayInfo>) -> (r: Vec<TopicDisplayInfo>)
    ensures
        topic_views(r@) == sorted_by_name(topic_views(topics@)),
{
    let ghost all = topic_views(topics@);
    let mut out: Vec<TopicDisplayInfo> = Vec::new();
    assert(topic_views(out@) =~= sorted_by_name(all.take(0)));
    let mut i: usize = 0;
    while i < topics.len()
        invariant
            i <= topics.len(),
            all == topic_views(topics@),
            topic_views(out@) == sorted_by_name(all.take(i as int)),
            out.len() == i,
        decreases topics.len() - i,
    {
        let entry = topics[i].duplicate();
        let ghost sorted = topic_views(out@);
        let mut p: usize = out.len();
        assert(sorted.take(p as int) =~= sorted);
        while p > 0 && !str_le(out[p - 1].name.as_str(), entry.name.as_str())
            invariant
                p <= out.len(),
                sorted == topic_views(out@),
                insertion_point(sorted, entry.name@) == insertion_point(
                    sorted.take(p as int),
                    entry.name@,
                ),
            decreases p,
        {
            proof {
                assert(sorted.take(p as int).drop_last() =~= sorted.take(p - 1));
                assert(sorted.take(p as int).last() == out[p - 1]@);
            }
            p -= 1;
        }
        proof {
            if p > 0 {
                assert(sorted.take(p as int).last() == out[p - 1]@);
            }
            assert(insertion_point(sorted, entry.name@) == p);
            assert(all.take(i + 1).drop_last() =~= all.take(i as int));
            assert(all.take(i + 1).last() == entry@);
        }
        out.insert(p, entry);
        assert(topic_views(out@) =~= sorted.insert(p as int, entry@));
        i += 1;
    }
    assert(all.take(i as int) =~= all);
    out
}

/// The topics of one class, in the order they came in.
pub open spec fn of_kind(topics: Seq<TopicView>, kind: TopicKind) -> Seq<TopicView> {
    topics.filter(|t: TopicView| kind_of(t.name) == kind)
}

/// The three classes part the topics: every topic is in exactly one of
/// them, as often as it is among the topics.
pub proof fn lemma_classes_part_topics(topics: Seq<TopicView>)
    ensures
        of_kind(topics, TopicKind::Regular).to_multiset().add(
            of_kind(topics, TopicKind::Dlq).to_multiset(),
        ).add(of_kind(topics, TopicKind::Internal).to_multiset()) == topics.to_multiset(),
        of_kind(topics, TopicKind::Regular).len() + of_kind(topics, TopicKind::Dlq).len()
            + of_kind(topics, TopicKind::Internal).len() == topics.len(),
    decreases topics.len(),
{
    reveal(Seq::filter);
    let regular = of_kind(topics, TopicKind::Regular);
    let dlq = of_kind(topics, TopicKind::Dlq);
    let internal = of_kind(topics, TopicKind::Internal);
    if topics.len() == 0 {
        assert(regular =~= topics && dlq =~= topics && internal =~= topics);
        topics.to_multiset_ensures();
        assert forall|t: TopicView| topics.to_multiset().count(t) == 0 by {
            assert(!topics.contains(t));
        }
        assert(regular.to_multiset().add(dlq.to_multiset()).add(internal.to_multiset())
            =~= topics.to_multiset());
    } else {
        let front = topics.drop_last();
        let last = topics.last();
        lemma_classes_part_topics(front);
        let r = of_kind(front, TopicKind::Regular);
        let d = of_kind(front, TopicKind::Dlq);
        let i = of_kind(front, TopicKind::Internal);
        r.to_multiset_ensures();
        d.to_multiset_ensures();
        i.to_multiset_ensures();
        front.to_multiset_ensures();
        assert(topics =~= front.push(last));
        assert(regular == if kind_of(last.name) == TopicKind::Regular {
            r.push(last)
        } else {
            r
        });
        assert(dlq == if kind_of(last.name) == TopicKind::Dlq {
            d.push(last)
        } else {
            d
        });
        assert(internal == if kind_of(last.name) == TopicKind::Internal {
            i.push(last)
        } else {
            i
        });
        assert(front.push(last).to_multiset() =~= front.to_multiset().insert(last));
        match kind_of(last.name) {
            TopicKind::Regular => {
                assert(r.push(last).to_multiset() =~= r.to_multiset().insert(last));
            },
            TopicKind::Dlq => {
                assert(d.push(last).to_multiset() =~= d.to_multiset().insert(last));
            },
            TopicKind::Internal => {
                assert(i.push(last).to_multiset() =~= i.to_multiset().insert(last));
            },
        }
        assert(regular.to_multiset().add(dlq.to_multiset()).add(internal.to_multiset())
            =~= topics.to_multiset());
    }
}

/// Picks the topics of one class.
pub fn pick_kind(topics: &Vec<TopicDisplayInfo>, kind: TopicKind) -> (r: Vec<TopicDisplayInfo>)
    ensures
        topic_views(r@) == of_kind(topic_views(topics@), kind),
{
    let ghost all = topic_views(topics@);
    let ghost keep = |t: TopicView| kind_of(t.name) == kind;
    let mut out: Vec<TopicDisplayInfo> = Vec::new();
    proof {
        reveal(Seq::filter);
        assert(topic_views(out@) =~= all.take(0).filter(keep));
    }
    let mut i: usize = 0;
    while i < topics.len()
        invariant
            i <= topics.len(),
            all == topic_views(topics@),
            keep == (|t: TopicView| kind_of(t.name) == kind),
            topic_views(out@) == all.take(i as int).filter(keep),
        decreases topics.len() - i,
    {
        let ghost before = topic_views(out@);
        proof {
            reveal(Seq::filter);
            assert(all.take(i + 1).drop_last() =~= all.take(i as int));
            assert(all.take(i + 1).last() == topics[i as int]@);
        }
        if classify(topics[i].name.as_str()) == kind {
            out.push(topics[i].duplicate());
            assert(topic_views(out@) =~= before.push(topics[i as int]@));
        }
        i += 1;
    }
    assert(all.take(i as int) =~= all);
    out
}

/// The width of the overview.
pub const OVERVIEW_WIDTH: usize = 70;

/// The decimal text of a count.
pub fn count_string(n: usize) -> (r: String)
    ensures
        r@ == decimal_digits(n as nat),
{
    let mut out = String::new();
    push_decimal_digits(&mut out, n as u64);
    assert(out@ =~= decimal_digits(n as nat));
    out
}

/// What the overview calls the class of a topic.
pub open spec fn kind_label(topic: TopicView) -> Seq<char> {
    if topic.is_internal {
        "Internal"@
    } else if is_dlq_name(topic.name) {
        "DLQ"@
    } else {
        "Regular"@
    }
}

/// One row of a table of topics: the icon and the name, the class, the
/// number of partitions and the replication factor, each padded to the
/// width of its column.
pub open spec fn topic_row(topic: TopicView, icon: Seq<char>) -> Seq<char> {
    padded(icon + " "@ + topic.name, 35) + " "@ + padded(kind_label(topic), 12) + " "@ + padded(
        decimal_digits(topic.partitions as nat),
        8,
    ) + " "@ + padded(decimal_digits(topic.replication_factor as nat), 10) + "\n"@
}

/// Writes one row of a table of topics.
pub fn render_topic_row(topic: &TopicDisplayInfo, icon: &str) -> (r: String)
    ensures
        r@ == topic_row(topic@, icon@),
{
    let mut first = icon.to_owned();
    first.append(" ");
    first.append(topic.name.as_str());
    let label = if topic.is_internal {
        "Internal"
    } else if starts_with(topic.name.as_str(), "dlq-") || contains(topic.name.as_str(), "-dlq") {
        "DLQ"
    } else {
        "Regular"
    };
    let mut out = pad_right(first.as_str(), 35);
    out.append(" ");
    out.append(pad_right(label, 12).as_str());
    out.append(" ");
    out.append(pad_right(count_string(topic.partitions).as_str(), 8).as_str());
    out.append(" ");
    out.append(pad_right(count_string(topic.replication_factor).as_str(), 10).as_str());
    out.append("\n");
    out
}

/// The rows of a table, one for each topic.
pub open spec fn topic_rows(topics: Seq<TopicView>, icon: Seq<char>) -> Seq<char>
    decreases topics.len(),
{
    if topics.len() == 0 {
        Seq::empty()
    } else {
        topic_rows(topics.drop_last(), icon) + topic_row(topics.last(), icon)
    }
}

/// A rule across the overview, drawn with `stroke`, on a line of its own.
pub open spec fn overview_rule(stroke: Seq<char>) -> Seq<char> {
    repeated(stroke, OVERVIEW_WIDTH as nat) + "\n"@
}

/// A table of topics: the column titles, a rule, and the rows.
pub open spec fn topic_table(topics: Seq<TopicView>, icon: Seq<char>) -> Seq<char> {
    padded("TOPIC NAME"@, 35) + " "@ + padded("TYPE"@, 12) + " "@ + padded("PARTS"@, 8) + " "@
        + padded("REPLICATION"@, 10) + "\n"@ + overview_rule("─"@) + topic_rows(topics, icon)
}

/// Writes a table of topics.
pub fn print_topic_table(topics: &Vec<TopicDisplayInfo>, icon: &str) -> (r: String)
    ensures
        r@ == topic_table(topic_views(topics@), icon@),
{
    let ghost all = topic_views(topics@);
    let mut out = pad_right("TOPIC NAME", 35);
    out.append(" ");
    out.append(pad_right("TYPE", 12).as_str());
    out.append(" ");
    out.append(pad_right("PARTS", 8).as_str());
    out.append(" ");
    out.append(pad_right("REPLICATION", 10).as_str());
    out.append("\n");
    out.append(repeat("─", OVERVIEW_WIDTH).as_str());
    out.append("\n");
    let ghost head = out@;
    assert(head =~= padded("TOPIC NAME"@, 35) + " "@ + padded("TYPE"@, 12) + " "@ + padded(
        "PARTS"@,
        8,
    ) + " "@ + padded("REPLICATION"@, 10) + "\n"@ + overview_rule("─"@));
    assert(out@ =~= head + topic_rows(all.take(0), icon@));
    let mut i: usize = 0;
    while i < topics.len()
        invariant
            i <= topics.len(),
            all == topic_views(topics@),
            out@ == head + topic_rows(all.take(i as int), icon@),
        decreases topics.len() - i,
    {
        let row = render_topic_row(&topics[i], icon);
        out.append(row.as_str());
        proof {
            assert(all.take(i + 1).drop_last() =~= all.take(i as int));
            assert(all.take(i + 1).last() == topics[i as int]@);
            assert(out@ =~= head + topic_rows(all.take(i + 1), icon@));
        }
        i += 1;
    }
    assert(all.take(i as int) =~= all);
    out
}

/// One class of the overview: a title with the number of topics, a rule,
/// the table, and an empty line. A class without topics is left out.
pub open spec fn class_section(title: Seq<char>, topics: Seq<TopicView>, icon: Seq<char>) -> Seq<
    char,
> {
    if topics.len() == 0 {
        Seq::empty()
    } else {
        title + " ("@ + decimal_digits(topics.len()) + ")\n"@ + overview_rule("─"@) + topic_table(
            topics,
            icon,
        ) + "\n"@
    }
}

/// Writes one class of the overview.
pub fn render_class_section(title: &str, topics: &Vec<TopicDisplayInfo>, icon: &str) -> (r: String)
    ensures
        r@ == class_section(title@, topic_views(topics@), icon@),
{
    let mut out = String::new();
    if topics.len() == 0 {
        return out;
    }
    out.append(title);
    out.append(" (");
    out.append(count_string(topics.len()).as_str());
    out.append(")\n");
    out.append(repeat("─", OVERVIEW_WIDTH).as_str());
    out.append("\n");
    out.append(print_topic_table(topics, icon).as_str());
    out.append("\n");
    assert(out@ =~= class_section(title@, topic_views(topics@), icon@));
    out
}

/// What is said of a cluster without topics.
pub const NO_TOPICS: &'static str = "🔍 No topics found in Kafka cluster\n";

/// The head of the overview: its title, the broker and the number of topics.
pub open spec fn overview_head(brokers: Seq<char>, total: nat) -> Seq<char> {
    "📋 Kafka Topics Overview\n"@ + overview_rule("═"@) + "🔗 Broker: "@ + brokers + "\n"@
        + "📊 Total Topics: "@ + decimal_digits(total) + "\n\n"@
}

/// Writes the head of the overview.
pub fn render_overview_head(brokers: &str, total: usize) -> (r: String)
    ensures
        r@ == overview_head(brokers@, total as nat),
{
    let mut out = String::new();
    out.append("📋 Kafka Topics Overview\n");
    out.append(repeat("═", OVERVIEW_WIDTH).as_str());
    out.append("\n");
    out.append("🔗 Broker: ");
    out.append(brokers);
    out.append("\n");
    out.append("📊 Total Topics: ");
    out.append(count_string(total).as_str());
    out.append("\n\n");
    assert(out@ =~= overview_head(brokers@, total as nat));
    out
}

/// The foot of the overview: the number of topics of each class, and of all.
pub open spec fn overview_summary(regular: nat, dlq: nat, internal: nat, total: nat) -> Seq<char> {
    overview_rule("═"@) + "📈 Summary:\n"@ + "   • Regular Topics: "@ + decimal_digits(regular)
        + "\n"@ + "   • DLQ Topics: "@ + decimal_digits(dlq) + "\n"@ + "   • Internal Topics: "@
        + decimal_digits(internal) + "\n"@ + "   • Total: "@ + decimal_digits(total) + "\n"@
}

/// Writes the foot of the overview.
pub fn render_overview_summary(regular: usize, dlq: usize, internal: usize, total: usize) -> (r:
    String)
    ensures
        r@ == overview_summary(regular as nat, dlq as nat, internal as nat, total as nat),
{
    let mut out = String::new();
    out.append(repeat("═", OVERVIEW_WIDTH).as_str());
    out.append("\n");
    out.append("📈 Summary:\n");
    out.append("   • Regular Topics: ");
    out.append(count_string(regular).as_str());
    out.append("\n");
    out.append("   • DLQ Topics: ");
    out.append(count_string(dlq).as_str());
    out.append("\n");
    out.append("   • Internal Topics: ");
    out.append(count_string(internal).as_str());
    out.append("\n");
    out.append("   • Total: ");
    out.append(count_string(total).as_str());
    out.append("\n");
    assert(out@ =~= overview_summary(regular as nat, dlq as nat, internal as nat, total as nat));
    out
}

/// The overview of the topics of the cluster at `brokers`: the classes in
/// turn, each sorted by name, and the counts.
pub open spec fn overview(brokers: Seq<char>, topics: Seq<TopicView>) -> Seq<char> {
    if topics.len() == 0 {
        NO_TOPICS@
    } else {
        let regular = sorted_by_name(of_kind(topics, TopicKind::Regular));
        let dlq = sorted_by_name(of_kind(topics, TopicKind::Dlq));
        let internal = sorted_by_name(of_kind(topics, TopicKind::Internal));
        overview_head(brokers, topics.len()) + class_section("📋 Regular Topics"@, regular, "🟢"@)
            + class_section("💀 Dead Letter Queue Topics"@, dlq, "🔴"@) + class_section(
            "🔧 Internal Topics"@,
            internal,
            "⚙️"@,
        ) + overview_summary(regular.len(), dlq.len(), internal.len(), topics.len())
    }
}

/// Writes the overview of the topics of the cluster at `brokers`.
pub fn list_topics(brokers: &str, topics: &Vec<TopicDisplayInfo>) -> (r: String)
    ensures
        r@ == overview(brokers@, topic_views(topics@)),
{
    if topics.len() == 0 {
        return NO_TOPICS.to_owned();
    }
    let regular = sort_by_name(&pick_kind(topics, TopicKind::Regular));
    let dlq = sort_by_name(&pick_kind(topics, TopicKind::Dlq));
    let internal = sort_by_name(&pick_kind(topics, TopicKind::Internal));
    let mut out = render_overview_head(brokers, topics.len());
    out.append(render_class_section("📋 Regular Topics", &regular, "🟢").as_str());
    out.append(render_class_section("💀 Dead Letter Queue Topics", &dlq, "🔴").as_str());
    out.append(render_class_section("🔧 Internal Topics", &internal, "⚙️").as_str());
    out.append(
        render_overview_summary(regular.len(), dlq.len(), internal.len(), topics.len()).as_str(),
    );
    out
}

} // verus!
