//! One recovery session: a scan of the DLQ for one message and, once it is
//! found, its republication or archival.
//!
//! The session decides; its driver does the I/O. The driver asks
//! `RecoverySession::next` what to do, does it, and reports back through the
//! `on_*` methods: a message read from the DLQ, the end of a partition, the
//! operator's answer, the broker's answer to a publish or a commit.

use crate::clock::utc_now_rfc3339;
use crate::diff::{compare_lines, compared};
use crate::json::{clone_value, json_pretty};
use crate::model::{
    ABSENT, DlqMessage, EnvelopeView, MessageView, opt_str, opt_text, pretty_print,
};
use crate::plan::{
    archive_plan, is_record_of, opt_doc, OutgoingRecord, PlanView, RecoveryPlan, republish_plan,
};
use crate::preview::{
    diff_and_plan, display_diff_and_plan, display_republish_info, republish_info, Span, span_views,
};
use crate::scan::{
    examine, Examined, first_match, found, hit, lemma_first_match_is_least, opt_bytes, payloads,
    PositionView, RawMessage, readable, row_carried,
};
use crate::text::{confirms, is_affirmative};
use crate::workflow::{
    Directive, directive_in, Policy, Signal, Stage, stage_on, stage_once_told, Workflow,
};
use vstd::prelude::*;

verus! {

/// What a command wants with the message it looks for.
#[derive(Clone, Copy, PartialEq, Eq, Structural, Debug)]
pub enum Purpose {
    /// Send it back to the topic it came from, after the operator agreed.
    Republish,
    /// Send it to the archive topic.
    Archive,
    /// Show it.
    View,
}

/// The policy of a session. Only a republish asks the operator, and only a
/// republish can be a dry run by choice; viewing never publishes.
pub open spec fn policy_for(purpose: Purpose, dry_run: bool) -> Policy {
    match purpose {
        Purpose::Republish => Policy { dry_run, confirm: true },
        Purpose::Archive => Policy { dry_run: false, confirm: false },
        Purpose::View => Policy { dry_run: true, confirm: false },
    }
}

/// The plan that a session makes when it finds its message.
pub open spec fn plan_on_match(
    purpose: Purpose,
    envelope: EnvelopeView,
    position: PositionView,
    replacement: Option<Seq<u8>>,
    archive_topic: Seq<char>,
    now: Seq<char>,
) -> PlanView {
    match purpose {
        Purpose::Archive => archive_plan(envelope, position, archive_topic, now),
        _ => republish_plan(envelope, position, replacement, now),
    }
}

/// Why a found message is refused: the clock gave no time to stamp it with.
pub const NO_TIME: &'static str = "the clock gives no time";

/// Why a found message is refused: it would be sent to no topic.
pub const NO_DESTINATION: &'static str = "the message names no topic to go to";

/// Whether a destination is none: empty, or the sentinel `"-"`.
pub open spec fn is_no_destination(destination: Seq<char>) -> bool {
    destination.len() == 0 || destination == ABSENT@
}

/// Why a match is refused, if it is: without a time there is no plan, and
/// outside a dry run a plan needs a topic to send to.
pub open spec fn refusal(policy: Policy, plan: PlanView, now: Option<Seq<char>>) -> Option<
    Seq<char>,
> {
    if now is None {
        Some(NO_TIME@)
    } else if !policy.dry_run && is_no_destination(plan.destination) {
        Some(NO_DESTINATION@)
    } else {
        None
    }
}

/// Whether a stage is reached only with the outgoing record at hand.
pub open spec fn needs_record(stage: Stage) -> bool {
    stage == Stage::AwaitingConfirmation || stage == Stage::Planned || stage == Stage::Publishing
        || stage == Stage::Published || stage == Stage::Committing || stage == Stage::Committed
        || stage == Stage::PublishFailed || stage == Stage::CommitFailed || stage
        == Stage::Cancelled
}

/// The view of an optional plan.
pub open spec fn opt_plan(plan: Option<RecoveryPlan>) -> Option<PlanView> {
    match plan {
        Some(p) => Some(p@),
        None => None,
    }
}

/// The view of an optional row.
pub open spec fn opt_row(row: Option<DlqMessage>) -> Option<MessageView> {
    match row {
        Some(r) => Some(r@),
        None => None,
    }
}

/// Whether every assigned partition is among those that have ended.
pub open spec fn all_ended(assigned: Seq<i32>, ended: Seq<i32>) -> bool {
    forall|i: int| 0 <= i < assigned.len() ==> ended.contains(#[trigger] assigned[i])
}

/// Whether `partition` is among `ended`.
pub fn has_ended(ended: &Vec<i32>, partition: i32) -> (r: bool)
    ensures
        r == ended@.contains(partition),
{
    let mut j: usize = 0;
    while j < ended.len()
        invariant
            j <= ended.len(),
            forall|k: int| 0 <= k < j ==> ended@[k] != partition,
        decreases ended.len() - j,
    {
        if ended[j] == partition {
            return true;
        }
        j += 1;
    }
    false
}

/// Whether every assigned partition is among those that have ended.
pub fn covers(assigned: &Vec<i32>, ended: &Vec<i32>) -> (r: bool)
    ensures
        r == all_ended(assigned@, ended@),
{
    let mut i: usize = 0;
    while i < assigned.len()
        invariant
            i <= assigned.len(),
            forall|k: int| 0 <= k < i ==> ended@.contains(#[trigger] assigned@[k]),
        decreases assigned.len() - i,
    {
        if !has_ended(ended, assigned[i]) {
            return false;
        }
        i += 1;
    }
    true
}

/// One scan-then-recover sequence.
pub struct RecoverySession {
    pub purpose: Purpose,
    pub workflow: Workflow,
    /// The DLQ that is scanned.
    pub dlq_topic: String,
    /// The id, or correlation id, of the message looked for.
    pub target: String,
    /// Where an archived message goes.
    pub archive_topic: String,
    /// The payload that a republish substitutes, where one was supplied.
    pub replacement: Option<serde_json::Value>,
    /// Where the replacement payload came from, as the preview names it.
    pub replacement_source: String,
    /// The partitions that were reported as ended, in the order of the reports.
    pub ended: Vec<i32>,
    /// What went wrong, in the words of whoever said so; empty while nothing did.
    pub detail: String,
    /// The found message, as it is shown.
    pub row: Option<DlqMessage>,
    /// The plan, once the message is found.
    pub plan: Option<RecoveryPlan>,
    /// The record to publish, once the message is found and not merely shown.
    pub record: Option<OutgoingRecord>,
}

/// What a session made of a message.
pub enum Verdict {
    /// Nothing: the scan was over.
    Ignored,
    /// It is the message looked for, and it is planned.
    Matched,
    /// It is the message looked for, and it cannot be recovered.
    Refused,
    /// It carries another envelope.
    PassedOver,
    /// It has no payload.
    NoPayload,
    /// Its payload is not JSON; `reason` is what the parser said.
    Unreadable { reason: String },
}

/// What the operator is shown of a found message.
pub struct Preview {
    /// The message as one row of text.
    pub row: DlqMessage,
    /// The pretty-printed replacement payload, where there is one.
    pub new_payload: Option<String>,
    /// The rendered preview of a republish; empty for other purposes.
    pub spans: Vec<Span>,
}

/// What the operator is shown of `plan`, whose source is shown as `row`.
pub open spec fn is_preview(
    preview: Preview,
    purpose: Purpose,
    row: MessageView,
    plan: PlanView,
    dlq_topic: Seq<char>,
    source: Seq<char>,
    dry_run: bool,
) -> bool {
    &&& preview.row@ == row
    &&& opt_text(preview.new_payload) == match plan.replacement {
        Some(payload) => Some(json_pretty(payload)),
        None => None,
    }
    &&& span_views(preview.spans@) == if purpose != Purpose::Republish {
        Seq::empty()
    } else {
        match plan.replacement {
            Some(payload) => diff_and_plan(
                row,
                json_pretty(payload),
                dlq_topic,
                source,
                dry_run,
                plan.headers,
                compared(row.payload, json_pretty(payload)),
            ),
            None => republish_info(row, dlq_topic, dry_run, plan.headers),
        }
    }
}

impl RecoverySession {
    /// Whether the session holds what its stage needs: the policy of its
    /// purpose, the plan and the row from the match on, and the record of
    /// that plan wherever a publish may follow.
    pub open spec fn wf(&self) -> bool {
        &&& self.workflow.policy == policy_for(self.purpose, self.workflow.policy.dry_run)
        &&& self.purpose != Purpose::Republish ==> self.replacement is None
        &&& self.workflow.stage == Stage::Previewed ==> self.plan is Some && self.row is Some
        &&& needs_record(self.workflow.stage) ==> self.plan is Some && self.row is Some
            && self.record is Some && is_record_of(self.record->0, self.plan->0@)
    }

    /// Whether two sessions were set up alike.
    pub open spec fn same_setup(&self, other: &RecoverySession) -> bool {
        &&& self.purpose == other.purpose
        &&& self.workflow.policy == other.workflow.policy
        &&& self.dlq_topic@ == other.dlq_topic@
        &&& self.target@ == other.target@
        &&& self.archive_topic@ == other.archive_topic@
        &&& opt_doc(self.replacement) == opt_doc(other.replacement)
        &&& self.replacement_source@ == other.replacement_source@
    }

    /// Whether two sessions have found the same.
    pub open spec fn same_found(&self, other: &RecoverySession) -> bool {
        &&& opt_plan(self.plan) == opt_plan(other.plan)
        &&& opt_row(self.row) == opt_row(other.row)
        &&& self.record == other.record
    }

    /// Whether two sessions are alike but for the stage.
    pub open spec fn same_but_stage(&self, other: &RecoverySession) -> bool {
        &&& self.same_setup(other)
        &&& self.same_found(other)
        &&& self.ended@ == other.ended@
        &&& self.detail@ == other.detail@
    }

    /// Whether the session is as fresh as its constructor leaves it.
    pub open spec fn is_fresh(&self) -> bool {
        &&& self.workflow.stage == Stage::Scanning
        &&& self.ended@.len() == 0
        &&& self.detail@.len() == 0
        &&& self.row is None
        &&& self.plan is None
        &&& self.record is None
    }

    /// Checks the session over: whether it is well-formed. Sessions made and
    /// driven through this module are.
    pub fn is_sound(&self) -> (r: bool)
        ensures
            r == self.wf(),
    {
        let policy = self.workflow.policy;
        let fits = match self.purpose {
            Purpose::Republish => policy.confirm,
            Purpose::Archive => !policy.dry_run && !policy.confirm,
            Purpose::View => policy.dry_run && !policy.confirm,
        };
        if !fits {
            return false;
        }
        if self.purpose != Purpose::Republish && self.replacement.is_some() {
            return false;
        }
        match self.workflow.stage {
            Stage::Scanning | Stage::NotFound | Stage::ScanFailed | Stage::PlanFailed => true,
            Stage::Previewed => self.plan.is_some() && self.row.is_some(),
            _ => match (&self.plan, &self.record) {
                (Some(plan), Some(record)) => self.row.is_some() && match plan.holds_record(
                    record,
                ) {
                    Ok(held) => held,
                    Err(_) => false,
                },
                _ => false,
            },
        }
    }

    /// A session that republishes the message `target` of `dlq_topic`, with
    /// `replacement` as its payload where one is given.
    pub fn republish(
        dlq_topic: &str,
        target: &str,
        replacement: Option<serde_json::Value>,
        replacement_source: &str,
        dry_run: bool,
    ) -> (r: RecoverySession)
        ensures
            r.wf(),
            r.is_fresh(),
            r.purpose == Purpose::Republish,
            r.workflow.policy == policy_for(Purpose::Republish, dry_run),
            r.dlq_topic@ == dlq_topic@,
            r.target@ == target@,
            opt_doc(r.replacement) == opt_doc(replacement),
            r.replacement_source@ == replacement_source@,
    {
        RecoverySession {
            purpose: Purpose::Republish,
            workflow: Workflow::new(Policy { dry_run, confirm: true }),
            dlq_topic: dlq_topic.to_owned(),
            target: target.to_owned(),
            archive_topic: String::new(),
            replacement,
            replacement_source: replacement_source.to_owned(),
            ended: Vec::new(),
            detail: String::new(),
            row: None,
            plan: None,
            record: None,
        }
    }

    /// A session that archives the message `target` of `dlq_topic` to
    /// `archive_topic`.
    pub fn archive(dlq_topic: &str, target: &str, archive_topic: &str) -> (r: RecoverySession)
        ensures
            r.wf(),
            r.is_fresh(),
            r.purpose == Purpose::Archive,
            r.workflow.policy == policy_for(Purpose::Archive, false),
            r.dlq_topic@ == dlq_topic@,
            r.target@ == target@,
            r.archive_topic@ == archive_topic@,
            r.replacement is None,
    {
        RecoverySession {
            purpose: Purpose::Archive,
            workflow: Workflow::new(Policy { dry_run: false, confirm: false }),
            dlq_topic: dlq_topic.to_owned(),
            target: target.to_owned(),
            archive_topic: archive_topic.to_owned(),
            replacement: None,
            replacement_source: String::new(),
            ended: Vec::new(),
            detail: String::new(),
            row: None,
            plan: None,
            record: None,
        }
    }

    /// A session that shows the message `target` of `dlq_topic`.
    pub fn view(dlq_topic: &str, target: &str) -> (r: RecoverySession)
        ensures
            r.wf(),
            r.is_fresh(),
            r.purpose == Purpose::View,
            r.workflow.policy == policy_for(Purpose::View, true),
            r.dlq_topic@ == dlq_topic@,
            r.target@ == target@,
            r.replacement is None,
    {
        RecoverySession {
            purpose: Purpose::View,
            workflow: Workflow::new(Policy { dry_run: true, confirm: false }),
            dlq_topic: dlq_topic.to_owned(),
            target: target.to_owned(),
            archive_topic: String::new(),
            replacement: None,
            replacement_source: String::new(),
            ended: Vec::new(),
            detail: String::new(),
            row: None,
            plan: None,
            record: None,
        }
    }

    /// The plan that the session `before` makes of the envelope carried by
    /// `payload`, found at `position` at the time `now`.
    pub open spec fn plan_of(
        before: &RecoverySession,
        payload: Option<Seq<u8>>,
        position: PositionView,
        now: Seq<char>,
    ) -> PlanView {
        plan_on_match(
            before.purpose,
            readable(payload)->0,
            position,
            opt_doc(before.replacement),
            before.archive_topic@,
            now,
        )
    }

    /// What a message read from the DLQ does to a session, at the time `now`
    /// where the clock gave one. Outside the scan it does nothing. A message
    /// that is no hit is passed over. A hit that is refused ends the session
    /// in `PlanFailed`, with the reason as its detail. Any other hit is
    /// planned and its row kept: in a dry run that is all; otherwise the
    /// record of the plan is at hand, and the session goes on as its
    /// workflow goes on after a match.
    pub open spec fn message_taken(
        &self,
        before: &RecoverySession,
        payload: Option<Seq<u8>>,
        position: PositionView,
        now: Option<Seq<char>>,
    ) -> bool {
        let plan = Self::plan_of(before, payload, position, now->0);
        &&& self.same_setup(before)
        &&& self.ended@ == before.ended@
        &&& if before.workflow.stage != Stage::Scanning || !hit(payload, before.target@) {
            self.same_but_stage(before) && self.workflow.stage == before.workflow.stage
        } else if refusal(before.workflow.policy, plan, now) is Some {
            &&& self.same_found(before)
            &&& self.detail@ == refusal(before.workflow.policy, plan, now)->0
            &&& self.workflow.stage == Stage::PlanFailed
        } else {
            &&& self.detail@ == before.detail@
            &&& opt_plan(self.plan) == Some(plan)
            &&& opt_row(self.row) == row_carried(payload)
            &&& self.workflow.stage == stage_on(
                before.workflow.policy,
                Stage::Scanning,
                Signal::Matched,
            )
            &&& if before.workflow.policy.dry_run {
                self.record is None
            } else {
                self.record is Some && is_record_of(self.record->0, plan)
            }
        }
    }

    /// What is said of a message that a session took in.
    pub open spec fn verdict_fits(
        verdict: Verdict,
        before: &RecoverySession,
        payload: Option<Seq<u8>>,
        position: PositionView,
        now: Option<Seq<char>>,
    ) -> bool {
        if before.workflow.stage != Stage::Scanning {
            verdict is Ignored
        } else if payload is None {
            verdict is NoPayload
        } else if readable(payload) is None {
            verdict is Unreadable
        } else if !hit(payload, before.target@) {
            verdict is PassedOver
        } else if refusal(
            before.workflow.policy,
            Self::plan_of(before, payload, position, now->0),
            now,
        ) is Some {
            verdict is Refused
        } else {
            verdict is Matched
        }
    }

    /// A message moves a session as a report moves its workflow: as a
    /// message passed over, as a match, or as a match that cannot be planned.
    /// So the laws of the workflow hold of every session.
    pub proof fn law_message_is_a_report(
        &self,
        before: &RecoverySession,
        payload: Option<Seq<u8>>,
        position: PositionView,
        now: Option<Seq<char>>,
    )
        requires
            self.message_taken(before, payload, position, now),
        ensures
            self.workflow.policy == before.workflow.policy,
            self.workflow.stage == stage_on(
                before.workflow.policy,
                before.workflow.stage,
                Signal::Skipped,
            ) || self.workflow.stage == stage_on(
                before.workflow.policy,
                before.workflow.stage,
                Signal::Matched,
            ) || self.workflow.stage == stage_on(
                before.workflow.policy,
                before.workflow.stage,
                Signal::Unplannable,
            ),
    {
    }

    /// Takes in a message read from the DLQ, at the time `now` where the
    /// clock gave one, and says what it made of it.
    pub fn take_message(&mut self, message: RawMessage, now: Option<&str>) -> (r: Verdict)
        requires
            old(self).wf(),
        ensures
            final(self).wf(),
            final(self).message_taken(
                old(self),
                opt_bytes(message.payload),
                message.position@,
                opt_str(now),
            ),
            Self::verdict_fits(
                r,
                old(self),
                opt_bytes(message.payload),
                message.position@,
                opt_str(now),
            ),
    {
        if self.workflow.stage != Stage::Scanning {
            return Verdict::Ignored;
        }
        match examine(&message, self.target.as_str()) {
            Examined::NoPayload => Verdict::NoPayload,
            Examined::Unreadable { reason } => Verdict::Unreadable { reason },
            Examined::Miss => Verdict::PassedOver,
            Examined::Hit { envelope, row } => {
                let time = match now {
                    Some(time) => time,
                    None => {
                        self.detail = NO_TIME.to_owned();
                        self.workflow.handle(Signal::Unplannable);
                        return Verdict::Refused;
                    },
                };
                let plan = match self.purpose {
                    Purpose::Archive => RecoveryPlan::archive(
                        envelope,
                        message.position,
                        self.archive_topic.as_str(),
                        time,
                    ),
                    _ => {
                        let replacement = match &self.replacement {
                            Some(payload) => Some(clone_value(payload)),
                            None => None,
                        };
                        RecoveryPlan::republish(envelope, message.position, replacement, time)
                    },
                };
                if self.workflow.policy.dry_run {
                    self.plan = Some(plan);
                    self.row = Some(row);
                    self.record = None;
                    self.workflow.handle(Signal::Matched);
                    return Verdict::Matched;
                }
                if plan.lacks_destination() {
                    self.detail = NO_DESTINATION.to_owned();
                    self.workflow.handle(Signal::Unplannable);
                    return Verdict::Refused;
                }
                match plan.record() {
                    Ok(record) => {
                        self.plan = Some(plan);
                        self.row = Some(row);
                        self.record = Some(record);
                        self.workflow.handle(Signal::Matched);
                        Verdict::Matched
                    },
                    Err(_) => {
                        // The record of a plan can always be built.
                        self.workflow.handle(Signal::Unplannable);
                        Verdict::Refused
                    },
                }
            },
        }
    }

    /// Takes in a message read from the DLQ, at the time `now`.
    pub fn on_message(&mut self, message: RawMessage, now: &str) -> (r: Verdict)
        requires
            old(self).wf(),
        ensures
            final(self).wf(),
            final(self).message_taken(
                old(self),
                opt_bytes(message.payload),
                message.position@,
                Some(now@),
            ),
            Self::verdict_fits(
                r,
                old(self),
                opt_bytes(message.payload),
                message.position@,
                Some(now@),
            ),
    {
        self.take_message(message, Some(now))
    }

    /// Takes in a message read from the DLQ, at the present time. A clock
    /// that gives no time leaves a match refused.
    pub fn on_message_now(&mut self, message: RawMessage) -> (r: Verdict)
        requires
            old(self).wf(),
        ensures
            final(self).wf(),
            exists|now: Option<Seq<char>>|
                final(self).message_taken(
                    old(self),
                    opt_bytes(message.payload),
                    message.position@,
                    now,
                ) && Self::verdict_fits(
                    r,
                    old(self),
                    opt_bytes(message.payload),
                    message.position@,
                    now,
                ),
    {
        let now = utc_now_rfc3339();
        let ghost time = opt_text(now);
        let verdict = match &now {
            Some(time) => self.take_message(message, Some(time.as_str())),
            None => self.take_message(message, None),
        };
        assert(self.message_taken(
            old(self),
            opt_bytes(message.payload),
            message.position@,
            time,
        ) && Self::verdict_fits(
            verdict,
            old(self),
            opt_bytes(message.payload),
            message.position@,
            time,
        ));
        verdict
    }

    /// Takes in a report that carries no data.
    fn on_signal(&mut self, signal: Signal)
        requires
            old(self).wf(),
            signal != Signal::Matched,
            signal != Signal::Skipped,
            signal != Signal::Unplannable,
        ensures
            final(self).wf(),
            final(self).same_but_stage(old(self)),
            final(self).workflow.stage == stage_on(
                old(self).workflow.policy,
                old(self).workflow.stage,
                signal,
            ),
    {
        self.workflow.handle(signal);
    }

    /// Takes in that every assigned partition has ended.
    pub fn on_end_of_partition(&mut self)
        requires
            old(self).wf(),
        ensures
            final(self).wf(),
            final(self).same_but_stage(old(self)),
            final(self).workflow.stage == stage_on(
                old(self).workflow.policy,
                old(self).workflow.stage,
                Signal::EndOfPartition,
            ),
    {
        self.on_signal(Signal::EndOfPartition);
    }

    /// Takes in that the partition `partition` has ended, while the
    /// partitions `assigned` are read. The scan ends once every assigned
    /// partition has been reported as ended, and not before.
    pub fn on_partition_end(&mut self, partition: i32, assigned: &Vec<i32>)
        requires
            old(self).wf(),
        ensures
            final(self).wf(),
            final(self).same_setup(old(self)),
            final(self).same_found(old(self)),
            final(self).detail@ == old(self).detail@,
            final(self).ended@ == old(self).ended@.push(partition),
            final(self).workflow.stage == if all_ended(assigned@, final(self).ended@) {
                stage_on(
                    old(self).workflow.policy,
                    old(self).workflow.stage,
                    Signal::EndOfPartition,
                )
            } else {
                old(self).workflow.stage
            },
    {
        self.ended.push(partition);
        if covers(assigned, &self.ended) {
            self.on_signal(Signal::EndOfPartition);
        }
    }

    /// Takes in that the broker failed while the DLQ was read, and keeps
    /// what the broker said.
    pub fn on_broker_error(&mut self, reason: &str)
        requires
            old(self).wf(),
        ensures
            final(self).wf(),
            final(self).same_setup(old(self)),
            final(self).same_found(old(self)),
            final(self).ended@ == old(self).ended@,
            final(self).detail@ == if old(self).workflow.stage == Stage::Scanning {
                reason@
            } else {
                old(self).detail@
            },
            final(self).workflow.stage == stage_on(
                old(self).workflow.policy,
                old(self).workflow.stage,
                Signal::BrokerError,
            ),
    {
        if self.workflow.stage == Stage::Scanning {
            self.detail = reason.to_owned();
        }
        self.workflow.handle(Signal::BrokerError);
    }

    /// The report that an answer of the operator amounts to.
    pub open spec fn answer_signal(answer: Seq<char>) -> Signal {
        if is_affirmative(answer) {
            Signal::Affirmed
        } else {
            Signal::Declined
        }
    }

    /// Takes in the operator's answer: a lone `y` or `Y` agrees, anything
    /// else declines.
    pub fn on_confirmation(&mut self, answer: &str)
        requires
            old(self).wf(),
        ensures
            final(self).wf(),
            final(self).same_but_stage(old(self)),
            final(self).workflow.stage == stage_on(
                old(self).workflow.policy,
                old(self).workflow.stage,
                Self::answer_signal(answer@),
            ),
    {
        if confirms(answer) {
            self.on_signal(Signal::Affirmed);
        } else {
            self.on_signal(Signal::Declined);
        }
    }

    /// Takes in the broker's answer to the publish.
    pub fn on_publish_result(&mut self, acknowledged: bool)
        requires
            old(self).wf(),
        ensures
            final(self).wf(),
            final(self).same_but_stage(old(self)),
            final(self).workflow.stage == stage_on(
                old(self).workflow.policy,
                old(self).workflow.stage,
                if acknowledged {
                    Signal::PublishAcked
                } else {
                    Signal::PublishRejected
                },
            ),
    {
        if acknowledged {
            self.on_signal(Signal::PublishAcked);
        } else {
            self.on_signal(Signal::PublishRejected);
        }
    }

    /// Takes in the broker's answer to the offset commit.
    pub fn on_commit_result(&mut self, committed: bool)
        requires
            old(self).wf(),
        ensures
            final(self).wf(),
            final(self).same_but_stage(old(self)),
            final(self).workflow.stage == stage_on(
                old(self).workflow.policy,
                old(self).workflow.stage,
                if committed {
                    Signal::CommitAcked
                } else {
                    Signal::CommitRejected
                },
            ),
    {
        if committed {
            self.on_signal(Signal::CommitAcked);
        } else {
            self.on_signal(Signal::CommitRejected);
        }
    }

    /// Says what the driver is to do now. With `Publish` and `Commit` the
    /// session holds the record to send and the position to commit.
    pub fn next(&mut self) -> (r: Directive)
        requires
            old(self).wf(),
        ensures
            final(self).wf(),
            final(self).same_but_stage(old(self)),
            r == directive_in(old(self).workflow.stage),
            final(self).workflow.stage == stage_once_told(old(self).workflow.stage),
            r == Directive::Publish || r == Directive::Commit ==> final(self).plan is Some
                && final(self).record is Some
                && is_record_of(final(self).record->0, final(self).plan->0@),
    {
        self.workflow.next()
    }

    /// What the operator is shown of the found message; `None` while no
    /// message is found.
    pub fn preview(&self) -> (r: Option<Preview>)
        requires
            self.wf(),
        ensures
            match (self.plan, self.row) {
                (Some(plan), Some(row)) => r matches Some(preview) && is_preview(
                    preview,
                    self.purpose,
                    row@,
                    plan@,
                    self.dlq_topic@,
                    self.replacement_source@,
                    self.workflow.policy.dry_run,
                ),
                _ => r is None,
            },
    {
        match (&self.plan, &self.row) {
            (Some(plan), Some(found)) => {
                let row = found.duplicate();
                let dry_run = self.workflow.policy.dry_run;
                match &plan.replacement {
                    Some(payload) => {
                        let text = pretty_print(payload);
                        let spans = match self.purpose {
                            Purpose::Republish => {
                                let changes = compare_lines(row.payload.as_str(), text.as_str());
                                display_diff_and_plan(
                                    &row,
                                    text.as_str(),
                                    self.dlq_topic.as_str(),
                                    self.replacement_source.as_str(),
                                    dry_run,
                                    &plan.headers,
                                    &changes,
                                )
                            },
                            _ => Vec::new(),
                        };
                        assert(self.purpose != Purpose::Republish ==> span_views(spans@)
                            =~= Seq::empty());
                        Some(Preview { row, new_payload: Some(text), spans })
                    },
                    None => {
                        let spans = match self.purpose {
                            Purpose::Republish => display_republish_info(
                                &row,
                                self.dlq_topic.as_str(),
                                dry_run,
                                &plan.headers,
                            ),
                            _ => Vec::new(),
                        };
                        assert(self.purpose != Purpose::Republish ==> span_views(spans@)
                            =~= Seq::empty());
                        Some(Preview { row, new_payload: None, spans })
                    },
                }
            },
            _ => None,
        }
    }
}

/// Whether message `k` of `messages` leads from state `k` of `sessions` to
/// state `k + 1`, taken in at the time `times[k]`.
pub open spec fn step_taken(
    sessions: Seq<RecoverySession>,
    messages: Seq<RawMessage>,
    times: Seq<Option<Seq<char>>>,
    k: int,
) -> bool {
    sessions[k + 1].message_taken(
        &sessions[k],
        opt_bytes(messages[k].payload),
        messages[k].position@,
        times[k],
    )
}

/// Whether `sessions` are the states that one session goes through while it
/// is fed `messages` one after the other, message `k` at the time `times[k]`.
pub open spec fn fed(
    sessions: Seq<RecoverySession>,
    messages: Seq<RawMessage>,
    times: Seq<Option<Seq<char>>>,
) -> bool {
    &&& sessions.len() == messages.len() + 1
    &&& times.len() == messages.len()
    &&& forall|k: int| 0 <= k < messages.len() ==> #[trigger] step_taken(sessions, messages, times, k)
}

proof fn lemma_fed_until_match(
    sessions: Seq<RecoverySession>,
    messages: Seq<RawMessage>,
    times: Seq<Option<Seq<char>>>,
    n: int,
)
    requires
        fed(sessions, messages, times),
        sessions[0].workflow.stage == Stage::Scanning,
        0 <= n <= messages.len(),
        forall|j: int|
            0 <= j < n ==> !hit(#[trigger] payloads(messages)[j], sessions[0].target@),
    ensures
        sessions[n].workflow.stage == Stage::Scanning,
        sessions[n].same_setup(&sessions[0]),
        sessions[n].same_found(&sessions[0]),
    decreases n,
{
    if n > 0 {
        lemma_fed_until_match(sessions, messages, times, n - 1);
        assert(step_taken(sessions, messages, times, n - 1));
        assert(payloads(messages)[n - 1] == opt_bytes(messages[n - 1].payload));
    }
}

proof fn lemma_fed_after_match(
    sessions: Seq<RecoverySession>,
    messages: Seq<RawMessage>,
    times: Seq<Option<Seq<char>>>,
    m: int,
    n: int,
)
    requires
        fed(sessions, messages, times),
        0 <= m <= n <= messages.len(),
        sessions[m].workflow.stage != Stage::Scanning,
    ensures
        sessions[n].workflow.stage == sessions[m].workflow.stage,
        sessions[n].same_found(&sessions[m]),
    decreases n - m,
{
    if m < n {
        lemma_fed_after_match(sessions, messages, times, m, n - 1);
        assert(step_taken(sessions, messages, times, n - 1));
    }
}

/// A session scans as `scan_topic` does. Feed a session that is scanning the
/// messages of a topic one after the other. Where the topic holds no match,
/// the session is still scanning after the last message and has found
/// nothing more. Where message `i` is the first match, the session scans up
/// to it, leaves the scan at it, and nothing after it changes what was
/// found; and where the match is not refused, the plan is that of the
/// envelope that `found` names, at the position of message `i`.
pub proof fn law_session_scans_to_first_match(
    sessions: Seq<RecoverySession>,
    messages: Seq<RawMessage>,
    times: Seq<Option<Seq<char>>>,
)
    requires
        fed(sessions, messages, times),
        sessions[0].workflow.stage == Stage::Scanning,
    ensures
        match first_match(payloads(messages), sessions[0].target@) {
            None => forall|k: int|
                0 <= k <= messages.len() ==> (#[trigger] sessions[k]).workflow.stage
                    == Stage::Scanning && sessions[k].same_found(&sessions[0]),
            Some(i) => {
                &&& forall|k: int|
                    0 <= k <= i ==> (#[trigger] sessions[k]).workflow.stage == Stage::Scanning
                &&& forall|k: int|
                    i < k <= messages.len() ==> (#[trigger] sessions[k]).workflow.stage
                        == sessions[i + 1].workflow.stage && sessions[k].same_found(
                        &sessions[i + 1],
                    )
                &&& sessions[i + 1].workflow.stage != Stage::Scanning
                &&& refusal(
                    sessions[0].workflow.policy,
                    plan_on_match(
                        sessions[0].purpose,
                        found(payloads(messages), sessions[0].target@)->0,
                        messages[i].position@,
                        opt_doc(sessions[0].replacement),
                        sessions[0].archive_topic@,
                        times[i]->0,
                    ),
                    times[i],
                ) is None ==> opt_plan(sessions[i + 1].plan) == Some(
                    plan_on_match(
                        sessions[0].purpose,
                        found(payloads(messages), sessions[0].target@)->0,
                        messages[i].position@,
                        opt_doc(sessions[0].replacement),
                        sessions[0].archive_topic@,
                        times[i]->0,
                    ),
                ) && opt_row(sessions[i + 1].row) == row_carried(payloads(messages)[i])
            },
        },
{
    let topic = payloads(messages);
    let target = sessions[0].target@;
    lemma_first_match_is_least(topic, target);
    match first_match(topic, target) {
        None => {
            assert forall|k: int| 0 <= k <= messages.len() implies (#[trigger] sessions[k]).workflow.stage
                == Stage::Scanning && sessions[k].same_found(&sessions[0]) by {
                lemma_fed_until_match(sessions, messages, times, k);
            }
        },
        Some(i) => {
            assert forall|k: int| 0 <= k <= i implies (#[trigger] sessions[k]).workflow.stage
                == Stage::Scanning by {
                lemma_fed_until_match(sessions, messages, times, k);
            }
            lemma_fed_until_match(sessions, messages, times, i);
            assert(step_taken(sessions, messages, times, i));
            assert(topic[i] == opt_bytes(messages[i].payload));
            assert forall|k: int| i < k <= messages.len() implies (#[trigger] sessions[k]).workflow.stage
                == sessions[i + 1].workflow.stage && sessions[k].same_found(
                &sessions[i + 1],
            ) by {
                lemma_fed_after_match(sessions, messages, times, i + 1, k);
            }
        },
    }
}

} // verus!
