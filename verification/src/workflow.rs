//! The order of a recovery attempt: scan, plan, confirm, publish, commit.
//!
//! A `Workflow` is driven from outside. The driver asks it what to do
//! (`Workflow::next`), does it, and reports what happened
//! (`Workflow::handle`). The workflow never hands out `Directive::Commit`
//! unless the broker has acknowledged the publish before, whatever the driver
//! reports and in whatever order: the laws at the end of this file say so.

use vstd::prelude::*;

verus! {

/// Where a recovery attempt stands.
#[derive(Clone, Copy, PartialEq, Eq, Structural, Debug)]
pub enum Stage {
    /// Reading the DLQ for the message.
    Scanning,
    /// The message was found and previewed; the operator has not answered yet.
    AwaitingConfirmation,
    /// Cleared to publish; nothing has been sent.
    Planned,
    /// The outgoing message was handed out; the broker has not answered yet.
    Publishing,
    /// The broker acknowledged the outgoing message.
    Published,
    /// The DLQ offset was handed out for commit; the broker has not answered yet.
    Committing,
    /// Published and committed: the message has left the DLQ.
    Committed,
    /// The message was found and shown; nothing else was asked for.
    Previewed,
    /// The operator declined.
    Cancelled,
    /// The DLQ ended without the message.
    NotFound,
    /// The broker failed while the DLQ was read.
    ScanFailed,
    /// The message was found but the outgoing message could not be built.
    PlanFailed,
    /// The publish was rejected or timed out. The DLQ is untouched.
    PublishFailed,
    /// The commit failed after the publish was acknowledged. The outgoing
    /// message is delivered and the DLQ message may be delivered again.
    CommitFailed,
}

/// What the driver reports.
#[derive(Clone, Copy, PartialEq, Eq, Structural, Debug)]
pub enum Signal {
    /// A message was read that is unreadable or is not the one looked for.
    Skipped,
    /// The message looked for was read, and the outgoing message is built.
    Matched,
    /// The message looked for was read, but no outgoing message could be built.
    Unplannable,
    /// Every assigned partition has ended.
    EndOfPartition,
    /// The broker failed while the DLQ was read.
    BrokerError,
    /// The operator agreed.
    Affirmed,
    /// The operator answered anything else.
    Declined,
    /// The broker acknowledged the publish.
    PublishAcked,
    /// The publish was rejected or timed out.
    PublishRejected,
    /// The broker accepted the offset commit.
    CommitAcked,
    /// The offset commit failed.
    CommitRejected,
}

/// What the driver is to do next.
#[derive(Clone, Copy, PartialEq, Eq, Structural, Debug)]
pub enum Directive {
    /// Read the next message of the DLQ and report it.
    Poll,
    /// Show the preview, ask the operator and report the answer.
    Confirm,
    /// Send the outgoing message and report the broker's answer.
    Publish,
    /// Commit the DLQ offset of the matched message and report the outcome.
    Commit,
    /// Report the answer to what is already under way.
    Wait,
    /// Nothing: the attempt is over.
    Stop,
}

/// What a command asks of a recovery attempt.
#[derive(Clone, Copy, PartialEq, Eq, Structural, Debug)]
pub struct Policy {
    /// Stop after the preview: never publish, never commit.
    pub dry_run: bool,
    /// Ask the operator before publishing.
    pub confirm: bool,
}

/// Whether the attempt is over in `stage`.
pub open spec fn is_terminal(stage: Stage) -> bool {
    stage != Stage::Scanning && stage != Stage::AwaitingConfirmation && stage != Stage::Planned
        && stage != Stage::Publishing && stage != Stage::Published && stage != Stage::Committing
}

/// The stage that a report leads to. A report that the stage does not wait
/// for changes nothing.
pub open spec fn stage_on(policy: Policy, stage: Stage, signal: Signal) -> Stage {
    match (stage, signal) {
        (Stage::Scanning, Signal::Matched) => if policy.dry_run {
            Stage::Previewed
        } else if policy.confirm {
            Stage::AwaitingConfirmation
        } else {
            Stage::Planned
        },
        (Stage::Scanning, Signal::Unplannable) => Stage::PlanFailed,
        (Stage::Scanning, Signal::EndOfPartition) => Stage::NotFound,
        (Stage::Scanning, Signal::BrokerError) => Stage::ScanFailed,
        (Stage::AwaitingConfirmation, Signal::Affirmed) => Stage::Planned,
        (Stage::AwaitingConfirmation, Signal::Declined) => Stage::Cancelled,
        (Stage::Publishing, Signal::PublishAcked) => Stage::Published,
        (Stage::Publishing, Signal::PublishRejected) => Stage::PublishFailed,
        (Stage::Committing, Signal::CommitAcked) => Stage::Committed,
        (Stage::Committing, Signal::CommitRejected) => Stage::CommitFailed,
        _ => stage,
    }
}

/// What the driver is told in `stage`.
pub open spec fn directive_in(stage: Stage) -> Directive {
    match stage {
        Stage::Scanning => Directive::Poll,
        Stage::AwaitingConfirmation => Directive::Confirm,
        Stage::Planned => Directive::Publish,
        Stage::Published => Directive::Commit,
        Stage::Publishing | Stage::Committing => Directive::Wait,
        _ => Directive::Stop,
    }
}

/// The stage once the directive of `stage` is handed out: publishing and
/// committing are under way from the moment the driver is told to do them.
pub open spec fn stage_once_told(stage: Stage) -> Stage {
    match stage {
        Stage::Planned => Stage::Publishing,
        Stage::Published => Stage::Committing,
        _ => stage,
    }
}

/// One recovery attempt.
pub struct Workflow {
    pub policy: Policy,
    pub stage: Stage,
}

impl Workflow {
    /// A fresh attempt, about to read the DLQ.
    pub fn new(policy: Policy) -> (r: Workflow)
        ensures
            r.policy == policy,
            r.stage == Stage::Scanning,
    {
        Workflow { policy, stage: Stage::Scanning }
    }

    /// Takes in what the driver reports.
    pub fn handle(&mut self, signal: Signal)
        ensures
            final(self).policy == old(self).policy,
            final(self).stage == stage_on(old(self).policy, old(self).stage, signal),
    {
        let stage = match (self.stage, signal) {
            (Stage::Scanning, Signal::Matched) => {
                if self.policy.dry_run {
                    Stage::Previewed
                } else if self.policy.confirm {
                    Stage::AwaitingConfirmation
                } else {
                    Stage::Planned
                }
            },
            (Stage::Scanning, Signal::Unplannable) => Stage::PlanFailed,
            (Stage::Scanning, Signal::EndOfPartition) => Stage::NotFound,
            (Stage::Scanning, Signal::BrokerError) => Stage::ScanFailed,
            (Stage::AwaitingConfirmation, Signal::Affirmed) => Stage::Planned,
            (Stage::AwaitingConfirmation, Signal::Declined) => Stage::Cancelled,
            (Stage::Publishing, Signal::PublishAcked) => Stage::Published,
            (Stage::Publishing, Signal::PublishRejected) => Stage::PublishFailed,
            (Stage::Committing, Signal::CommitAcked) => Stage::Committed,
            (Stage::Committing, Signal::CommitRejected) => Stage::CommitFailed,
            (stage, _) => stage,
        };
        self.stage = stage;
    }

    /// Says what the driver is to do now, and counts it as under way.
    pub fn next(&mut self) -> (r: Directive)
        ensures
            r == directive_in(old(self).stage),
            final(self).policy == old(self).policy,
            final(self).stage == stage_once_told(old(self).stage),
    {
        match self.stage {
            Stage::Scanning => Directive::Poll,
            Stage::AwaitingConfirmation => Directive::Confirm,
            Stage::Planned => {
                self.stage = Stage::Publishing;
                Directive::Publish
            },
            Stage::Published => {
                self.stage = Stage::Committing;
                Directive::Commit
            },
            Stage::Publishing | Stage::Committing => Directive::Wait,
            _ => Directive::Stop,
        }
    }

    /// Whether the attempt is over.
    pub fn is_over(&self) -> (r: bool)
        ensures
            r == is_terminal(self.stage),
    {
        match self.stage {
            Stage::Scanning | Stage::AwaitingConfirmation | Stage::Planned | Stage::Publishing
            | Stage::Published | Stage::Committing => false,
            _ => true,
        }
    }
}

/// One call that a driver makes.
pub enum Call {
    /// `Workflow::next`.
    Next,
    /// `Workflow::handle` with the given report.
    Handle(Signal),
}

/// The stage after one call.
pub open spec fn stage_after_call(policy: Policy, stage: Stage, call: Call) -> Stage {
    match call {
        Call::Next => stage_once_told(stage),
        Call::Handle(signal) => stage_on(policy, stage, signal),
    }
}

/// The stage of a fresh workflow after the first `n` of `calls`.
pub open spec fn stage_at(policy: Policy, calls: Seq<Call>, n: nat) -> Stage
    decreases n,
{
    if n == 0 {
        Stage::Scanning
    } else {
        stage_after_call(policy, stage_at(policy, calls, (n - 1) as nat), calls[n - 1])
    }
}

/// Whether call number `i` of `calls` is a `next` that hands out `directive`.
pub open spec fn told_at(policy: Policy, calls: Seq<Call>, i: int, directive: Directive) -> bool {
    &&& 0 <= i < calls.len()
    &&& calls[i] == Call::Next
    &&& directive_in(stage_at(policy, calls, i as nat)) == directive
}

/// Whether call number `j` of `calls` reports a publish acknowledgment that
/// the workflow was waiting for.
pub open spec fn publish_acked_at(policy: Policy, calls: Seq<Call>, j: int) -> bool {
    &&& 0 <= j < calls.len()
    &&& calls[j] == Call::Handle(Signal::PublishAcked)
    &&& stage_at(policy, calls, j as nat) == Stage::Publishing
}

/// Whether call number `j` of `calls` reports the operator's agreement at the
/// moment the workflow was waiting for an answer.
pub open spec fn affirmed_at(policy: Policy, calls: Seq<Call>, j: int) -> bool {
    &&& 0 <= j < calls.len()
    &&& calls[j] == Call::Handle(Signal::Affirmed)
    &&& stage_at(policy, calls, j as nat) == Stage::AwaitingConfirmation
}

/// An attempt that is over stays over: in a terminal stage no call changes
/// the stage, and the driver is told to stop. So after a failed publish
/// nothing is committed, and after a failed commit nothing is sent again.
pub proof fn law_over_stays_over(policy: Policy, stage: Stage, call: Call)
    requires
        is_terminal(stage),
    ensures
        stage_after_call(policy, stage, call) == stage,
        directive_in(stage) == Directive::Stop,
{
}

/// How far an attempt has come.
pub open spec fn progress(stage: Stage) -> int {
    match stage {
        Stage::Scanning => 0,
        Stage::AwaitingConfirmation => 1,
        Stage::Planned => 2,
        Stage::Publishing => 3,
        Stage::Published => 4,
        Stage::Committing => 5,
        _ => 6,
    }
}

proof fn lemma_progress_never_falls(policy: Policy, calls: Seq<Call>, m: nat, n: nat)
    requires
        m <= n <= calls.len(),
    ensures
        progress(stage_at(policy, calls, m)) <= progress(stage_at(policy, calls, n)),
    decreases n - m,
{
    if m < n {
        lemma_progress_never_falls(policy, calls, m, (n - 1) as nat);
    }
}

/// Nothing is sent twice and nothing is committed twice. Whatever calls a
/// driver makes on a fresh workflow, at most one of them hands out
/// `Publish`, and at most one hands out `Commit`.
pub proof fn law_told_at_most_once(
    policy: Policy,
    calls: Seq<Call>,
    i: int,
    j: int,
    directive: Directive,
)
    requires
        directive == Directive::Publish || directive == Directive::Commit,
        told_at(policy, calls, i, directive),
        told_at(policy, calls, j, directive),
    ensures
        i == j,
{
    if i < j {
        // Once told, the attempt has moved on, and it never moves back.
        assert(stage_at(policy, calls, (i + 1) as nat) == stage_once_told(
            stage_at(policy, calls, i as nat),
        ));
        lemma_progress_never_falls(policy, calls, (i + 1) as nat, j as nat);
    } else if j < i {
        assert(stage_at(policy, calls, (j + 1) as nat) == stage_once_told(
            stage_at(policy, calls, j as nat),
        ));
        lemma_progress_never_falls(policy, calls, (j + 1) as nat, i as nat);
    }
}

/// Whether the stage lies before any publish: nothing has been handed out
/// but polls and the request for confirmation.
pub open spec fn before_publish(stage: Stage) -> bool {
    stage == Stage::Scanning || stage == Stage::AwaitingConfirmation || stage == Stage::Planned
        || stage == Stage::Previewed || stage == Stage::Cancelled || stage == Stage::NotFound
        || stage == Stage::ScanFailed || stage == Stage::PlanFailed
}

/// A workflow that has reached `Publishing` or `PublishFailed` was told to
/// publish at an earlier call.
proof fn lemma_publishing_was_told(policy: Policy, calls: Seq<Call>, n: nat) -> (k: int)
    requires
        n <= calls.len(),
        !before_publish(stage_at(policy, calls, n)),
    ensures
        k < n,
        told_at(policy, calls, k, Directive::Publish),
    decreases n,
{
    if n == 0 {
        0
    } else {
        let before = stage_at(policy, calls, (n - 1) as nat);
        if before_publish(before) {
            // Only `next` in stage `Planned` leaves the stages before a publish.
            assert(before == Stage::Planned && calls[n - 1] == Call::Next);
            n - 1
        } else {
            lemma_publishing_was_told(policy, calls, (n - 1) as nat)
        }
    }
}

/// Whether the broker's acknowledgment of the publish has been taken in.
pub open spec fn after_ack(stage: Stage) -> bool {
    stage == Stage::Published || stage == Stage::Committing || stage == Stage::Committed || stage
        == Stage::CommitFailed
}

/// A workflow that has reached `Published` or any stage behind it took in a
/// publish acknowledgment at an earlier call, while it was publishing.
proof fn lemma_published_was_acked(policy: Policy, calls: Seq<Call>, n: nat) -> (j: int)
    requires
        n <= calls.len(),
        after_ack(stage_at(policy, calls, n)),
    ensures
        j < n,
        publish_acked_at(policy, calls, j),
    decreases n,
{
    if n == 0 {
        0
    } else {
        let before = stage_at(policy, calls, (n - 1) as nat);
        if after_ack(before) {
            lemma_published_was_acked(policy, calls, (n - 1) as nat)
        } else {
            assert(before == Stage::Publishing && calls[n - 1] == Call::Handle(
                Signal::PublishAcked,
            ));
            n - 1
        }
    }
}

/// Commit never comes before a publish acknowledgment. Whatever calls a
/// driver makes on a fresh workflow, and whatever it reports: if call `i`
/// hands out `Commit`, then at an earlier call `j` the workflow took in the
/// broker's acknowledgment of a publish, and at a call `k` before that it had
/// handed out `Publish`.
pub proof fn law_commit_follows_publish_ack(policy: Policy, calls: Seq<Call>, i: int) -> (r: (
    int,
    int,
))
    requires
        told_at(policy, calls, i, Directive::Commit),
    ensures
        r.0 < r.1 < i,
        told_at(policy, calls, r.0, Directive::Publish),
        publish_acked_at(policy, calls, r.1),
{
    let j = lemma_published_was_acked(policy, calls, i as nat);
    let k = lemma_publishing_was_told(policy, calls, j as nat);
    (k, j)
}

/// In a dry run the workflow stays before any publish.
proof fn lemma_dry_run_stays_before_publish(policy: Policy, calls: Seq<Call>, n: nat)
    requires
        policy.dry_run,
        n <= calls.len(),
    ensures
        before_publish(stage_at(policy, calls, n)),
        stage_at(policy, calls, n) != Stage::Planned,
        stage_at(policy, calls, n) != Stage::AwaitingConfirmation,
    decreases n,
{
    if n > 0 {
        lemma_dry_run_stays_before_publish(policy, calls, (n - 1) as nat);
    }
}

/// A dry run never publishes and never commits. Whatever calls a driver
/// makes on a fresh workflow whose policy is a dry run, no call hands out
/// `Publish` or `Commit`.
pub proof fn law_dry_run_never_publishes(policy: Policy, calls: Seq<Call>, i: int)
    requires
        policy.dry_run,
    ensures
        !told_at(policy, calls, i, Directive::Publish),
        !told_at(policy, calls, i, Directive::Commit),
{
    if 0 <= i < calls.len() {
        lemma_dry_run_stays_before_publish(policy, calls, i as nat);
    }
}

/// Whether none of the first `n` calls reports the operator's agreement while
/// the workflow waits for an answer.
pub open spec fn never_affirmed(policy: Policy, calls: Seq<Call>, n: nat) -> bool {
    forall|j: int| 0 <= j < n ==> !affirmed_at(policy, calls, j)
}

/// Without the operator's agreement a workflow that asks for it stays short
/// of `Planned`.
proof fn lemma_unconfirmed_stays_unplanned(policy: Policy, calls: Seq<Call>, n: nat)
    requires
        policy.confirm,
        n <= calls.len(),
        never_affirmed(policy, calls, n),
    ensures
        before_publish(stage_at(policy, calls, n)),
        stage_at(policy, calls, n) != Stage::Planned,
    decreases n,
{
    if n > 0 {
        lemma_unconfirmed_stays_unplanned(policy, calls, (n - 1) as nat);
        assert(!affirmed_at(policy, calls, n - 1));
    }
}

/// Nothing is published or committed without the operator's agreement.
/// Whatever calls a driver makes on a fresh workflow that asks for
/// confirmation: a call that hands out `Publish` or `Commit` comes after a
/// call that reported the operator's agreement.
pub proof fn law_no_side_effect_without_agreement(policy: Policy, calls: Seq<Call>, i: int)
    requires
        policy.confirm,
        told_at(policy, calls, i, Directive::Publish) || told_at(
            policy,
            calls,
            i,
            Directive::Commit,
        ),
    ensures
        exists|j: int| j < i && affirmed_at(policy, calls, j),
{
    if never_affirmed(policy, calls, i as nat) {
        lemma_unconfirmed_stays_unplanned(policy, calls, i as nat);
    }
}

/// A declined confirmation ends the attempt with no side effect. If call
/// `j` reports that the operator declined while the workflow waits for the
/// answer, then no call before or after it hands out `Publish` or `Commit`,
/// and the workflow is `Cancelled` from then on.
pub proof fn law_decline_cancels(policy: Policy, calls: Seq<Call>, j: int, i: int)
    requires
        0 <= j < calls.len(),
        calls[j] == Call::Handle(Signal::Declined),
        stage_at(policy, calls, j as nat) == Stage::AwaitingConfirmation,
    ensures
        !told_at(policy, calls, i, Directive::Publish),
        !told_at(policy, calls, i, Directive::Commit),
        j < i <= calls.len() ==> stage_at(policy, calls, i as nat) == Stage::Cancelled,
{
    if 0 <= i <= calls.len() {
        if i <= j {
            lemma_reaches_through_earlier_stages(policy, calls, i as nat, j as nat);
        } else {
            lemma_cancelled_stays(policy, calls, (j + 1) as nat, i as nat);
        }
    }
}

/// A workflow that waits for confirmation at call `m` was before any publish,
/// and not yet cleared to publish, at every earlier call.
proof fn lemma_reaches_through_earlier_stages(policy: Policy, calls: Seq<Call>, n: nat, m: nat)
    requires
        n <= m <= calls.len(),
        stage_at(policy, calls, m) == Stage::AwaitingConfirmation,
    ensures
        stage_at(policy, calls, n) == Stage::Scanning || stage_at(policy, calls, n)
            == Stage::AwaitingConfirmation,
    decreases m - n,
{
    if n < m {
        lemma_reaches_through_earlier_stages(policy, calls, n + 1, m);
    }
}

/// Once cancelled, always cancelled.
proof fn lemma_cancelled_stays(policy: Policy, calls: Seq<Call>, n: nat, m: nat)
    requires
        n <= m <= calls.len(),
        stage_at(policy, calls, n) == Stage::Cancelled,
    ensures
        stage_at(policy, calls, m) == Stage::Cancelled,
    decreases m - n,
{
    if n < m {
        lemma_cancelled_stays(policy, calls, n, (m - 1) as nat);
    }
}

} // verus!
