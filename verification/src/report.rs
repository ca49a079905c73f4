//! What the operator is told while a recovery runs and when it ends, and the
//! exit code that the process ends with.

use crate::preview::{dry_run_info, plain, print_dry_run_info, push_span, Span, span_views, Style};
use crate::session::Purpose;
use crate::workflow::Stage;
use crate::model::opt_text;
use vstd::prelude::*;
use vstd::string::StringExecFns;

verus! {

pub const NOT_FOUND: &'static str = "Message not found";

pub const SCAN_FAILED: &'static str = "Kafka error while reading message";

pub const PLAN_FAILED: &'static str = "The message cannot be recovered";

pub const PUBLISH_FAILED: &'static str =
    "Failed to publish: nothing was committed, the message is still in the DLQ";

pub const COMMIT_FAILED: &'static str =
    "Failed to commit DLQ offset: the message was published and may be delivered again from the DLQ";

/// The failure that a stage stands for, if it stands for one. Each failure
/// has a message of its own.
pub open spec fn failure_of(stage: Stage) -> Option<Seq<char>> {
    match stage {
        Stage::NotFound => Some(NOT_FOUND@),
        Stage::ScanFailed => Some(SCAN_FAILED@),
        Stage::PlanFailed => Some(PLAN_FAILED@),
        Stage::PublishFailed => Some(PUBLISH_FAILED@),
        Stage::CommitFailed => Some(COMMIT_FAILED@),
        _ => None,
    }
}

/// The view of an optional static text.
pub open spec fn opt_static(text: Option<&'static str>) -> Option<Seq<char>> {
    match text {
        Some(s) => Some(s@),
        None => None,
    }
}

/// The message of the failure that `stage` stands for.
pub fn failure_message(stage: Stage) -> (r: Option<&'static str>)
    ensures
        opt_static(r) == failure_of(stage),
{
    match stage {
        Stage::NotFound => Some(NOT_FOUND),
        Stage::ScanFailed => Some(SCAN_FAILED),
        Stage::PlanFailed => Some(PLAN_FAILED),
        Stage::PublishFailed => Some(PUBLISH_FAILED),
        Stage::CommitFailed => Some(COMMIT_FAILED),
        _ => None,
    }
}

/// Whether a failure comes with a detail: why the broker failed during the
/// scan, or why the found message is refused.
pub open spec fn has_detail(stage: Stage) -> bool {
    stage == Stage::ScanFailed || stage == Stage::PlanFailed
}

/// What is reported of a recovery that ended in `stage`: the message of the
/// failure, followed by the detail where the failure comes with one; nothing
/// where the stage is no failure.
pub open spec fn failure_text(stage: Stage, detail: Seq<char>) -> Option<Seq<char>> {
    match failure_of(stage) {
        Some(message) => Some(
            if has_detail(stage) && detail.len() > 0 {
                message + ": "@ + detail
            } else {
                message
            },
        ),
        None => None,
    }
}

/// What is reported of a recovery that ended in `stage` with `detail`.
pub fn failure_report(stage: Stage, detail: &str) -> (r: Option<String>)
    ensures
        opt_text(r) == failure_text(stage, detail@),
{
    match failure_message(stage) {
        None => None,
        Some(message) => {
            let mut text = message.to_owned();
            let detailed = match stage {
                Stage::ScanFailed | Stage::PlanFailed => !detail.is_empty(),
                _ => false,
            };
            if detailed {
                text.append(": ");
                text.append(detail);
            }
            Some(text)
        },
    }
}

/// The exit code of a process whose recovery ended in `stage`: one for a
/// failure, zero otherwise. A cancelled recovery and a dry run are no
/// failures.
pub fn exit_code(stage: Stage) -> (r: i32)
    ensures
        r == (if failure_of(stage) is Some {
            1i32
        } else {
            0i32
        }),
{
    match failure_message(stage) {
        Some(_) => 1,
        None => 0,
    }
}

/// A failed publish and a failed commit are told apart: the operator reads
/// from the message whether the DLQ message is untouched or may come twice.
pub proof fn law_failures_are_told_apart()
    ensures
        failure_of(Stage::PublishFailed) != failure_of(Stage::CommitFailed),
{
    reveal_strlit(
        "Failed to publish: nothing was committed, the message is still in the DLQ",
    );
    reveal_strlit(
        "Failed to commit DLQ offset: the message was published and may be delivered again from the DLQ",
    );
    assert(PUBLISH_FAILED@.len() != COMMIT_FAILED@.len());
}

/// The question that the operator is asked.
pub open spec fn confirmation_prompt() -> Seq<(Seq<char>, Style)> {
    seq![
        plain("\n"@),
        ("Proceed with this change? [y/N]:"@, Style::YellowBold),
        plain(" "@),
    ]
}

/// Renders the question that the operator is asked.
pub fn confirm_action() -> (r: Vec<Span>)
    ensures
        span_views(r@) == confirmation_prompt(),
{
    let mut out: Vec<Span> = Vec::new();
    assert(span_views(out@) =~= Seq::empty());
    push_span(&mut out, "\n", Style::Plain);
    push_span(&mut out, "Proceed with this change? [y/N]:", Style::YellowBold);
    push_span(&mut out, " ", Style::Plain);
    assert(span_views(out@) =~= confirmation_prompt());
    out
}

/// What the operator is told when a recovery enters `stage`.
pub open spec fn notice_for(
    purpose: Purpose,
    stage: Stage,
    dlq_topic: Seq<char>,
    destination: Seq<char>,
) -> Seq<(Seq<char>, Style)> {
    match (purpose, stage) {
        (Purpose::Republish, Stage::Publishing) => seq![
            plain("\nPublishing to "@),
            plain(destination),
            plain("...\n"@),
        ],
        (Purpose::Republish, Stage::Committing) => seq![
            plain("✅ Message published successfully\n"@),
        ],
        (Purpose::Republish, Stage::Committed) => seq![
            plain("✅ DLQ message committed (removed from "@),
            plain(dlq_topic),
            plain(")\n"@),
            plain("\nDone!\n"@),
        ],
        (Purpose::Republish, Stage::Previewed) => dry_run_info(dlq_topic, destination),
        (Purpose::Republish, Stage::Cancelled) => seq![plain("Operation cancelled.\n"@)],
        (Purpose::Archive, Stage::Publishing) => seq![plain("Archiving..\n"@)],
        (Purpose::Archive, Stage::Committing) => seq![
            plain("Archived to "@),
            plain(destination),
            plain("\n"@),
        ],
        _ => Seq::empty(),
    }
}

/// Renders what the operator is told when a recovery enters `stage`.
pub fn progress_notice(purpose: Purpose, stage: Stage, dlq_topic: &str, destination: &str) -> (r:
    Vec<Span>)
    ensures
        span_views(r@) == notice_for(purpose, stage, dlq_topic@, destination@),
{
    let mut out: Vec<Span> = Vec::new();
    assert(span_views(out@) =~= Seq::empty());
    match (purpose, stage) {
        (Purpose::Republish, Stage::Publishing) => {
            push_span(&mut out, "\nPublishing to ", Style::Plain);
            push_span(&mut out, destination, Style::Plain);
            push_span(&mut out, "...\n", Style::Plain);
        },
        (Purpose::Republish, Stage::Committing) => {
            push_span(&mut out, "✅ Message published successfully\n", Style::Plain);
        },
        (Purpose::Republish, Stage::Committed) => {
            push_span(&mut out, "✅ DLQ message committed (removed from ", Style::Plain);
            push_span(&mut out, dlq_topic, Style::Plain);
            push_span(&mut out, ")\n", Style::Plain);
            push_span(&mut out, "\nDone!\n", Style::Plain);
        },
        (Purpose::Republish, Stage::Previewed) => {
            return print_dry_run_info(dlq_topic, destination);
        },
        (Purpose::Republish, Stage::Cancelled) => {
            push_span(&mut out, "Operation cancelled.\n", Style::Plain);
        },
        (Purpose::Archive, Stage::Publishing) => {
            push_span(&mut out, "Archiving..\n", Style::Plain);
        },
        (Purpose::Archive, Stage::Committing) => {
            push_span(&mut out, "Archived to ", Style::Plain);
            push_span(&mut out, destination, Style::Plain);
            push_span(&mut out, "\n", Style::Plain);
        },
        _ => {},
    }
    assert(span_views(out@) =~= notice_for(purpose, stage, dlq_topic@, destination@));
    out
}

} // verus!
