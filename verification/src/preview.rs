//! What the operator is shown before a recovery: the message, its headers,
//! the payload before and after, their difference, and the planned action.
//!
//! A preview is a list of spans, each a text with a style. Written out one
//! after the other, the texts are the preview; how a style looks on a
//! terminal is for the caller.

use crate::diff::{change_views, ChangeKind, LineChange, opt_changes};
use crate::model::{DlqMessage, MessageView};
use crate::plan::{Header, header_views};
use crate::text::{decimal, decimal_string, repeat, repeated};
use vstd::prelude::*;

verus! {

/// How a span is shown.
#[derive(Clone, Copy, PartialEq, Eq, Structural, Debug)]
pub enum Style {
    Plain,
    Bold,
    Cyan,
    Green,
    Yellow,
    YellowBold,
    Red,
    Dimmed,
}

/// A piece of text in one style.
pub struct Span {
    pub text: String,
    pub style: Style,
}

/// The spans as pairs of text and style, in their order.
pub open spec fn span_views(spans: Seq<Span>) -> Seq<(Seq<char>, Style)> {
    spans.map_values(|s: Span| (s.text@, s.style))
}

/// Appends one span.
pub fn push_span(out: &mut Vec<Span>, text: &str, style: Style)
    ensures
        span_views(final(out)@) == span_views(old(out)@).push((text@, style)),
{
    out.push(Span { text: text.to_owned(), style });
    assert(span_views(out@) =~= span_views(old(out)@).push((text@, style)));
}

/// The width of a horizontal rule.
pub const RULE_WIDTH: usize = 65;

/// A span of unstyled text.
pub open spec fn plain(text: Seq<char>) -> (Seq<char>, Style) {
    (text, Style::Plain)
}

/// A horizontal rule on a line of its own.
pub open spec fn rule_line() -> Seq<(Seq<char>, Style)> {
    seq![plain(repeated("="@, RULE_WIDTH as nat)), plain("\n"@)]
}

/// Appends a horizontal rule.
pub fn push_rule(out: &mut Vec<Span>)
    ensures
        span_views(final(out)@) == span_views(old(out)@) + rule_line(),
{
    let rule = repeat("=", RULE_WIDTH);
    push_span(out, rule.as_str(), Style::Plain);
    push_span(out, "\n", Style::Plain);
    assert(span_views(out@) =~= span_views(old(out)@) + rule_line());
}

/// The banner: which DLQ the message was found in, and whether this is a
/// dry run.
pub open spec fn banner(dlq_topic: Seq<char>, dry_run: bool) -> Seq<(Seq<char>, Style)> {
    seq![plain("\n"@)] + rule_line() + seq![
        plain("Found message in DLQ: "@),
        (dlq_topic, Style::Cyan),
        plain("\n"@),
    ] + (if dry_run {
        seq![("[DRY RUN MODE]"@, Style::YellowBold), plain("\n"@)]
    } else {
        Seq::empty()
    }) + rule_line()
}

/// Appends the banner.
pub fn push_banner(out: &mut Vec<Span>, dlq_topic: &str, dry_run: bool)
    ensures
        span_views(final(out)@) == span_views(old(out)@) + banner(dlq_topic@, dry_run),
{
    push_span(out, "\n", Style::Plain);
    push_rule(out);
    push_span(out, "Found message in DLQ: ", Style::Plain);
    push_span(out, dlq_topic, Style::Cyan);
    push_span(out, "\n", Style::Plain);
    if dry_run {
        push_span(out, "[DRY RUN MODE]", Style::YellowBold);
        push_span(out, "\n", Style::Plain);
    }
    push_rule(out);
    assert(span_views(out@) =~= span_views(old(out)@) + banner(dlq_topic@, dry_run));
}

/// The fields that identify the message and say why it is in the DLQ.
pub open spec fn metadata_section(message: MessageView) -> Seq<(Seq<char>, Style)> {
    seq![
        plain("\n"@),
        ("MESSAGE METADATA:"@, Style::Bold),
        plain("\n"@),
        plain("  ID:             "@),
        plain(message.id),
        plain("\n"@),
        plain("  Correlation ID: "@),
        plain(message.correlation_id),
        plain("\n"@),
        plain("  Failure Reason: "@),
        plain(message.reason),
        plain("\n"@),
        plain("  Retry Count:    "@),
        plain(decimal(message.retries as int)),
        plain("\n"@),
        plain("  Original Topic: "@),
        (message.original_topic, Style::Green),
        plain("\n"@),
        plain("  Moved to DLQ:   "@),
        plain(message.moved_at),
        plain("\n"@),
    ]
}

/// Appends the metadata section.
pub fn push_metadata_section(out: &mut Vec<Span>, message: &DlqMessage)
    ensures
        span_views(final(out)@) == span_views(old(out)@) + metadata_section(message@),
{
    let retries = decimal_string(message.retries);
    push_span(out, "\n", Style::Plain);
    push_span(out, "MESSAGE METADATA:", Style::Bold);
    push_span(out, "\n", Style::Plain);
    push_span(out, "  ID:             ", Style::Plain);
    push_span(out, message.id.as_str(), Style::Plain);
    push_span(out, "\n", Style::Plain);
    push_span(out, "  Correlation ID: ", Style::Plain);
    push_span(out, message.correlation_id.as_str(), Style::Plain);
    push_span(out, "\n", Style::Plain);
    push_span(out, "  Failure Reason: ", Style::Plain);
    push_span(out, message.reason.as_str(), Style::Plain);
    push_span(out, "\n", Style::Plain);
    push_span(out, "  Retry Count:    ", Style::Plain);
    push_span(out, retries.as_str(), Style::Plain);
    push_span(out, "\n", Style::Plain);
    push_span(out, "  Original Topic: ", Style::Plain);
    push_span(out, message.original_topic.as_str(), Style::Green);
    push_span(out, "\n", Style::Plain);
    push_span(out, "  Moved to DLQ:   ", Style::Plain);
    push_span(out, message.moved_at.as_str(), Style::Plain);
    push_span(out, "\n", Style::Plain);
    assert(span_views(out@) =~= span_views(old(out)@) + metadata_section(message@));
}

/// One line for each header: its key and its value.
pub open spec fn header_lines(headers: Seq<(Seq<char>, Seq<char>)>) -> Seq<(Seq<char>, Style)>
    decreases headers.len(),
{
    if headers.len() == 0 {
        Seq::empty()
    } else {
        header_lines(headers.drop_last()) + seq![
            plain("  "@),
            plain(headers.last().0),
            plain(": "@),
            plain(headers.last().1),
            plain("\n"@),
        ]
    }
}

/// The headers of the outgoing message, under a title in `title_style`.
pub open spec fn headers_section(headers: Seq<(Seq<char>, Seq<char>)>, title_style: Style) -> Seq<
    (Seq<char>, Style),
> {
    seq![
        plain("\n"@),
        ("MESSAGE HEADERS (will be republished as-is):"@, title_style),
        plain("\n"@),
    ] + header_lines(headers)
}

/// Appends the headers section.
pub fn push_headers_section(out: &mut Vec<Span>, headers: &Vec<Header>, title_style: Style)
    ensures
        span_views(final(out)@) == span_views(old(out)@) + headers_section(
            header_views(headers@),
            title_style,
        ),
{
    push_span(out, "\n", Style::Plain);
    push_span(out, "MESSAGE HEADERS (will be republished as-is):", title_style);
    push_span(out, "\n", Style::Plain);
    let ghost start = span_views(out@);
    let ghost all = header_views(headers@);
    let mut i: usize = 0;
    while i < headers.len()
        invariant
            i <= headers.len(),
            all == header_views(headers@),
            span_views(out@) == start + header_lines(all.take(i as int)),
        decreases headers.len() - i,
    {
        let ghost before = span_views(out@);
        push_span(out, "  ", Style::Plain);
        push_span(out, headers[i].key.as_str(), Style::Plain);
        push_span(out, ": ", Style::Plain);
        push_span(out, headers[i].value.as_str(), Style::Plain);
        push_span(out, "\n", Style::Plain);
        proof {
            assert(all.take(i + 1).drop_last() =~= all.take(i as int));
            assert(all.take(i + 1).last() == (headers[i as int].key@, headers[i as int].value@));
            assert(span_views(out@) =~= start + header_lines(all.take(i + 1)));
        }
        i += 1;
    }
    assert(all.take(i as int) =~= all);
    assert(span_views(out@) =~= span_views(old(out)@) + headers_section(all, title_style));
}

/// The mark that a line of a difference starts with.
pub open spec fn change_sign(kind: ChangeKind) -> Seq<char> {
    match kind {
        ChangeKind::Delete => "- "@,
        ChangeKind::Insert => "+ "@,
        ChangeKind::Equal => "  "@,
    }
}

/// The style that a line of a difference is shown in.
pub open spec fn change_style(kind: ChangeKind) -> Style {
    match kind {
        ChangeKind::Delete => Style::Red,
        ChangeKind::Insert => Style::Green,
        ChangeKind::Equal => Style::Plain,
    }
}

/// A difference, line by line: the mark, then the line in its style. The
/// lines bring their own line breaks.
pub open spec fn diff_spans(changes: Seq<(ChangeKind, Seq<char>)>) -> Seq<(Seq<char>, Style)>
    decreases changes.len(),
{
    if changes.len() == 0 {
        Seq::empty()
    } else {
        diff_spans(changes.drop_last()) + seq![
            plain(change_sign(changes.last().0)),
            (changes.last().1, change_style(changes.last().0)),
        ]
    }
}

/// Appends a difference.
pub fn push_diff(out: &mut Vec<Span>, changes: &Vec<LineChange>)
    ensures
        span_views(final(out)@) == span_views(old(out)@) + diff_spans(change_views(changes@)),
{
    let ghost start = span_views(out@);
    let ghost all = change_views(changes@);
    assert(span_views(out@) =~= start + diff_spans(all.take(0)));
    let mut i: usize = 0;
    while i < changes.len()
        invariant
            i <= changes.len(),
            all == change_views(changes@),
            span_views(out@) == start + diff_spans(all.take(i as int)),
        decreases changes.len() - i,
    {
        match changes[i].kind {
            ChangeKind::Delete => {
                push_span(out, "- ", Style::Plain);
                push_span(out, changes[i].line.as_str(), Style::Red);
            },
            ChangeKind::Insert => {
                push_span(out, "+ ", Style::Plain);
                push_span(out, changes[i].line.as_str(), Style::Green);
            },
            ChangeKind::Equal => {
                push_span(out, "  ", Style::Plain);
                push_span(out, changes[i].line.as_str(), Style::Plain);
            },
        }
        proof {
            assert(all.take(i + 1).drop_last() =~= all.take(i as int));
            assert(all.take(i + 1).last() == (changes[i as int].kind, changes[i as int].line@));
            assert(span_views(out@) =~= start + diff_spans(all.take(i + 1)));
        }
        i += 1;
    }
    assert(all.take(i as int) =~= all);
}

/// What stands in for a difference that was not computed.
pub open spec fn diff_or_note(changes: Option<Seq<(ChangeKind, Seq<char>)>>) -> Seq<
    (Seq<char>, Style),
> {
    match changes {
        Some(lines) => diff_spans(lines),
        None => seq![("(payloads too large to compare)"@, Style::Dimmed), plain("\n"@)],
    }
}

/// The payload before and after, and their difference.
pub open spec fn comparison_section(
    old_payload: Seq<char>,
    new_payload: Seq<char>,
    source: Seq<char>,
    changes: Option<Seq<(ChangeKind, Seq<char>)>>,
) -> Seq<(Seq<char>, Style)> {
    seq![plain("\n"@)] + rule_line() + seq![("PAYLOAD COMPARISON"@, Style::Bold), plain("\n"@)]
        + rule_line() + seq![
        plain("\n"@),
        ("BEFORE (Current in DLQ):"@, Style::Yellow),
        plain("\n"@),
        plain(old_payload),
        plain("\n"@),
        plain("\n"@),
        ("AFTER (From file: "@, Style::Green),
        (source, Style::Green),
        ("):"@, Style::Green),
        plain("\n"@),
        plain(new_payload),
        plain("\n"@),
        plain("\n"@),
        ("DIFF:"@, Style::Cyan),
        plain("\n"@),
    ] + diff_or_note(changes)
}

/// Appends the comparison section.
pub fn push_comparison_section(
    out: &mut Vec<Span>,
    old_payload: &str,
    new_payload: &str,
    source: &str,
    changes: &Option<Vec<LineChange>>,
)
    ensures
        span_views(final(out)@) == span_views(old(out)@) + comparison_section(
            old_payload@,
            new_payload@,
            source@,
            opt_changes(*changes),
        ),
{
    push_span(out, "\n", Style::Plain);
    push_rule(out);
    push_span(out, "PAYLOAD COMPARISON", Style::Bold);
    push_span(out, "\n", Style::Plain);
    push_rule(out);
    push_span(out, "\n", Style::Plain);
    push_span(out, "BEFORE (Current in DLQ):", Style::Yellow);
    push_span(out, "\n", Style::Plain);
    push_span(out, old_payload, Style::Plain);
    push_span(out, "\n", Style::Plain);
    push_span(out, "\n", Style::Plain);
    push_span(out, "AFTER (From file: ", Style::Green);
    push_span(out, source, Style::Green);
    push_span(out, "):", Style::Green);
    push_span(out, "\n", Style::Plain);
    push_span(out, new_payload, Style::Plain);
    push_span(out, "\n", Style::Plain);
    push_span(out, "\n", Style::Plain);
    push_span(out, "DIFF:", Style::Cyan);
    push_span(out, "\n", Style::Plain);
    match changes {
        Some(lines) => {
            push_diff(out, lines);
        },
        None => {
            push_span(out, "(payloads too large to compare)", Style::Dimmed);
            push_span(out, "\n", Style::Plain);
        },
    }
    assert(span_views(out@) =~= span_views(old(out)@) + comparison_section(
        old_payload@,
        new_payload@,
        source@,
        opt_changes(*changes),
    ));
}

/// The payload of a message that is republished as it is.
pub open spec fn payload_section(payload: Seq<char>) -> Seq<(Seq<char>, Style)> {
    seq![
        plain("\n"@),
        ("PAYLOAD (will be republished as-is):"@, Style::Yellow),
        plain("\n"@),
        plain(payload),
        plain("\n"@),
    ]
}

/// Appends the payload section.
pub fn push_payload_section(out: &mut Vec<Span>, payload: &str)
    ensures
        span_views(final(out)@) == span_views(old(out)@) + payload_section(payload@),
{
    push_span(out, "\n", Style::Plain);
    push_span(out, "PAYLOAD (will be republished as-is):", Style::Yellow);
    push_span(out, "\n", Style::Plain);
    push_span(out, payload, Style::Plain);
    push_span(out, "\n", Style::Plain);
    assert(span_views(out@) =~= span_views(old(out)@) + payload_section(payload@));
}

/// What the publish step is called: a fixed message is published, an
/// unchanged one republished.
pub open spec fn publish_label(fixed: bool) -> Seq<char> {
    if fixed {
        " Publish fixed message to: "@
    } else {
        " Republish message to: "@
    }
}

/// The two steps that are planned: publish to the original topic, then
/// remove from the DLQ. A dry run marks both as not carried out.
pub open spec fn action_section(
    fixed: bool,
    dry_run: bool,
    original_topic: Seq<char>,
    dlq_topic: Seq<char>,
) -> Seq<(Seq<char>, Style)> {
    seq![plain("\n"@)] + rule_line() + seq![("PLANNED ACTION:"@, Style::Bold), plain("\n"@)] + (
    if dry_run {
        seq![
            plain("  "@),
            ("[DRY RUN]"@, Style::Yellow),
            plain(" "@),
            ("→"@, Style::Green),
            plain(publish_label(fixed)),
            (original_topic, Style::Green),
            plain("\n"@),
            plain("  "@),
            ("[DRY RUN]"@, Style::Yellow),
            plain(" "@),
            ("→"@, Style::Yellow),
            plain(" Remove from DLQ: "@),
            (dlq_topic, Style::Yellow),
            plain("\n"@),
        ]
    } else {
        seq![
            plain("  "@),
            ("→"@, Style::Green),
            plain(publish_label(fixed)),
            (original_topic, Style::Green),
            plain("\n"@),
            plain("  "@),
            ("→"@, Style::Yellow),
            plain(" Remove from DLQ: "@),
            (dlq_topic, Style::Yellow),
            plain(if fixed {
                " (commit offset)"@
            } else {
                ""@
            }),
            plain("\n"@),
        ]
    }) + rule_line()
}

/// Appends the planned action.
pub fn push_action_section(
    out: &mut Vec<Span>,
    fixed: bool,
    dry_run: bool,
    original_topic: &str,
    dlq_topic: &str,
)
    ensures
        span_views(final(out)@) == span_views(old(out)@) + action_section(
            fixed,
            dry_run,
            original_topic@,
            dlq_topic@,
        ),
{
    let label = if fixed {
        " Publish fixed message to: "
    } else {
        " Republish message to: "
    };
    push_span(out, "\n", Style::Plain);
    push_rule(out);
    push_span(out, "PLANNED ACTION:", Style::Bold);
    push_span(out, "\n", Style::Plain);
    if dry_run {
        push_span(out, "  ", Style::Plain);
        push_span(out, "[DRY RUN]", Style::Yellow);
        push_span(out, " ", Style::Plain);
        push_span(out, "→", Style::Green);
        push_span(out, label, Style::Plain);
        push_span(out, original_topic, Style::Green);
        push_span(out, "\n", Style::Plain);
        push_span(out, "  ", Style::Plain);
        push_span(out, "[DRY RUN]", Style::Yellow);
        push_span(out, " ", Style::Plain);
        push_span(out, "→", Style::Yellow);
        push_span(out, " Remove from DLQ: ", Style::Plain);
        push_span(out, dlq_topic, Style::Yellow);
        push_span(out, "\n", Style::Plain);
    } else {
        push_span(out, "  ", Style::Plain);
        push_span(out, "→", Style::Green);
        push_span(out, label, Style::Plain);
        push_span(out, original_topic, Style::Green);
        push_span(out, "\n", Style::Plain);
        push_span(out, "  ", Style::Plain);
        push_span(out, "→", Style::Yellow);
        push_span(out, " Remove from DLQ: ", Style::Plain);
        push_span(out, dlq_topic, Style::Yellow);
        push_span(out, if fixed {
            " (commit offset)"
        } else {
            ""
        }, Style::Plain);
        push_span(out, "\n", Style::Plain);
    }
    push_rule(out);
    assert(span_views(out@) =~= span_views(old(out)@) + action_section(
        fixed,
        dry_run,
        original_topic@,
        dlq_topic@,
    ));
}

/// The preview of a republish with a replacement payload.
pub open spec fn diff_and_plan(
    message: MessageView,
    new_payload: Seq<char>,
    dlq_topic: Seq<char>,
    source: Seq<char>,
    dry_run: bool,
    headers: Seq<(Seq<char>, Seq<char>)>,
    changes: Option<Seq<(ChangeKind, Seq<char>)>>,
) -> Seq<(Seq<char>, Style)> {
    banner(dlq_topic, dry_run) + metadata_section(message) + headers_section(
        headers,
        Style::YellowBold,
    ) + comparison_section(message.payload, new_payload, source, changes) + action_section(
        true,
        dry_run,
        message.original_topic,
        dlq_topic,
    )
}

/// Renders the preview of a republish with a replacement payload: the
/// message, the headers, the payload before and after with their
/// difference, and the planned action.
pub fn display_diff_and_plan(
    message: &DlqMessage,
    new_payload: &str,
    dlq_topic: &str,
    source: &str,
    dry_run: bool,
    headers: &Vec<Header>,
    changes: &Option<Vec<LineChange>>,
) -> (r: Vec<Span>)
    ensures
        span_views(r@) == diff_and_plan(
            message@,
            new_payload@,
            dlq_topic@,
            source@,
            dry_run,
            header_views(headers@),
            opt_changes(*changes),
        ),
{
    let mut out: Vec<Span> = Vec::new();
    assert(span_views(out@) =~= Seq::empty());
    push_banner(&mut out, dlq_topic, dry_run);
    push_metadata_section(&mut out, message);
    push_headers_section(&mut out, headers, Style::YellowBold);
    push_comparison_section(&mut out, message.payload.as_str(), new_payload, source, changes);
    push_action_section(&mut out, true, dry_run, message.original_topic.as_str(), dlq_topic);
    assert(span_views(out@) =~= diff_and_plan(
        message@,
        new_payload@,
        dlq_topic@,
        source@,
        dry_run,
        header_views(headers@),
        opt_changes(*changes),
    ));
    out
}

/// The preview of a republish of the message as it is.
pub open spec fn republish_info(
    message: MessageView,
    dlq_topic: Seq<char>,
    dry_run: bool,
    headers: Seq<(Seq<char>, Seq<char>)>,
) -> Seq<(Seq<char>, Style)> {
    banner(dlq_topic, dry_run) + metadata_section(message) + headers_section(
        headers,
        Style::Yellow,
    ) + payload_section(message.payload) + action_section(
        false,
        dry_run,
        message.original_topic,
        dlq_topic,
    )
}

/// Renders the preview of a republish of the message as it is: the message,
/// the headers, the payload, and the planned action.
pub fn display_republish_info(
    message: &DlqMessage,
    dlq_topic: &str,
    dry_run: bool,
    headers: &Vec<Header>,
) -> (r: Vec<Span>)
    ensures
        span_views(r@) == republish_info(message@, dlq_topic@, dry_run, header_views(headers@)),
{
    let mut out: Vec<Span> = Vec::new();
    assert(span_views(out@) =~= Seq::empty());
    push_banner(&mut out, dlq_topic, dry_run);
    push_metadata_section(&mut out, message);
    push_headers_section(&mut out, headers, Style::Yellow);
    push_payload_section(&mut out, message.payload.as_str());
    push_action_section(&mut out, false, dry_run, message.original_topic.as_str(), dlq_topic);
    assert(span_views(out@) =~= republish_info(
        message@,
        dlq_topic@,
        dry_run,
        header_views(headers@),
    ));
    out
}

/// Renders a difference on its own.
pub fn print_diff(changes: &Vec<LineChange>) -> (r: Vec<Span>)
    ensures
        span_views(r@) == diff_spans(change_views(changes@)),
{
    let mut out: Vec<Span> = Vec::new();
    assert(span_views(out@) =~= Seq::empty());
    push_diff(&mut out, changes);
    assert(span_views(out@) =~= diff_spans(change_views(changes@)));
    out
}

/// What a dry run says at its end: what would have happened, and how to
/// make it happen.
pub open spec fn dry_run_info(dlq_topic: Seq<char>, original_topic: Seq<char>) -> Seq<
    (Seq<char>, Style),
> {
    seq![plain("\n"@)] + rule_line() + seq![
        ("🔍 DRY RUN MODE - No changes will be made"@, Style::YellowBold),
        plain("\n"@),
    ] + rule_line() + seq![
        plain("\n"@),
        ("What would happen:"@, Style::Cyan),
        plain("\n"@),
        plain("  "@),
        ("→"@, Style::Green),
        plain(" Message would be published to: "@),
        (original_topic, Style::Green),
        plain("\n"@),
        plain("  "@),
        ("→"@, Style::Yellow),
        plain(" DLQ offset would be committed (message removed from "@),
        (dlq_topic, Style::Yellow),
        plain(")"@),
        plain("\n"@),
        plain("\n"@),
        ("To actually perform this operation, run without --dry-run"@, Style::Dimmed),
        plain("\n"@),
    ]
}

/// Renders what a dry run says at its end.
pub fn print_dry_run_info(dlq_topic: &str, original_topic: &str) -> (r: Vec<Span>)
    ensures
        span_views(r@) == dry_run_info(dlq_topic@, original_topic@),
{
    let mut out: Vec<Span> = Vec::new();
    assert(span_views(out@) =~= Seq::empty());
    push_span(&mut out, "\n", Style::Plain);
    push_rule(&mut out);
    push_span(&mut out, "🔍 DRY RUN MODE - No changes will be made", Style::YellowBold);
    push_span(&mut out, "\n", Style::Plain);
    push_rule(&mut out);
    push_span(&mut out, "\n", Style::Plain);
    push_span(&mut out, "What would happen:", Style::Cyan);
    push_span(&mut out, "\n", Style::Plain);
    push_span(&mut out, "  ", Style::Plain);
    push_span(&mut out, "→", Style::Green);
    push_span(&mut out, " Message would be published to: ", Style::Plain);
    push_span(&mut out, original_topic, Style::Green);
    push_span(&mut out, "\n", Style::Plain);
    push_span(&mut out, "  ", Style::Plain);
    push_span(&mut out, "→", Style::Yellow);
    push_span(&mut out, " DLQ offset would be committed (message removed from ", Style::Plain);
    push_span(&mut out, dlq_topic, Style::Yellow);
    push_span(&mut out, ")", Style::Plain);
    push_span(&mut out, "\n", Style::Plain);
    push_span(&mut out, "\n", Style::Plain);
    push_span(&mut out, "To actually perform this operation, run without --dry-run", Style::Dimmed);
    push_span(&mut out, "\n", Style::Plain);
    assert(span_views(out@) =~= dry_run_info(dlq_topic@, original_topic@));
    out
}

} // verus!
