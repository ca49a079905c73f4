//! The line-level difference between two texts, as the `similar` crate
//! computes it.

use vstd::prelude::*;
use vstd::string::StringSliceAdditionalSpecFns;
use vstd::utf8::encode_utf8;

verus! {

/// What became of a line.
#[derive(Clone, Copy, PartialEq, Eq, Structural, Debug)]
pub enum ChangeKind {
    /// Only the old text has the line.
    Delete,
    /// Only the new text has the line.
    Insert,
    /// Both texts have the line.
    Equal,
}

/// One line of a difference.
pub struct LineChange {
    pub kind: ChangeKind,
    /// The line, ending in a line break.
    pub line: String,
}

/// The changes as pairs of kind and text, in their order.
pub open spec fn change_views(changes: Seq<LineChange>) -> Seq<(ChangeKind, Seq<char>)> {
    changes.map_values(|c: LineChange| (c.kind, c.line@))
}

/// The line-level difference that leads from `old` to `new`.
pub uninterp spec fn line_changes(old: Seq<char>, new: Seq<char>) -> Seq<(ChangeKind, Seq<char>)>;

/// The most bytes that two texts may hold together to be compared: the
/// differ numbers distinct lines in 32 bits.
pub const DIFF_LIMIT: usize = 0xffff_ffff;

/// `similar::TextDiff::from_lines` read out by `iter_all_changes`: every
/// line of either text, in order, tagged as deleted, inserted or equal. Each
/// line is written by the change's `Display`, which ends it in a line break
/// where the text did not. The result is a function of the two texts: no
/// deadline is set.
#[verifier::external_body]
pub(crate) fn diff_lines(old: &str, new: &str) -> (r: Vec<LineChange>)
    requires
        old.spec_bytes().len() + new.spec_bytes().len() <= DIFF_LIMIT,
    ensures
        change_views(r@) == line_changes(old@, new@),
{
    let diff = similar::TextDiff::from_lines(old, new);
    let mut changes = Vec::new();
    for change in diff.iter_all_changes() {
        let kind = match change.tag() {
            similar::ChangeTag::Delete => ChangeKind::Delete,
            similar::ChangeTag::Insert => ChangeKind::Insert,
            similar::ChangeTag::Equal => ChangeKind::Equal,
        };
        changes.push(LineChange { kind, line: change.to_string() });
    }
    changes
}

/// Whether two texts are small enough to be compared: together their UTF-8
/// encodings hold no more bytes than `DIFF_LIMIT`.
pub open spec fn comparable(old: Seq<char>, new: Seq<char>) -> bool {
    encode_utf8(old).len() + encode_utf8(new).len() <= DIFF_LIMIT
}

/// The difference that is shown for two texts: their line-level difference
/// where they are small enough to be compared, none otherwise.
pub open spec fn compared(old: Seq<char>, new: Seq<char>) -> Option<Seq<(ChangeKind, Seq<char>)>> {
    if comparable(old, new) {
        Some(line_changes(old, new))
    } else {
        None
    }
}

/// The changes of an optional difference.
pub open spec fn opt_changes(changes: Option<Vec<LineChange>>) -> Option<
    Seq<(ChangeKind, Seq<char>)>,
> {
    match changes {
        Some(lines) => Some(change_views(lines@)),
        None => None,
    }
}

/// The line-level difference that leads from `old` to `new`, or `None`
/// where the two texts together hold more bytes than `DIFF_LIMIT`.
pub fn compare_lines(old: &str, new: &str) -> (r: Option<Vec<LineChange>>)
    ensures
        opt_changes(r) == compared(old@, new@),
{
    let old_len = old.as_bytes().len();
    let new_len = new.as_bytes().len();
    if old_len <= DIFF_LIMIT && new_len <= DIFF_LIMIT - old_len {
        Some(diff_lines(old, new))
    } else {
        None
    }
}

} // verus!
