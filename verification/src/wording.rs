//! The fixed wording of the messages that stand for a motion, and the way
//! back from a message to the text that was put into it.

use crate::text::{
    final_segment, last_segment, lemma_final_segment_is_uncut, lemma_final_segment_of_joined,
    lemma_final_segment_of_joined_conversely, occurs_at, occurs_in, segment_scan, strip_prefix,
    without_prefix,
};
use vstd::prelude::*;

verus! {

/// What opens every body message: the sentence that a motion begins with,
/// a line break and a blank.
pub const PREAMBLE: &'static str = "Der Fachschaftsrat Informatik möge beschließen, dass:\n ";

/// The label that opens every justification message.
pub const JUSTIFICATION_LABEL: &'static str = "Begründung: \r";

/// The sentence that stands where no justification was given.
pub const NO_JUSTIFICATION: &'static str = "Keine Begründung";

/// What stands between title and proposer in a summary line.
pub const SEPARATOR: &'static str = " - ";

/// What a user who is not in the correlation store is told.
pub const NOT_REGISTERED: &'static str = "Du bist nicht in der Datenbank";

/// What follows the name of a person who has signed off.
pub const SIGNED_OFF: &'static str = " hat sich abgemeldet!";

/// The text of an optional string.
pub open spec fn text_of(value: Option<String>) -> Option<Seq<char>> {
    match value {
        Some(text) => Some(text@),
        None => None,
    }
}

/// The body message for the proposal text `body`.
pub open spec fn body_text(body: Seq<char>) -> Seq<char> {
    PREAMBLE@ + body
}

/// The justification that is shown and stored: the one given, or the fixed
/// sentence where none was given.
pub open spec fn justification_or_default(justification: Option<Seq<char>>) -> Seq<char> {
    match justification {
        Some(text) => text,
        None => NO_JUSTIFICATION@,
    }
}

/// The justification message for an optional justification.
pub open spec fn justification_text(justification: Option<Seq<char>>) -> Seq<char> {
    JUSTIFICATION_LABEL@ + justification_or_default(justification)
}

/// The summary line that anchors a thread in its parent channel.
pub open spec fn summary_text(title: Seq<char>, proposer: Seq<char>) -> Seq<char> {
    title + SEPARATOR@ + proposer
}

/// The proposer that a summary line names: its last piece.
pub open spec fn proposer_in(summary: Seq<char>) -> Seq<char> {
    final_segment(summary, SEPARATOR@)
}

/// The proposal text that a body message holds.
pub open spec fn body_in(content: Seq<char>) -> Seq<char> {
    without_prefix(content, PREAMBLE@)
}

/// The justification that a justification message holds.
pub open spec fn justification_in(content: Seq<char>) -> Seq<char> {
    without_prefix(content, JUSTIFICATION_LABEL@)
}

/// Whether the separator that is put behind `title` is found again where it
/// was put: cutting `title` followed by the separator leaves an empty last
/// piece. Only a title that ends in a blank and a dash can fail this: the
/// scan may then take a separator two characters early, as in `"x -"`.
pub open spec fn cuts_cleanly(title: Seq<char>) -> bool {
    final_segment(title + SEPARATOR@, SEPARATOR@).len() == 0
}

/// Whether `title` ends in a blank and a dash.
pub open spec fn ends_in_dash(title: Seq<char>) -> bool {
    &&& title.len() >= 2
    &&& title[title.len() - 2] == ' '
    &&& title[title.len() - 1] == '-'
}

/// Writes the body message: the preamble, then the proposal text.
pub fn body_message(body: &str) -> (content: String)
    ensures
        content@ == body_text(body@),
{
    let mut content = PREAMBLE.to_owned();
    content.append(body);
    content
}

/// Gives the justification that is shown and stored.
pub fn justification_shown(justification: &Option<String>) -> (shown: String)
    ensures
        shown@ == justification_or_default(text_of(*justification)),
        justification is None ==> shown@ == NO_JUSTIFICATION@,
{
    match justification {
        Some(text) => text.clone(),
        None => NO_JUSTIFICATION.to_owned(),
    }
}

/// Writes the justification message: the label, then the justification or
/// the fixed sentence.
pub fn justification_message(justification: &Option<String>) -> (content: String)
    ensures
        content@ == justification_text(text_of(*justification)),
        justification is None ==> content@ == JUSTIFICATION_LABEL@ + NO_JUSTIFICATION@,
{
    let shown = justification_shown(justification);
    let mut content = JUSTIFICATION_LABEL.to_owned();
    content.append(shown.as_str());
    content
}

/// Writes the summary line: title, separator, proposer.
pub fn summary_line(title: &str, proposer: &str) -> (content: String)
    ensures
        content@ == summary_text(title@, proposer@),
{
    let mut content = title.to_owned();
    content.append(SEPARATOR);
    content.append(proposer);
    content
}

/// Reads the proposer off a summary line.
pub fn proposer_of(summary: &str) -> (proposer: String)
    ensures
        proposer@ == proposer_in(summary@),
{
    last_segment(summary, SEPARATOR)
}

/// Reads the proposal text off a body message.
pub fn body_of(content: &str) -> (body: String)
    ensures
        body@ == body_in(content@),
{
    strip_prefix(content, PREAMBLE)
}

/// Reads the justification off a justification message.
pub fn justification_of(content: &str) -> (justification: String)
    ensures
        justification@ == justification_in(content@),
{
    strip_prefix(content, JUSTIFICATION_LABEL)
}

/// A body message gives back the proposal text it was written from.
pub proof fn lemma_body_round_trip(body: Seq<char>)
    ensures
        body_in(body_text(body)) == body,
{
    let content = body_text(body);
    assert(content.subrange(0, PREAMBLE@.len() as int) =~= PREAMBLE@);
    assert(content.skip(PREAMBLE@.len() as int) =~= body);
}

/// A justification message gives back the justification that was shown in it.
pub proof fn lemma_justification_round_trip(justification: Option<Seq<char>>)
    ensures
        justification_in(justification_text(justification)) == justification_or_default(
            justification,
        ),
{
    let content = justification_text(justification);
    assert(content.subrange(0, JUSTIFICATION_LABEL@.len() as int) =~= JUSTIFICATION_LABEL@);
    assert(content.skip(JUSTIFICATION_LABEL@.len() as int) =~= justification_or_default(
        justification,
    ));
}

/// In a title that does not end in a blank and a dash, followed by the
/// separator, a scan that has not passed the end of the title ends on the
/// separator that was put there.
proof fn lemma_scan_reaches_cut(title: Seq<char>, start: int, at: int)
    requires
        !ends_in_dash(title),
        0 <= start <= at <= title.len(),
    ensures
        segment_scan(title + SEPARATOR@, SEPARATOR@, start, at).len() == 0,
    decreases title.len() - at,
{
    reveal_strlit(" - ");
    let cut = SEPARATOR@;
    let whole = title + cut;
    let n = title.len() as int;
    assert(cut.len() == 3 && cut[0] == ' ' && cut[1] == '-' && cut[2] == ' ');
    if at == n {
        assert(whole.subrange(at, at + 3) =~= cut);
        assert(segment_scan(whole, cut, at + 3, at + 3) == whole.skip(at + 3));
        assert(whole.skip(at + 3) =~= Seq::<char>::empty());
    } else if occurs_at(whole, cut, at) {
        let found = whole.subrange(at, at + 3);
        if at == n - 1 {
            assert(found[1] == whole[n]);
            assert(false);
        }
        if at == n - 2 {
            assert(found[0] == title[n - 2]);
            assert(found[1] == title[n - 1]);
            assert(false);
        }
        lemma_scan_reaches_cut(title, at + 3, at + 3);
    } else {
        lemma_scan_reaches_cut(title, start, at + 1);
    }
}

/// A title that does not end in a blank and a dash cuts cleanly.
pub proof fn lemma_plain_title_cuts_cleanly(title: Seq<char>)
    requires
        !ends_in_dash(title),
    ensures
        cuts_cleanly(title),
{
    reveal_strlit(" - ");
    lemma_scan_reaches_cut(title, 0, 0);
}

/// A summary line names the proposer it was written with if the title cuts
/// cleanly, and only then, for a proposer whose name holds no separator.
pub proof fn lemma_summary_names_proposer(title: Seq<char>, proposer: Seq<char>)
    requires
        !occurs_in(proposer, SEPARATOR@),
    ensures
        proposer_in(summary_text(title, proposer)) == proposer <==> cuts_cleanly(title),
{
    reveal_strlit(" - ");
    if cuts_cleanly(title) {
        lemma_final_segment_of_joined(title, SEPARATOR@, proposer);
    }
    if proposer_in(summary_text(title, proposer)) == proposer {
        lemma_final_segment_of_joined_conversely(title, SEPARATOR@, proposer);
    }
}

/// Giving a summary line a new title keeps the proposer that it named if
/// the new title cuts cleanly, and only then: the line written from the new
/// title and the proposer read off the old line names that same proposer.
pub proof fn lemma_retitling_keeps_proposer(title: Seq<char>, summary: Seq<char>)
    ensures
        proposer_in(summary_text(title, proposer_in(summary))) == proposer_in(summary)
            <==> cuts_cleanly(title),
{
    reveal_strlit(" - ");
    lemma_final_segment_is_uncut(summary, SEPARATOR@);
    lemma_summary_names_proposer(title, proposer_in(summary));
}

} // verus!
