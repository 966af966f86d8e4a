//! The line that reports the outcome of a vote.

use crate::aur::VoteResult;
use crate::cmds::IncorrectStatus;
use crate::paint::{line_shows, render, segment, Segment, SegmentView, Tint};
use vstd::prelude::*;

verus! {

/// The word and the tint for an outcome of a vote; `None` for an outcome
/// that a vote cannot have.
pub open spec fn label(result: VoteResult) -> Option<SegmentView> {
    match result {
        VoteResult::AlreadyVoted => Some(
            SegmentView { text: "Already voted"@, tint: Tint::BrightGreen },
        ),
        VoteResult::Voted => Some(SegmentView { text: "Voted"@, tint: Tint::BrightGreen }),
        VoteResult::Failed => Some(SegmentView { text: "Failed"@, tint: Tint::BrightRed }),
        VoteResult::NotAvailable => Some(SegmentView { text: "N/A"@, tint: Tint::BrightRed }),
        _ => None,
    }
}

/// The segments of a line: the name in bold white, four spaces, the label.
pub open spec fn status_segments(name: Seq<char>, label: SegmentView) -> Seq<SegmentView> {
    seq![
        SegmentView { text: name, tint: Tint::BoldWhite },
        SegmentView { text: "    "@, tint: Tint::Plain },
        label,
    ]
}

/// The line for a package and a label.
pub fn status_line(name: &str, label: Segment) -> (r: String)
    ensures
        line_shows(r@, status_segments(name@, label.deep_view())),
{
    let mut segments: Vec<Segment> = Vec::new();
    segments.push(segment(name, Tint::BoldWhite));
    segments.push(segment("    ", Tint::Plain));
    segments.push(label);
    assert(segments.deep_view() =~= status_segments(name@, label.deep_view()));
    render(&segments)
}

/// The line that reports the outcome of the vote for one package. Fails
/// for an outcome that only an unvote can have.
pub fn fancy(status: &(String, VoteResult)) -> (r: Result<String, IncorrectStatus>)
    ensures
        match label(status.1) {
            Some(label) => r is Ok && line_shows(r->Ok_0@, status_segments(status.0@, label)),
            None => r is Err,
        },
{
    let label = match status.1 {
        VoteResult::AlreadyVoted => segment("Already voted", Tint::BrightGreen),
        VoteResult::Voted => segment("Voted", Tint::BrightGreen),
        VoteResult::Failed => segment("Failed", Tint::BrightRed),
        VoteResult::NotAvailable => segment("N/A", Tint::BrightRed),
        _ => {
            return Err(IncorrectStatus);
        },
    };
    Ok(status_line(status.0.as_str(), label))
}

} // verus!
