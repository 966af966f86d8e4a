//! The line that reports the outcome of an unvote.

use crate::aur::VoteResult;
use crate::cmds::vote::{status_line, status_segments};
use crate::cmds::IncorrectStatus;
use crate::paint::{line_shows, segment, SegmentView, Tint};
use vstd::prelude::*;

verus! {

/// The word and the tint for an outcome of an unvote; `None` for an
/// outcome that an unvote cannot have.
pub open spec fn label(result: VoteResult) -> Option<SegmentView> {
    match result {
        VoteResult::AlreadyUnVoted => Some(
            SegmentView { text: "Already unvoted"@, tint: Tint::BrightGreen },
        ),
        VoteResult::UnVoted => Some(SegmentView { text: "Unvoted"@, tint: Tint::BrightGreen }),
        VoteResult::Failed => Some(SegmentView { text: "Failed"@, tint: Tint::BrightRed }),
        VoteResult::NotAvailable => Some(SegmentView { text: "N/A"@, tint: Tint::BrightRed }),
        _ => None,
    }
}

/// The line that reports the outcome of the unvote of one package. Fails
/// for an outcome that only a vote can have.
pub fn fancy(status: &(String, VoteResult)) -> (r: Result<String, IncorrectStatus>)
    ensures
        match label(status.1) {
            Some(label) => r is Ok && line_shows(r->Ok_0@, status_segments(status.0@, label)),
            None => r is Err,
        },
{
    let label = match status.1 {
        VoteResult::AlreadyUnVoted => segment("Already unvoted", Tint::BrightGreen),
        VoteResult::UnVoted => segment("Unvoted", Tint::BrightGreen),
        VoteResult::Failed => segment("Failed", Tint::BrightRed),
        VoteResult::NotAvailable => segment("N/A", Tint::BrightRed),
        _ => {
            return Err(IncorrectStatus);
        },
    };
    Ok(status_line(status.0.as_str(), label))
}

} // verus!
