//! The line that reports whether a package is voted.

use crate::cmds::IncorrectStatus;
use crate::paint::{line_shows, render, segment, Segment, SegmentView, Tint};
use vstd::prelude::*;

verus! {

/// The word and the tint for a vote status.
pub open spec fn label(voted: Option<bool>) -> SegmentView {
    match voted {
        Some(true) => SegmentView { text: "Yes"@, tint: Tint::BrightGreen },
        Some(false) => SegmentView { text: "No"@, tint: Tint::BrightRed },
        None => SegmentView { text: "N/A"@, tint: Tint::BrightYellow },
    }
}

/// The segments of the line: the name in bold white, a space, the label.
pub open spec fn check_segments(name: Seq<char>, voted: Option<bool>) -> Seq<SegmentView> {
    seq![
        SegmentView { text: name, tint: Tint::BoldWhite },
        SegmentView { text: " "@, tint: Tint::Plain },
        label(voted),
    ]
}

/// The line that reports the vote status of one package. It never fails.
pub fn fancy(voted: &(String, Option<bool>)) -> (r: Result<String, IncorrectStatus>)
    ensures
        r is Ok,
        line_shows(r->Ok_0@, check_segments(voted.0@, voted.1)),
{
    let mark = match voted.1 {
        Some(true) => segment("Yes", Tint::BrightGreen),
        Some(false) => segment("No", Tint::BrightRed),
        None => segment("N/A", Tint::BrightYellow),
    };
    let mut segments: Vec<Segment> = Vec::new();
    segments.push(segment(voted.0.as_str(), Tint::BoldWhite));
    segments.push(segment(" ", Tint::Plain));
    segments.push(mark);
    assert(segments.deep_view() =~= check_segments(voted.0@, voted.1));
    Ok(render(&segments))
}

} // verus!
