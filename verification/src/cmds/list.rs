//! The line that shows a voted package: name and version, and in brackets
//! what is to be remarked of it.

use crate::cmds::IncorrectStatus;
use crate::helper::Versioning;
use crate::html::{AurPackageResultItem, PackageView};
use crate::paint::{line_shows, render, segment, Segment, SegmentView, Tint};
use crate::text::same_text;
use vstd::prelude::*;

verus! {

/// A package of the listing.
pub type AurPackage = AurPackageResultItem;

/// A segment that is not painted.
pub open spec fn plain(text: Seq<char>) -> SegmentView {
    SegmentView { text, tint: Tint::Plain }
}

/// The remark on an installed package: the installed version, in red and
/// called outdated where it is older than the one on offer, in green where
/// it is the same, in yellow and called newer where it is newer.
pub open spec fn installed_remark(version: Seq<char>, standing: Versioning) -> Seq<SegmentView> {
    seq![SegmentView { text: "Installed:"@, tint: Tint::Cyan }, plain(" "@)] + match standing {
        Versioning::Older => seq![
            SegmentView { text: version, tint: Tint::BrightRed },
            plain(", "@),
            SegmentView { text: "Outdated"@, tint: Tint::BrightRed },
        ],
        Versioning::Same => seq![SegmentView { text: version, tint: Tint::BrightGreen }],
        Versioning::Newer => seq![
            SegmentView { text: version, tint: Tint::BrightYellow },
            plain(", "@),
            SegmentView { text: "Newer"@, tint: Tint::BrightYellow },
        ],
    }
}

/// The remarks in brackets: on the installed version, where the package is
/// installed, and that it is orphaned, where it is; nothing where there is
/// no remark.
pub open spec fn remarks(
    installed: Option<(Seq<char>, Versioning)>,
    orphaned: bool,
) -> Seq<SegmentView> {
    let orphan = seq![SegmentView { text: "Orphaned"@, tint: Tint::BrightRed }];
    match installed {
        Some((version, standing)) => seq![plain(" ["@)] + installed_remark(version, standing) + (
        if orphaned {
            seq![plain(", "@)] + orphan
        } else {
            Seq::empty()
        }) + seq![plain("]"@)],
        None => if orphaned {
            seq![plain(" ["@)] + orphan + seq![plain("]"@)]
        } else {
            Seq::empty()
        },
    }
}

/// The segments of the line of a package.
pub open spec fn package_segments(
    package: PackageView,
    installed: Option<(Seq<char>, Versioning)>,
) -> Seq<SegmentView> {
    seq![
        SegmentView { text: package.name, tint: Tint::BoldWhite },
        plain(" "@),
        SegmentView { text: package.version, tint: Tint::BoldBrightGreen },
    ] + remarks(installed, package.maintainer == "orphan"@)
}

/// The installed version and its standing, as text.
pub open spec fn installed_view(installed: Option<(String, Versioning)>) -> Option<
    (Seq<char>, Versioning),
> {
    match installed {
        Some((version, standing)) => Some((version@, standing)),
        None => None,
    }
}

/// The line that shows a voted package. `installed` holds the installed
/// version and how it stands to the one on offer, where the package is
/// installed. It never fails.
pub fn fancy(aur_pkg: &AurPackage, installed: &Option<(String, Versioning)>) -> (r: Result<
    String,
    IncorrectStatus,
>)
    ensures
        r is Ok,
        line_shows(r->Ok_0@, package_segments(aur_pkg@, installed_view(*installed))),
{
    let orphaned = same_text(aur_pkg.maintainer.as_str(), "orphan");
    let mut segments: Vec<Segment> = Vec::new();
    segments.push(segment(aur_pkg.name.as_str(), Tint::BoldWhite));
    segments.push(segment(" ", Tint::Plain));
    segments.push(segment(aur_pkg.version.as_str(), Tint::BoldBrightGreen));
    match installed {
        Some((version, standing)) => {
            segments.push(segment(" [", Tint::Plain));
            segments.push(segment("Installed:", Tint::Cyan));
            segments.push(segment(" ", Tint::Plain));
            match standing {
                Versioning::Older => {
                    segments.push(segment(version.as_str(), Tint::BrightRed));
                    segments.push(segment(", ", Tint::Plain));
                    segments.push(segment("Outdated", Tint::BrightRed));
                },
                Versioning::Same => {
                    segments.push(segment(version.as_str(), Tint::BrightGreen));
                },
                Versioning::Newer => {
                    segments.push(segment(version.as_str(), Tint::BrightYellow));
                    segments.push(segment(", ", Tint::Plain));
                    segments.push(segment("Newer", Tint::BrightYellow));
                },
            }
            if orphaned {
                segments.push(segment(", ", Tint::Plain));
                segments.push(segment("Orphaned", Tint::BrightRed));
            }
            segments.push(segment("]", Tint::Plain));
        },
        None => {
            if orphaned {
                segments.push(segment(" [", Tint::Plain));
                segments.push(segment("Orphaned", Tint::BrightRed));
                segments.push(segment("]", Tint::Plain));
            }
        },
    }
    assert(segments.deep_view() =~= package_segments(aur_pkg@, installed_view(*installed)));
    Ok(render(&segments))
}

} // verus!
