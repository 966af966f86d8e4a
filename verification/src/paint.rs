//! Lines for the terminal, made of segments of text, some of them painted
//! by the `colored` crate.
//!
//! Whether `colored` paints at all depends on the environment of the
//! process. So nothing here says which of the two a painted segment comes
//! out as: plain, or between the escape sequences of its tint. Where it
//! paints a text that holds resets of its own, it switches the tint on
//! again behind each of them.

use crate::text::occurs_at;
use colored::Colorize;
use vstd::prelude::*;

verus! {

/// How a segment is painted.
#[derive(PartialEq, Eq, Debug, Clone, Copy)]
pub enum Tint {
    Plain,
    BoldWhite,
    BoldBrightGreen,
    BrightGreen,
    BrightRed,
    BrightYellow,
    Cyan,
}

/// The escape character.
pub open spec fn escape() -> char {
    '\u{1b}'
}

/// The parameters of the escape sequence that switches a tint on; `None`
/// for a segment that is not painted.
pub open spec fn tint_code(tint: Tint) -> Option<Seq<char>> {
    match tint {
        Tint::Plain => None,
        Tint::BoldWhite => Some("1;37"@),
        Tint::BoldBrightGreen => Some("1;92"@),
        Tint::BrightGreen => Some("92"@),
        Tint::BrightRed => Some("91"@),
        Tint::BrightYellow => Some("93"@),
        Tint::Cyan => Some("36"@),
    }
}

/// The sequence that switches the tint with the parameters `code` on.
pub open spec fn switch_on(code: Seq<char>) -> Seq<char> {
    seq![escape(), '['] + code + seq!['m']
}

/// The sequence that resets every tint.
pub open spec fn reset() -> Seq<char> {
    seq![escape(), '[', '0', 'm']
}

/// `text` with the tint switched on again behind each reset that it holds,
/// the resets taken from left to right.
pub open spec fn resumed(text: Seq<char>, code: Seq<char>) -> Seq<char>
    decreases text.len(),
{
    if text.len() == 0 {
        text
    } else if occurs_at(text, reset(), 0) {
        reset() + switch_on(code) + resumed(text.skip(reset().len() as int), code)
    } else {
        seq![text[0]] + resumed(text.drop_first(), code)
    }
}

/// `text` between the sequence that switches the tint on and the sequence
/// that resets, with the tint switched on again behind each reset within.
pub open spec fn painted(text: Seq<char>, code: Seq<char>) -> Seq<char> {
    switch_on(code) + resumed(text, code) + reset()
}

/// What may come out for `text` painted with `code`: the text as it is,
/// or the painted text.
pub open spec fn may_show(out: Seq<char>, text: Seq<char>, code: Seq<char>) -> bool {
    out == text || out == painted(text, code)
}

/// A text that holds no escape character comes out painted as it is
/// between the two sequences.
pub proof fn lemma_plain_text_stays(text: Seq<char>, code: Seq<char>)
    requires
        !text.contains(escape()),
    ensures
        resumed(text, code) == text,
        painted(text, code) == switch_on(code) + text + reset(),
    decreases text.len(),
{
    if text.len() > 0 {
        assert(text[0] != escape());
        if occurs_at(text, reset(), 0) {
            assert(text.subrange(0, reset().len() as int)[0] == text[0]);
            assert(reset()[0] == escape());
        }
        let rest = text.drop_first();
        assert forall|i: int| 0 <= i < rest.len() implies rest[i] != escape() by {
            assert(rest[i] == text[i + 1]);
        }
        lemma_plain_text_stays(rest, code);
        assert(seq![text[0]] + rest =~= text);
    }
}

/// What may come out for `text` with the tint `tint`.
pub open spec fn shows(out: Seq<char>, text: Seq<char>, tint: Tint) -> bool {
    match tint_code(tint) {
        None => out == text,
        Some(code) => may_show(out, text, code),
    }
}

/// `Colorize::bold` and `Colorize::white` of colored, formatted: the text as it
/// is where colored does not paint, and else the painted text.
#[verifier::external_body]
fn bold_white(text: &str) -> (r: String)
    ensures
        may_show(r@, text@, "1;37"@),
{
    format!("{}", text.bold().white())
}

/// `Colorize::bold` and `Colorize::bright_green` of colored, formatted: the text as it
/// is where colored does not paint, and else the painted text.
#[verifier::external_body]
fn bold_bright_green(text: &str) -> (r: String)
    ensures
        may_show(r@, text@, "1;92"@),
{
    format!("{}", text.bold().bright_green())
}

/// `Colorize::bright_green` of colored, formatted: the text as it is where colored
/// does not paint, and else the painted text.
#[verifier::external_body]
fn bright_green(text: &str) -> (r: String)
    ensures
        may_show(r@, text@, "92"@),
{
    format!("{}", text.bright_green())
}

/// `Colorize::bright_red` of colored, formatted: the text as it is where colored
/// does not paint, and else the painted text.
#[verifier::external_body]
fn bright_red(text: &str) -> (r: String)
    ensures
        may_show(r@, text@, "91"@),
{
    format!("{}", text.bright_red())
}

/// `Colorize::bright_yellow` of colored, formatted: the text as it is where colored
/// does not paint, and else the painted text.
#[verifier::external_body]
fn bright_yellow(text: &str) -> (r: String)
    ensures
        may_show(r@, text@, "93"@),
{
    format!("{}", text.bright_yellow())
}

/// `Colorize::cyan` of colored, formatted: the text as it is where colored
/// does not paint, and else the painted text.
#[verifier::external_body]
fn cyan(text: &str) -> (r: String)
    ensures
        may_show(r@, text@, "36"@),
{
    format!("{}", text.cyan())
}

/// The text with its tint, as the terminal is to show it.
pub fn paint(text: &str, tint: Tint) -> (r: String)
    ensures
        shows(r@, text@, tint),
{
    match tint {
        Tint::Plain => text.to_owned(),
        Tint::BoldWhite => bold_white(text),
        Tint::BoldBrightGreen => bold_bright_green(text),
        Tint::BrightGreen => bright_green(text),
        Tint::BrightRed => bright_red(text),
        Tint::BrightYellow => bright_yellow(text),
        Tint::Cyan => cyan(text),
    }
}

/// A piece of a line: a text and its tint.
#[derive(PartialEq, Eq, Debug, Clone)]
pub struct Segment {
    pub text: String,
    pub tint: Tint,
}

/// A segment, as the text that it holds.
pub struct SegmentView {
    pub text: Seq<char>,
    pub tint: Tint,
}

impl DeepView for Segment {
    type V = SegmentView;

    open spec fn deep_view(&self) -> SegmentView {
        SegmentView { text: self.text@, tint: self.tint }
    }
}

/// The pieces one after the other.
pub open spec fn concat_all(pieces: Seq<Seq<char>>) -> Seq<char>
    decreases pieces.len(),
{
    if pieces.len() == 0 {
        Seq::empty()
    } else {
        concat_all(pieces.drop_last()) + pieces.last()
    }
}

/// Whether the pieces are what may come out for the segments, one piece
/// for each segment.
pub open spec fn show_all(pieces: Seq<Seq<char>>, segments: Seq<SegmentView>) -> bool {
    &&& pieces.len() == segments.len()
    &&& forall|i: int|
        0 <= i < segments.len() ==> shows(
            #[trigger] pieces[i],
            segments[i].text,
            segments[i].tint,
        )
}

/// Whether `out` is a line that may come out for the segments.
pub open spec fn line_shows(out: Seq<char>, segments: Seq<SegmentView>) -> bool {
    exists|pieces: Seq<Seq<char>>| #[trigger]
        show_all(pieces, segments) && out == concat_all(pieces)
}

/// The pieces one after the other, as one line.
pub fn assemble(pieces: &Vec<String>) -> (r: String)
    ensures
        r@ == concat_all(pieces.deep_view()),
{
    let mut out = String::new();
    let mut i: usize = 0;
    assert(pieces.deep_view().take(0) =~= Seq::empty());
    while i < pieces.len()
        invariant
            i <= pieces.len(),
            out@ == concat_all(pieces.deep_view().take(i as int)),
        decreases pieces.len() - i,
    {
        proof {
            let all = pieces.deep_view();
            assert(all.take(i + 1).drop_last() =~= all.take(i as int));
            assert(all.take(i + 1).last() == pieces@[i as int]@);
        }
        out.append(pieces[i].as_str());
        i += 1;
    }
    assert(pieces.deep_view().take(pieces.len() as int) =~= pieces.deep_view());
    out
}

/// The line of the segments, each painted with its tint.
pub fn render(segments: &Vec<Segment>) -> (r: String)
    ensures
        line_shows(r@, segments.deep_view()),
{
    let mut pieces: Vec<String> = Vec::new();
    let mut i: usize = 0;
    while i < segments.len()
        invariant
            i <= segments.len(),
            pieces.len() == i,
            forall|j: int|
                0 <= j < i ==> shows(
                    #[trigger] pieces@[j]@,
                    segments@[j].text@,
                    segments@[j].tint,
                ),
        decreases segments.len() - i,
    {
        pieces.push(paint(segments[i].text.as_str(), segments[i].tint));
        i += 1;
    }
    let line = assemble(&pieces);
    proof {
        let shown = pieces.deep_view();
        let wanted = segments.deep_view();
        assert forall|j: int| 0 <= j < wanted.len() implies shows(
            #[trigger] shown[j],
            wanted[j].text,
            wanted[j].tint,
        ) by {
            assert(shown[j] == pieces@[j]@);
            assert(wanted[j] == segments@[j].deep_view());
        }
        assert(show_all(shown, wanted));
    }
    line
}

/// A segment of `text` with the tint `tint`.
pub fn segment(text: &str, tint: Tint) -> (r: Segment)
    ensures
        r.deep_view() == (SegmentView { text: text@, tint }),
{
    Segment { text: text.to_owned(), tint }
}

} // verus!
