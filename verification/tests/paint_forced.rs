use aur_thumbsup::paint::{assemble, paint, render, segment, Tint};

// The one test of this file switches painting on for the whole process.
#[test]
fn painted_segments_stand_between_their_escape_sequences() {
    colored::control::set_override(true);
    assert_eq!(paint("pkg", Tint::Plain), "pkg");
    assert_eq!(paint("pkg", Tint::BoldWhite), "\u{1b}[1;37mpkg\u{1b}[0m");
    assert_eq!(paint("pkg", Tint::BoldBrightGreen), "\u{1b}[1;92mpkg\u{1b}[0m");
    assert_eq!(paint("pkg", Tint::BrightGreen), "\u{1b}[92mpkg\u{1b}[0m");
    assert_eq!(paint("pkg", Tint::BrightRed), "\u{1b}[91mpkg\u{1b}[0m");
    assert_eq!(paint("pkg", Tint::BrightYellow), "\u{1b}[93mpkg\u{1b}[0m");
    assert_eq!(paint("pkg", Tint::Cyan), "\u{1b}[36mpkg\u{1b}[0m");

    // a reset within the text switches the tint on again
    assert_eq!(
        paint("a\u{1b}[0mb\u{1b}[0m", Tint::BrightRed),
        "\u{1b}[91ma\u{1b}[0m\u{1b}[91mb\u{1b}[0m\u{1b}[91m\u{1b}[0m"
    );
    assert_eq!(
        paint("\u{1b}[0m\u{1b}[0", Tint::BoldWhite),
        "\u{1b}[1;37m\u{1b}[0m\u{1b}[1;37m\u{1b}[0\u{1b}[0m"
    );
    assert_eq!(
        paint("\u{1b}[1mx", Tint::Cyan),
        "\u{1b}[36m\u{1b}[1mx\u{1b}[0m"
    );

    let line = render(&vec![
        segment("pkg", Tint::BoldWhite),
        segment("    ", Tint::Plain),
        segment("Voted", Tint::BrightGreen),
    ]);
    assert_eq!(line, "\u{1b}[1;37mpkg\u{1b}[0m    \u{1b}[92mVoted\u{1b}[0m");

    let status = ("pkg".to_owned(), aur_thumbsup::aur::VoteResult::Failed);
    assert_eq!(
        aur_thumbsup::cmds::vote::fancy(&status).unwrap(),
        "\u{1b}[1;37mpkg\u{1b}[0m    \u{1b}[91mFailed\u{1b}[0m"
    );

    colored::control::set_override(false);
    assert_eq!(paint("pkg", Tint::BoldWhite), "pkg");
    assert_eq!(
        assemble(&vec!["a".to_owned(), "".to_owned(), "bc".to_owned()]),
        "abc"
    );
    assert_eq!(assemble(&Vec::new()), "");
}
