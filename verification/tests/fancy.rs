use aur_thumbsup::aur::VoteResult;
use aur_thumbsup::cmds::check;
use aur_thumbsup::cmds::list;
use aur_thumbsup::cmds::unvote;
use aur_thumbsup::cmds::vote;
use aur_thumbsup::helper::Versioning;
use aur_thumbsup::html::AurPackageResultItem;
use colored::Colorize;

#[test]
fn check_test_fancy() {
    // Voted
    let voted = ("pacman-mirrorup".to_owned(), Some(true));
    let result = check::fancy(&voted).unwrap();
    let expect = format!("{} {}", voted.0.bold().white(), "Yes".bright_green());
    assert_eq!(result, expect, "`{}` != `{}`", result, expect);

    // Unvoted
    let voted = ("pacman-mirrorup".to_owned(), Some(false));
    let result = check::fancy(&voted).unwrap();
    let expect = format!("{} {}", voted.0.bold().white(), "No".bright_red());
    assert_eq!(result, expect, "`{}` != `{}`", result, expect);

    // N/A
    let voted = ("pacman-mirrorup".to_owned(), None);
    let result = check::fancy(&voted).unwrap();
    let expect = format!("{} {}", voted.0.bold().white(), "N/A".bright_yellow());
    assert_eq!(result, expect, "`{}` != `{}`", result, expect);
}

#[test]
fn unvote_test_fancy() {
    // Already unvoted
    let status = ("pacman-mirrorup".to_owned(), VoteResult::AlreadyUnVoted);
    let result = unvote::fancy(&status).unwrap();
    let expect = format!(
        "{}    {}",
        status.0.bold().white(),
        "Already unvoted".bright_green()
    );
    assert_eq!(result, expect, "`{}` != `{}`", result, expect);

    // Unvoted
    let status = ("pacman-mirrorup".to_owned(), VoteResult::UnVoted);
    let result = unvote::fancy(&status).unwrap();
    let expect = format!(
        "{}    {}",
        status.0.bold().white(),
        "Unvoted".bright_green()
    );
    assert_eq!(result, expect, "`{}` != `{}`", result, expect);

    // Failed
    let status = ("pacman-mirrorup".to_owned(), VoteResult::Failed);
    let result = unvote::fancy(&status).unwrap();
    let expect = format!("{}    {}", status.0.bold().white(), "Failed".bright_red());
    assert_eq!(result, expect, "`{}` != `{}`", result, expect);

    // N/A
    let status = ("pacman-mirrorup".to_owned(), VoteResult::NotAvailable);
    let result = unvote::fancy(&status).unwrap();
    let expect = format!("{}    {}", status.0.bold().white(), "N/A".bright_red());
    assert_eq!(result, expect, "`{}` != `{}`", result, expect);
}

#[test]
fn vote_test_fancy() {
    // Already voted
    let status = ("pacman-mirrorup".to_owned(), VoteResult::AlreadyVoted);
    let result = vote::fancy(&status).unwrap();
    let expect = format!(
        "{}    {}",
        status.0.bold().white(),
        "Already voted".bright_green()
    );
    assert_eq!(result, expect, "`{}` != `{}`", result, expect);

    // Voted
    let status = ("pacman-mirrorup".to_owned(), VoteResult::Voted);
    let result = vote::fancy(&status).unwrap();
    let expect = format!("{}    {}", status.0.bold().white(), "Voted".bright_green());
    assert_eq!(result, expect, "`{}` != `{}`", result, expect);

    // Failed
    let status = ("pacman-mirrorup".to_owned(), VoteResult::Failed);
    let result = vote::fancy(&status).unwrap();
    let expect = format!("{}    {}", status.0.bold().white(), "Failed".bright_red());
    assert_eq!(result, expect, "`{}` != `{}`", result, expect);

    // N/A
    let status = ("pacman-mirrorup".to_owned(), VoteResult::NotAvailable);
    let result = vote::fancy(&status).unwrap();
    let expect = format!("{}    {}", status.0.bold().white(), "N/A".bright_red());
    assert_eq!(result, expect, "`{}` != `{}`", result, expect);
}

#[test]
fn list_test_fancy() {
    let mut aur_pkg = AurPackageResultItem {
        name: "pacman-mirrorup".to_owned(),
        version: "0.3.0-1".to_owned(),
        votes: 1,
        popularity: "0.99".to_owned(),
        voted: true,
        notify: true,
        description: "A service to retrieve the best and latest Pacman mirror list based on user's geography".to_owned(),
        maintainer: "bpetlert".to_owned(),
    };
    let mut installed = Some(("0.3.0-1".to_owned(), Versioning::Same));

    // Same version
    let result = list::fancy(&aur_pkg, &installed).unwrap();
    let expect = format!(
        "{} {} [{} {}]",
        aur_pkg.name.bold().white(),
        aur_pkg.version.bold().bright_green(),
        "Installed:".cyan(),
        "0.3.0-1".bright_green()
    );
    assert_eq!(result, expect, "`{}` != `{}`", result, expect);

    // AUR is newer
    aur_pkg.version = "0.3.0.r5.ge7b1840-1".to_owned();
    installed = Some(("0.3.0-1".to_owned(), Versioning::Older));
    let result = list::fancy(&aur_pkg, &installed).unwrap();
    let expect = format!(
        "{} {} [{} {}, {}]",
        aur_pkg.name.bold().white(),
        aur_pkg.version.bold().bright_green(),
        "Installed:".cyan(),
        "0.3.0-1".bright_red(),
        "Outdated".bright_red()
    );
    assert_eq!(result, expect, "`{}` != `{}`", result, expect);

    // local is newer
    aur_pkg.version = "0.3.0-1".to_owned();
    installed = Some(("0.3.0.r5.ge7b1840-1".to_owned(), Versioning::Newer));
    let result = list::fancy(&aur_pkg, &installed).unwrap();
    let expect = format!(
        "{} {} [{} {}, {}]",
        aur_pkg.name.bold().white(),
        aur_pkg.version.bold().bright_green(),
        "Installed:".cyan(),
        "0.3.0.r5.ge7b1840-1".bright_yellow(),
        "Newer".bright_yellow()
    );
    assert_eq!(result, expect, "`{}` != `{}`", result, expect);

    // Same version but orphan
    aur_pkg.version = "0.3.0-1".to_owned();
    aur_pkg.maintainer = "orphan".to_owned();
    installed = Some(("0.3.0-1".to_owned(), Versioning::Same));
    let result = list::fancy(&aur_pkg, &installed).unwrap();
    let expect = format!(
        "{} {} [{} {}, {}]",
        aur_pkg.name.bold().white(),
        aur_pkg.version.bold().bright_green(),
        "Installed:".cyan(),
        "0.3.0-1".bright_green(),
        "Orphaned".bright_red()
    );
    assert_eq!(result, expect, "`{}` != `{}`", result, expect);

    // Not install and orphan
    aur_pkg.maintainer = "orphan".to_owned();
    installed = None;
    let result = list::fancy(&aur_pkg, &installed).unwrap();
    let expect = format!(
        "{} {} [{}]",
        aur_pkg.name.bold().white(),
        aur_pkg.version.bold().bright_green(),
        "Orphaned".bright_red()
    );
    assert_eq!(result, expect, "`{}` != `{}`", result, expect);

    // Not install and not orphan
    aur_pkg.maintainer = "bpetlert".to_owned();
    let result = list::fancy(&aur_pkg, &installed).unwrap();
    let expect = format!(
        "{} {}",
        aur_pkg.name.bold().white(),
        aur_pkg.version.bold().bright_green(),
    );
    assert_eq!(result, expect, "`{}` != `{}`", result, expect);
}

#[test]
fn vote_fancy_refuses_the_outcomes_of_an_unvote() {
    let status = ("pkg".to_owned(), VoteResult::UnVoted);
    let error = vote::fancy(&status).unwrap_err();
    assert_eq!(error.message(), "Incorrect vote status");
    let status = ("pkg".to_owned(), VoteResult::AlreadyUnVoted);
    assert!(vote::fancy(&status).is_err());
}

#[test]
fn unvote_fancy_refuses_the_outcomes_of_a_vote() {
    let status = ("pkg".to_owned(), VoteResult::Voted);
    assert!(unvote::fancy(&status).is_err());
    let status = ("pkg".to_owned(), VoteResult::AlreadyVoted);
    assert!(unvote::fancy(&status).is_err());
}
