use aur_thumbsup::aur::{Account, Authentication, LoginEvent, LoginStep, VoteResult};
use aur_thumbsup::html::{AurPackageResultItem, ParseError};
use aur_thumbsup::http::{HttpRequest, HttpResponse};
use aur_thumbsup::runs::{do_vote, settle, vote_answer, AurError, Step, VoteError};

const TOKEN: &str = "FAKETOKENFAKETOKENFAKETOKENFAKET";

fn names(texts: &[&str]) -> Vec<String> {
    texts.iter().map(|text| (*text).to_owned()).collect()
}

fn logged_in() -> Authentication {
    let account = Account {
        user: "foo".to_owned(),
        pass: "bar".to_owned(),
        cookie_file: "/tmp/cookie".to_owned(),
    };
    let mut auth = Authentication::new();
    auth.login(&account);
    auth.login_step_at(
        &account,
        LoginEvent::CookieFile(Some(names(&["AURSID=abc", "AURTZ=UTC"]))),
        0,
    );
    let step = auth.login_step_at(
        &account,
        LoginEvent::Response(Some(HttpResponse {
            status: 200,
            url: "https://aur.archlinux.org/".to_owned(),
            set_cookies: Vec::new(),
            body: "<div id=\"archdev-navbar\"><ul><li><a href=\"/logout/\">x</a></li></ul></div>"
                .to_owned(),
        })),
        0,
    );
    assert_eq!(step, LoginStep::Done(Ok(())));
    auth
}

fn cookies() -> Vec<String> {
    names(&["AURTZ=UTC", "AURSID=abc"])
}

fn page_of(name: &str) -> HttpRequest {
    HttpRequest {
        post: false,
        url: format!("https://aur.archlinux.org/packages/{}", name),
        form: Vec::new(),
        cookies: cookies(),
        login_probe: false,
    }
}

fn listing_at(offset: u32) -> HttpRequest {
    HttpRequest {
        post: false,
        url: format!(
            "https://aur.archlinux.org/packages/?O={}&SeB=nd&SB=w&SO=d&PP=250&do_Search=Go",
            offset
        ),
        form: Vec::new(),
        cookies: cookies(),
        login_probe: false,
    }
}

fn submission(name: &str, vote: bool) -> HttpRequest {
    HttpRequest {
        post: true,
        url: format!(
            "https://aur.archlinux.org/pkgbase/{}-base/{}",
            name,
            if vote { "vote/" } else { "unvote/" }
        ),
        form: vec![
            ("token".to_owned(), TOKEN.to_owned()),
            (
                if vote { "do_Vote" } else { "do_UnVote" }.to_owned(),
                name.to_owned(),
            ),
        ],
        cookies: cookies(),
        login_probe: false,
    }
}

fn answer(status: u16, body: &str) -> Option<HttpResponse> {
    Some(HttpResponse {
        status,
        url: String::new(),
        set_cookies: Vec::new(),
        body: body.to_owned(),
    })
}

/// The page of a package: voted, not voted, or no package page at all.
fn package_page(name: &str, voted: Option<bool>, with_base: bool) -> String {
    let form = match voted {
        Some(voted) => format!(
            "<div id=\"actionlist\"><ul><li><form action=\"/pkgbase/{0}-base/{1}vote/\">\
             <input type=\"hidden\" name=\"token\" value=\"{2}\">\
             <input type=\"submit\" name=\"{3}\"></form></li></ul></div>",
            name,
            if voted { "un" } else { "" },
            TOKEN,
            if voted { "do_UnVote" } else { "do_Vote" }
        ),
        None => String::new(),
    };
    let base = if with_base {
        format!(
            "<table id=\"pkginfo\"><tr><td><a href=\"/pkgbase/{0}-base/\">{0}</a></td></tr></table>",
            name
        )
    } else {
        String::new()
    };
    format!("<html><body>{}{}</body></html>", form, base)
}

fn item(n: u32, voted: bool) -> AurPackageResultItem {
    AurPackageResultItem {
        name: format!("pkg{}", n),
        version: "1-1".to_owned(),
        votes: n as u64,
        popularity: "0.5".to_owned(),
        voted,
        notify: false,
        description: "d".to_owned(),
        maintainer: "m".to_owned(),
    }
}

fn listing(items: &[AurPackageResultItem]) -> String {
    let rows: Vec<String> = items
        .iter()
        .map(|pkg| {
            format!(
                "<tr><td></td><td><a href=\"/packages/{0}\">{0}</a></td><td>{1}</td><td>{2}</td>\
                 <td>{3}</td><td>{4}</td><td></td><td>{5}</td><td><a href=\"/account/{6}\">{6}</a>\
                 </td></tr>",
                pkg.name,
                pkg.version,
                pkg.votes,
                pkg.popularity,
                if pkg.voted { "Yes" } else { "" },
                pkg.description,
                pkg.maintainer
            )
        })
        .collect();
    format!(
        "<div id=\"pkglist-results\"><table class=\"results\"><tbody>{}</tbody></table></div>",
        rows.concat()
    )
}

fn range(from: u32, to: u32, voted: bool) -> Vec<AurPackageResultItem> {
    (from..to).map(|n| item(n, voted)).collect()
}

#[test]
fn operations_need_a_session() {
    let auth = Authentication::new();
    assert_eq!(auth.check_vote(&names(&["a"])).err(), Some(AurError::NotLoggedIn));
    assert_eq!(auth.vote(&names(&["a"])).err(), Some(AurError::NotLoggedIn));
    assert_eq!(auth.unvote(&names(&["a"])).err(), Some(AurError::NotLoggedIn));
    assert_eq!(auth.list_voted_pkgs().err(), Some(AurError::NotLoggedIn));
}

#[test]
fn check_vote_gives_the_statuses_in_the_order_of_the_packages() {
    let auth = logged_in();
    let mut run = auth.check_vote(&names(&["a", "b", "c"])).unwrap();
    assert_eq!(run.pending(), Step::Send(page_of("a")));
    assert_eq!(
        run.step(answer(200, &package_page("a", Some(true), true))),
        Step::Send(page_of("b"))
    );
    // the status of the response decides nothing
    assert_eq!(
        run.step(answer(404, &package_page("b", None, false))),
        Step::Send(page_of("c"))
    );
    let expect = vec![
        ("a".to_owned(), Some(true)),
        ("b".to_owned(), None),
        ("c".to_owned(), Some(false)),
    ];
    assert_eq!(
        run.step(answer(200, &package_page("c", Some(false), true))),
        Step::Done(Ok(expect.clone()))
    );
    assert_eq!(run.pending(), Step::Done(Ok(expect.clone())));
    assert_eq!(run.step(None), Step::Done(Ok(expect)));
}

#[test]
fn check_vote_twice_gives_the_same_twice() {
    let auth = logged_in();
    let packages = names(&["a", "b"]);
    let pages = [
        package_page("a", Some(false), true),
        package_page("b", Some(true), true),
    ];
    let mut results = Vec::new();
    for _ in 0..2 {
        let mut run = auth.check_vote(&packages).unwrap();
        let mut step = run.pending();
        let mut next = 0;
        let mut sent = Vec::new();
        let result = loop {
            match step {
                Step::Send(request) => {
                    assert!(!request.post);
                    sent.push(request.url);
                    step = run.step(answer(200, &pages[next]));
                    next += 1;
                }
                Step::Done(result) => break result,
            }
        };
        assert_eq!(sent.len(), 2);
        results.push(result);
    }
    assert_eq!(results[0], results[1]);
    assert_eq!(
        results[0],
        Ok(vec![("a".to_owned(), Some(false)), ("b".to_owned(), Some(true))])
    );
}

#[test]
fn check_vote_of_nothing_is_done_at_once() {
    let auth = logged_in();
    let run = auth.check_vote(&[]).unwrap();
    assert_eq!(run.pending(), Step::Done(Ok(Vec::new())));
}

#[test]
fn a_missing_page_ends_a_check() {
    let auth = logged_in();
    let mut run = auth.check_vote(&names(&["a", "b"])).unwrap();
    run.step(answer(200, &package_page("a", Some(true), true)));
    assert_eq!(run.step(None), Step::Done(Err(AurError::Transport)));
    // the caller may ask again for the page that was missing
    assert_eq!(run.pending(), Step::Send(page_of("b")));
}

#[test]
fn vote_for_a_voted_package_submits_nothing() {
    let auth = logged_in();
    let mut run = auth.vote(&names(&["pkgA"])).unwrap();
    assert_eq!(run.pending(), Step::Send(page_of("pkgA")));
    assert_eq!(
        run.step(answer(200, &package_page("pkgA", Some(true), true))),
        Step::Done(Ok(vec![("pkgA".to_owned(), VoteResult::AlreadyVoted)]))
    );
}

#[test]
fn vote_submits_for_an_unvoted_package() {
    let auth = logged_in();
    let mut run = auth.vote(&names(&["a", "b", "c", "d", "e"])).unwrap();
    assert_eq!(run.pending(), Step::Send(page_of("a")));
    // a: not voted, the submission succeeds
    assert_eq!(
        run.step(answer(200, &package_page("a", Some(false), true))),
        Step::Send(submission("a", true))
    );
    assert_eq!(run.step(answer(200, "")), Step::Send(page_of("b")));
    // b: not voted, the submission is refused
    assert_eq!(
        run.step(answer(200, &package_page("b", Some(false), true))),
        Step::Send(submission("b", true))
    );
    assert_eq!(run.step(answer(403, "")), Step::Send(page_of("c")));
    // c: not voted, the submission brings no response
    assert_eq!(
        run.step(answer(200, &package_page("c", Some(false), true))),
        Step::Send(submission("c", true))
    );
    assert_eq!(run.step(None), Step::Send(page_of("d")));
    // d: not voted, but the page names no package base
    assert_eq!(
        run.step(answer(200, &package_page("d", Some(false), false))),
        Step::Send(page_of("e"))
    );
    // e: no package page
    assert_eq!(
        run.step(answer(200, &package_page("e", None, true))),
        Step::Done(Ok(vec![
            ("a".to_owned(), VoteResult::Voted),
            ("b".to_owned(), VoteResult::Failed),
            ("c".to_owned(), VoteResult::Failed),
            ("d".to_owned(), VoteResult::Failed),
            ("e".to_owned(), VoteResult::NotAvailable),
        ]))
    );
}

#[test]
fn unvote_mirrors_vote() {
    let auth = logged_in();
    let mut run = auth.unvote(&names(&["a", "b", "c"])).unwrap();
    assert_eq!(
        run.step(answer(200, &package_page("a", Some(false), true))),
        Step::Send(page_of("b"))
    );
    assert_eq!(
        run.step(answer(200, &package_page("b", Some(true), true))),
        Step::Send(submission("b", false))
    );
    assert_eq!(run.step(answer(204, "")), Step::Send(page_of("c")));
    assert_eq!(
        run.step(answer(200, "")),
        Step::Done(Ok(vec![
            ("a".to_owned(), VoteResult::AlreadyUnVoted),
            ("b".to_owned(), VoteResult::UnVoted),
            ("c".to_owned(), VoteResult::NotAvailable),
        ]))
    );
}

#[test]
fn a_missing_page_ends_a_run_of_votes() {
    let auth = logged_in();
    let mut run = auth.vote(&names(&["a", "b"])).unwrap();
    run.step(answer(200, &package_page("a", Some(true), true)));
    assert_eq!(run.step(None), Step::Done(Err(AurError::Transport)));
}

#[test]
fn settle_and_do_vote() {
    assert_eq!(settle(None, true), Some(VoteResult::NotAvailable));
    assert_eq!(settle(None, false), Some(VoteResult::NotAvailable));
    assert_eq!(settle(Some(true), true), Some(VoteResult::AlreadyVoted));
    assert_eq!(settle(Some(false), false), Some(VoteResult::AlreadyUnVoted));
    assert_eq!(settle(Some(false), true), None);
    assert_eq!(settle(Some(true), false), None);
    assert_eq!(
        do_vote("a", true, &package_page("a", Some(false), true), &cookies()),
        Ok(submission("a", true))
    );
    assert_eq!(
        do_vote("a", false, &package_page("a", Some(true), true), &cookies()),
        Ok(submission("a", false))
    );
    // a page without package base: an error, and no request
    assert_eq!(
        do_vote("a", true, &package_page("a", Some(false), false), &cookies()),
        Err(VoteError::PackageBase)
    );
    assert_eq!(
        do_vote("a", false, "", &cookies()),
        Err(VoteError::PackageBase)
    );
    // a cookie that cannot stand in a header
    assert_eq!(
        do_vote(
            "a",
            true,
            &package_page("a", Some(false), true),
            &names(&["AURSID=a\nb"])
        ),
        Err(VoteError::Request)
    );
    // a page without token is submitted with an empty one
    let mut empty = submission("a", true);
    empty.form[0].1 = String::new();
    assert_eq!(
        do_vote("a", true, &package_page("a", None, true), &cookies()),
        Ok(empty)
    );
}

#[test]
fn listing_stops_at_the_first_row_that_is_not_voted() {
    let auth = logged_in();
    let mut run = auth.list_voted_pkgs().unwrap();
    assert_eq!(run.pending(), Step::Send(listing_at(0)));
    assert_eq!(
        run.step(answer(200, &listing(&range(0, 250, true)))),
        Step::Send(listing_at(250))
    );
    let mut second = range(250, 260, true);
    second.push(item(260, false));
    second.push(item(261, true));
    let result = run.step(answer(200, &listing(&second)));
    assert_eq!(result, Step::Done(Ok(range(0, 260, true))));
    match result {
        Step::Done(Ok(voted)) => assert!(voted.iter().all(|pkg| pkg.voted)),
        _ => unreachable!(),
    }
    // nothing is asked for after the end
    assert_eq!(run.pending(), Step::Done(Ok(range(0, 260, true))));
    assert_eq!(run.step(None), Step::Done(Ok(range(0, 260, true))));
}

#[test]
fn listing_stops_at_an_empty_page() {
    let auth = logged_in();
    let mut run = auth.list_voted_pkgs().unwrap();
    assert_eq!(
        run.step(answer(200, &listing(&range(0, 3, true)))),
        Step::Send(listing_at(250))
    );
    assert_eq!(
        run.step(answer(200, &listing(&[]))),
        Step::Done(Ok(range(0, 3, true)))
    );

    let mut run = auth.list_voted_pkgs().unwrap();
    assert_eq!(run.step(answer(200, "")), Step::Done(Ok(Vec::new())));
    let mut run = auth.list_voted_pkgs().unwrap();
    assert_eq!(
        run.step(answer(200, &listing(&[item(0, false)]))),
        Step::Done(Ok(Vec::new()))
    );
}

#[test]
fn errors_end_a_listing() {
    let auth = logged_in();
    let mut run = auth.list_voted_pkgs().unwrap();
    assert_eq!(run.step(None), Step::Done(Err(AurError::Transport)));
    let broken = listing(&range(0, 2, true)).replace("<td>1</td>", "<td>one</td>");
    assert_eq!(
        run.step(answer(200, &broken)),
        Step::Done(Err(AurError::Page(ParseError::Votes { row: 1 })))
    );
}

#[test]
fn the_address_of_a_page_is_written_out_by_the_rules_of_addresses() {
    let auth = logged_in();
    let run = auth.check_vote(&names(&["a b", "../login", "ä"])).unwrap();
    assert_eq!(run.pending(), Step::Send(page_of("a%20b")));
    let run = auth.check_vote(&names(&["../login"])).unwrap();
    match run.pending() {
        Step::Send(request) => assert_eq!(request.url, "https://aur.archlinux.org/login"),
        _ => unreachable!(),
    }
    let run = auth.check_vote(&names(&["ä"])).unwrap();
    assert_eq!(run.pending(), Step::Send(page_of("%C3%A4")));
}

#[test]
fn a_package_base_that_gives_no_address_fails_the_vote() {
    let page = "<div id=\"actionlist\"><ul><li><form action=\"/pkgbase/x/vote/\">\
                <input name=\"token\" value=\"t\"><input name=\"do_Vote\"></form></li></ul></div>\
                <table id=\"pkginfo\"><tr><td><a href=\":99999/pkgbase/x/\">x</a></td></tr></table>";
    assert_eq!(do_vote("x", true, page, &cookies()), Err(VoteError::Request));
    let auth = logged_in();
    let mut run = auth.vote(&names(&["x"])).unwrap();
    assert_eq!(
        run.step(answer(200, page)),
        Step::Done(Ok(vec![("x".to_owned(), VoteResult::Failed)]))
    );
    assert_eq!(run.last_error(), Some(("x".to_owned(), VoteError::Request)));
}

#[test]
fn a_submission_succeeds_with_a_status_of_success_only() {
    assert_eq!(vote_answer(&answer(200, "")), Ok(()));
    assert_eq!(vote_answer(&answer(204, "")), Ok(()));
    assert_eq!(vote_answer(&answer(299, "")), Ok(()));
    assert_eq!(vote_answer(&answer(199, "")), Err(VoteError::Refused));
    assert_eq!(vote_answer(&answer(300, "")), Err(VoteError::Refused));
    assert_eq!(vote_answer(&answer(302, "")), Err(VoteError::Refused));
    assert_eq!(vote_answer(&answer(403, "")), Err(VoteError::Refused));
    assert_eq!(vote_answer(&answer(500, "")), Err(VoteError::Refused));
    assert_eq!(vote_answer(&None), Err(VoteError::Refused));
}

#[test]
fn a_run_keeps_the_error_of_the_vote_that_failed() {
    let auth = logged_in();
    let mut run = auth.vote(&names(&["a", "b", "c", "d"])).unwrap();
    assert_eq!(run.last_error(), None);
    // a: the page names no package base
    assert_eq!(
        run.step(answer(200, &package_page("a", Some(false), false))),
        Step::Send(page_of("b"))
    );
    let (package, error) = run.last_error().unwrap();
    assert_eq!((package.as_str(), error), ("a", VoteError::PackageBase));
    assert_eq!(error.message(&package, true), "Error: cannot get pkgbase of a");
    // b: the submission is refused
    assert_eq!(
        run.step(answer(200, &package_page("b", Some(false), true))),
        Step::Send(submission("b", true))
    );
    assert_eq!(run.last_error(), None);
    assert_eq!(run.step(answer(500, "")), Step::Send(page_of("c")));
    let (package, error) = run.last_error().unwrap();
    assert_eq!((package.as_str(), error), ("b", VoteError::Refused));
    assert_eq!(error.message(&package, true), "Error: cannot vote for b");
    // c: voted already, no error
    assert_eq!(
        run.step(answer(200, &package_page("c", Some(true), true))),
        Step::Send(page_of("d"))
    );
    assert_eq!(run.last_error(), None);
    // d: the submission succeeds
    run.step(answer(200, &package_page("d", Some(false), true)));
    assert_eq!(
        run.step(answer(200, "")),
        Step::Done(Ok(vec![
            ("a".to_owned(), VoteResult::Failed),
            ("b".to_owned(), VoteResult::Failed),
            ("c".to_owned(), VoteResult::AlreadyVoted),
            ("d".to_owned(), VoteResult::Voted),
        ]))
    );
    assert_eq!(run.last_error(), None);

    let mut run = auth.unvote(&names(&["e"])).unwrap();
    run.step(answer(200, &package_page("e", Some(true), true)));
    run.step(None);
    let (package, error) = run.last_error().unwrap();
    assert_eq!(error.message(&package, false), "Error: cannot unvote e");
}
