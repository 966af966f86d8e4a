use aur_thumbsup::html::{
    extract_csrf_token, extract_login_errors, extract_package_base_path, extract_package_list,
    extract_row, extract_vote_status, is_logged_in, trim_all, vote_status_from,
    AurPackageResultItem, ParseError,
};

const TOKEN: &str = "FAKETOKENFAKETOKENFAKETOKENFAKET";

fn item(n: usize, voted: bool, orphan: bool) -> AurPackageResultItem {
    AurPackageResultItem {
        name: format!("package-{}", n),
        version: format!("1.{}.0-1", n),
        votes: (n as u64) * 3,
        popularity: format!("0.{:02}", n % 100),
        voted,
        notify: n % 7 == 0,
        description: format!("Package number {} of the fixture", n),
        maintainer: if orphan {
            "orphan".to_owned()
        } else {
            format!("maintainer{}", n % 5)
        },
    }
}

fn yes(flag: bool) -> &'static str {
    if flag {
        "Yes"
    } else {
        ""
    }
}

fn row(pkg: &AurPackageResultItem) -> String {
    let maintainer = if pkg.maintainer == "orphan" {
        "<span>orphan</span>".to_owned()
    } else {
        format!(
            "<a href=\"/account/{0}\" title=\"View account information for {0}\">{0}</a>",
            pkg.maintainer
        )
    };
    format!(
        "<tr>\n<td><input type=\"checkbox\" name=\"IDs[1]\" value=\"1\"></td>\n\
         <td><a href=\"/packages/{name}\">{name}</a></td>\n<td>{version}</td>\n\
         <td>{votes}</td>\n<td>\n  {popularity}\n</td>\n<td>{voted}</td>\n<td>{notify}</td>\n\
         <td class=\"wrap\">{description}</td>\n<td>\n{maintainer}\n</td>\n</tr>\n",
        name = pkg.name,
        version = pkg.version,
        votes = pkg.votes,
        popularity = pkg.popularity,
        voted = yes(pkg.voted),
        notify = yes(pkg.notify),
        description = pkg.description,
        maintainer = maintainer,
    )
}

fn navbar(logged_in: bool) -> &'static str {
    if logged_in {
        "<div id=\"archdev-navbar\"><ul><li><a href=\"/\">Dashboard</a></li>\
         <li><a href=\"/logout/\">Logout</a></li></ul></div>"
    } else {
        "<div id=\"archdev-navbar\"><ul><li><a href=\"/\">AUR Home</a></li>\
         <li><a href=\"/login/\">Login</a></li></ul></div>"
    }
}

fn page(logged_in: bool, content: &str) -> String {
    format!(
        "<!DOCTYPE html>\n<html lang=\"en\"><head><title>AUR</title></head><body>\n{}\n\
         <div id=\"content\">{}</div></body></html>",
        navbar(logged_in),
        content
    )
}

fn listing(rows: &[String]) -> String {
    page(
        true,
        &format!(
            "<div id=\"pkglist-results\" class=\"box\"><table class=\"results\">\
             <thead><tr><th></th><th>Name</th><th>Version</th><th>Votes</th><th>Popularity</th>\
             <th>Voted</th><th>Notify</th><th>Description</th><th>Maintainer</th></tr></thead>\
             <tbody>\n{}</tbody></table></div>",
            rows.concat()
        ),
    )
}

fn listing_of(pkgs: &[AurPackageResultItem]) -> String {
    let rows: Vec<String> = pkgs.iter().map(row).collect();
    listing(&rows)
}

fn package_page(name: &str, control: Option<(&str, &str)>) -> String {
    let form = match control {
        Some((action, field)) => format!(
            "<li><form action=\"/pkgbase/{name}/{action}/\" method=\"post\"><fieldset>\
             <input type=\"hidden\" name=\"token\" value=\"{token}\">\
             <input type=\"submit\" class=\"button text-button\" name=\"{field}\" value=\"x\">\
             </fieldset></form></li>",
            name = name,
            action = action,
            token = TOKEN,
            field = field
        ),
        None => String::new(),
    };
    page(
        true,
        &format!(
            "<div id=\"actionlist\"><h4>Package Actions</h4><ul class=\"small\">\
             <li><a href=\"/cgit/aur.git/tree/PKGBUILD?h={name}\">View PKGBUILD</a></li>{form}\
             </ul></div>\
             <table id=\"pkginfo\"><tbody><tr><th>Git Clone URL:</th><td>x</td></tr>\
             <tr><th>Package Base:</th><td class=\"wrap\">\
             <a href=\"/pkgbase/{name}/\">{name}</a></td></tr></tbody></table>",
            name = name,
            form = form
        ),
    )
}

fn login_error_page() -> String {
    page(
        false,
        "<div class=\"box\"><h2>AUR Login</h2><ul class=\"errorlist\">\
         <li>\n   Bad username or password.\n </li></ul><form method=\"post\"></form></div>",
    )
}

fn fixture_no_sort_voted() -> Vec<AurPackageResultItem> {
    (0..50).map(|n| item(n, n % 4 == 1 && n < 48, n == 20)).collect()
}

#[test]
fn test_extract_aur_pkgs_no_sort_voted() {
    // Extract package list from html
    let pkgs = fixture_no_sort_voted();
    let aur_packages = extract_package_list(&listing_of(&pkgs)).expect("Paring AUR package results");
    assert_eq!(aur_packages.len(), 50);

    // Compare with the same data
    for n in 0..pkgs.len() {
        assert_eq!(aur_packages[n], pkgs[n], "Failed at record: {}", n);
    }

    // Check voted pkgs
    assert_eq!(aur_packages.into_iter().filter(|pkg| pkg.voted).count(), 12);
}

#[test]
fn test_extract_aur_pkgs_sort_voted_with_orphan() {
    let pkgs: Vec<AurPackageResultItem> = (0..250).map(|n| item(n, true, n % 21 == 3)).collect();
    let aur_packages = extract_package_list(&listing_of(&pkgs)).expect("Paring AUR package results");
    assert_eq!(aur_packages.len(), 250);

    // Check orphan packages
    assert_eq!(
        aur_packages
            .into_iter()
            .filter(|pkg| pkg.maintainer == "orphan")
            .count(),
        12
    );
}

#[test]
fn test_extract_login_error_page() {
    // Login success
    let errors = extract_login_errors(&listing_of(&fixture_no_sort_voted())).expect("Paring login error");
    assert_eq!(errors.len(), 0);

    // Login failed
    let errors = extract_login_errors(&login_error_page()).expect("Paring login error");
    assert_eq!(errors.len(), 1);
    assert_eq!(errors[0], "Bad username or password.");
}

#[test]
fn test_check_login_page() {
    assert!(is_logged_in(&page(true, "")).is_ok());
}

#[test]
fn test_is_vote_html() {
    // Voted package
    let voted = package_page("pacman-mirrorup", Some(("unvote", "do_UnVote")));
    assert_eq!(extract_vote_status(&voted).unwrap(), Some(true));

    // Unvoted package
    let unvoted = package_page("pacman-mirrorup", Some(("vote", "do_Vote")));
    assert_eq!(extract_vote_status(&unvoted).unwrap(), Some(false));

    // N/A
    assert_eq!(extract_vote_status(&page(true, "")).unwrap(), None);
}

#[test]
fn test_extract_token() {
    // From voted package
    let voted = package_page("pacman-mirrorup", Some(("unvote", "do_UnVote")));
    let token = extract_csrf_token(&voted).unwrap();
    let expect = "FAKETOKENFAKETOKENFAKETOKENFAKET".to_owned();
    assert_eq!(token, expect, "`{}` != `{}`", token, expect);

    // From unvoted package
    let unvoted = package_page("pacman-mirrorup", Some(("vote", "do_Vote")));
    let token = extract_csrf_token(&unvoted).unwrap();
    let expect = "FAKETOKENFAKETOKENFAKETOKENFAKET".to_owned();
    assert_eq!(token, expect, "`{}` != `{}`", token, expect);

    // N/A
    let token = extract_csrf_token(&login_error_page()).unwrap();
    let expect = "".to_owned();
    assert_eq!(token, expect, "`{}` != `{}`", token, expect);
}

#[test]
fn listing_keeps_the_order_of_the_rows() {
    let pkgs = vec![item(9, true, false), item(3, false, true), item(5, true, false)];
    let found = extract_package_list(&listing_of(&pkgs)).unwrap();
    let names: Vec<&str> = found.iter().map(|pkg| pkg.name.as_str()).collect();
    assert_eq!(names, vec!["package-9", "package-3", "package-5"]);
    assert_eq!(found[0].votes, 27);
    assert_eq!(found[0].popularity, "0.09");
    assert_eq!(found[1].maintainer, "orphan");
    assert!(!found[1].voted);
}

#[test]
fn listing_without_rows_is_empty() {
    assert_eq!(extract_package_list(&listing(&[])).unwrap(), Vec::new());
    assert_eq!(extract_package_list(&page(true, "")).unwrap(), Vec::new());
    assert_eq!(extract_package_list("").unwrap(), Vec::new());
}

#[test]
fn row_with_too_few_columns_is_an_error() {
    let rows = vec![
        row(&item(1, true, false)),
        "<tr><td></td><td><a href=\"/packages/x\">x</a></td><td>1</td><td>2</td></tr>".to_owned(),
    ];
    assert_eq!(
        extract_package_list(&listing(&rows)),
        Err(ParseError::MissingColumn { row: 1 })
    );
}

#[test]
fn votes_that_are_no_number_are_an_error_of_the_first_such_row() {
    let mut rows: Vec<String> = (0..4).map(|n| row(&item(n, true, false))).collect();
    rows[2] = rows[2].replace("<td>6</td>", "<td>many</td>");
    rows[3] = rows[3].replace("<td>9</td>", "<td>-9</td>");
    assert_eq!(
        extract_package_list(&listing(&rows)),
        Err(ParseError::Votes { row: 2 })
    );
}

#[test]
fn name_without_link_is_the_whole_cell() {
    let cells: Vec<String> = vec![
        "", " plain-name ", "1.0", "+7", "1.5", "Yes", "Yes", " d ", "",
    ]
    .into_iter()
    .map(|cell| cell.to_owned())
    .collect();
    let pkg = extract_row(&cells, 0).unwrap();
    assert_eq!(pkg.name, "plain-name");
    assert_eq!(pkg.votes, 7);
    assert!(pkg.voted);
    assert!(pkg.notify);
    assert_eq!(pkg.description, "d");
    assert_eq!(pkg.maintainer, "");
}

#[test]
fn maintainer_is_link_then_mark_then_nothing() {
    let mut cells: Vec<String> = vec!["", "n", "1", "0", "0", "", "yes", "", ""]
        .into_iter()
        .map(|cell| cell.to_owned())
        .collect();
    cells[8] = "<span>orphan</span><a href=\"/account/foo\">foo</a>".to_owned();
    let pkg = extract_row(&cells, 0).unwrap();
    assert_eq!(pkg.maintainer, "foo");
    assert!(!pkg.voted);
    assert!(!pkg.notify);
    cells[8] = "text <span>orphan</span>".to_owned();
    assert_eq!(extract_row(&cells, 0).unwrap().maintainer, "orphan");
    cells[8] = "just text".to_owned();
    assert_eq!(extract_row(&cells, 0).unwrap().maintainer, "");
    cells.pop();
    assert_eq!(
        extract_row(&cells, 4),
        Err(ParseError::MissingColumn { row: 4 })
    );
}

#[test]
fn unvote_control_decides_where_both_are_present() {
    let both = page(
        true,
        "<div id=\"actionlist\"><ul><li><form action=\"/pkgbase/x/vote/\">\
         <input name=\"do_Vote\"><input name=\"do_UnVote\"></form></li></ul></div>",
    );
    assert_eq!(extract_vote_status(&both), Ok(Some(true)));
    assert_eq!(vote_status_from(true, true), Some(true));
    assert_eq!(vote_status_from(true, false), Some(true));
    assert_eq!(vote_status_from(false, true), Some(false));
    assert_eq!(vote_status_from(false, false), None);
}

#[test]
fn controls_outside_the_action_list_do_not_count() {
    let elsewhere = page(
        true,
        "<div id=\"other\"><ul><li><form action=\"/pkgbase/x/vote/\">\
         <input name=\"do_Vote\"></form></li></ul></div>",
    );
    assert_eq!(extract_vote_status(&elsewhere), Ok(None));
    let other_action = page(
        true,
        "<div id=\"actionlist\"><ul><li><form action=\"/pkgbase/x/flag/\">\
         <input name=\"do_Vote\"><input name=\"token\" value=\"t\"></form></li></ul></div>",
    );
    assert_eq!(extract_vote_status(&other_action), Ok(None));
    assert_eq!(extract_csrf_token(&other_action).unwrap(), "");
}

#[test]
fn token_field_without_value_gives_the_empty_token() {
    let no_value = page(
        true,
        "<div id=\"actionlist\"><ul><li><form action=\"/pkgbase/x/vote/\">\
         <input name=\"token\"><input name=\"do_Vote\"></form></li></ul></div>",
    );
    assert_eq!(extract_csrf_token(&no_value).unwrap(), "");
}

#[test]
fn package_base_path_is_the_link_of_the_info_table() {
    let voted = package_page("pacman-mirrorup", Some(("unvote", "do_UnVote")));
    assert_eq!(
        extract_package_base_path(&voted).unwrap(),
        "/pkgbase/pacman-mirrorup/"
    );
    assert_eq!(
        extract_package_base_path(&page(true, "")),
        Err(ParseError::PackageBase)
    );
}

#[test]
fn page_without_logout_control_is_not_logged_in() {
    assert_eq!(is_logged_in(&page(false, "")), Err(ParseError::NotLoggedIn));
    assert_eq!(is_logged_in(""), Err(ParseError::NotLoggedIn));
}

#[test]
fn login_errors_come_trimmed_and_in_order() {
    let two = page(
        false,
        "<ul class=\"errorlist\"><li> first </li><li>\tsecond\n</li></ul>",
    );
    assert_eq!(extract_login_errors(&two).unwrap(), vec!["first", "second"]);
    assert_eq!(
        trim_all(&vec![" a ".to_owned(), "".to_owned(), "b\u{3000}".to_owned()]),
        vec!["a", "", "b"]
    );
}

#[test]
fn popularity_that_is_no_number_is_an_error() {
    let mut rows: Vec<String> = (0..3).map(|n| row(&item(n, true, false))).collect();
    rows[1] = rows[1].replace("0.01", "high");
    assert_eq!(
        extract_package_list(&listing(&rows)),
        Err(ParseError::Popularity { row: 1 })
    );
    // the votes of a row are read before its popularity
    rows[1] = rows[1].replace("<td>3</td>", "<td>x</td>");
    assert_eq!(
        extract_package_list(&listing(&rows)),
        Err(ParseError::Votes { row: 1 })
    );
}
