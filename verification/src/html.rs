//! Reading data out of the pages of the package site.
//!
//! The pages are parsed and queried by the `scraper` crate. What a query
//! finds is named by the spec functions at the top of this file; the
//! functions below them say what each extraction makes of what was found.
//!
//! The crate is built with its feature `deterministic`: an element keeps
//! its attributes in the order of the markup, so that the inner HTML of an
//! element is the same whenever the same page is read.

use crate::decimal::{float_literal, is_float_literal, parse_u64, parsed_u64};
use crate::decimal::{decimal, push_decimal};
use crate::text::{chars_of, push_chars, same_text, string_of, trim, trimmed};
use scraper::{Html, Selector};
use vstd::prelude::*;

verus! {

/// Rows of the results table of a listing page.
pub const RESULT_ROWS: &'static str = "div#pkglist-results table.results tbody tr";

/// Cells of one row.
pub const ROW_CELLS: &'static str = "td";

/// A hyperlink.
pub const ANCHOR: &'static str = "a";

/// The element that marks a package without maintainer.
pub const ORPHAN_MARK: &'static str = "span";

/// The control that takes a vote back: present on the page of a voted package.
pub const UNVOTE_CONTROL: &'static str =
    "div#actionlist li form[action$=\"vote/\"] input[name=\"do_UnVote\"]";

/// The control that votes: present on the page of an unvoted package.
pub const VOTE_CONTROL: &'static str =
    "div#actionlist li form[action$=\"vote/\"] input[name=\"do_Vote\"]";

/// The hidden field that holds the token of the vote form.
pub const TOKEN_FIELD: &'static str =
    "div#actionlist li form[action$=\"vote/\"] input[name=\"token\"]";

/// The link to the package base in the info table.
pub const PACKAGE_BASE_LINK: &'static str = "table#pkginfo tr td a[href*=\"/pkgbase/\"]";

/// The logout control of the navigation bar.
pub const LOGOUT_LINK: &'static str = "div#archdev-navbar li a[href=\"/logout/\"]";

/// The items of the error list of the login page.
pub const ERROR_ITEMS: &'static str = "ul.errorlist li";

/// The inner HTML of each element of the document `page` that `selector`
/// matches, in the order in which the query yields them; `None` where
/// `selector` is no selector.
pub uninterp spec fn document_selection(page: Seq<char>, selector: Seq<char>) -> Option<
    Seq<Seq<char>>,
>;

/// For each element of the document `page` that `selector` matches, the value
/// of its attribute `name`, if it has one; `None` where `selector` is no
/// selector.
pub uninterp spec fn document_attributes(
    page: Seq<char>,
    selector: Seq<char>,
    name: Seq<char>,
) -> Option<Seq<Option<Seq<char>>>>;

/// For each element of the document `page` that `rows` matches, the inner
/// HTML of each of its descendants that `cells` matches; `None` where one of
/// the two is no selector.
pub uninterp spec fn document_cells(page: Seq<char>, rows: Seq<char>, cells: Seq<char>) -> Option<
    Seq<Seq<Seq<char>>>,
>;

/// The inner HTML of each element of the fragment `markup` that `selector`
/// matches; `None` where `selector` is no selector.
pub uninterp spec fn fragment_selection(markup: Seq<char>, selector: Seq<char>) -> Option<
    Seq<Seq<char>>,
>;

/// The values as text.
pub open spec fn attribute_values(found: Seq<Option<String>>) -> Seq<Option<Seq<char>>> {
    Seq::new(
        found.len(),
        |i: int|
            match found[i] {
                Some(value) => Some(value@),
                None => None,
            },
    )
}

/// `Selector::parse`, `Html::parse_document`, `Html::select` and
/// `ElementRef::inner_html` of scraper: the inner HTML of every match of
/// `selector` in `page`, or `None` where the selector is refused.
#[verifier::external_body]
fn select_in_document(page: &str, selector: &str) -> (r: Option<Vec<String>>)
    ensures
        match r {
            Some(found) => document_selection(page@, selector@) == Some(found.deep_view()),
            None => document_selection(page@, selector@) is None,
        },
{
    let query = Selector::parse(selector).ok()?;
    let document = Html::parse_document(page);
    Some(document.select(&query).map(|element| element.inner_html()).collect())
}

/// `Selector::parse`, `Html::parse_document`, `Html::select` and
/// `Element::attr` of scraper: the attribute `name` of every match of
/// `selector` in `page`, or `None` where the selector is refused.
#[verifier::external_body]
fn select_attributes(page: &str, selector: &str, name: &str) -> (r: Option<Vec<Option<String>>>)
    ensures
        match r {
            Some(found) => document_attributes(page@, selector@, name@) == Some(
                attribute_values(found@),
            ),
            None => document_attributes(page@, selector@, name@) is None,
        },
{
    let query = Selector::parse(selector).ok()?;
    let document = Html::parse_document(page);
    Some(
        document.select(&query).map(
            |element| element.value().attr(name).map(|value| value.to_owned()),
        ).collect(),
    )
}

/// `Selector::parse`, `Html::parse_document`, `Html::select`,
/// `ElementRef::select` and `ElementRef::inner_html` of scraper: for every
/// match of `rows` in `page`, the inner HTML of every match of `cells` below
/// it, or `None` where a selector is refused.
#[verifier::external_body]
fn select_cells(page: &str, rows: &str, cells: &str) -> (r: Option<Vec<Vec<String>>>)
    ensures
        match r {
            Some(found) => document_cells(page@, rows@, cells@) == Some(found.deep_view()),
            None => document_cells(page@, rows@, cells@) is None,
        },
{
    let row_query = Selector::parse(rows).ok()?;
    let cell_query = Selector::parse(cells).ok()?;
    let document = Html::parse_document(page);
    Some(
        document.select(&row_query).map(
            |row| row.select(&cell_query).map(|cell| cell.inner_html()).collect(),
        ).collect(),
    )
}

/// `Selector::parse`, `Html::parse_fragment`, `Html::select` and
/// `ElementRef::inner_html` of scraper: the inner HTML of every match of
/// `selector` in the fragment `markup`, or `None` where the selector is
/// refused.
#[verifier::external_body]
fn select_in_fragment(markup: &str, selector: &str) -> (r: Option<Vec<String>>)
    ensures
        match r {
            Some(found) => fragment_selection(markup@, selector@) == Some(found.deep_view()),
            None => fragment_selection(markup@, selector@) is None,
        },
{
    let query = Selector::parse(selector).ok()?;
    let fragment = Html::parse_fragment(markup);
    Some(fragment.select(&query).map(|element| element.inner_html()).collect())
}

/// Why a page could not be read.
#[derive(Debug, PartialEq, Eq, Clone, Copy)]
pub enum ParseError {
    /// A selector was refused.
    Selector,
    /// A row of the results table has fewer than nine columns.
    MissingColumn { row: usize },
    /// The votes column of a row is no unsigned integer.
    Votes { row: usize },
    /// The popularity column of a row is no decimal number.
    Popularity { row: usize },
    /// The page holds no link to the package base.
    PackageBase,
    /// The page holds no logout control.
    NotLoggedIn,
}

/// A text, the number of a row, and a text.
pub open spec fn row_text(head: Seq<char>, row: usize, tail: Seq<char>) -> Seq<char> {
    head + decimal(row as nat) + tail
}

fn row_message(head: &str, row: usize, tail: &str) -> (r: String)
    ensures
        r@ == row_text(head@, row, tail@),
{
    let mut out = chars_of(head);
    push_decimal(&mut out, row as u64);
    let rest = chars_of(tail);
    push_chars(&mut out, &rest);
    string_of(&out)
}

/// The message of an error.
pub open spec fn parse_error_text(e: ParseError) -> Seq<char> {
    match e {
        ParseError::Selector => "Error: a selector was refused"@,
        ParseError::MissingColumn { row } => row_text(
            "Error: row "@,
            row,
            " of the results has fewer than nine columns"@,
        ),
        ParseError::Votes { row } => row_text(
            "Error: the votes of row "@,
            row,
            " of the results are no unsigned number"@,
        ),
        ParseError::Popularity { row } => row_text(
            "Error: the popularity of row "@,
            row,
            " of the results is no number"@,
        ),
        ParseError::PackageBase => "Error: cannot get pkgbase"@,
        ParseError::NotLoggedIn => "Not logged in."@,
    }
}

impl ParseError {
    /// The message of the error. Rows are counted from zero.
    pub fn message(&self) -> (r: String)
        ensures
            r@ == parse_error_text(*self),
    {
        match self {
            ParseError::Selector => "Error: a selector was refused".to_owned(),
            ParseError::MissingColumn { row } => row_message(
                "Error: row ",
                *row,
                " of the results has fewer than nine columns",
            ),
            ParseError::Votes { row } => row_message(
                "Error: the votes of row ",
                *row,
                " of the results are no unsigned number",
            ),
            ParseError::Popularity { row } => row_message(
                "Error: the popularity of row ",
                *row,
                " of the results is no number",
            ),
            ParseError::PackageBase => "Error: cannot get pkgbase".to_owned(),
            ParseError::NotLoggedIn => "Not logged in.".to_owned(),
        }
    }
}

/// What the page of a package says of the user's vote, given whether it holds
/// the unvote control and whether it holds the vote control.
pub open spec fn vote_status(has_unvote: bool, has_vote: bool) -> Option<bool> {
    if has_unvote {
        Some(true)
    } else if has_vote {
        Some(false)
    } else {
        None
    }
}

/// The vote status from the presence of the two controls: voted where the
/// unvote control is present, not voted where only the vote control is, and
/// undetermined where neither is.
pub fn vote_status_from(has_unvote: bool, has_vote: bool) -> (r: Option<bool>)
    ensures
        r == vote_status(has_unvote, has_vote),
        has_unvote && !has_vote ==> r == Some(true),
        !has_unvote && has_vote ==> r == Some(false),
        !has_unvote && !has_vote ==> r is None,
        r == Some(true) <==> has_unvote,
        r == Some(false) <==> !has_unvote && has_vote,
        r is None <==> !has_unvote && !has_vote,
{
    if has_unvote {
        Some(true)
    } else if has_vote {
        Some(false)
    } else {
        None
    }
}

/// The vote status that a package page shows.
pub open spec fn page_vote_status(page: Seq<char>) -> Result<Option<bool>, ParseError> {
    match document_selection(page, UNVOTE_CONTROL@) {
        None => Err(ParseError::Selector),
        Some(unvote) => if unvote.len() > 0 {
            Ok(Some(true))
        } else {
            match document_selection(page, VOTE_CONTROL@) {
                None => Err(ParseError::Selector),
                Some(vote) => Ok(vote_status(false, vote.len() > 0)),
            }
        },
    }
}

/// Whether the user has voted for the package of this page: `Some(true)`
/// where the page holds the unvote control, `Some(false)` where it holds the
/// vote control and not the unvote control, `None` where it holds neither.
pub fn extract_vote_status(page: &str) -> (r: Result<Option<bool>, ParseError>)
    ensures
        r == page_vote_status(page@),
{
    match select_in_document(page, UNVOTE_CONTROL) {
        None => Err(ParseError::Selector),
        Some(unvote) => {
            if unvote.len() > 0 {
                Ok(vote_status_from(true, false))
            } else {
                match select_in_document(page, VOTE_CONTROL) {
                    None => Err(ParseError::Selector),
                    Some(vote) => Ok(vote_status_from(false, vote.len() > 0)),
                }
            }
        },
    }
}

/// The token of the vote form of a package page; empty where the page holds
/// no such field, or where the field has no value.
pub open spec fn page_csrf_token(page: Seq<char>) -> Result<Seq<char>, ParseError> {
    match document_attributes(page, TOKEN_FIELD@, "value"@) {
        None => Err(ParseError::Selector),
        Some(values) => if values.len() > 0 && values[0] is Some {
            Ok(values[0]->0)
        } else {
            Ok(Seq::empty())
        },
    }
}

/// The token that a vote or unvote submission from this page must carry.
pub fn extract_csrf_token(page: &str) -> (r: Result<String, ParseError>)
    ensures
        match r {
            Ok(token) => page_csrf_token(page@) == Ok::<Seq<char>, ParseError>(token@),
            Err(e) => page_csrf_token(page@) == Err::<Seq<char>, ParseError>(e),
        },
{
    match select_attributes(page, TOKEN_FIELD, "value") {
        None => Err(ParseError::Selector),
        Some(values) => {
            if values.len() > 0 {
                match &values[0] {
                    Some(value) => Ok(value.clone()),
                    None => Ok(String::new()),
                }
            } else {
                Ok(String::new())
            }
        },
    }
}

/// The path of the package base that a package page links to.
pub open spec fn page_package_base_path(page: Seq<char>) -> Result<Seq<char>, ParseError> {
    match document_attributes(page, PACKAGE_BASE_LINK@, "href"@) {
        None => Err(ParseError::Selector),
        Some(links) => if links.len() > 0 && links[0] is Some {
            Ok(links[0]->0)
        } else {
            Err(ParseError::PackageBase)
        },
    }
}

/// The path of the package base of the package of this page. A page without
/// such a link is an error: no vote can be submitted without the path.
pub fn extract_package_base_path(page: &str) -> (r: Result<String, ParseError>)
    ensures
        match r {
            Ok(path) => page_package_base_path(page@) == Ok::<Seq<char>, ParseError>(path@),
            Err(e) => page_package_base_path(page@) == Err::<Seq<char>, ParseError>(e),
        },
{
    match select_attributes(page, PACKAGE_BASE_LINK, "href") {
        None => Err(ParseError::Selector),
        Some(links) => {
            if links.len() > 0 {
                match &links[0] {
                    Some(link) => Ok(link.clone()),
                    None => Err(ParseError::PackageBase),
                }
            } else {
                Err(ParseError::PackageBase)
            }
        },
    }
}

/// Whether a landing page is that of a logged-in user: it holds the logout
/// control.
pub open spec fn page_is_logged_in(page: Seq<char>) -> Result<(), ParseError> {
    match document_selection(page, LOGOUT_LINK@) {
        None => Err(ParseError::Selector),
        Some(links) => if links.len() > 0 {
            Ok(())
        } else {
            Err(ParseError::NotLoggedIn)
        },
    }
}

/// Succeeds where the landing page holds the logout control.
pub fn is_logged_in(page: &str) -> (r: Result<(), ParseError>)
    ensures
        r == page_is_logged_in(page@),
{
    match select_in_document(page, LOGOUT_LINK) {
        None => Err(ParseError::Selector),
        Some(links) => {
            if links.len() > 0 {
                Ok(())
            } else {
                Err(ParseError::NotLoggedIn)
            }
        },
    }
}

/// Each text without leading and trailing white space.
pub open spec fn trimmed_all(items: Seq<Seq<char>>) -> Seq<Seq<char>> {
    Seq::new(items.len(), |i: int| trimmed(items[i]))
}

/// Trims each text.
pub fn trim_all(items: &Vec<String>) -> (r: Vec<String>)
    ensures
        r.deep_view() == trimmed_all(items.deep_view()),
{
    let mut r: Vec<String> = Vec::new();
    let mut i: usize = 0;
    while i < items.len()
        invariant
            i <= items.len(),
            r.len() == i,
            forall|j: int| 0 <= j < i ==> r@[j]@ == trimmed(items@[j]@),
        decreases items.len() - i,
    {
        r.push(trim(items[i].as_str()));
        i += 1;
    }
    assert(r.deep_view() =~= trimmed_all(items.deep_view()));
    r
}

/// The messages of the error list of a login page, each trimmed, in the
/// order of the page.
pub open spec fn page_login_errors(page: Seq<char>) -> Result<Seq<Seq<char>>, ParseError> {
    match document_selection(page, ERROR_ITEMS@) {
        None => Err(ParseError::Selector),
        Some(items) => Ok(trimmed_all(items)),
    }
}

/// The messages of the error list of a login page. An empty list is the sign
/// of a page without errors.
pub fn extract_login_errors(page: &str) -> (r: Result<Vec<String>, ParseError>)
    ensures
        match r {
            Ok(errors) => page_login_errors(page@) == Ok::<Seq<Seq<char>>, ParseError>(
                errors.deep_view(),
            ),
            Err(e) => page_login_errors(page@) == Err::<Seq<Seq<char>>, ParseError>(e),
        },
{
    match select_in_document(page, ERROR_ITEMS) {
        None => Err(ParseError::Selector),
        Some(items) => Ok(trim_all(&items)),
    }
}

/// One row of the results table of a listing page.
#[derive(Debug, PartialEq, Eq, Clone, Default)]
pub struct AurPackageResultItem {
    pub name: String,
    pub version: String,
    pub votes: u64,
    /// The popularity as the page writes it: the text of a floating-point
    /// number.
    pub popularity: String,
    pub voted: bool,
    pub notify: bool,
    pub description: String,
    pub maintainer: String,
}

/// What a row of the results table says.
pub struct PackageView {
    pub name: Seq<char>,
    pub version: Seq<char>,
    pub votes: u64,
    pub popularity: Seq<char>,
    pub voted: bool,
    pub notify: bool,
    pub description: Seq<char>,
    pub maintainer: Seq<char>,
}

impl View for AurPackageResultItem {
    type V = PackageView;

    open spec fn view(&self) -> PackageView {
        PackageView {
            name: self.name@,
            version: self.version@,
            votes: self.votes,
            popularity: self.popularity@,
            voted: self.voted,
            notify: self.notify,
            description: self.description@,
            maintainer: self.maintainer@,
        }
    }
}

impl DeepView for AurPackageResultItem {
    type V = PackageView;

    open spec fn deep_view(&self) -> PackageView {
        self@
    }
}

/// The rows of a listing.
pub type AurPackageResults = Vec<AurPackageResultItem>;

/// The name that the name cell of a row shows: the text of its first link,
/// or the whole cell where it holds no link.
pub open spec fn cell_name(cell: Seq<char>) -> Result<Seq<char>, ParseError> {
    match fragment_selection(cell, ANCHOR@) {
        None => Err(ParseError::Selector),
        Some(links) => if links.len() > 0 {
            Ok(links[0])
        } else {
            Ok(cell)
        },
    }
}

/// The maintainer that the maintainer cell of a row shows: the text of its
/// first link; without a link the text of its orphan mark; without either,
/// nothing.
pub open spec fn cell_maintainer(cell: Seq<char>) -> Result<Seq<char>, ParseError> {
    match fragment_selection(cell, ANCHOR@) {
        None => Err(ParseError::Selector),
        Some(links) => if links.len() > 0 {
            Ok(links[0])
        } else {
            match fragment_selection(cell, ORPHAN_MARK@) {
                None => Err(ParseError::Selector),
                Some(marks) => if marks.len() > 0 {
                    Ok(marks[0])
                } else {
                    Ok(Seq::empty())
                },
            }
        },
    }
}

/// The package that the cells of row number `row` describe. The cells are
/// trimmed first; the columns are, from the second on: name, version, votes,
/// popularity, voted, notify, description, maintainer. A row is an error
/// where it has fewer than nine columns, where its votes are no unsigned
/// integer, and where its popularity is no floating-point number.
pub open spec fn row_item(cells: Seq<Seq<char>>, row: int) -> Result<PackageView, ParseError> {
    let cols = trimmed_all(cells);
    if cols.len() < 9 {
        Err(ParseError::MissingColumn { row: row as usize })
    } else {
        match cell_name(cols[1]) {
            Err(e) => Err(e),
            Ok(name) => match parsed_u64(cols[3]) {
                None => Err(ParseError::Votes { row: row as usize }),
                Some(votes) => if !is_float_literal(cols[4]) {
                    Err(ParseError::Popularity { row: row as usize })
                } else {
                    match cell_maintainer(cols[8]) {
                        Err(e) => Err(e),
                        Ok(maintainer) => Ok(
                            PackageView {
                                name,
                                version: cols[2],
                                votes,
                                popularity: cols[4],
                                voted: cols[5] == "Yes"@,
                                notify: cols[6] == "Yes"@,
                                description: cols[7],
                                maintainer,
                            },
                        ),
                    }
                },
            },
        }
    }
}

/// The packages of the rows, in the order of the rows; the error of the
/// first row that has one.
pub open spec fn rows_items(rows: Seq<Seq<Seq<char>>>) -> Result<Seq<PackageView>, ParseError>
    decreases rows.len(),
{
    if rows.len() == 0 {
        Ok(Seq::empty())
    } else {
        match rows_items(rows.drop_last()) {
            Err(e) => Err(e),
            Ok(items) => match row_item(rows.last(), rows.len() - 1) {
                Err(e) => Err(e),
                Ok(item) => Ok(items.push(item)),
            },
        }
    }
}

/// The packages that a listing page shows.
pub open spec fn page_packages(page: Seq<char>) -> Result<Seq<PackageView>, ParseError> {
    match document_cells(page, RESULT_ROWS@, ROW_CELLS@) {
        None => Err(ParseError::Selector),
        Some(rows) => rows_items(rows),
    }
}

/// What row number `i` of `rows` gives.
pub open spec fn row_result(rows: Seq<Seq<Seq<char>>>, i: int) -> Result<
    PackageView,
    ParseError,
> {
    row_item(rows[i], i)
}

/// A listing has exactly one package for each row, in the order of the rows;
/// it is an error only where a row is one, and then that of the first such
/// row.
pub proof fn lemma_one_item_per_row(rows: Seq<Seq<Seq<char>>>)
    ensures
        match rows_items(rows) {
            Ok(items) => {
                &&& items.len() == rows.len()
                &&& forall|i: int|
                    0 <= i < rows.len() ==> #[trigger] row_result(rows, i) == Ok::<
                        PackageView,
                        ParseError,
                    >(items[i])
            },
            Err(e) => exists|i: int|
                {
                    &&& 0 <= i < rows.len()
                    &&& #[trigger] row_result(rows, i) == Err::<PackageView, ParseError>(e)
                    &&& forall|j: int| 0 <= j < i ==> #[trigger] row_result(rows, j) is Ok
                },
        },
    decreases rows.len(),
{
    if rows.len() > 0 {
        let front = rows.drop_last();
        let n = rows.len() - 1;
        lemma_one_item_per_row(front);
        assert forall|j: int| 0 <= j < n implies row_result(front, j) == row_result(rows, j) by {
            assert(front[j] == rows[j]);
        }
        assert(row_result(rows, n) == row_item(rows.last(), n));
        match rows_items(front) {
            Ok(items) => {
                match row_item(rows.last(), n) {
                    Ok(item) => {
                        let all = items.push(item);
                        assert forall|i: int| 0 <= i < rows.len() implies #[trigger] row_result(
                            rows,
                            i,
                        ) == Ok::<PackageView, ParseError>(all[i]) by {
                            if i < n {
                                assert(row_result(front, i) == row_result(rows, i));
                            }
                        }
                    },
                    Err(e) => {
                        assert forall|j: int| 0 <= j < n implies #[trigger] row_result(
                            rows,
                            j,
                        ) is Ok by {
                            assert(row_result(front, j) == row_result(rows, j));
                        }
                        assert(row_result(rows, n) == Err::<PackageView, ParseError>(e));
                    },
                }
            },
            Err(e) => {
                let i = choose|i: int|
                    {
                        &&& 0 <= i < front.len()
                        &&& #[trigger] row_result(front, i) == Err::<PackageView, ParseError>(e)
                        &&& forall|j: int| 0 <= j < i ==> #[trigger] row_result(front, j) is Ok
                    };
                assert(row_result(front, i) == row_result(rows, i));
                assert forall|j: int| 0 <= j < i implies #[trigger] row_result(rows, j) is Ok by {
                    assert(row_result(front, j) == row_result(rows, j));
                }
            },
        }
    }
}

/// An error among the first rows is the error of the whole listing.
proof fn lemma_error_stays(rows: Seq<Seq<Seq<char>>>, k: int)
    requires
        0 <= k <= rows.len(),
        rows_items(rows.take(k)) is Err,
    ensures
        rows_items(rows) == rows_items(rows.take(k)),
    decreases rows.len() - k,
{
    if k == rows.len() {
        assert(rows.take(k) =~= rows);
    } else {
        assert(rows.drop_last().take(k) =~= rows.take(k));
        lemma_error_stays(rows.drop_last(), k);
    }
}

fn first_or(found: Vec<String>, otherwise: String) -> (r: String)
    ensures
        r@ == if found.len() > 0 {
            found@[0]@
        } else {
            otherwise@
        },
{
    if found.len() > 0 {
        found[0].clone()
    } else {
        otherwise
    }
}

fn extract_name(cell: &str) -> (r: Result<String, ParseError>)
    ensures
        match r {
            Ok(name) => cell_name(cell@) == Ok::<Seq<char>, ParseError>(name@),
            Err(e) => cell_name(cell@) == Err::<Seq<char>, ParseError>(e),
        },
{
    match select_in_fragment(cell, ANCHOR) {
        None => Err(ParseError::Selector),
        Some(links) => Ok(first_or(links, cell.to_owned())),
    }
}

fn extract_maintainer(cell: &str) -> (r: Result<String, ParseError>)
    ensures
        match r {
            Ok(name) => cell_maintainer(cell@) == Ok::<Seq<char>, ParseError>(name@),
            Err(e) => cell_maintainer(cell@) == Err::<Seq<char>, ParseError>(e),
        },
{
    match select_in_fragment(cell, ANCHOR) {
        None => Err(ParseError::Selector),
        Some(links) => {
            if links.len() > 0 {
                Ok(links[0].clone())
            } else {
                match select_in_fragment(cell, ORPHAN_MARK) {
                    None => Err(ParseError::Selector),
                    Some(marks) => Ok(first_or(marks, String::new())),
                }
            }
        },
    }
}

/// The package that the cells of one row describe.
pub fn extract_row(cells: &Vec<String>, row: usize) -> (r: Result<AurPackageResultItem, ParseError>)
    ensures
        match r {
            Ok(item) => row_item(cells.deep_view(), row as int) == Ok::<PackageView, ParseError>(
                item@,
            ),
            Err(e) => row_item(cells.deep_view(), row as int) == Err::<PackageView, ParseError>(e),
        },
{
    let cols = trim_all(cells);
    if cols.len() < 9 {
        return Err(ParseError::MissingColumn { row });
    }
    let ghost view = trimmed_all(cells.deep_view());
    assert(forall|i: int| 0 <= i < 9 ==> cols@[i]@ == #[trigger] view[i]) by {
        assert(cols.deep_view() == view);
        assert forall|i: int| 0 <= i < 9 implies cols@[i]@ == #[trigger] view[i] by {
            assert(cols.deep_view()[i] == cols@[i]@);
        }
    }
    let name = match extract_name(cols[1].as_str()) {
        Ok(name) => name,
        Err(e) => {
            return Err(e);
        },
    };
    let votes = match parse_u64(cols[3].as_str()) {
        Some(votes) => votes,
        None => {
            return Err(ParseError::Votes { row });
        },
    };
    if !float_literal(cols[4].as_str()) {
        return Err(ParseError::Popularity { row });
    }
    let maintainer = match extract_maintainer(cols[8].as_str()) {
        Ok(maintainer) => maintainer,
        Err(e) => {
            return Err(e);
        },
    };
    Ok(
        AurPackageResultItem {
            name,
            version: cols[2].clone(),
            votes,
            popularity: cols[4].clone(),
            voted: same_text(cols[5].as_str(), "Yes"),
            notify: same_text(cols[6].as_str(), "Yes"),
            description: cols[7].clone(),
            maintainer,
        },
    )
}

/// The packages of a listing page: exactly one for each row of the results
/// table, in the order of the rows.
pub fn extract_package_list(page: &str) -> (r: Result<AurPackageResults, ParseError>)
    ensures
        match r {
            Ok(items) => page_packages(page@) == Ok::<Seq<PackageView>, ParseError>(
                items.deep_view(),
            ),
            Err(e) => page_packages(page@) == Err::<Seq<PackageView>, ParseError>(e),
        },
        r matches Ok(items) ==> {
            &&& document_cells(page@, RESULT_ROWS@, ROW_CELLS@) matches Some(rows)
            &&& items.len() == rows.len()
            &&& forall|i: int|
                0 <= i < rows.len() ==> #[trigger] row_result(rows, i) == Ok::<
                    PackageView,
                    ParseError,
                >(items.deep_view()[i])
        },
{
    let rows = match select_cells(page, RESULT_ROWS, ROW_CELLS) {
        Some(rows) => rows,
        None => {
            return Err(ParseError::Selector);
        },
    };
    let ghost all = rows.deep_view();
    let mut items: Vec<AurPackageResultItem> = Vec::new();
    let mut i: usize = 0;
    assert(all.take(0) =~= Seq::empty());
    assert(items.deep_view() =~= Seq::empty());
    while i < rows.len()
        invariant
            i <= rows.len(),
            all == rows.deep_view(),
            document_cells(page@, RESULT_ROWS@, ROW_CELLS@) == Some(all),
            rows_items(all.take(i as int)) == Ok::<Seq<PackageView>, ParseError>(
                items.deep_view(),
            ),
        decreases rows.len() - i,
    {
        proof {
            assert(all.take(i + 1).drop_last() =~= all.take(i as int));
            assert(all.take(i + 1).last() == rows@[i as int].deep_view());
        }
        match extract_row(&rows[i], i) {
            Ok(item) => {
                let ghost before = items.deep_view();
                items.push(item);
                assert(items.deep_view() =~= before.push(item@));
            },
            Err(e) => {
                proof {
                    lemma_error_stays(all, i + 1);
                }
                return Err(e);
            },
        }
        i += 1;
    }
    assert(all.take(rows.len() as int) =~= all);
    proof {
        lemma_one_item_per_row(all);
    }
    Ok(items)
}

} // verus!
