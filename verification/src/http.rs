//! The requests that the library asks for and the responses that it is
//! handed, as plain values. Sending a request and receiving its response is
//! the caller's part.
//!
//! The address of a request is the text that the `url` crate, as `reqwest`
//! hands it on, makes of it; what that text is, is named here and not
//! defined.

use crate::decimal::{decimal, push_decimal};
use crate::text::{chars_of, concat, push_chars, same_text, string_of};
use reqwest::header::HeaderValue;
use reqwest::Url;
use vstd::prelude::*;

verus! {

/// The user agent that every request names.
pub const APP_USER_AGENT: &'static str =
    "aur-thumbsup/0.1.0 (https://github.com/bpetlert/aur-thumbsup)";

/// The root of the site.
pub const AUR_URL: &'static str = "https://aur.archlinux.org";

/// The root of the site as the target of a redirect.
pub const AUR_URL_ROOT: &'static str = "https://aur.archlinux.org/";

/// The login endpoint.
pub const AUR_URL_LOGIN: &'static str = "https://aur.archlinux.org/login?next=/";

/// The page of a package is found under this prefix, followed by its name.
pub const AUR_URL_PKG_PAGE: &'static str = "https://aur.archlinux.org/packages/";

/// The endpoint that gives information on packages.
pub const AUR_URL_PKG_INFO: &'static str = "https://aur.archlinux.org/rpc?v=5&type=info";

/// The listing sorted by vote, up to the offset of its first row.
pub const AUR_URL_SORT_VOTED_HEAD: &'static str = "https://aur.archlinux.org/packages/?O=";

/// The listing sorted by vote, after the offset of its first row.
pub const AUR_URL_SORT_VOTED_TAIL: &'static str = "&SeB=nd&SB=w&SO=d&PP=250&do_Search=Go";

/// The status of a redirect.
pub const FOUND: u16 = 302;

/// A request for the caller to send.
#[derive(Debug, PartialEq, Eq, Clone)]
pub struct HttpRequest {
    /// `POST` with `form` as the form body where true; `GET` where false.
    pub post: bool,
    /// The address, with its query.
    pub url: String,
    /// The fields of the form, in order; none for a `GET`.
    pub form: Vec<(String, String)>,
    /// The values of the `Cookie` headers, in the order in which to send them.
    pub cookies: Vec<String>,
    /// Whether the client must stop short of a redirect for which
    /// `stop_redirect` holds.
    pub login_probe: bool,
}

/// A request, as the texts that it holds.
pub struct RequestView {
    pub post: bool,
    pub url: Seq<char>,
    pub form: Seq<(Seq<char>, Seq<char>)>,
    pub cookies: Seq<Seq<char>>,
    pub login_probe: bool,
}

impl View for HttpRequest {
    type V = RequestView;

    open spec fn view(&self) -> RequestView {
        RequestView {
            post: self.post,
            url: self.url@,
            form: self.form.deep_view(),
            cookies: self.cookies.deep_view(),
            login_probe: self.login_probe,
        }
    }
}

/// What came back for a request.
#[derive(Debug, PartialEq, Eq, Clone)]
pub struct HttpResponse {
    pub status: u16,
    /// The URL that the response came from, after any redirect followed.
    pub url: String,
    /// The values of the `Set-Cookie` headers, in the order received.
    pub set_cookies: Vec<String>,
    pub body: String,
}

/// Whether a status is one of success: 200 to 299.
pub open spec fn is_success(status: u16) -> bool {
    200 <= status <= 299
}

/// Whether a status is one of success.
pub fn status_is_success(status: u16) -> (r: bool)
    ensures
        r == is_success(status),
{
    200 <= status && status <= 299
}

/// Whether the client stops short of following a redirect: exactly where the
/// status is 302 and the target is the root of the site.
pub fn stop_redirect(status: u16, target: &str) -> (r: bool)
    ensures
        r == (status == FOUND && target@ == AUR_URL_ROOT@),
{
    status == FOUND && same_text(target, AUR_URL_ROOT)
}

/// The address that `text` denotes, written out; `None` where it denotes no
/// absolute address.
pub uninterp spec fn parsed_url(text: Seq<char>) -> Option<Seq<char>>;

/// The address that `text` denotes, with the pairs added to its query in
/// their order, written out; `None` where `text` denotes no absolute
/// address.
pub uninterp spec fn parsed_url_with(
    text: Seq<char>,
    pairs: Seq<(Seq<char>, Seq<char>)>,
) -> Option<Seq<char>>;

/// `Url::parse` and `Url::to_string` of reqwest: the address that `text`
/// denotes, written out, or `None` where the text is refused.
#[verifier::external_body]
fn parse_url(text: &str) -> (r: Option<String>)
    ensures
        match r {
            Some(url) => parsed_url(text@) == Some(url@),
            None => parsed_url(text@) is None,
        },
{
    Url::parse(text).ok().map(|url| url.to_string())
}

/// `Url::parse_with_params` and `Url::to_string` of reqwest: the address that
/// `text` denotes with the pairs added to its query, written out, or `None`
/// where the text is refused.
#[verifier::external_body]
fn parse_url_with_params(text: &str, pairs: &Vec<(String, String)>) -> (r: Option<String>)
    ensures
        match r {
            Some(url) => parsed_url_with(text@, pairs.deep_view()) == Some(url@),
            None => parsed_url_with(text@, pairs.deep_view()) is None,
        },
{
    Url::parse_with_params(text, pairs).ok().map(|url| url.to_string())
}

/// Whether a text can be the value of a header: it holds no control
/// character but the tabulator.
pub open spec fn is_header_text(text: Seq<char>) -> bool {
    forall|i: int|
        0 <= i < text.len() ==> {
            let c = #[trigger] text[i] as u32;
            c >= 32 && c != 127 || c == 9
        }
}

/// `HeaderValue::from_str` of reqwest: whether the text is accepted as the
/// value of a header. It is where each of its bytes is 32 or more and not
/// 127, or is 9; the bytes of a character beyond 127 are all beyond 127.
#[verifier::external_body]
fn header_text(text: &str) -> (r: bool)
    ensures
        r == is_header_text(text@),
{
    HeaderValue::from_str(text).is_ok()
}

/// Whether each of the cookies can be the value of a header.
pub open spec fn are_header_texts(cookies: Seq<Seq<char>>) -> bool {
    forall|i: int| 0 <= i < cookies.len() ==> is_header_text(#[trigger] cookies[i])
}

/// Whether each of the cookies can be the value of a header.
pub fn header_texts(cookies: &Vec<String>) -> (r: bool)
    ensures
        r == are_header_texts(cookies.deep_view()),
{
    let mut i: usize = 0;
    while i < cookies.len()
        invariant
            i <= cookies.len(),
            forall|j: int| 0 <= j < i ==> is_header_text(#[trigger] cookies.deep_view()[j]),
        decreases cookies.len() - i,
    {
        assert(cookies.deep_view()[i as int] == cookies@[i as int]@);
        if !header_text(cookies[i].as_str()) {
            return false;
        }
        i += 1;
    }
    true
}

/// The request that logs in with credentials: the login endpoint with the
/// user, the password and the wish to be remembered added to its query.
/// `None` where the endpoint is no address.
pub open spec fn login_request(user: Seq<char>, pass: Seq<char>) -> Option<RequestView> {
    match parsed_url_with(
        AUR_URL_LOGIN@,
        seq![("user"@, user), ("passwd"@, pass), ("remember_me"@, "on"@)],
    ) {
        Some(url) => Some(
            RequestView {
                post: false,
                url,
                form: Seq::empty(),
                cookies: Seq::empty(),
                login_probe: true,
            },
        ),
        None => None,
    }
}

/// The request that logs in with credentials.
pub fn make_login_request(user: &str, pass: &str) -> (r: Option<HttpRequest>)
    ensures
        match r {
            Some(request) => login_request(user@, pass@) == Some(request@),
            None => login_request(user@, pass@) is None,
        },
{
    let mut pairs: Vec<(String, String)> = Vec::new();
    pairs.push(("user".to_owned(), user.to_owned()));
    pairs.push(("passwd".to_owned(), pass.to_owned()));
    pairs.push(("remember_me".to_owned(), "on".to_owned()));
    assert(pairs.deep_view() =~= seq![
        ("user"@, user@),
        ("passwd"@, pass@),
        ("remember_me"@, "on"@),
    ]);
    match parse_url_with_params(AUR_URL_LOGIN, &pairs) {
        Some(url) => {
            let form: Vec<(String, String)> = Vec::new();
            let cookies: Vec<String> = Vec::new();
            let request = HttpRequest { post: false, url, form, cookies, login_probe: true };
            assert(request@.form =~= Seq::empty());
            assert(request@.cookies =~= Seq::empty());
            Some(request)
        },
        None => None,
    }
}

/// The request for the page at the address that `text` denotes, with the
/// cookies attached in order. `None` where `text` denotes no address, or a
/// cookie cannot be the value of a header.
pub open spec fn page_request(text: Seq<char>, cookies: Seq<Seq<char>>) -> Option<RequestView> {
    if !are_header_texts(cookies) {
        None
    } else {
        match parsed_url(text) {
            Some(url) => Some(
                RequestView { post: false, url, form: Seq::empty(), cookies, login_probe: false },
            ),
            None => None,
        }
    }
}

/// The request for a page, with the cookies attached in order.
pub fn make_page_request(text: &str, cookies: Vec<String>) -> (r: Option<HttpRequest>)
    ensures
        match r {
            Some(request) => page_request(text@, cookies.deep_view()) == Some(request@),
            None => page_request(text@, cookies.deep_view()) is None,
        },
{
    if !header_texts(&cookies) {
        return None;
    }
    match parse_url(text) {
        Some(url) => {
            let form: Vec<(String, String)> = Vec::new();
            let request = HttpRequest { post: false, url, form, cookies, login_probe: false };
            assert(request@.form =~= Seq::empty());
            Some(request)
        },
        None => None,
    }
}

/// The text of the address of the page of a package.
pub open spec fn package_url(name: Seq<char>) -> Seq<char> {
    AUR_URL_PKG_PAGE@ + name
}

/// The text of the address of the listing sorted by vote, from row `offset`
/// on.
pub open spec fn listing_url(offset: u32) -> Seq<char> {
    AUR_URL_SORT_VOTED_HEAD@ + decimal(offset as nat) + AUR_URL_SORT_VOTED_TAIL@
}

/// The text of the address of the listing from row `offset` on.
pub fn make_listing_url(offset: u32) -> (r: String)
    ensures
        r@ == listing_url(offset),
{
    let mut out = chars_of(AUR_URL_SORT_VOTED_HEAD);
    push_decimal(&mut out, offset as u64);
    let tail = chars_of(AUR_URL_SORT_VOTED_TAIL);
    push_chars(&mut out, &tail);
    string_of(&out)
}

/// The text of the address that a vote, or an unvote, for the package base
/// at `base` is submitted to.
pub open spec fn vote_url(base: Seq<char>, vote: bool) -> Seq<char> {
    AUR_URL@ + base + if vote {
        "vote/"@
    } else {
        "unvote/"@
    }
}

/// The fields of the form of a vote, or an unvote: the token first, then
/// the package under the name of the action.
pub open spec fn vote_form(vote: bool, token: Seq<char>, package: Seq<char>) -> Seq<
    (Seq<char>, Seq<char>),
> {
    seq![
        ("token"@, token),
        (
            if vote {
                "do_Vote"@
            } else {
                "do_UnVote"@
            },
            package,
        ),
    ]
}

/// The submission of a vote, or an unvote. `None` where the address is
/// none, or a cookie cannot be the value of a header.
pub open spec fn vote_request(
    base: Seq<char>,
    vote: bool,
    token: Seq<char>,
    package: Seq<char>,
    cookies: Seq<Seq<char>>,
) -> Option<RequestView> {
    if !are_header_texts(cookies) {
        None
    } else {
        match parsed_url(vote_url(base, vote)) {
            Some(url) => Some(
                RequestView {
                    post: true,
                    url,
                    form: vote_form(vote, token, package),
                    cookies,
                    login_probe: false,
                },
            ),
            None => None,
        }
    }
}

/// The submission of a vote, or an unvote.
pub fn make_vote_request(
    base: &str,
    vote: bool,
    token: String,
    package: &str,
    cookies: Vec<String>,
) -> (r: Option<HttpRequest>)
    ensures
        match r {
            Some(request) => vote_request(base@, vote, token@, package@, cookies.deep_view())
                == Some(request@),
            None => vote_request(base@, vote, token@, package@, cookies.deep_view()) is None,
        },
{
    if !header_texts(&cookies) {
        return None;
    }
    let root = concat(AUR_URL, base);
    let text = concat(
        root.as_str(),
        if vote {
            "vote/"
        } else {
            "unvote/"
        },
    );
    let url = match parse_url(text.as_str()) {
        Some(url) => url,
        None => {
            return None;
        },
    };
    let field = if vote {
        "do_Vote"
    } else {
        "do_UnVote"
    };
    let mut form: Vec<(String, String)> = Vec::new();
    form.push(("token".to_owned(), token));
    form.push((field.to_owned(), package.to_owned()));
    let request = HttpRequest { post: true, url, form, cookies, login_probe: false };
    assert(request@.form =~= vote_form(vote, token@, package@));
    Some(request)
}

/// The request that asks the information endpoint about the packages
/// `names`: one pair `arg[]` for each of them, in their order, added to the
/// query. `None` where the endpoint is no address.
pub open spec fn info_request(names: Seq<Seq<char>>) -> Option<RequestView> {
    match parsed_url_with(
        AUR_URL_PKG_INFO@,
        Seq::new(names.len(), |i: int| ("arg[]"@, names[i])),
    ) {
        Some(url) => Some(
            RequestView {
                post: false,
                url,
                form: Seq::empty(),
                cookies: Seq::empty(),
                login_probe: false,
            },
        ),
        None => None,
    }
}

/// The request that asks about the packages of `pkgs` from index `first`
/// up to, not including, index `end`.
pub(crate) fn make_info_request(pkgs: &[String], first: usize, end: usize) -> (r: Option<HttpRequest>)
    requires
        first <= end <= pkgs.len(),
    ensures
        match r {
            Some(request) => info_request(pkgs.deep_view().subrange(first as int, end as int))
                == Some(request@),
            None => info_request(pkgs.deep_view().subrange(first as int, end as int)) is None,
        },
{
    let mut pairs: Vec<(String, String)> = Vec::new();
    let mut i: usize = first;
    while i < end
        invariant
            first <= i <= end <= pkgs.len(),
            pairs.len() == i - first,
            forall|j: int|
                0 <= j < pairs.len() ==> pairs@[j].deep_view() == ("arg[]"@, pkgs@[j + first]@),
        decreases end - i,
    {
        pairs.push(("arg[]".to_owned(), pkgs[i].clone()));
        i += 1;
    }
    proof {
        let names = pkgs.deep_view().subrange(first as int, end as int);
        assert(pairs.deep_view() =~= Seq::new(names.len(), |i: int| ("arg[]"@, names[i])));
    }
    match parse_url_with_params(AUR_URL_PKG_INFO, &pairs) {
        Some(url) => {
            let form: Vec<(String, String)> = Vec::new();
            let cookies: Vec<String> = Vec::new();
            let request = HttpRequest { post: false, url, form, cookies, login_probe: false };
            assert(request@.form =~= Seq::empty());
            assert(request@.cookies =~= Seq::empty());
            Some(request)
        },
        None => None,
    }
}

} // verus!
