//! The cookies of a session: a jar of the `cookie` crate, filled from the
//! lines of the cookie file or from `Set-Cookie` headers, and read back as
//! the lines to persist and the cookies to attach to a request.

use cookie::{Cookie, CookieJar};
use time::OffsetDateTime;
use vstd::prelude::*;

verus! {

/// The cookie that identifies the session.
pub const SESSION_COOKIE: &'static str = "AURSID";

/// The cookie that holds the user's time zone.
pub const TIMEZONE_COOKIE: &'static str = "AURTZ";

/// The cookie that holds the user's language.
pub const LANGUAGE_COOKIE: &'static str = "AURLANG";

/// The domain that captured cookies are given.
pub const SITE_DOMAIN: &'static str = "aur.archlinux.org";

/// The jar of the cookie crate. Nothing of its inside is known here.
#[verifier::external_type_specification]
#[verifier::external_body]
pub struct ExCookieJar(CookieJar);

/// What a jar holds: for the name of each of its cookies, the cookie's
/// encoded form, and the Unix time of its expiry where it has a date of
/// expiry.
pub uninterp spec fn jar_cookies(jar: CookieJar) -> Map<Seq<char>, (Seq<char>, Option<i64>)>;

/// The cookie that a line denotes: its name, its encoded form, and the Unix
/// time of its expiry where it has a date of expiry; `None` where the line
/// denotes no cookie.
pub uninterp spec fn parsed_cookie(line: Seq<char>) -> Option<
    (Seq<char>, Seq<char>, Option<i64>),
>;

/// The cookie that a line denotes, once it is given the domain `domain`.
pub uninterp spec fn parsed_cookie_in(line: Seq<char>, domain: Seq<char>) -> Option<
    (Seq<char>, Seq<char>, Option<i64>),
>;

/// `CookieJar::new` of the cookie crate: a jar without cookies.
#[verifier::external_body]
pub(crate) fn jar_new() -> (r: CookieJar)
    ensures
        jar_cookies(r) == no_cookies(),
{
    CookieJar::new()
}

/// `Cookie::parse` and `CookieJar::add` of the cookie crate: where `line`
/// denotes a cookie, the jar holds it afterwards under its name, in place of
/// any cookie of that name, and the result is `true`; else the jar is
/// unchanged.
#[verifier::external_body]
fn jar_add(jar: &mut CookieJar, line: &str) -> (added: bool)
    ensures
        match parsed_cookie(line@) {
            Some((name, encoded, expiry)) => added && jar_cookies(*final(jar)) == jar_cookies(
                *old(jar),
            ).insert(name, (encoded, expiry)),
            None => !added && jar_cookies(*final(jar)) == jar_cookies(*old(jar)),
        },
{
    match Cookie::parse(line.to_owned()) {
        Ok(cookie) => {
            jar.add(cookie);
            true
        },
        Err(_) => false,
    }
}

/// `Cookie::parse`, `Cookie::set_domain` and `CookieJar::add` of the cookie
/// crate: as `jar_add`, for the cookie with its domain set to `domain`.
#[verifier::external_body]
fn jar_add_in(jar: &mut CookieJar, line: &str, domain: &str) -> (added: bool)
    ensures
        match parsed_cookie_in(line@, domain@) {
            Some((name, encoded, expiry)) => added && jar_cookies(*final(jar)) == jar_cookies(
                *old(jar),
            ).insert(name, (encoded, expiry)),
            None => !added && jar_cookies(*final(jar)) == jar_cookies(*old(jar)),
        },
{
    match Cookie::parse(line.to_owned()) {
        Ok(mut cookie) => {
            cookie.set_domain(domain.to_owned());
            jar.add(cookie);
            true
        },
        Err(_) => false,
    }
}

/// `CookieJar::get` and `Cookie::encoded` of the cookie crate: the encoded
/// form of the cookie of that name, if the jar holds one.
#[verifier::external_body]
fn jar_encoded(jar: &CookieJar, name: &str) -> (r: Option<String>)
    ensures
        match r {
            Some(encoded) => jar_cookies(*jar).contains_key(name@) && jar_cookies(*jar)[name@].0
                == encoded@,
            None => !jar_cookies(*jar).contains_key(name@),
        },
{
    jar.get(name).map(|cookie| cookie.encoded().to_string())
}

/// `CookieJar::get` and `Cookie::expires_datetime` of the cookie crate, and
/// `OffsetDateTime::unix_timestamp` of the time crate: the Unix time at which
/// the cookie of that name expires, if the jar holds one and it has a date
/// of expiry.
#[verifier::external_body]
fn jar_expiry(jar: &CookieJar, name: &str) -> (r: Option<i64>)
    ensures
        r == if jar_cookies(*jar).contains_key(name@) {
            jar_cookies(*jar)[name@].1
        } else {
            None
        },
{
    jar.get(name).and_then(|cookie| cookie.expires_datetime()).map(|date| date.unix_timestamp())
}

/// `OffsetDateTime::now_utc` and `OffsetDateTime::unix_timestamp` of the time
/// crate: the Unix time of the moment of the call.
#[verifier::external_body]
pub(crate) fn unix_now() -> i64 {
    OffsetDateTime::now_utc().unix_timestamp()
}

/// The cookies of a jar, by name.
pub type Cookies = Map<Seq<char>, (Seq<char>, Option<i64>)>;

/// No cookie at all.
pub open spec fn no_cookies() -> Cookies {
    Map::empty()
}

/// The encoded form of the cookie of that name, as a list of one line, or no
/// line where there is no such cookie.
pub open spec fn line_of(cookies: Cookies, name: Seq<char>) -> Seq<Seq<char>> {
    if cookies.contains_key(name) {
        seq![cookies[name].0]
    } else {
        Seq::empty()
    }
}

/// The encoded forms of the three named cookies that are present, in the
/// fixed order: time zone, language, session.
pub open spec fn cookie_lines(cookies: Cookies) -> Seq<Seq<char>> {
    line_of(cookies, TIMEZONE_COOKIE@) + line_of(cookies, LANGUAGE_COOKIE@) + line_of(
        cookies,
        SESSION_COOKIE@,
    )
}

/// Whether the time zone cookie has a date of expiry that lies before `now`.
pub open spec fn timezone_expired(cookies: Cookies, now: i64) -> bool {
    &&& cookies.contains_key(TIMEZONE_COOKIE@)
    &&& cookies[TIMEZONE_COOKIE@].1 is Some
    &&& cookies[TIMEZONE_COOKIE@].1->0 < now
}

/// The cookies after the lines were added one by one, up to the first line
/// that denotes no cookie; and whether every line denoted one.
pub open spec fn loaded(cookies: Cookies, lines: Seq<Seq<char>>) -> (Cookies, bool)
    decreases lines.len(),
{
    if lines.len() == 0 {
        (cookies, true)
    } else {
        match parsed_cookie(lines[0]) {
            Some((name, encoded, expiry)) => loaded(
                cookies.insert(name, (encoded, expiry)),
                lines.drop_first(),
            ),
            None => (cookies, false),
        }
    }
}

/// The cookies after the header values were added one by one, each with the
/// domain `domain`, up to the first that denotes no cookie; and whether every
/// value denoted one.
pub open spec fn captured(cookies: Cookies, headers: Seq<Seq<char>>, domain: Seq<char>) -> (
    Cookies,
    bool,
)
    decreases headers.len(),
{
    if headers.len() == 0 {
        (cookies, true)
    } else {
        match parsed_cookie_in(headers[0], domain) {
            Some((name, encoded, expiry)) => captured(
                cookies.insert(name, (encoded, expiry)),
                headers.drop_first(),
                domain,
            ),
            None => (cookies, false),
        }
    }
}

/// Adds the cookie of each line of a cookie file to the jar. Fails at the
/// first line that denotes no cookie; the cookies of the lines before it
/// stay in the jar.
pub fn load(jar: &mut CookieJar, lines: &Vec<String>) -> (complete: bool)
    ensures
        (jar_cookies(*final(jar)), complete) == loaded(jar_cookies(*old(jar)), lines.deep_view()),
{
    let ghost all = lines.deep_view();
    let mut i: usize = 0;
    assert(all.skip(0) =~= all);
    while i < lines.len()
        invariant
            i <= lines.len(),
            all == lines.deep_view(),
            loaded(jar_cookies(*jar), all.skip(i as int)) == loaded(jar_cookies(*old(jar)), all),
        decreases lines.len() - i,
    {
        proof {
            assert(all.skip(i as int)[0] == lines@[i as int]@);
            assert(all.skip(i as int).drop_first() =~= all.skip(i + 1));
        }
        if !jar_add(jar, lines[i].as_str()) {
            return false;
        }
        i += 1;
    }
    true
}

/// Adds the cookie of each `Set-Cookie` header value to the jar, with the
/// domain `domain`. Fails at the first value that denotes no cookie.
pub fn capture(jar: &mut CookieJar, headers: &Vec<String>, domain: &str) -> (complete: bool)
    ensures
        (jar_cookies(*final(jar)), complete) == captured(
            jar_cookies(*old(jar)),
            headers.deep_view(),
            domain@,
        ),
{
    let ghost all = headers.deep_view();
    let mut i: usize = 0;
    assert(all.skip(0) =~= all);
    while i < headers.len()
        invariant
            i <= headers.len(),
            all == headers.deep_view(),
            captured(jar_cookies(*jar), all.skip(i as int), domain@) == captured(
                jar_cookies(*old(jar)),
                all,
                domain@,
            ),
        decreases headers.len() - i,
    {
        proof {
            assert(all.skip(i as int)[0] == headers@[i as int]@);
            assert(all.skip(i as int).drop_first() =~= all.skip(i + 1));
        }
        if !jar_add_in(jar, headers[i].as_str(), domain) {
            return false;
        }
        i += 1;
    }
    true
}

/// The cookie of that name, in its encoded form, if the jar holds one.
pub fn get(jar: &CookieJar, name: &str) -> (r: Option<String>)
    ensures
        match r {
            Some(encoded) => jar_cookies(*jar).contains_key(name@) && jar_cookies(*jar)[name@].0
                == encoded@,
            None => !jar_cookies(*jar).contains_key(name@),
        },
{
    jar_encoded(jar, name)
}

/// The encoded forms of the named cookies that the jar holds, in the fixed
/// order time zone, language, session. They are the lines of the cookie
/// file, and the cookies that a request carries.
pub fn jar_lines(jar: &CookieJar) -> (lines: Vec<String>)
    ensures
        lines.deep_view() == cookie_lines(jar_cookies(*jar)),
{
    let mut lines: Vec<String> = Vec::new();
    match get(jar, TIMEZONE_COOKIE) {
        Some(line) => {
            lines.push(line);
        },
        None => {},
    }
    match get(jar, LANGUAGE_COOKIE) {
        Some(line) => {
            lines.push(line);
        },
        None => {},
    }
    match get(jar, SESSION_COOKIE) {
        Some(line) => {
            lines.push(line);
        },
        None => {},
    }
    assert(lines.deep_view() =~= cookie_lines(jar_cookies(*jar)));
    lines
}

/// Whether the time zone cookie of the jar has expired at the time `now`.
pub fn expired(jar: &CookieJar, now: i64) -> (r: bool)
    ensures
        r == timezone_expired(jar_cookies(*jar), now),
{
    match jar_expiry(jar, TIMEZONE_COOKIE) {
        Some(at) => at < now,
        None => false,
    }
}

} // verus!
