//! The session with the package site: logging in, with the cookies of an
//! earlier session or else with the account's credentials.
//!
//! Logging in takes several requests. The library sends none itself: each
//! step hands the caller what to do next, and the caller hands back what
//! came of it.

use crate::cookies::{
    capture, captured, cookie_lines, expired, jar_cookies, jar_lines, jar_new, load, loaded,
    no_cookies, parsed_cookie_in, timezone_expired, unix_now, Cookies, SITE_DOMAIN,
};
use crate::html::{
    extract_login_errors, is_logged_in, page_is_logged_in, page_login_errors, parse_error_text,
    ParseError,
};
use crate::http::{
    is_success, login_request, make_login_request, make_page_request, page_request,
    status_is_success, HttpRequest, HttpResponse, RequestView, AUR_URL, FOUND,
};
use crate::runs::{copy_slice, copy_texts, AurError, CheckVote, ListVoted, VoteRun};
use crate::text::{concat, contains, contains_text, join, joined};
use cookie::CookieJar;
use vstd::prelude::*;

verus! {

/// The outcome of one vote or unvote attempt for one package.
#[derive(PartialEq, Eq, Debug, Clone, Copy)]
pub enum VoteResult {
    Voted,
    AlreadyVoted,
    UnVoted,
    AlreadyUnVoted,
    NotAvailable,
    Failed,
}

impl DeepView for VoteResult {
    type V = VoteResult;

    open spec fn deep_view(&self) -> VoteResult {
        *self
    }
}

/// The account to log in with, and the file that keeps its cookies.
#[derive(Default, PartialEq, Eq, Debug, Clone)]
pub struct Account {
    pub user: String,
    pub pass: String,
    pub cookie_file: String,
}

/// Why a login failed.
#[derive(PartialEq, Eq, Debug, Clone)]
pub enum LoginError {
    /// A request brought no response.
    Transport,
    /// A request could not be made: its address is none, or a cookie
    /// cannot stand in a header.
    Request,
    /// The login endpoint answered with neither the redirect of a login nor
    /// a success.
    Unreachable,
    /// The site turned the credentials down. Holds the messages of its
    /// page, as found and in their order; none where it gave none.
    Rejected(Vec<String>),
    /// The redirect of the login set no cookie.
    NoCookie,
    /// A `Set-Cookie` header denotes no cookie.
    BadCookie,
    /// The time zone cookie has expired.
    Expired,
    /// The landing page did not answer the cookies with success.
    Refused,
    /// A page could not be read, or is not that of a logged-in user.
    Page(ParseError),
    /// The event does not answer the step that was handed out.
    OutOfTurn,
}

/// Why a login failed, as the texts that the error holds.
pub enum LoginErrorView {
    Transport,
    Request,
    Unreachable,
    Rejected(Seq<Seq<char>>),
    NoCookie,
    BadCookie,
    Expired,
    Refused,
    Page(ParseError),
    OutOfTurn,
}

impl View for LoginError {
    type V = LoginErrorView;

    open spec fn view(&self) -> LoginErrorView {
        match self {
            LoginError::Transport => LoginErrorView::Transport,
            LoginError::Request => LoginErrorView::Request,
            LoginError::Unreachable => LoginErrorView::Unreachable,
            LoginError::Rejected(messages) => LoginErrorView::Rejected(messages.deep_view()),
            LoginError::NoCookie => LoginErrorView::NoCookie,
            LoginError::BadCookie => LoginErrorView::BadCookie,
            LoginError::Expired => LoginErrorView::Expired,
            LoginError::Refused => LoginErrorView::Refused,
            LoginError::Page(e) => LoginErrorView::Page(*e),
            LoginError::OutOfTurn => LoginErrorView::OutOfTurn,
        }
    }
}

/// The message of an error. That of credentials turned down is
/// `Login failed` where the page gave no message, and else `Login failed: `
/// and the messages with a comma and a space between each two.
pub open spec fn login_error_text(e: LoginErrorView) -> Seq<char> {
    match e {
        LoginErrorView::Transport => "Unable to reach `https://aur.archlinux.org`"@,
        LoginErrorView::Request => "Unable to make a request to `https://aur.archlinux.org`"@,
        LoginErrorView::Unreachable => "Unable to access `https://aur.archlinux.org/login?next=/`"@,
        LoginErrorView::Rejected(messages) => if messages.len() == 0 {
            "Login failed"@
        } else {
            "Login failed: "@ + joined(messages, ", "@)
        },
        LoginErrorView::NoCookie => "Login failed: no cookie found."@,
        LoginErrorView::BadCookie => "Login failed: a cookie could not be read."@,
        LoginErrorView::Expired => "Cookies were expired."@,
        LoginErrorView::Refused =>
            "Unable to access `https://aur.archlinux.org` with AURSID cookie"@,
        LoginErrorView::Page(e) => parse_error_text(e),
        LoginErrorView::OutOfTurn => "Login failed: an answer came out of turn."@,
    }
}

impl LoginError {
    /// The message of the error.
    pub fn message(&self) -> (r: String)
        ensures
            r@ == login_error_text(self@),
    {
        match self {
            LoginError::Transport => "Unable to reach `https://aur.archlinux.org`".to_owned(),
            LoginError::Request => {
                "Unable to make a request to `https://aur.archlinux.org`".to_owned()
            },
            LoginError::Unreachable => {
                "Unable to access `https://aur.archlinux.org/login?next=/`".to_owned()
            },
            LoginError::Rejected(messages) => {
                if messages.len() == 0 {
                    "Login failed".to_owned()
                } else {
                    let listed = join(messages, ", ");
                    concat("Login failed: ", listed.as_str())
                }
            },
            LoginError::NoCookie => "Login failed: no cookie found.".to_owned(),
            LoginError::BadCookie => "Login failed: a cookie could not be read.".to_owned(),
            LoginError::Expired => "Cookies were expired.".to_owned(),
            LoginError::Refused => {
                "Unable to access `https://aur.archlinux.org` with AURSID cookie".to_owned()
            },
            LoginError::Page(e) => e.message(),
            LoginError::OutOfTurn => "Login failed: an answer came out of turn.".to_owned(),
        }
    }
}

/// Where a login stands: which answer it waits for.
#[derive(PartialEq, Eq, Debug, Clone, Copy)]
pub enum LoginPhase {
    /// No login is under way.
    Idle,
    /// Waiting for the lines of the cookie file.
    CookieFile,
    /// Waiting for the landing page, asked for with the cookies of the file.
    CookieLanding,
    /// Waiting for the answer of the login endpoint.
    Credentials,
    /// Waiting for the landing page, asked for with the cookies that the
    /// login set, for the cookies that it sets in turn.
    Harvest,
    /// Waiting for the landing page, asked for with all cookies, to see
    /// whether it is that of a logged-in user.
    Confirm,
    /// Waiting for the cookie file to be written.
    Saving,
}

/// What came of the step that was handed out.
#[derive(PartialEq, Eq, Debug, Clone)]
pub enum LoginEvent {
    /// The lines of the cookie file; `None` where it could not be read.
    CookieFile(Option<Vec<String>>),
    /// The response to the request; `None` where none came.
    Response(Option<HttpResponse>),
    /// Whether the cookie file was written.
    Saved(bool),
}

/// What the caller is to do next.
#[derive(PartialEq, Eq, Debug)]
pub enum LoginStep {
    /// Read the lines of this file, and answer with `LoginEvent::CookieFile`.
    ReadCookieFile(String),
    /// Send this request, and answer with `LoginEvent::Response`.
    Send(HttpRequest),
    /// Write these lines to this file, which only its owner may read and
    /// write, and answer with `LoginEvent::Saved`.
    WriteCookieFile { path: String, lines: Vec<String> },
    /// The login is over.
    Done(Result<(), LoginError>),
}

/// What the caller is to do next, as the texts that the step holds.
pub enum LoginStepView {
    ReadCookieFile(Seq<char>),
    Send(RequestView),
    WriteCookieFile { path: Seq<char>, lines: Seq<Seq<char>> },
    Done(Result<(), LoginErrorView>),
}

impl View for LoginStep {
    type V = LoginStepView;

    open spec fn view(&self) -> LoginStepView {
        match self {
            LoginStep::ReadCookieFile(path) => LoginStepView::ReadCookieFile(path@),
            LoginStep::Send(request) => LoginStepView::Send(request@),
            LoginStep::WriteCookieFile { path, lines } => LoginStepView::WriteCookieFile {
                path: path@,
                lines: lines.deep_view(),
            },
            LoginStep::Done(Ok(())) => LoginStepView::Done(Ok(())),
            LoginStep::Done(Err(e)) => LoginStepView::Done(Err(e@)),
        }
    }
}

/// The state after a step of a login, and what the caller is to do next.
pub struct LoginMove {
    pub phase: LoginPhase,
    pub cookies: Cookies,
    /// The cookies of the session, where one is established.
    pub session: Option<Seq<Seq<char>>>,
    pub step: LoginStepView,
}

/// The login with cookies has failed: the jar is emptied and the login with
/// the credentials begins, unless its request cannot be made.
pub open spec fn fall_back(account: Account) -> LoginMove {
    match login_request(account.user@, account.pass@) {
        Some(request) => LoginMove {
            phase: LoginPhase::Credentials,
            cookies: no_cookies(),
            session: None,
            step: LoginStepView::Send(request),
        },
        None => give_up(no_cookies(), LoginErrorView::Request),
    }
}

/// The login has failed for good.
pub open spec fn give_up(cookies: Cookies, error: LoginErrorView) -> LoginMove {
    LoginMove {
        phase: LoginPhase::Idle,
        cookies,
        session: None,
        step: LoginStepView::Done(Err(error)),
    }
}

/// The request for the landing page with the cookies of the jar attached:
/// time zone, language, session, in that order. `None` where it cannot be
/// made.
pub open spec fn landing_request(cookies: Cookies) -> Option<RequestView> {
    page_request(AUR_URL@, cookie_lines(cookies))
}

/// The request that validates the cookies of the jar at the time `now`: the
/// one for the landing page. An expired time zone cookie is an error, and
/// so is a request that cannot be made.
pub open spec fn with_cookies(cookies: Cookies, now: i64) -> Result<RequestView, LoginErrorView> {
    if timezone_expired(cookies, now) {
        Err(LoginErrorView::Expired)
    } else {
        match landing_request(cookies) {
            Some(request) => Ok(request),
            None => Err(LoginErrorView::Request),
        }
    }
}

/// What the lines of the cookie file lead to.
pub open spec fn after_cookie_file(
    cookies: Cookies,
    account: Account,
    lines: Option<Vec<String>>,
    now: i64,
) -> LoginMove {
    match lines {
        None => fall_back(account),
        Some(lines) => {
            let (filled, complete) = loaded(cookies, lines.deep_view());
            if !complete {
                fall_back(account)
            } else {
                match with_cookies(filled, now) {
                    Ok(request) => LoginMove {
                        phase: LoginPhase::CookieLanding,
                        cookies: filled,
                        session: None,
                        step: LoginStepView::Send(request),
                    },
                    Err(_) => fall_back(account),
                }
            }
        },
    }
}

/// What the landing page leads to that was asked for with the cookies of
/// the file.
pub open spec fn after_cookie_landing(
    cookies: Cookies,
    account: Account,
    response: Option<HttpResponse>,
) -> LoginMove {
    match response {
        Some(response) => if is_success(response.status) && page_is_logged_in(response.body@)
            is Ok {
            LoginMove {
                phase: LoginPhase::Idle,
                cookies,
                session: Some(cookie_lines(cookies)),
                step: LoginStepView::Done(Ok(())),
            }
        } else {
            fall_back(account)
        },
        None => fall_back(account),
    }
}

/// What the answer of the login endpoint leads to.
pub open spec fn after_credentials(
    cookies: Cookies,
    response: Option<HttpResponse>,
    now: i64,
) -> LoginMove {
    match response {
        None => give_up(cookies, LoginErrorView::Transport),
        Some(response) => if response.status == FOUND && contains_text(response.url@, AUR_URL@) {
            if response.set_cookies.len() == 0 {
                give_up(cookies, LoginErrorView::NoCookie)
            } else {
                match parsed_cookie_in(response.set_cookies[0]@, SITE_DOMAIN@) {
                    None => give_up(cookies, LoginErrorView::BadCookie),
                    Some((name, encoded, expiry)) => {
                        let filled = cookies.insert(name, (encoded, expiry));
                        match with_cookies(filled, now) {
                            Ok(request) => LoginMove {
                                phase: LoginPhase::Harvest,
                                cookies: filled,
                                session: None,
                                step: LoginStepView::Send(request),
                            },
                            Err(e) => give_up(filled, e),
                        }
                    },
                }
            }
        } else if !is_success(response.status) {
            give_up(cookies, LoginErrorView::Unreachable)
        } else {
            match page_login_errors(response.body@) {
                Err(e) => give_up(cookies, LoginErrorView::Page(e)),
                Ok(messages) => give_up(cookies, LoginErrorView::Rejected(messages)),
            }
        },
    }
}

/// What the landing page leads to that was asked for with the cookie that
/// the login set.
pub open spec fn after_harvest(
    cookies: Cookies,
    response: Option<HttpResponse>,
    now: i64,
) -> LoginMove {
    match response {
        None => give_up(cookies, LoginErrorView::Transport),
        Some(response) => if !is_success(response.status) {
            give_up(cookies, LoginErrorView::Refused)
        } else {
            let (filled, complete) = captured(
                cookies,
                response.set_cookies.deep_view(),
                SITE_DOMAIN@,
            );
            if !complete {
                give_up(filled, LoginErrorView::BadCookie)
            } else {
                match with_cookies(filled, now) {
                    Ok(request) => LoginMove {
                        phase: LoginPhase::Confirm,
                        cookies: filled,
                        session: None,
                        step: LoginStepView::Send(request),
                    },
                    Err(e) => give_up(filled, e),
                }
            }
        },
    }
}

/// What the landing page leads to that was asked for with all cookies.
pub open spec fn after_confirm(
    cookies: Cookies,
    account: Account,
    response: Option<HttpResponse>,
) -> LoginMove {
    match response {
        None => give_up(cookies, LoginErrorView::Transport),
        Some(response) => if !is_success(response.status) {
            give_up(cookies, LoginErrorView::Refused)
        } else {
            match page_is_logged_in(response.body@) {
                Err(e) => give_up(cookies, LoginErrorView::Page(e)),
                Ok(_) => LoginMove {
                    phase: LoginPhase::Saving,
                    cookies,
                    session: Some(cookie_lines(cookies)),
                    step: LoginStepView::WriteCookieFile {
                        path: account.cookie_file@,
                        lines: cookie_lines(cookies),
                    },
                },
            }
        },
    }
}

/// One step of a login: from where it stands and what came of the last step
/// to where it stands then and what the caller is to do next.
///
/// A failure of the login with the cookies of the file, whatever it is,
/// leads to the login with the credentials. A failure of that one ends the
/// login. The cookie file is written after a login with the credentials
/// only, and the login has succeeded whether or not it could be written.
/// An event that does not answer the step last handed out changes nothing.
pub open spec fn login_move(
    phase: LoginPhase,
    cookies: Cookies,
    session: Option<Seq<Seq<char>>>,
    account: Account,
    event: LoginEvent,
    now: i64,
) -> LoginMove {
    match (phase, event) {
        (LoginPhase::CookieFile, LoginEvent::CookieFile(lines)) => after_cookie_file(
            cookies,
            account,
            lines,
            now,
        ),
        (LoginPhase::CookieLanding, LoginEvent::Response(response)) => after_cookie_landing(
            cookies,
            account,
            response,
        ),
        (LoginPhase::Credentials, LoginEvent::Response(response)) => after_credentials(
            cookies,
            response,
            now,
        ),
        (LoginPhase::Harvest, LoginEvent::Response(response)) => after_harvest(
            cookies,
            response,
            now,
        ),
        (LoginPhase::Confirm, LoginEvent::Response(response)) => after_confirm(
            cookies,
            account,
            response,
        ),
        (LoginPhase::Saving, LoginEvent::Saved(_)) => LoginMove {
            phase: LoginPhase::Idle,
            cookies,
            session,
            step: LoginStepView::Done(Ok(())),
        },
        _ => LoginMove {
            phase,
            cookies,
            session,
            step: LoginStepView::Done(Err(LoginErrorView::OutOfTurn)),
        },
    }
}

/// The session of a logged-in user: the cookies that each of its requests
/// carries.
#[derive(PartialEq, Eq, Debug, Clone)]
pub struct Session {
    cookies: Vec<String>,
}

/// The state of the session with the site: anonymous, or logged in.
pub struct Authentication {
    session: Option<Session>,
    cookie_jar: CookieJar,
    phase: LoginPhase,
}

/// An operation was asked of a session that is not logged in.
#[derive(PartialEq, Eq, Debug, Clone, Copy)]
pub struct NotLoggedIn;

impl NotLoggedIn {
    /// The message of the error.
    pub fn message(&self) -> (r: String)
        ensures
            r@ == "Not logged in."@,
    {
        "Not logged in.".to_owned()
    }
}

impl Authentication {
    /// The cookies of the jar.
    pub closed spec fn cookies(&self) -> Cookies {
        jar_cookies(self.cookie_jar)
    }

    /// The cookies of the session, where one is established.
    pub closed spec fn session(&self) -> Option<Seq<Seq<char>>> {
        match self.session {
            Some(session) => Some(session.cookies.deep_view()),
            None => None,
        }
    }

    /// Where the login stands.
    pub closed spec fn phase(&self) -> LoginPhase {
        self.phase
    }

    /// Whether a session is established.
    pub open spec fn logged_in(&self) -> bool {
        self.session() is Some
    }

    /// What `m` says of this state.
    pub open spec fn is_at(&self, m: LoginMove) -> bool {
        &&& self.phase() == m.phase
        &&& self.cookies() == m.cookies
        &&& self.session() == m.session
    }

    /// An anonymous session with an empty jar.
    pub fn new() -> (auth: Authentication)
        ensures
            !auth.logged_in(),
            auth.cookies() == no_cookies(),
            auth.phase() == LoginPhase::Idle,
    {
        Authentication { session: None, cookie_jar: jar_new(), phase: LoginPhase::Idle }
    }

    /// Succeeds where a session is established.
    pub fn is_login(&self) -> (r: Result<(), NotLoggedIn>)
        ensures
            r is Ok <==> self.logged_in(),
    {
        if self.session.is_some() {
            Ok(())
        } else {
            Err(NotLoggedIn)
        }
    }

    /// Begins a login: any session is given up, and the cookie file of the
    /// account is to be read first.
    pub fn login(&mut self, account: &Account) -> (step: LoginStep)
        ensures
            final(self).phase() == LoginPhase::CookieFile,
            final(self).cookies() == old(self).cookies(),
            !final(self).logged_in(),
            step@ == LoginStepView::ReadCookieFile(account.cookie_file@),
    {
        self.session = None;
        self.phase = LoginPhase::CookieFile;
        LoginStep::ReadCookieFile(account.cookie_file.clone())
    }

    /// One step of the login, at the time of the call.
    pub fn login_step(&mut self, account: &Account, event: LoginEvent) -> (step: LoginStep)
        ensures
            exists|now: i64|
                {
                    let m = #[trigger] login_move(
                        old(self).phase(),
                        old(self).cookies(),
                        old(self).session(),
                        *account,
                        event,
                        now,
                    );
                    final(self).is_at(m) && step@ == m.step
                },
    {
        let now = unix_now();
        self.login_step_at(account, event, now)
    }

    /// One step of the login, at the Unix time `now`.
    pub fn login_step_at(&mut self, account: &Account, event: LoginEvent, now: i64) -> (step:
        LoginStep)
        ensures
            final(self).is_at(
                login_move(
                    old(self).phase(),
                    old(self).cookies(),
                    old(self).session(),
                    *account,
                    event,
                    now,
                ),
            ),
            step@ == login_move(
                old(self).phase(),
                old(self).cookies(),
                old(self).session(),
                *account,
                event,
                now,
            ).step,
    {
        match (self.phase, event) {
            (LoginPhase::CookieFile, LoginEvent::CookieFile(lines)) => self.login_with_cookie_file(
                account,
                lines,
                now,
            ),
            (LoginPhase::CookieLanding, LoginEvent::Response(response)) => {
                let logged = match &response {
                    Some(response) => status_is_success(response.status) && is_logged_in(
                        response.body.as_str(),
                    ).is_ok(),
                    None => false,
                };
                if logged {
                    self.establish();
                    self.phase = LoginPhase::Idle;
                    LoginStep::Done(Ok(()))
                } else {
                    self.fall_back(account)
                }
            },
            (LoginPhase::Credentials, LoginEvent::Response(response)) => self.login_with_user_pass(
                response,
                now,
            ),
            (LoginPhase::Harvest, LoginEvent::Response(response)) => self.harvest(response, now),
            (LoginPhase::Confirm, LoginEvent::Response(response)) => self.confirm(
                account,
                response,
            ),
            (LoginPhase::Saving, LoginEvent::Saved(_)) => {
                self.phase = LoginPhase::Idle;
                LoginStep::Done(Ok(()))
            },
            _ => LoginStep::Done(Err(LoginError::OutOfTurn)),
        }
    }

    /// The cookies of the session; fails where none is established.
    fn session_cookies(&self) -> (r: Result<Vec<String>, AurError>)
        ensures
            match r {
                Ok(cookies) => self.session() == Some(cookies.deep_view()),
                Err(e) => e == AurError::NotLoggedIn && !self.logged_in(),
            },
    {
        match &self.session {
            Some(session) => Ok(copy_texts(&session.cookies)),
            None => Err(AurError::NotLoggedIn),
        }
    }

    /// The lines to write to the cookie file: the encoded forms of the time
    /// zone, language and session cookies that the jar holds, in that
    /// order. Fails where no session is established.
    pub fn save_cookie(&self) -> (r: Result<Vec<String>, NotLoggedIn>)
        ensures
            match r {
                Ok(lines) => self.logged_in() && lines.deep_view() == cookie_lines(self.cookies()),
                Err(_) => !self.logged_in(),
            },
    {
        if self.session.is_none() {
            return Err(NotLoggedIn);
        }
        Ok(jar_lines(&self.cookie_jar))
    }

    /// Begins a run that checks, for each package in order, whether the
    /// user has voted for it. Fails at once where no session is
    /// established.
    pub fn check_vote(&self, packages: &[String]) -> (r: Result<CheckVote, AurError>)
        ensures
            match r {
                Ok(run) => {
                    &&& self.session() == Some(run.cookies())
                    &&& run.packages() == packages.deep_view()
                    &&& run.voted().len() == 0
                },
                Err(e) => e == AurError::NotLoggedIn && !self.logged_in(),
            },
    {
        match self.session_cookies() {
            Ok(cookies) => Ok(CheckVote::start(cookies, copy_slice(packages))),
            Err(e) => Err(e),
        }
    }

    /// Begins a run that votes for each package in order. Fails at once
    /// where no session is established.
    pub fn vote(&self, packages: &[String]) -> (r: Result<VoteRun, AurError>)
        ensures
            match r {
                Ok(run) => {
                    &&& self.session() == Some(run.cookies())
                    &&& run.packages() == packages.deep_view()
                    &&& run.votes()
                    &&& run.results().len() == 0
                    &&& !run.submitting()
                    &&& run.failure() is None
                },
                Err(e) => e == AurError::NotLoggedIn && !self.logged_in(),
            },
    {
        match self.session_cookies() {
            Ok(cookies) => Ok(VoteRun::start(cookies, copy_slice(packages), true)),
            Err(e) => Err(e),
        }
    }

    /// Begins a run that takes the vote back from each package in order.
    /// Fails at once where no session is established.
    pub fn unvote(&self, packages: &[String]) -> (r: Result<VoteRun, AurError>)
        ensures
            match r {
                Ok(run) => {
                    &&& self.session() == Some(run.cookies())
                    &&& run.packages() == packages.deep_view()
                    &&& !run.votes()
                    &&& run.results().len() == 0
                    &&& !run.submitting()
                    &&& run.failure() is None
                },
                Err(e) => e == AurError::NotLoggedIn && !self.logged_in(),
            },
    {
        match self.session_cookies() {
            Ok(cookies) => Ok(VoteRun::start(cookies, copy_slice(packages), false)),
            Err(e) => Err(e),
        }
    }

    /// Begins a run that lists the packages that the user has voted for,
    /// from the first row of the listing on. Fails at once where no session
    /// is established.
    pub fn list_voted_pkgs(&self) -> (r: Result<ListVoted, AurError>)
        ensures
            match r {
                Ok(run) => {
                    &&& self.session() == Some(run.cookies())
                    &&& run.offset() == 0
                    &&& run.voted().len() == 0
                    &&& !run.finished()
                },
                Err(e) => e == AurError::NotLoggedIn && !self.logged_in(),
            },
    {
        match self.session_cookies() {
            Ok(cookies) => Ok(ListVoted::start(cookies)),
            Err(e) => Err(e),
        }
    }

    /// Makes the cookies of the jar those of the session.
    fn establish(&mut self)
        ensures
            final(self).phase() == old(self).phase(),
            final(self).cookies() == old(self).cookies(),
            final(self).session() == Some(cookie_lines(old(self).cookies())),
    {
        self.session = Some(Session { cookies: jar_lines(&self.cookie_jar) });
    }

    fn fall_back(&mut self, account: &Account) -> (step: LoginStep)
        ensures
            final(self).is_at(fall_back(*account)),
            step@ == fall_back(*account).step,
    {
        self.cookie_jar = jar_new();
        match make_login_request(account.user.as_str(), account.pass.as_str()) {
            Some(request) => {
                self.session = None;
                self.phase = LoginPhase::Credentials;
                LoginStep::Send(request)
            },
            None => self.give_up(LoginError::Request),
        }
    }

    fn give_up(&mut self, error: LoginError) -> (step: LoginStep)
        ensures
            final(self).is_at(give_up(old(self).cookies(), error@)),
            step@ == give_up(old(self).cookies(), error@).step,
    {
        self.session = None;
        self.phase = LoginPhase::Idle;
        LoginStep::Done(Err(error))
    }

    /// The request for the landing page with the cookies of the jar, unless
    /// the time zone cookie has expired.
    fn login_with_cookies(&self, now: i64) -> (r: Result<HttpRequest, LoginError>)
        ensures
            match r {
                Ok(request) => with_cookies(self.cookies(), now) == Ok::<
                    RequestView,
                    LoginErrorView,
                >(request@),
                Err(e) => with_cookies(self.cookies(), now) == Err::<RequestView, LoginErrorView>(
                    e@,
                ),
            },
    {
        if expired(&self.cookie_jar, now) {
            return Err(LoginError::Expired);
        }
        match make_page_request(AUR_URL, jar_lines(&self.cookie_jar)) {
            Some(request) => Ok(request),
            None => Err(LoginError::Request),
        }
    }

    fn login_with_cookie_file(
        &mut self,
        account: &Account,
        lines: Option<Vec<String>>,
        now: i64,
    ) -> (step: LoginStep)
        requires
            old(self).phase() == LoginPhase::CookieFile,
        ensures
            final(self).is_at(after_cookie_file(old(self).cookies(), *account, lines, now)),
            step@ == after_cookie_file(old(self).cookies(), *account, lines, now).step,
    {
        let complete = match &lines {
            Some(lines) => load(&mut self.cookie_jar, lines),
            None => false,
        };
        if !complete {
            return self.fall_back(account);
        }
        match self.login_with_cookies(now) {
            Ok(request) => {
                self.session = None;
                self.phase = LoginPhase::CookieLanding;
                LoginStep::Send(request)
            },
            Err(_) => self.fall_back(account),
        }
    }

    fn login_with_user_pass(&mut self, response: Option<HttpResponse>, now: i64) -> (step:
        LoginStep)
        ensures
            final(self).is_at(after_credentials(old(self).cookies(), response, now)),
            step@ == after_credentials(old(self).cookies(), response, now).step,
    {
        let response = match response {
            Some(response) => response,
            None => {
                return self.give_up(LoginError::Transport);
            },
        };
        if response.status == FOUND && contains(response.url.as_str(), AUR_URL) {
            if response.set_cookies.len() == 0 {
                return self.give_up(LoginError::NoCookie);
            }
            let mut first: Vec<String> = Vec::new();
            first.push(response.set_cookies[0].clone());
            proof {
                let one = first.deep_view();
                assert(one[0] == response.set_cookies[0]@);
                assert(one.drop_first() =~= Seq::<Seq<char>>::empty());
                reveal_with_fuel(captured, 3);
            }
            if !capture(&mut self.cookie_jar, &first, SITE_DOMAIN) {
                return self.give_up(LoginError::BadCookie);
            }
            return match self.login_with_cookies(now) {
                Ok(request) => {
                    self.session = None;
                    self.phase = LoginPhase::Harvest;
                    LoginStep::Send(request)
                },
                Err(e) => self.give_up(e),
            };
        }
        if !status_is_success(response.status) {
            return self.give_up(LoginError::Unreachable);
        }
        match extract_login_errors(response.body.as_str()) {
            Err(e) => self.give_up(LoginError::Page(e)),
            Ok(messages) => self.give_up(LoginError::Rejected(messages)),
        }
    }

    fn harvest(&mut self, response: Option<HttpResponse>, now: i64) -> (step: LoginStep)
        ensures
            final(self).is_at(after_harvest(old(self).cookies(), response, now)),
            step@ == after_harvest(old(self).cookies(), response, now).step,
    {
        let response = match response {
            Some(response) => response,
            None => {
                return self.give_up(LoginError::Transport);
            },
        };
        if !status_is_success(response.status) {
            return self.give_up(LoginError::Refused);
        }
        if !capture(&mut self.cookie_jar, &response.set_cookies, SITE_DOMAIN) {
            return self.give_up(LoginError::BadCookie);
        }
        match self.login_with_cookies(now) {
            Ok(request) => {
                self.session = None;
                self.phase = LoginPhase::Confirm;
                LoginStep::Send(request)
            },
            Err(e) => self.give_up(e),
        }
    }

    fn confirm(&mut self, account: &Account, response: Option<HttpResponse>) -> (step: LoginStep)
        ensures
            final(self).is_at(after_confirm(old(self).cookies(), *account, response)),
            step@ == after_confirm(old(self).cookies(), *account, response).step,
    {
        let response = match response {
            Some(response) => response,
            None => {
                return self.give_up(LoginError::Transport);
            },
        };
        if !status_is_success(response.status) {
            return self.give_up(LoginError::Refused);
        }
        match is_logged_in(response.body.as_str()) {
            Err(e) => self.give_up(LoginError::Page(e)),
            Ok(_) => {
                self.establish();
                self.phase = LoginPhase::Saving;
                LoginStep::WriteCookieFile {
                    path: account.cookie_file.clone(),
                    lines: jar_lines(&self.cookie_jar),
                }
            },
        }
    }
}

/// Whether a phase is one in which a login is still to be decided.
pub open spec fn undecided(phase: LoginPhase) -> bool {
    phase != LoginPhase::Idle && phase != LoginPhase::Saving
}

/// While a login is undecided there is no session, and while the cookie
/// file is being written there is one.
pub open spec fn consistent(phase: LoginPhase, session: Option<Seq<Seq<char>>>) -> bool {
    &&& undecided(phase) ==> session is None
    &&& phase == LoginPhase::Saving ==> session is Some
}

/// A step of a login keeps phase and session consistent, and a login that
/// ends with success has established a session.
pub proof fn lemma_login_keeps_consistent(
    phase: LoginPhase,
    cookies: Cookies,
    session: Option<Seq<Seq<char>>>,
    account: Account,
    event: LoginEvent,
    now: i64,
)
    requires
        consistent(phase, session),
    ensures
        ({
            let m = login_move(phase, cookies, session, account, event, now);
            &&& consistent(m.phase, m.session)
            &&& ((undecided(phase) || phase == LoginPhase::Saving) && m.step
                == LoginStepView::Done(Ok(()))) ==> m.session is Some
            &&& (m.step matches LoginStepView::Done(Err(e)) && e != LoginErrorView::OutOfTurn)
                ==> m.session is None
        }),
{
}

/// Whatever goes wrong with the cookies of the file, the login goes on
/// with the credentials: a failure of that part never ends the login by
/// itself.
pub proof fn lemma_cookie_failure_falls_back(
    phase: LoginPhase,
    cookies: Cookies,
    session: Option<Seq<Seq<char>>>,
    account: Account,
    event: LoginEvent,
    now: i64,
)
    requires
        phase == LoginPhase::CookieFile && event is CookieFile || phase
            == LoginPhase::CookieLanding && event is Response,
    ensures
        ({
            let m = login_move(phase, cookies, session, account, event, now);
            ||| m == fall_back(account)
            ||| m.phase == LoginPhase::CookieLanding && landing_request(m.cookies) is Some
                && m.step == LoginStepView::Send(landing_request(m.cookies)->0)
            ||| m.phase == LoginPhase::Idle && m.step == LoginStepView::Done(Ok(())) && m.session
                == Some(cookie_lines(cookies))
        }),
{
}

/// The cookie file is written only once a login with the credentials has
/// led to the page of a logged-in user; its lines are the cookies of the
/// session that is then established. Every other request of a login but
/// the one with the credentials carries the cookies of the jar in their
/// fixed order.
pub proof fn lemma_login_requests(
    phase: LoginPhase,
    cookies: Cookies,
    session: Option<Seq<Seq<char>>>,
    account: Account,
    event: LoginEvent,
    now: i64,
)
    ensures
        ({
            let m = login_move(phase, cookies, session, account, event, now);
            &&& m.step matches LoginStepView::WriteCookieFile { path, lines } ==> {
                &&& phase == LoginPhase::Confirm
                &&& path == account.cookie_file@
                &&& m.session == Some(lines)
                &&& lines == cookie_lines(m.cookies)
            }
            &&& m.step matches LoginStepView::Send(request) ==> {
                ||| login_request(account.user@, account.pass@) == Some(request) && m.cookies
                    == no_cookies()
                ||| landing_request(m.cookies) == Some(request)
            }
        }),
{
}

} // verus!
