//! The operations of a logged-in session, each as a run of steps: checking
//! votes, voting and unvoting, and listing the voted packages.
//!
//! A run hands the caller one request at a time and is handed the response
//! to it; it ends with the result of the operation. A vote that fails does
//! not end its run: the package gets the outcome `Failed`, and the run
//! keeps the error for the caller to look at.

use crate::aur::VoteResult;
use crate::html::{
    extract_csrf_token, extract_package_base_path, extract_package_list, extract_vote_status,
    page_csrf_token, page_package_base_path, page_packages, page_vote_status,
    parse_error_text, AurPackageResultItem, PackageView, ParseError,
};
use crate::http::{
    is_success, listing_url, make_listing_url, make_page_request, make_vote_request,
    package_url, page_request, status_is_success, vote_request, HttpRequest, HttpResponse,
    RequestView, AUR_URL_PKG_PAGE,
};
use crate::text::concat;
use vstd::prelude::*;

verus! {

/// The number of rows of one page of the listing.
pub const PAGE_SIZE: u32 = 250;

/// Why an operation of the session failed.
#[derive(PartialEq, Eq, Debug, Clone, Copy)]
pub enum AurError {
    /// No session is established.
    NotLoggedIn,
    /// A request brought no response.
    Transport,
    /// A request could not be made: its address is none, or a cookie of
    /// the session cannot stand in a header.
    Request,
    /// A page could not be read.
    Page(ParseError),
    /// The listing goes on beyond the largest offset.
    Exhausted,
}

/// The message of an error.
pub open spec fn aur_error_text(e: AurError) -> Seq<char> {
    match e {
        AurError::NotLoggedIn => "Not logged in."@,
        AurError::Transport => "Unable to reach `https://aur.archlinux.org`"@,
        AurError::Request => "Unable to make a request to `https://aur.archlinux.org`"@,
        AurError::Page(e) => parse_error_text(e),
        AurError::Exhausted => "Error: the listing of the voted packages does not end"@,
    }
}

impl AurError {
    /// The message of the error.
    pub fn message(&self) -> (r: String)
        ensures
            r@ == aur_error_text(*self),
    {
        match self {
            AurError::NotLoggedIn => "Not logged in.".to_owned(),
            AurError::Transport => "Unable to reach `https://aur.archlinux.org`".to_owned(),
            AurError::Request => {
                "Unable to make a request to `https://aur.archlinux.org`".to_owned()
            },
            AurError::Page(e) => e.message(),
            AurError::Exhausted => {
                "Error: the listing of the voted packages does not end".to_owned()
            },
        }
    }
}

/// What the caller is to do next: send a request and hand its response to
/// the run, or take the result.
#[derive(PartialEq, Eq, Debug)]
pub enum Step<T> {
    Send(HttpRequest),
    Done(Result<T, AurError>),
}

/// A step, as the texts that it holds.
pub enum StepView<V> {
    Send(RequestView),
    Done(Result<V, AurError>),
}

impl<T: DeepView> View for Step<T> {
    type V = StepView<T::V>;

    open spec fn view(&self) -> StepView<T::V> {
        match self {
            Step::Send(request) => StepView::Send(request@),
            Step::Done(Ok(value)) => StepView::Done(Ok(value.deep_view())),
            Step::Done(Err(e)) => StepView::Done(Err(*e)),
        }
    }
}

/// A copy of the texts.
pub fn copy_texts(v: &Vec<String>) -> (r: Vec<String>)
    ensures
        r.deep_view() == v.deep_view(),
{
    let mut r: Vec<String> = Vec::new();
    let mut i: usize = 0;
    while i < v.len()
        invariant
            i <= v.len(),
            r.len() == i,
            forall|j: int| 0 <= j < i ==> r@[j]@ == v@[j]@,
        decreases v.len() - i,
    {
        r.push(v[i].clone());
        i += 1;
    }
    assert(r.deep_view() =~= v.deep_view());
    r
}

/// A copy of the texts of a slice.
pub fn copy_slice(v: &[String]) -> (r: Vec<String>)
    ensures
        r.deep_view() == v.deep_view(),
{
    let mut r: Vec<String> = Vec::new();
    let mut i: usize = 0;
    while i < v.len()
        invariant
            i <= v.len(),
            r.len() == i,
            forall|j: int| 0 <= j < i ==> r@[j]@ == v@[j]@,
        decreases v.len() - i,
    {
        r.push(v[i].clone());
        i += 1;
    }
    assert(r.deep_view() =~= v.deep_view());
    r
}

/// The request for the page of a package; `None` where it cannot be made.
pub open spec fn package_request(name: Seq<char>, cookies: Seq<Seq<char>>) -> Option<
    RequestView,
> {
    page_request(package_url(name), cookies)
}

/// What a run waits for that wants the request `request` sent.
pub open spec fn send_or_fail<V>(request: Option<RequestView>) -> StepView<V> {
    match request {
        Some(request) => StepView::Send(request),
        None => StepView::Done(Err(AurError::Request)),
    }
}

fn send<T: DeepView>(request: Option<HttpRequest>) -> (step: Step<T>)
    ensures
        step@ == send_or_fail::<T::V>(
            match request {
                Some(request) => Some(request@),
                None => None,
            },
        ),
{
    match request {
        Some(request) => Step::Send(request),
        None => Step::Done(Err(AurError::Request)),
    }
}

fn make_package_request(name: &str, cookies: &Vec<String>) -> (r: Option<HttpRequest>)
    ensures
        match r {
            Some(request) => package_request(name@, cookies.deep_view()) == Some(request@),
            None => package_request(name@, cookies.deep_view()) is None,
        },
{
    let text = concat(AUR_URL_PKG_PAGE, name);
    make_page_request(text.as_str(), copy_texts(cookies))
}

/// The vote status of each package checked so far.
pub type Statuses = Seq<(Seq<char>, Option<bool>)>;

/// What a run of checks waits for: the page of the next package, or nothing
/// more.
pub open spec fn check_pending(
    cookies: Seq<Seq<char>>,
    packages: Seq<Seq<char>>,
    voted: Statuses,
) -> StepView<Statuses> {
    if voted.len() < packages.len() {
        send_or_fail(package_request(packages[voted.len() as int], cookies))
    } else {
        StepView::Done(Ok(voted))
    }
}

/// One step of a run of checks: the statuses known after the response, and
/// what the run waits for then. A missing response and a page that cannot
/// be read end the run with an error, whatever was checked before.
pub open spec fn check_move(
    cookies: Seq<Seq<char>>,
    packages: Seq<Seq<char>>,
    voted: Statuses,
    response: Option<HttpResponse>,
) -> (Statuses, StepView<Statuses>) {
    if voted.len() >= packages.len() {
        (voted, StepView::Done(Ok(voted)))
    } else {
        match response {
            None => (voted, StepView::Done(Err(AurError::Transport))),
            Some(response) => match page_vote_status(response.body@) {
                Err(e) => (voted, StepView::Done(Err(AurError::Page(e)))),
                Ok(status) => {
                    let known = voted.push((packages[voted.len() as int], status));
                    (known, check_pending(cookies, packages, known))
                },
            },
        }
    }
}

/// The result of a whole run of checks in which the page of package number
/// `i` is `pages[i]`.
pub open spec fn check_run(packages: Seq<Seq<char>>, pages: Seq<Seq<char>>) -> Result<
    Statuses,
    AurError,
>
    decreases packages.len(),
{
    if packages.len() == 0 {
        Ok(Seq::empty())
    } else {
        match check_run(packages.drop_last(), pages.drop_last()) {
            Err(e) => Err(e),
            Ok(voted) => match page_vote_status(pages.last()) {
                Err(e) => Err(AurError::Page(e)),
                Ok(status) => Ok(voted.push((packages.last(), status))),
            },
        }
    }
}

/// A run that checks the vote status of packages, one after the other.
pub struct CheckVote {
    cookies: Vec<String>,
    packages: Vec<String>,
    voted: Vec<(String, Option<bool>)>,
}

impl CheckVote {
    /// The cookies of the session that the run belongs to.
    pub closed spec fn cookies(&self) -> Seq<Seq<char>> {
        self.cookies.deep_view()
    }

    /// The packages of the run, in order.
    pub closed spec fn packages(&self) -> Seq<Seq<char>> {
        self.packages.deep_view()
    }

    /// The statuses found so far.
    pub closed spec fn voted(&self) -> Statuses {
        self.voted.deep_view()
    }

    pub(crate) fn start(cookies: Vec<String>, packages: Vec<String>) -> (run: CheckVote)
        ensures
            run.cookies() == cookies.deep_view(),
            run.packages() == packages.deep_view(),
            run.voted() == Seq::<(Seq<char>, Option<bool>)>::empty(),
    {
        let voted: Vec<(String, Option<bool>)> = Vec::new();
        assert(voted.deep_view() =~= Seq::empty());
        CheckVote { cookies, packages, voted }
    }

    fn copy_voted(&self) -> (r: Vec<(String, Option<bool>)>)
        ensures
            r.deep_view() == self.voted(),
    {
        let mut r: Vec<(String, Option<bool>)> = Vec::new();
        let mut i: usize = 0;
        while i < self.voted.len()
            invariant
                i <= self.voted.len(),
                r.len() == i,
                forall|j: int| 0 <= j < i ==> r@[j].deep_view() == self.voted@[j].deep_view(),
            decreases self.voted.len() - i,
        {
            let status = self.voted[i].1;
            r.push((self.voted[i].0.clone(), status));
            i += 1;
        }
        assert(r.deep_view() =~= self.voted.deep_view());
        r
    }

    /// What the run waits for.
    pub fn pending(&self) -> (step: Step<Vec<(String, Option<bool>)>>)
        ensures
            step@ == check_pending(self.cookies(), self.packages(), self.voted()),
    {
        let done = self.voted.len();
        if done < self.packages.len() {
            assert(self.packages.deep_view()[done as int] == self.packages@[done as int]@);
            send(make_package_request(self.packages[done].as_str(), &self.cookies))
        } else {
            Step::Done(Ok(self.copy_voted()))
        }
    }

    /// Takes the response to the request that the run waits for.
    pub fn step(&mut self, response: Option<HttpResponse>) -> (step: Step<
        Vec<(String, Option<bool>)>,
    >)
        ensures
            final(self).cookies() == old(self).cookies(),
            final(self).packages() == old(self).packages(),
            (final(self).voted(), step@) == check_move(
                old(self).cookies(),
                old(self).packages(),
                old(self).voted(),
                response,
            ),
    {
        let done = self.voted.len();
        if done >= self.packages.len() {
            return Step::Done(Ok(self.copy_voted()));
        }
        let response = match response {
            Some(response) => response,
            None => {
                return Step::Done(Err(AurError::Transport));
            },
        };
        match extract_vote_status(response.body.as_str()) {
            Err(e) => Step::Done(Err(AurError::Page(e))),
            Ok(status) => {
                let ghost before = self.voted.deep_view();
                assert(self.packages.deep_view()[done as int] == self.packages@[done as int]@);
                self.voted.push((self.packages[done].clone(), status));
                assert(self.voted.deep_view() =~= before.push(
                    (self.packages@[done as int]@, status),
                ));
                self.pending()
            },
        }
    }
}

/// The outcome of each package handled so far.
pub type Outcomes = Seq<(Seq<char>, VoteResult)>;

/// What a run of votes waits for when it is not submitting: the page of the
/// next package, or nothing more.
pub open spec fn vote_pending(
    cookies: Seq<Seq<char>>,
    packages: Seq<Seq<char>>,
    results: Outcomes,
) -> StepView<Outcomes> {
    if results.len() < packages.len() {
        send_or_fail(package_request(packages[results.len() as int], cookies))
    } else {
        StepView::Done(Ok(results))
    }
}

/// Why the vote, or the unvote, of one package failed. Such an error is the
/// outcome `Failed` of that package in a run, and does not end the run.
#[derive(PartialEq, Eq, Debug, Clone, Copy)]
pub enum VoteError {
    /// The page of the package names no package base.
    PackageBase,
    /// The page of the package could not be read.
    Page(ParseError),
    /// The submission could not be made: its address is none, or a cookie
    /// of the session cannot stand in a header.
    Request,
    /// The submission was not answered with success.
    Refused,
}

impl DeepView for VoteError {
    type V = VoteError;

    open spec fn deep_view(&self) -> VoteError {
        *self
    }
}

/// The message of an error on the vote (`vote`) or unvote (`!vote`) of
/// `package`. It names the package, and for a refused submission the
/// direction.
pub open spec fn vote_error_text(e: VoteError, package: Seq<char>, vote: bool) -> Seq<char> {
    match e {
        VoteError::PackageBase => "Error: cannot get pkgbase of "@ + package,
        VoteError::Page(e) => parse_error_text(e),
        VoteError::Request => "Error: cannot make the request for "@ + package,
        VoteError::Refused => if vote {
            "Error: cannot vote for "@ + package
        } else {
            "Error: cannot unvote "@ + package
        },
    }
}

impl VoteError {
    /// The message of the error on the vote (`vote`) or unvote (`!vote`)
    /// of `package`.
    pub fn message(&self, package: &str, vote: bool) -> (r: String)
        ensures
            r@ == vote_error_text(*self, package@, vote),
    {
        match self {
            VoteError::PackageBase => concat("Error: cannot get pkgbase of ", package),
            VoteError::Page(e) => e.message(),
            VoteError::Request => concat("Error: cannot make the request for ", package),
            VoteError::Refused => {
                if vote {
                    concat("Error: cannot vote for ", package)
                } else {
                    concat("Error: cannot unvote ", package)
                }
            },
        }
    }
}

/// The submission that the page of a package leads to: the path of the
/// package base and the token are those of the page. A page that names no
/// package base is an error, whatever else it holds; so is a page that
/// cannot be read, and a request that cannot be made.
pub open spec fn submission(
    page: Seq<char>,
    vote: bool,
    package: Seq<char>,
    cookies: Seq<Seq<char>>,
) -> Result<RequestView, VoteError> {
    match page_package_base_path(page) {
        Err(ParseError::PackageBase) => Err(VoteError::PackageBase),
        Err(e) => Err(VoteError::Page(e)),
        Ok(base) => match page_csrf_token(page) {
            Err(e) => Err(VoteError::Page(e)),
            Ok(token) => match vote_request(base, vote, token, package, cookies) {
                Some(request) => Ok(request),
                None => Err(VoteError::Request),
            },
        },
    }
}

/// The outcome for a package whose page shows the status `status`, where no
/// submission is needed: not available where the page shows none, already
/// done where it shows the state that is asked for.
pub open spec fn settled(status: Option<bool>, vote: bool) -> Option<VoteResult> {
    match status {
        None => Some(VoteResult::NotAvailable),
        Some(voted) => if voted == vote {
            Some(
                if vote {
                    VoteResult::AlreadyVoted
                } else {
                    VoteResult::AlreadyUnVoted
                },
            )
        } else {
            None
        },
    }
}

/// What the response to a submission says: the submission has succeeded
/// where a response came and its status is one of success; else it was
/// refused.
pub open spec fn answered(response: Option<HttpResponse>) -> Result<(), VoteError> {
    if response is Some && is_success(response->0.status) {
        Ok(())
    } else {
        Err(VoteError::Refused)
    }
}

/// The outcome of a vote, or unvote, that did not fail.
pub open spec fn done(vote: bool) -> VoteResult {
    if vote {
        VoteResult::Voted
    } else {
        VoteResult::UnVoted
    }
}

/// The package and the error of a vote that failed.
pub type Failure = Option<(Seq<char>, VoteError)>;

/// The state of a run of votes after a step, and what it waits for then.
pub struct VoteMove {
    pub results: Outcomes,
    pub submitting: bool,
    /// The package that the step gave the outcome `Failed`, and why.
    pub failure: Failure,
    pub step: StepView<Outcomes>,
}

/// The package is done with `outcome`: on to the next one.
pub open spec fn vote_advance(
    cookies: Seq<Seq<char>>,
    packages: Seq<Seq<char>>,
    results: Outcomes,
    outcome: Result<VoteResult, VoteError>,
) -> VoteMove {
    let package = packages[results.len() as int];
    let known = results.push(
        (
            package,
            match outcome {
                Ok(outcome) => outcome,
                Err(_) => VoteResult::Failed,
            },
        ),
    );
    VoteMove {
        results: known,
        submitting: false,
        failure: match outcome {
            Ok(_) => None,
            Err(e) => Some((package, e)),
        },
        step: vote_pending(cookies, packages, known),
    }
}

/// The run ends with an error; nothing else changes.
pub open spec fn vote_abort(results: Outcomes, error: AurError) -> VoteMove {
    VoteMove { results, submitting: false, failure: None, step: StepView::Done(Err(error)) }
}

/// One step of a run of votes (`vote`) or unvotes (`!vote`).
///
/// The page of a package decides: where it shows the state asked for, or no
/// state, the package is done without a submission. Else the vote is
/// submitted. An error of the submission, be it that it cannot be made or
/// that it is refused, is the outcome `Failed` of that package alone, and
/// the step keeps the error. A missing page, or one whose status cannot be
/// read, ends the whole run with an error.
pub open spec fn vote_move(
    cookies: Seq<Seq<char>>,
    packages: Seq<Seq<char>>,
    vote: bool,
    results: Outcomes,
    submitting: bool,
    response: Option<HttpResponse>,
) -> VoteMove {
    if results.len() >= packages.len() {
        VoteMove { results, submitting: false, failure: None, step: StepView::Done(Ok(results)) }
    } else if submitting {
        vote_advance(
            cookies,
            packages,
            results,
            match answered(response) {
                Ok(_) => Ok(done(vote)),
                Err(e) => Err(e),
            },
        )
    } else {
        match response {
            None => vote_abort(results, AurError::Transport),
            Some(response) => match page_vote_status(response.body@) {
                Err(e) => vote_abort(results, AurError::Page(e)),
                Ok(status) => match settled(status, vote) {
                    Some(outcome) => vote_advance(cookies, packages, results, Ok(outcome)),
                    None => match submission(
                        response.body@,
                        vote,
                        packages[results.len() as int],
                        cookies,
                    ) {
                        Ok(request) => VoteMove {
                            results,
                            submitting: true,
                            failure: None,
                            step: StepView::Send(request),
                        },
                        Err(e) => vote_advance(cookies, packages, results, Err(e)),
                    },
                },
            },
        }
    }
}

/// The outcome for a package whose page shows `status`, where that settles
/// it without a submission.
pub fn settle(status: Option<bool>, vote: bool) -> (r: Option<VoteResult>)
    ensures
        r == settled(status, vote),
        status == Some(vote) ==> r == Some(
            if vote {
                VoteResult::AlreadyVoted
            } else {
                VoteResult::AlreadyUnVoted
            },
        ),
        status is None ==> r == Some(VoteResult::NotAvailable),
        r is None <==> status == Some(!vote),
{
    match status {
        None => Some(VoteResult::NotAvailable),
        Some(voted) => {
            if voted == vote {
                if vote {
                    Some(VoteResult::AlreadyVoted)
                } else {
                    Some(VoteResult::AlreadyUnVoted)
                }
            } else {
                None
            }
        },
    }
}

/// The request that submits the vote, or unvote, for the package of `page`.
/// Fails, and asks for no request, where the page names no package base.
pub fn do_vote(package: &str, vote: bool, page: &str, cookies: &Vec<String>) -> (r: Result<
    HttpRequest,
    VoteError,
>)
    ensures
        match r {
            Ok(request) => submission(page@, vote, package@, cookies.deep_view()) == Ok::<
                RequestView,
                VoteError,
            >(request@),
            Err(e) => submission(page@, vote, package@, cookies.deep_view()) == Err::<
                RequestView,
                VoteError,
            >(e),
        },
        page_package_base_path(page@) == Err::<Seq<char>, ParseError>(ParseError::PackageBase)
            ==> r == Err::<HttpRequest, VoteError>(VoteError::PackageBase),
{
    let base = match extract_package_base_path(page) {
        Ok(base) => base,
        Err(ParseError::PackageBase) => {
            return Err(VoteError::PackageBase);
        },
        Err(e) => {
            return Err(VoteError::Page(e));
        },
    };
    let token = match extract_csrf_token(page) {
        Ok(token) => token,
        Err(e) => {
            return Err(VoteError::Page(e));
        },
    };
    match make_vote_request(base.as_str(), vote, token, package, copy_texts(cookies)) {
        Some(request) => Ok(request),
        None => Err(VoteError::Request),
    }
}

/// What the response to a submission says: success where a response came
/// with a status of success, and else that the submission was refused.
pub fn vote_answer(response: &Option<HttpResponse>) -> (r: Result<(), VoteError>)
    ensures
        r == answered(*response),
        r is Ok <==> (response is Some && is_success(response->0.status)),
        r is Err ==> r == Err::<(), VoteError>(VoteError::Refused),
{
    match response {
        Some(response) => {
            if status_is_success(response.status) {
                Ok(())
            } else {
                Err(VoteError::Refused)
            }
        },
        None => Err(VoteError::Refused),
    }
}

/// A run that votes for packages, or takes votes back, one package after
/// the other.
pub struct VoteRun {
    cookies: Vec<String>,
    packages: Vec<String>,
    vote: bool,
    results: Vec<(String, VoteResult)>,
    submitting: bool,
    failure: Option<(String, VoteError)>,
}

impl VoteRun {
    /// The cookies of the session that the run belongs to.
    pub closed spec fn cookies(&self) -> Seq<Seq<char>> {
        self.cookies.deep_view()
    }

    /// The packages of the run, in order.
    pub closed spec fn packages(&self) -> Seq<Seq<char>> {
        self.packages.deep_view()
    }

    /// Whether the run votes; else it takes votes back.
    pub closed spec fn votes(&self) -> bool {
        self.vote
    }

    /// The outcomes so far.
    pub closed spec fn results(&self) -> Outcomes {
        self.results.deep_view()
    }

    /// Whether the run waits for the response to a submission.
    pub closed spec fn submitting(&self) -> bool {
        self.submitting
    }

    /// The package that the last step gave the outcome `Failed`, and why.
    pub closed spec fn failure(&self) -> Failure {
        match self.failure {
            Some((package, error)) => Some((package@, error)),
            None => None,
        }
    }

    /// What `m` says of this state.
    pub open spec fn is_at(&self, m: VoteMove) -> bool {
        &&& self.results() == m.results
        &&& self.submitting() == m.submitting
        &&& self.failure() == m.failure
    }

    pub(crate) fn start(cookies: Vec<String>, packages: Vec<String>, vote: bool) -> (run: VoteRun)
        ensures
            run.cookies() == cookies.deep_view(),
            run.packages() == packages.deep_view(),
            run.votes() == vote,
            run.results() == Seq::<(Seq<char>, VoteResult)>::empty(),
            !run.submitting(),
            run.failure() is None,
    {
        let results: Vec<(String, VoteResult)> = Vec::new();
        assert(results.deep_view() =~= Seq::empty());
        VoteRun { cookies, packages, vote, results, submitting: false, failure: None }
    }

    fn copy_results(&self) -> (r: Vec<(String, VoteResult)>)
        ensures
            r.deep_view() == self.results(),
    {
        let mut r: Vec<(String, VoteResult)> = Vec::new();
        let mut i: usize = 0;
        while i < self.results.len()
            invariant
                i <= self.results.len(),
                r.len() == i,
                forall|j: int| 0 <= j < i ==> r@[j].deep_view() == self.results@[j].deep_view(),
            decreases self.results.len() - i,
        {
            let outcome = self.results[i].1;
            r.push((self.results[i].0.clone(), outcome));
            i += 1;
        }
        assert(r.deep_view() =~= self.results.deep_view());
        r
    }

    /// What the run waits for when it is not submitting.
    pub fn pending(&self) -> (step: Step<Vec<(String, VoteResult)>>)
        ensures
            step@ == vote_pending(self.cookies(), self.packages(), self.results()),
    {
        let done = self.results.len();
        if done < self.packages.len() {
            assert(self.packages.deep_view()[done as int] == self.packages@[done as int]@);
            send(make_package_request(self.packages[done].as_str(), &self.cookies))
        } else {
            Step::Done(Ok(self.copy_results()))
        }
    }

    /// The error of the vote that the last step gave the outcome `Failed`,
    /// with its package; `None` where the last step failed no vote.
    pub fn last_error(&self) -> (r: Option<(String, VoteError)>)
        ensures
            match r {
                Some((package, error)) => self.failure() == Some((package@, error)),
                None => self.failure() is None,
            },
    {
        match &self.failure {
            Some((package, error)) => Some((package.clone(), *error)),
            None => None,
        }
    }

    fn advance(&mut self, outcome: Result<VoteResult, VoteError>) -> (step: Step<
        Vec<(String, VoteResult)>,
    >)
        requires
            old(self).results().len() < old(self).packages().len(),
        ensures
            final(self).cookies() == old(self).cookies(),
            final(self).packages() == old(self).packages(),
            final(self).votes() == old(self).votes(),
            final(self).is_at(
                vote_advance(old(self).cookies(), old(self).packages(), old(self).results(), outcome),
            ),
            step@ == vote_advance(
                old(self).cookies(),
                old(self).packages(),
                old(self).results(),
                outcome,
            ).step,
    {
        let done = self.results.len();
        let ghost before = self.results.deep_view();
        assert(self.packages.deep_view()[done as int] == self.packages@[done as int]@);
        let result = match outcome {
            Ok(result) => {
                self.failure = None;
                result
            },
            Err(error) => {
                self.failure = Some((self.packages[done].clone(), error));
                VoteResult::Failed
            },
        };
        self.results.push((self.packages[done].clone(), result));
        assert(self.results.deep_view() =~= before.push((self.packages@[done as int]@, result)));
        self.submitting = false;
        self.pending()
    }

    fn abort(&mut self, error: AurError) -> (step: Step<Vec<(String, VoteResult)>>)
        ensures
            final(self).cookies() == old(self).cookies(),
            final(self).packages() == old(self).packages(),
            final(self).votes() == old(self).votes(),
            final(self).is_at(vote_abort(old(self).results(), error)),
            step@ == vote_abort(old(self).results(), error).step,
    {
        self.submitting = false;
        self.failure = None;
        Step::Done(Err(error))
    }

    /// Takes the response to the request that the run waits for.
    pub fn step(&mut self, response: Option<HttpResponse>) -> (step: Step<
        Vec<(String, VoteResult)>,
    >)
        ensures
            final(self).cookies() == old(self).cookies(),
            final(self).packages() == old(self).packages(),
            final(self).votes() == old(self).votes(),
            final(self).is_at(
                vote_move(
                    old(self).cookies(),
                    old(self).packages(),
                    old(self).votes(),
                    old(self).results(),
                    old(self).submitting(),
                    response,
                ),
            ),
            step@ == vote_move(
                old(self).cookies(),
                old(self).packages(),
                old(self).votes(),
                old(self).results(),
                old(self).submitting(),
                response,
            ).step,
    {
        let done = self.results.len();
        if done >= self.packages.len() {
            self.submitting = false;
            self.failure = None;
            return Step::Done(Ok(self.copy_results()));
        }
        if self.submitting {
            let outcome = match vote_answer(&response) {
                Ok(_) => Ok(
                    if self.vote {
                        VoteResult::Voted
                    } else {
                        VoteResult::UnVoted
                    },
                ),
                Err(e) => Err(e),
            };
            return self.advance(outcome);
        }
        let response = match response {
            Some(response) => response,
            None => {
                return self.abort(AurError::Transport);
            },
        };
        let status = match extract_vote_status(response.body.as_str()) {
            Ok(status) => status,
            Err(e) => {
                return self.abort(AurError::Page(e));
            },
        };
        match settle(status, self.vote) {
            Some(outcome) => self.advance(Ok(outcome)),
            None => {
                assert(self.packages.deep_view()[done as int] == self.packages@[done as int]@);
                match do_vote(
                    self.packages[done].as_str(),
                    self.vote,
                    response.body.as_str(),
                    &self.cookies,
                ) {
                    Ok(request) => {
                        self.submitting = true;
                        self.failure = None;
                        Step::Send(request)
                    },
                    Err(e) => self.advance(Err(e)),
                }
            },
        }
    }
}

/// The number of rows at the head of a page that are voted.
pub open spec fn leading_voted(rows: Seq<PackageView>) -> nat
    decreases rows.len(),
{
    if rows.len() == 0 || !rows[0].voted {
        0
    } else {
        1 + leading_voted(rows.drop_first())
    }
}

/// Whether every package is voted.
pub open spec fn all_voted(items: Seq<PackageView>) -> bool {
    forall|i: int| 0 <= i < items.len() ==> (#[trigger] items[i]).voted
}

/// The rows before index `k` are voted, and the row at `k`, if there is
/// one, is not: then `k` rows at the head are voted.
pub proof fn lemma_leading_voted(rows: Seq<PackageView>, k: int)
    requires
        0 <= k <= rows.len(),
        forall|i: int| 0 <= i < k ==> (#[trigger] rows[i]).voted,
        k < rows.len() ==> !rows[k].voted,
    ensures
        leading_voted(rows) == k,
    decreases k,
{
    if k > 0 {
        let rest = rows.drop_first();
        assert forall|i: int| 0 <= i < k - 1 implies (#[trigger] rest[i]).voted by {
            assert(rest[i] == rows[i + 1]);
        }
        if k < rows.len() {
            assert(rest[k - 1] == rows[k]);
        }
        lemma_leading_voted(rest, k - 1);
    }
}

/// The rows at the head of a page that are counted as voted are voted, and
/// the row after them, if there is one, is not.
pub proof fn lemma_leading_voted_is_voted(rows: Seq<PackageView>)
    ensures
        leading_voted(rows) <= rows.len(),
        all_voted(rows.take(leading_voted(rows) as int)),
        leading_voted(rows) < rows.len() ==> !rows[leading_voted(rows) as int].voted,
    decreases rows.len(),
{
    if rows.len() > 0 && rows[0].voted {
        let rest = rows.drop_first();
        lemma_leading_voted_is_voted(rest);
        let k = leading_voted(rows) as int;
        let head = rows.take(k);
        assert forall|i: int| 0 <= i < head.len() implies (#[trigger] head[i]).voted by {
            if i > 0 {
                assert(head[i] == rest.take(k - 1)[i - 1]);
            }
        }
        if k < rows.len() {
            assert(rows[k] == rest[k - 1]);
        }
    }
}

/// The state of a listing after a step, and what it waits for then.
pub struct ListMove {
    pub offset: u32,
    pub voted: Seq<PackageView>,
    pub finished: bool,
    pub step: StepView<Seq<PackageView>>,
}

/// The request for the page of the listing that begins at row `offset`;
/// `None` where it cannot be made.
pub open spec fn listing_request(offset: u32, cookies: Seq<Seq<char>>) -> Option<RequestView> {
    page_request(listing_url(offset), cookies)
}

/// One step of the listing of the voted packages.
///
/// The voted rows at the head of the page are added to the list. The
/// listing ends with the list as soon as a page is empty or holds a row
/// that is not voted; else it goes on with the page that begins
/// `PAGE_SIZE` rows further. A missing page, or one that cannot be read,
/// ends it with an error.
pub open spec fn list_move(
    cookies: Seq<Seq<char>>,
    offset: u32,
    voted: Seq<PackageView>,
    finished: bool,
    response: Option<HttpResponse>,
) -> ListMove {
    if finished {
        ListMove { offset, voted, finished, step: StepView::Done(Ok(voted)) }
    } else {
        match response {
            None => ListMove {
                offset,
                voted,
                finished,
                step: StepView::Done(Err(AurError::Transport)),
            },
            Some(response) => match page_packages(response.body@) {
                Err(e) => ListMove {
                    offset,
                    voted,
                    finished,
                    step: StepView::Done(Err(AurError::Page(e))),
                },
                Ok(rows) => {
                    let known = voted + rows.take(leading_voted(rows) as int);
                    if rows.len() == 0 || leading_voted(rows) < rows.len() {
                        ListMove {
                            offset,
                            voted: known,
                            finished: true,
                            step: StepView::Done(Ok(known)),
                        }
                    } else if offset + PAGE_SIZE > u32::MAX {
                        ListMove {
                            offset,
                            voted: known,
                            finished: true,
                            step: StepView::Done(Err(AurError::Exhausted)),
                        }
                    } else {
                        ListMove {
                            offset: (offset + PAGE_SIZE) as u32,
                            voted: known,
                            finished: false,
                            step: send_or_fail(
                                listing_request((offset + PAGE_SIZE) as u32, cookies),
                            ),
                        }
                    }
                },
            },
        }
    }
}

/// A listing never takes up a row that is not voted, and it goes on to a
/// further page only after a page that is not empty and whose rows are all
/// voted.
pub proof fn lemma_listing_stops(
    cookies: Seq<Seq<char>>,
    offset: u32,
    voted: Seq<PackageView>,
    finished: bool,
    response: Option<HttpResponse>,
)
    requires
        all_voted(voted),
    ensures
        all_voted(list_move(cookies, offset, voted, finished, response).voted),
        list_move(cookies, offset, voted, finished, response).step is Send ==> {
            &&& response is Some
            &&& page_packages(response->0.body@) matches Ok(rows)
            &&& rows.len() > 0
            &&& all_voted(rows)
        },
        (response matches Some(r) && page_packages(r.body@) matches Ok(rows) && (rows.len() == 0
            || !all_voted(rows))) ==> list_move(
            cookies,
            offset,
            voted,
            finished,
            response,
        ).step is Done,
{
    if !finished && response is Some {
        match page_packages(response->0.body@) {
            Ok(rows) => {
                lemma_leading_voted_is_voted(rows);
                let k = leading_voted(rows) as int;
                let known = voted + rows.take(k);
                assert forall|i: int| 0 <= i < known.len() implies (#[trigger] known[i]).voted by {
                    if i >= voted.len() {
                        assert(known[i] == rows.take(k)[i - voted.len()]);
                    } else {
                        assert(known[i] == voted[i]);
                    }
                }
                if k == rows.len() {
                    assert(rows.take(k) =~= rows);
                }
            },
            Err(_) => {},
        }
    }
}

fn copy_item(item: &AurPackageResultItem) -> (r: AurPackageResultItem)
    ensures
        r@ == item@,
{
    AurPackageResultItem {
        name: item.name.clone(),
        version: item.version.clone(),
        votes: item.votes,
        popularity: item.popularity.clone(),
        voted: item.voted,
        notify: item.notify,
        description: item.description.clone(),
        maintainer: item.maintainer.clone(),
    }
}

/// A run that lists the packages that the user has voted for.
pub struct ListVoted {
    cookies: Vec<String>,
    offset: u32,
    voted: Vec<AurPackageResultItem>,
    finished: bool,
}

impl ListVoted {
    /// The cookies of the session that the run belongs to.
    pub closed spec fn cookies(&self) -> Seq<Seq<char>> {
        self.cookies.deep_view()
    }

    /// The row at which the page begins that the run waits for.
    pub closed spec fn offset(&self) -> u32 {
        self.offset
    }

    /// The voted packages found so far.
    pub closed spec fn voted(&self) -> Seq<PackageView> {
        self.voted.deep_view()
    }

    /// Whether the listing has come to its end.
    pub closed spec fn finished(&self) -> bool {
        self.finished
    }

    pub(crate) fn start(cookies: Vec<String>) -> (run: ListVoted)
        ensures
            run.cookies() == cookies.deep_view(),
            run.offset() == 0,
            run.voted() == Seq::<PackageView>::empty(),
            !run.finished(),
    {
        let voted: Vec<AurPackageResultItem> = Vec::new();
        assert(voted.deep_view() =~= Seq::empty());
        ListVoted { cookies, offset: 0, voted, finished: false }
    }

    fn copy_voted(&self) -> (r: Vec<AurPackageResultItem>)
        ensures
            r.deep_view() == self.voted(),
    {
        let mut r: Vec<AurPackageResultItem> = Vec::new();
        let mut i: usize = 0;
        while i < self.voted.len()
            invariant
                i <= self.voted.len(),
                r.len() == i,
                forall|j: int| 0 <= j < i ==> r@[j]@ == self.voted@[j]@,
            decreases self.voted.len() - i,
        {
            r.push(copy_item(&self.voted[i]));
            i += 1;
        }
        assert(r.deep_view() =~= self.voted.deep_view());
        r
    }

    /// What the run waits for: the page at its offset, or nothing more.
    pub fn pending(&self) -> (step: Step<Vec<AurPackageResultItem>>)
        ensures
            step@ == if self.finished() {
                StepView::Done(Ok(self.voted()))
            } else {
                send_or_fail(listing_request(self.offset(), self.cookies()))
            },
    {
        if self.finished {
            Step::Done(Ok(self.copy_voted()))
        } else {
            let text = make_listing_url(self.offset);
            send(make_page_request(text.as_str(), copy_texts(&self.cookies)))
        }
    }

    /// Takes the response to the request that the run waits for.
    pub fn step(&mut self, response: Option<HttpResponse>) -> (step: Step<
        Vec<AurPackageResultItem>,
    >)
        ensures
            final(self).cookies() == old(self).cookies(),
            final(self).offset() == list_move(
                old(self).cookies(),
                old(self).offset(),
                old(self).voted(),
                old(self).finished(),
                response,
            ).offset,
            final(self).voted() == list_move(
                old(self).cookies(),
                old(self).offset(),
                old(self).voted(),
                old(self).finished(),
                response,
            ).voted,
            final(self).finished() == list_move(
                old(self).cookies(),
                old(self).offset(),
                old(self).voted(),
                old(self).finished(),
                response,
            ).finished,
            step@ == list_move(
                old(self).cookies(),
                old(self).offset(),
                old(self).voted(),
                old(self).finished(),
                response,
            ).step,
            all_voted(old(self).voted()) ==> all_voted(final(self).voted()),
    {
        proof {
            if all_voted(self.voted()) {
                lemma_listing_stops(
                    self.cookies(),
                    self.offset(),
                    self.voted(),
                    self.finished(),
                    response,
                );
            }
        }
        if self.finished {
            return Step::Done(Ok(self.copy_voted()));
        }
        let response = match response {
            Some(response) => response,
            None => {
                return Step::Done(Err(AurError::Transport));
            },
        };
        let packages = match extract_package_list(response.body.as_str()) {
            Ok(packages) => packages,
            Err(e) => {
                return Step::Done(Err(AurError::Page(e)));
            },
        };
        let ghost rows = packages.deep_view();
        let ghost before = self.voted.deep_view();
        let mut i: usize = 0;
        assert(before + rows.take(0) =~= before);
        while i < packages.len() && packages[i].voted
            invariant
                i <= packages.len(),
                rows == packages.deep_view(),
                forall|j: int| 0 <= j < i ==> (#[trigger] rows[j]).voted,
                self.voted.deep_view() == before + rows.take(i as int),
                self.cookies == old(self).cookies,
                self.offset == old(self).offset,
                !self.finished,
            decreases packages.len() - i,
        {
            let ghost known = self.voted.deep_view();
            self.voted.push(copy_item(&packages[i]));
            proof {
                assert(rows[i as int] == packages@[i as int]@);
                assert(self.voted.deep_view() =~= known.push(rows[i as int]));
                assert(rows.take(i + 1) =~= rows.take(i as int).push(rows[i as int]));
                assert(known.push(rows[i as int]) =~= before + rows.take(i + 1));
            }
            i += 1;
        }
        proof {
            if i < packages.len() {
                assert(rows[i as int] == packages@[i as int]@);
            }
            lemma_leading_voted(rows, i as int);
        }
        if packages.len() == 0 || i < packages.len() {
            self.finished = true;
            return Step::Done(Ok(self.copy_voted()));
        }
        if self.offset > u32::MAX - PAGE_SIZE {
            self.finished = true;
            return Step::Done(Err(AurError::Exhausted));
        }
        self.offset = self.offset + PAGE_SIZE;
        self.pending()
    }
}

/// The statuses after the first `k` pages of a run of checks are those of
/// the whole run on the first `k` packages; the next page then leads to
/// those of the first `k + 1`, or to the error that the whole run ends
/// with. The statuses depend on the packages and the pages alone, not on
/// the cookies of the session.
pub proof fn lemma_check_step_follows_run(
    cookies: Seq<Seq<char>>,
    packages: Seq<Seq<char>>,
    pages: Seq<Seq<char>>,
    k: int,
    response: HttpResponse,
)
    requires
        0 <= k < packages.len(),
        packages.len() == pages.len(),
        check_run(packages.take(k), pages.take(k)) is Ok,
        response.body@ == pages[k],
    ensures
        ({
            let voted = check_run(packages.take(k), pages.take(k))->Ok_0;
            let (known, step) = check_move(cookies, packages, voted, Some(response));
            match check_run(packages.take(k + 1), pages.take(k + 1)) {
                Ok(next) => known == next && step == check_pending(cookies, packages, next),
                Err(e) => known == voted && step == StepView::<Statuses>::Done(Err(e)),
            }
        }),
{
    lemma_check_run_length(packages.take(k), pages.take(k));
    assert(packages.take(k + 1).drop_last() =~= packages.take(k));
    assert(pages.take(k + 1).drop_last() =~= pages.take(k));
    assert(packages.take(k + 1).last() == packages[k]);
    assert(pages.take(k + 1).last() == pages[k]);
}

/// A run of checks that succeeds gives one status for each package, under
/// the name of the package and in the order of the packages.
pub proof fn lemma_check_run_length(packages: Seq<Seq<char>>, pages: Seq<Seq<char>>)
    ensures
        check_run(packages, pages) matches Ok(voted) ==> {
            &&& voted.len() == packages.len()
            &&& forall|i: int| 0 <= i < voted.len() ==> (#[trigger] voted[i]).0 == packages[i]
        },
    decreases packages.len(),
{
    if packages.len() > 0 {
        lemma_check_run_length(packages.drop_last(), pages.drop_last());
    }
}

/// Checking the same packages twice, with the site showing the same pages
/// both times, gives the same result both times.
pub proof fn lemma_check_vote_repeats(
    packages: Seq<Seq<char>>,
    first: Seq<Seq<char>>,
    second: Seq<Seq<char>>,
)
    requires
        first.len() == packages.len(),
        second.len() == packages.len(),
        forall|i: int| 0 <= i < packages.len() ==> first[i] == second[i],
    ensures
        check_run(packages, first) == check_run(packages, second),
{
    assert(first =~= second);
}

} // verus!
