//! The query for information on packages: at most `PACKAGE_QUERY_LIMIT`
//! packages to a request.

use crate::http::{info_request, make_info_request, HttpRequest};
use crate::runs::AurError;
use vstd::prelude::*;

verus! {

/// The most packages that one request may ask about.
pub const PACKAGE_QUERY_LIMIT: usize = 160;

/// What the site says of a package.
#[derive(Default, PartialEq, Eq, Debug, Clone)]
pub struct AurPackageInfoItem {
    pub name: String,
    pub version: String,
}

/// What the site says of several packages.
pub type AurPackageInfo = Vec<AurPackageInfoItem>;

/// The number of requests that `n` packages take.
pub open spec fn chunks(n: int) -> int {
    (n + PACKAGE_QUERY_LIMIT - 1) / (PACKAGE_QUERY_LIMIT as int)
}

/// The index of the first package of request number `k`.
pub open spec fn chunk_first(k: int) -> int {
    k * PACKAGE_QUERY_LIMIT
}

/// The index behind the last package of request number `k` among `n`
/// packages.
pub open spec fn chunk_end(k: int, n: int) -> int {
    if (k + 1) * PACKAGE_QUERY_LIMIT < n {
        (k + 1) * PACKAGE_QUERY_LIMIT
    } else {
        n
    }
}

/// The packages of request number `k`.
pub open spec fn chunk(pkgs: Seq<Seq<char>>, k: int) -> Seq<Seq<char>> {
    pkgs.subrange(chunk_first(k), chunk_end(k, pkgs.len() as int))
}

/// Whether a request can be made for each of the chunks of the packages.
pub open spec fn can_query(pkgs: Seq<Seq<char>>) -> bool {
    forall|k: int|
        0 <= k < chunks(pkgs.len() as int) ==> (#[trigger] info_request(chunk(pkgs, k))) is Some
}

/// The requests that ask the site about the packages: the packages in
/// their order, `PACKAGE_QUERY_LIMIT` to a request, the rest in the last
/// one. The answers, one after the other, are the information on all of
/// them. Fails where one of the requests cannot be made.
pub fn info_query(pkgs: &[String]) -> (r: Result<Vec<HttpRequest>, AurError>)
    ensures
        match r {
            Ok(requests) => {
                &&& requests.len() == chunks(pkgs.len() as int)
                &&& forall|k: int|
                    0 <= k < requests.len() ==> info_request(chunk(pkgs.deep_view(), k)) == Some(
                        (#[trigger] requests@[k])@,
                    )
            },
            Err(e) => e == AurError::Request && !can_query(pkgs.deep_view()),
        },
{
    let n = pkgs.len();
    let mut requests: Vec<HttpRequest> = Vec::new();
    let mut first: usize = 0;
    while first < n
        invariant
            first <= n == pkgs.len(),
            first == requests.len() * PACKAGE_QUERY_LIMIT,
            forall|k: int|
                0 <= k < requests.len() ==> info_request(chunk(pkgs.deep_view(), k)) == Some(
                    (#[trigger] requests@[k])@,
                ),
        decreases n - first,
    {
        let end: usize = if n - first > PACKAGE_QUERY_LIMIT {
            first + PACKAGE_QUERY_LIMIT
        } else {
            n
        };
        let ghost k = requests.len() as int;
        assert(chunk_first(k) == first && chunk_end(k, n as int) == end);
        assert(k < chunks(n as int));
        match make_info_request(pkgs, first, end) {
            Some(request) => {
                requests.push(request);
            },
            None => {
                assert(info_request(chunk(pkgs.deep_view(), k)) is None);
                return Err(AurError::Request);
            },
        }
        if end == n {
            assert(requests.len() == chunks(n as int));
            return Ok(requests);
        }
        first = end;
    }
    Ok(requests)
}

/// A query to the site's information endpoint, by what is asked with: `T`
/// is what the caller is to send.
pub trait AurInfoQuery<T> {
    fn info_query(pkgs: &[String]) -> T;
}

impl AurInfoQuery<Result<Vec<HttpRequest>, AurError>> for AurPackageInfo {
    /// The requests whose answers, one after the other, are the
    /// information on the packages.
    fn info_query(pkgs: &[String]) -> (r: Result<Vec<HttpRequest>, AurError>)
        ensures
            match r {
                Ok(requests) => {
                    &&& requests.len() == chunks(pkgs.len() as int)
                    &&& forall|k: int|
                        0 <= k < requests.len() ==> info_request(chunk(pkgs.deep_view(), k))
                            == Some((#[trigger] requests@[k])@)
                },
                Err(e) => e == AurError::Request && !can_query(pkgs.deep_view()),
            },
    {
        info_query(pkgs)
    }
}

} // verus!
