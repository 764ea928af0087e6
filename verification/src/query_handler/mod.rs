pub mod bus_factor;
pub mod repository;

use vstd::prelude::*;

verus! {

/// One line of the final report: the dominant contributor of a repository
/// together with how dominant they are.
#[derive(Debug, Clone)]
pub struct BusFactorQueryResult {
    pub login: String,
    pub contributions: u32,
    pub repo_name: String,
    pub bus_factor: u32,
    pub stargazers: u32,
}

/// One repository taken from a page of search results, reduced to the
/// values the contributor stage reads: its star count, where its
/// contributor list can be fetched, and its full name.
#[derive(Debug, Clone)]
pub struct RepositoryQueryResult {
    pub stargazers: u32,
    pub contributor_url: String,
    pub project_name: String,
}

/// Why building a request URL failed: the base the caller supplied could
/// not be parsed as an absolute URL.
#[derive(Debug, Clone, Copy, PartialEq, Eq, Structural)]
pub enum UrlError {
    InvalidBase,
}

#[verifier::external_type_specification]
#[verifier::external_body]
pub struct ExParseError(url::ParseError);

/// What `url::Url::parse_with_params` serializes for a given base URL and
/// query pairs. The encoding depends on those arguments alone.
pub uninterp spec fn encoded_url(base: Seq<char>, params: Seq<(Seq<char>, Seq<char>)>) -> Seq<char>;

/// Whether `url::Url::parse_with_params` accepts a base: it succeeds
/// exactly when the base parses as an absolute URL, which depends on the
/// base alone — the query pairs are only appended after a successful
/// parse and cannot fail.
pub uninterp spec fn url_base_ok(base: Seq<char>) -> bool;

/// The abstract query pairs that a list of owned pairs stands for.
pub open spec fn params_view(params: Seq<(String, String)>) -> Seq<(Seq<char>, Seq<char>)> {
    params.map_values(|p: (String, String)| (p.0@, p.1@))
}

/// Relies on `url::Url::parse_with_params`: it parses the base as an
/// absolute URL, appends the given pairs to its query string with
/// percent-encoding, and fails exactly when the base does not parse. The
/// serialized result, like the parse outcome, is a function of the
/// arguments alone.
#[verifier::external_body]
pub(crate) fn parse_url_with_params(base: &str, params: &Vec<(String, String)>) -> (r: Result<
    String,
    url::ParseError,
>)
    ensures
        r is Ok <==> url_base_ok(base@),
        r matches Ok(u) ==> u@ == encoded_url(base@, params_view(params@)),
{
    url::Url::parse_with_params(base, params.as_slice()).map(String::from)
}

} // verus!
