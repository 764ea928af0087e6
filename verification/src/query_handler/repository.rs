use vstd::prelude::*;

use vstd::arithmetic::div_mod::{lemma_fundamental_div_mod, lemma_fundamental_div_mod_converse};

use crate::decimal::{decimal_string, u32_to_decimal};
use crate::query_handler::{
    encoded_url, params_view, parse_url_with_params, url_base_ok, RepositoryQueryResult, UrlError,
};
use crate::BusFactorQueryCommand;
use vstd::string::StringExecFns;

verus! {

/// The largest page of results the search API serves in one request.
pub const PAGE_SIZE: u32 = 30;

/// The repository source stage: decides how the search is paged and turns
/// pages of search results into repository records.
pub struct RepositoryHandler;

/// One repository as a page of search results describes it, reduced to
/// the fields the pipeline reads.
#[derive(Debug, Clone)]
pub struct RepositoryDetails {
    pub stargazers_count: u32,
    pub contributors_url: String,
    pub full_name: String,
}

/// One page of search results: how many repositories matched the query in
/// total, and the repositories on this page.
#[derive(Debug, Clone)]
pub struct RepositoryResponse {
    pub total_count: u32,
    pub items: Vec<RepositoryDetails>,
}

/// How many pages of `page_size` results cover `project_count` projects:
/// the requested count divided by the page size, rounded up.
pub open spec fn spec_page_count(project_count: int, page_size: int) -> int
    recommends
        page_size > 0,
{
    (project_count + page_size - 1) / page_size
}

impl RepositoryHandler {
    /// Effective page size: the fixed API maximum, unless fewer projects
    /// are requested than one full page would hold.
    pub fn determine_page_size(command: &BusFactorQueryCommand) -> (size: u32)
        ensures
            size == if command.project_count < PAGE_SIZE {
                command.project_count
            } else {
                PAGE_SIZE
            },
            size <= command.project_count,
            size > 0 <==> command.project_count > 0,
    {
        if PAGE_SIZE > command.project_count {
            command.project_count
        } else {
            PAGE_SIZE
        }
    }

    /// How many page requests are needed for `project_count` projects:
    /// the requested count divided by the page size, rounded up, so the
    /// planned pages always cover the request and the last page is never
    /// wasted.
    pub fn determine_page_count(project_count: u32, page_size: u32) -> (pages: u32)
        requires
            page_size > 0,
        ensures
            pages == spec_page_count(project_count as int, page_size as int),
            (pages as int) * (page_size as int) >= project_count as int,
            project_count > 0 ==> ((pages as int) - 1) * (page_size as int) < (project_count as int),
            pages == 0 <==> project_count == 0,
    {
        let ghost pc = project_count as int;
        let ghost ps = page_size as int;
        let quotient = project_count / page_size;
        let remainder = project_count % page_size;
        let ghost q = quotient as int;
        let ghost r = remainder as int;
        proof {
            lemma_fundamental_div_mod(pc, ps);
            if r > 0 {
                assert(q < u32::MAX as int) by (nonlinear_arith)
                    requires
                        pc == ps * q + r,
                        ps >= 1,
                        r >= 1,
                        q >= 0,
                        pc <= u32::MAX as int,
                ;
            }
        }
        let pages = if remainder > 0 {
            quotient + 1
        } else {
            quotient
        };
        proof {
            if r == 0 {
                assert(pc + ps - 1 == q * ps + (ps - 1)) by (nonlinear_arith)
                    requires
                        pc == ps * q + r,
                        r == 0,
                ;
                lemma_fundamental_div_mod_converse(pc + ps - 1, ps, q, ps - 1);
                assert(q * ps >= pc && (pc > 0 ==> (q - 1) * ps < pc) && (q == 0 <==> pc == 0))
                    by (nonlinear_arith)
                    requires
                        pc == ps * q,
                        ps >= 1,
                        q >= 0,
                ;
            } else {
                assert(pc + ps - 1 == (q + 1) * ps + (r - 1)) by (nonlinear_arith)
                    requires
                        pc == ps * q + r,
                ;
                lemma_fundamental_div_mod_converse(pc + ps - 1, ps, q + 1, r - 1);
                assert((q + 1) * ps >= pc && q * ps < pc) by (nonlinear_arith)
                    requires
                        pc == ps * q + r,
                        ps >= 1,
                        0 < r < ps,
                        q >= 0,
                ;
            }
        }
        pages
    }

    /// Which pages beyond the first still have to be requested. The first
    /// page is always fetched; pages `2..=page_count` follow only when the
    /// total match count reported by the first page exceeds what the
    /// request leaves beyond one page — a heuristic guard against asking
    /// for pages the search cannot fill.
    pub fn determine_additional_pages(
        project_count: u32,
        page_size: u32,
        total_count: u32,
    ) -> (pages: Vec<u32>)
        requires
            0 < page_size <= project_count,
        ensures
            total_count <= project_count - page_size ==> pages@ =~= Seq::<u32>::empty(),
            total_count > project_count - page_size ==> {
                let n = spec_page_count(project_count as int, page_size as int);
                &&& pages@.len() == if n >= 2 {
                    n - 1
                } else {
                    0int
                }
                &&& forall|i: int| 0 <= i < pages@.len() ==> pages@[i] == i + 2
            },
    {
        let mut pages: Vec<u32> = Vec::new();
        if total_count > project_count - page_size {
            let page_request_count = Self::determine_page_count(project_count, page_size);
            if page_request_count >= 2 {
                let mut index: u32 = 0;
                while index < page_request_count - 1
                    invariant
                        page_request_count >= 2,
                        index <= page_request_count - 1,
                        pages@.len() == index as int,
                        forall|i: int| 0 <= i < pages@.len() ==> pages@[i] == i + 2,
                    decreases page_request_count - index,
                {
                    pages.push(index + 2);
                    index = index + 1;
                }
            }
        }
        pages
    }

    /// Turns the repositories of one page of search results into the
    /// records the contributor stage consumes, one for one and in page
    /// order.
    pub fn process_page_items(items: Vec<RepositoryDetails>) -> (records: Vec<
        RepositoryQueryResult,
    >)
        ensures
            records@.len() == items@.len(),
            forall|i: int|
                0 <= i < items@.len() ==> {
                    &&& #[trigger] records@[i].stargazers == items@[i].stargazers_count
                    &&& records@[i].contributor_url@ == items@[i].contributors_url@
                    &&& records@[i].project_name@ == items@[i].full_name@
                },
    {
        let ghost original = items@;
        let mut remaining = items;
        let mut records: Vec<RepositoryQueryResult> = Vec::new();
        while remaining.len() > 0
            invariant
                records@.len() + remaining@.len() == original.len(),
                remaining@ =~= original.skip(records@.len() as int),
                forall|i: int|
                    0 <= i < records@.len() ==> {
                        &&& #[trigger] records@[i].stargazers == original[i].stargazers_count
                        &&& records@[i].contributor_url@ == original[i].contributors_url@
                        &&& records@[i].project_name@ == original[i].full_name@
                    },
            decreases remaining@.len(),
    {
            let details = remaining.remove(0);
            records.push(
                RepositoryQueryResult {
                    stargazers: details.stargazers_count,
                    contributor_url: details.contributors_url,
                    project_name: details.full_name,
                },
            );
        }
        records
    }
}

/// The fixed query pairs one repository-search page is requested with:
/// the most-starred repositories first, the wanted page and its size.
pub open spec fn repo_params(page: int, page_size: int) -> Seq<(Seq<char>, Seq<char>)> {
    seq![
        ("sort"@, "stars"@),
        ("order"@, "desc"@),
        ("page"@, decimal_string(page)),
        ("per_page"@, decimal_string(page_size)),
    ]
}

/// The search query string before encoding: the configured endpoint with
/// the language filter appended.
pub open spec fn repo_query_base(command: BusFactorQueryCommand) -> Seq<char> {
    command.github_url@ + "?q=language:"@ + command.language@
}

/// Builds the search request URL for one page of repositories: the
/// configured endpoint, filtered to the language, ordered by stars, with
/// the page number and page size as query pairs. It succeeds exactly
/// when the endpoint with the language filter parses as an absolute URL.
pub fn create_repo_url(
    request_no: u32,
    command: &BusFactorQueryCommand,
    page_size: u32,
) -> (r: Result<String, UrlError>)
    ensures
        r is Ok <==> url_base_ok(repo_query_base(*command)),
        r matches Ok(u) ==> u@ == encoded_url(
            repo_query_base(*command),
            repo_params(request_no as int, page_size as int),
        ),
        r matches Err(e) ==> e == UrlError::InvalidBase,
{
    let mut base = command.github_url.clone();
    base.append("?q=language:");
    base.append(command.language.as_str());
    let mut params: Vec<(String, String)> = Vec::new();
    params.push((String::from_str("sort"), String::from_str("stars")));
    params.push((String::from_str("order"), String::from_str("desc")));
    params.push((String::from_str("page"), u32_to_decimal(request_no)));
    params.push((String::from_str("per_page"), u32_to_decimal(page_size)));
    proof {
        assert(params_view(params@) =~= repo_params(request_no as int, page_size as int));
    }
    match parse_url_with_params(base.as_str(), &params) {
        Ok(u) => Ok(u),
        Err(_) => Err(UrlError::InvalidBase),
    }
}

} // verus!
