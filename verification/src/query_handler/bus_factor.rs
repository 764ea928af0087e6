use vstd::prelude::*;

use vstd::arithmetic::div_mod::{
    lemma_div_is_ordered, lemma_div_multiples_vanish, lemma_fundamental_div_mod,
};
use vstd::arithmetic::mul::lemma_mul_inequality;

use crate::query_handler::{
    encoded_url, params_view, parse_url_with_params, url_base_ok, BusFactorQueryResult,
    RepositoryQueryResult, UrlError,
};
use vstd::string::StringExecFns;

verus! {

/// One entry of a repository's contributor list: who contributed and how
/// many contributions the list credits them with. The list arrives
/// ordered by descending contributions.
#[derive(Debug, Clone)]
pub struct ContributorDetails {
    pub login: String,
    pub contributions: u32,
}

/// The contributor evaluator stage: computes the bus-factor percentage of
/// a repository from its contributor list and keeps only the repositories
/// where a single contributor dominates.
pub struct ContributorHandler;

/// The summed contributions of a contributor list.
pub open spec fn sum_contributions(s: Seq<ContributorDetails>) -> int
    decreases s.len(),
{
    if s.len() == 0 {
        0
    } else {
        sum_contributions(s.drop_last()) + s.last().contributions
    }
}

/// Every contribution count is non-negative, so the sum is too.
pub proof fn lemma_sum_contributions_nonneg(s: Seq<ContributorDetails>)
    ensures
        sum_contributions(s) >= 0,
    decreases s.len(),
{
    if s.len() > 0 {
        lemma_sum_contributions_nonneg(s.drop_last());
    }
}

/// No single contributor holds more than the summed contributions.
pub proof fn lemma_element_le_sum(s: Seq<ContributorDetails>, i: int)
    requires
        0 <= i < s.len(),
    ensures
        s[i].contributions <= sum_contributions(s),
    decreases s.len(),
{
    if i < s.len() - 1 {
        lemma_element_le_sum(s.drop_last(), i);
    } else {
        lemma_sum_contributions_nonneg(s.drop_last());
    }
}

/// Two different contributors together still hold no more than the sum.
pub proof fn lemma_two_elements_le_sum(s: Seq<ContributorDetails>, i: int, j: int)
    requires
        0 <= i < j < s.len(),
    ensures
        s[i].contributions + s[j].contributions <= sum_contributions(s),
    decreases s.len(),
{
    if j < s.len() - 1 {
        lemma_two_elements_le_sum(s.drop_last(), i, j);
    } else {
        lemma_element_le_sum(s.drop_last(), i);
    }
}

/// The bus-factor percentage of the contributor at index `i`: their share
/// of all contributions, as a whole percentage rounded down.
pub open spec fn contributor_percentage(s: Seq<ContributorDetails>, i: int) -> int
    recommends
        0 <= i < s.len(),
        sum_contributions(s) > 0,
{
    100 * s[i].contributions / sum_contributions(s)
}

/// A list shows a bus factor when some contributor reaches 75 percent of
/// the summed contributions. A list whose contributions sum to zero shows
/// none: no share is determinable there.
pub open spec fn has_bus_factor(s: Seq<ContributorDetails>) -> bool {
    &&& sum_contributions(s) > 0
    &&& exists|i: int|
        0 <= i < s.len() && #[trigger] contributor_percentage(s, i) >= 75
}

/// `res` reports position `i` of the contributor list: `i` is the first
/// position whose percentage reaches the threshold, and the reported
/// login, contribution count and percentage are taken from it.
pub open spec fn reported_at(s: Seq<ContributorDetails>, res: BusFactorQueryResult, i: int) -> bool {
    &&& 0 <= i < s.len()
    &&& contributor_percentage(s, i) >= 75
    &&& forall|j: int| 0 <= j < i ==> contributor_percentage(s, j) < 75
    &&& res.login@ == s[i].login@
    &&& res.contributions == s[i].contributions
    &&& res.bus_factor == contributor_percentage(s, i)
}

/// Everything bus-factor detection promises: a result comes back exactly
/// when the list shows a bus factor, and it reports the first contributor
/// whose share reaches the threshold, for the given repository.
pub open spec fn detect_bus_factor_post(
    s: Seq<ContributorDetails>,
    project_name: Seq<char>,
    star_gazers: u32,
    r: Option<BusFactorQueryResult>,
) -> bool {
    &&& (r is Some <==> has_bus_factor(s))
    &&& (r matches Some(res) ==> {
        &&& exists|i: int| #[trigger] reported_at(s, res, i)
        &&& res.repo_name@ == project_name
        &&& res.stargazers == star_gazers
        &&& 0 <= res.bus_factor <= 100
    })
}

/// Reaching the threshold as a floored percentage is the same as holding
/// at least three quarters of the summed contributions.
pub proof fn lemma_percentage_threshold(c: int, total: int)
    requires
        total > 0,
        c >= 0,
    ensures
        100 * c / total >= 75 <==> 100 * c >= 75 * total,
{
    if 100 * c >= 75 * total {
        lemma_div_is_ordered(75 * total, 100 * c, total);
        lemma_div_multiples_vanish(75, total);
        assert(total * 75 == 75 * total);
    }
    if 100 * c / total >= 75 {
        lemma_fundamental_div_mod(100 * c, total);
        lemma_mul_inequality(75, 100 * c / total, total);
    }
}

/// The observable content of a reported result: two results agree when
/// every field a caller can read agrees.
pub open spec fn results_agree(a: BusFactorQueryResult, b: BusFactorQueryResult) -> bool {
    &&& a.login@ == b.login@
    &&& a.contributions == b.contributions
    &&& a.repo_name@ == b.repo_name@
    &&& a.bus_factor == b.bus_factor
    &&& a.stargazers == b.stargazers
}

/// A contributor holding at least three quarters of the summed
/// contributions is always reported, under their own login and with the
/// floored percentage of their share.
pub proof fn lemma_dominant_contributor_reported(
    s: Seq<ContributorDetails>,
    project_name: Seq<char>,
    star_gazers: u32,
    r: Option<BusFactorQueryResult>,
    i: int,
)
    requires
        detect_bus_factor_post(s, project_name, star_gazers, r),
        0 <= i < s.len(),
        sum_contributions(s) > 0,
        100 * s[i].contributions >= 75 * sum_contributions(s),
    ensures
        r matches Some(res) && reported_at(s, res, i),
{
    let total = sum_contributions(s);
    lemma_percentage_threshold(s[i].contributions as int, total);
    assert(contributor_percentage(s, i) >= 75);
    assert(has_bus_factor(s));
    match r {
        Some(res) => {
            let k = choose|k: int| #[trigger] reported_at(s, res, k);
            assert(reported_at(s, res, k));
            if k < i {
                // two distinct contributors cannot both hold 75 percent
                lemma_percentage_threshold(s[k].contributions as int, total);
                lemma_two_elements_le_sum(s, k, i);
                assert(false);
            } else if i < k {
                assert(contributor_percentage(s, i) < 75);
                assert(false);
            }
        },
        None => {
            assert(false);
        },
    }
}

/// When no contributor reaches three quarters of the summed
/// contributions, nothing is reported.
pub proof fn lemma_no_dominant_no_result(
    s: Seq<ContributorDetails>,
    project_name: Seq<char>,
    star_gazers: u32,
    r: Option<BusFactorQueryResult>,
)
    requires
        detect_bus_factor_post(s, project_name, star_gazers, r),
        forall|i: int|
            0 <= i < s.len() ==> 100 * (#[trigger] s[i].contributions) < 75 * sum_contributions(s),
    ensures
        r is None,
{
    if r is Some {
        assert(has_bus_factor(s));
        let i = choose|i: int|
            0 <= i < s.len() && #[trigger] contributor_percentage(s, i) >= 75;
        lemma_percentage_threshold(s[i].contributions as int, sum_contributions(s));
        assert(false);
    }
}

/// Evaluating the same contributor list for the same repository twice
/// settles on the same outcome: either both runs report nothing, or both
/// report the same contributor with the same percentage.
pub proof fn lemma_detect_bus_factor_deterministic(
    s: Seq<ContributorDetails>,
    project_name: Seq<char>,
    star_gazers: u32,
    r1: Option<BusFactorQueryResult>,
    r2: Option<BusFactorQueryResult>,
)
    requires
        detect_bus_factor_post(s, project_name, star_gazers, r1),
        detect_bus_factor_post(s, project_name, star_gazers, r2),
    ensures
        r1 is Some <==> r2 is Some,
        r1 matches Some(a) ==> (r2 matches Some(b) && results_agree(a, b)),
{
    match (r1, r2) {
        (Some(a), Some(b)) => {
            let k1 = choose|k: int| #[trigger] reported_at(s, a, k);
            let k2 = choose|k: int| #[trigger] reported_at(s, b, k);
            assert(reported_at(s, a, k1));
            assert(reported_at(s, b, k2));
            if k1 < k2 {
                assert(contributor_percentage(s, k1) < 75);
            } else if k2 < k1 {
                assert(contributor_percentage(s, k2) < 75);
            }
            assert(k1 == k2);
        },
        _ => {},
    }
}

impl ContributorHandler {
    /// Adds up the contributions of the whole list. The sum is carried in
    /// a type wide enough that it cannot overflow, however long the list.
    pub fn calculate_commits_sum(contributors: &[ContributorDetails]) -> (total: u128)
        ensures
            total == sum_contributions(contributors@),
    {
        let mut total: u128 = 0;
        let mut index: usize = 0;
        while index < contributors.len()
            invariant
                index <= contributors@.len(),
                total == sum_contributions(contributors@.take(index as int)),
                total <= (index as int) * 0xffff_ffff,
            decreases contributors@.len() - index,
        {
            let contribution = contributors[index].contributions;
            proof {
                assert(contributors@.take(index as int + 1).drop_last() =~= contributors@.take(
                    index as int,
                ));
            }
            total = total + contribution as u128;
            index = index + 1;
        }
        proof {
            assert(contributors@.take(contributors@.len() as int) =~= contributors@);
        }
        total
    }

    /// Scans the contributor list in order and reports the first
    /// contributor whose floored share of the summed contributions
    /// reaches 75 percent; reports nothing when no share reaches it, and
    /// nothing when the contributions sum to zero, since no share is
    /// determinable then.
    pub fn detect_bus_factor(
        contributors: &[ContributorDetails],
        project_name: String,
        star_gazers: u32,
    ) -> (r: Option<BusFactorQueryResult>)
        ensures
            detect_bus_factor_post(contributors@, project_name@, star_gazers, r),
    {
        let total = Self::calculate_commits_sum(contributors);
        if total == 0 {
            return None;
        }
        let mut index: usize = 0;
        while index < contributors.len()
            invariant
                total == sum_contributions(contributors@),
                total > 0,
                index <= contributors@.len(),
                forall|j: int| 0 <= j < index ==> contributor_percentage(contributors@, j) < 75,
            decreases contributors@.len() - index,
        {
            let contributor = &contributors[index];
            let percentage = (100 * contributor.contributions as u128) / total;
            assert(percentage == contributor_percentage(contributors@, index as int));
            if percentage >= 75 {
                proof {
                    lemma_element_le_sum(contributors@, index as int);
                    lemma_div_is_ordered(
                        100 * (contributors@[index as int].contributions as int),
                        100 * sum_contributions(contributors@),
                        sum_contributions(contributors@),
                    );
                    lemma_div_multiples_vanish(100, sum_contributions(contributors@));
                    assert(sum_contributions(contributors@) * 100 == 100 * sum_contributions(
                        contributors@,
                    ));
                }
                let result = BusFactorQueryResult {
                    login: contributor.login.clone(),
                    contributions: contributor.contributions,
                    repo_name: project_name,
                    bus_factor: percentage as u32,
                    stargazers: star_gazers,
                };
                proof {
                    assert(reported_at(contributors@, result, index as int));
                }
                return Some(result);
            }
            index = index + 1;
        }
        None
    }

    /// The contributor-stage half of evaluating one repository: given the
    /// record the source stage emitted and the contributor list fetched
    /// for it, decide whether the repository is reported and with what.
    pub fn evaluate_repository(
        record: RepositoryQueryResult,
        contributors: &[ContributorDetails],
    ) -> (r: Option<BusFactorQueryResult>)
        ensures
            detect_bus_factor_post(contributors@, record.project_name@, record.stargazers, r),
    {
        Self::detect_bus_factor(contributors, record.project_name, record.stargazers)
    }

    /// The fixed query the contributor list is requested with: the top 25
    /// contributors, ordered by descending contributions.
    pub open spec fn contrib_params() -> Seq<(Seq<char>, Seq<char>)> {
        seq![
            ("sort"@, "contributions"@),
            ("order"@, "desc"@),
            ("per_page"@, "25"@),
        ]
    }

    /// Builds the contributor-list request URL for a repository: its
    /// contributor URL with the fixed query pairs appended. It succeeds
    /// exactly when that URL parses as an absolute URL.
    pub fn create_contrib_url(base_url: String) -> (r: Result<String, UrlError>)
        ensures
            r is Ok <==> url_base_ok(base_url@),
            r matches Ok(u) ==> u@ == encoded_url(base_url@, Self::contrib_params()),
            r matches Err(e) ==> e == UrlError::InvalidBase,
    {
        let mut params: Vec<(String, String)> = Vec::new();
        params.push((String::from_str("sort"), String::from_str("contributions")));
        params.push((String::from_str("order"), String::from_str("desc")));
        params.push((String::from_str("per_page"), String::from_str("25")));
        proof {
            assert(params_view(params@) =~= Self::contrib_params());
        }
        match parse_url_with_params(base_url.as_str(), &params) {
            Ok(u) => Ok(u),
            Err(_) => Err(UrlError::InvalidBase),
        }
    }
}

} // verus!
