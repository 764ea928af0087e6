use bus_factor::decimal::u32_to_decimal;
use bus_factor::query_handler::bus_factor::{ContributorDetails, ContributorHandler};
use bus_factor::query_handler::repository::{RepositoryDetails, RepositoryHandler};
use bus_factor::query_handler::BusFactorQueryResult;
use bus_factor::report_generator::ReportGenerator;

fn contributors(entries: &[(&str, u32)]) -> Vec<ContributorDetails> {
    entries
        .iter()
        .map(|(login, contributions)| ContributorDetails {
            login: login.to_string(),
            contributions: *contributions,
        })
        .collect()
}

fn run_stages(
    items: Vec<RepositoryDetails>,
    contributor_lists: &[&[(&str, u32)]],
) -> Vec<BusFactorQueryResult> {
    let records = RepositoryHandler::process_page_items(items);
    let mut collected = Vec::new();
    for (record, list) in records.into_iter().zip(contributor_lists.iter()) {
        if let Some(result) = ContributorHandler::evaluate_repository(record, &contributors(list))
        {
            collected.push(result);
        }
    }
    ReportGenerator::sort_results(collected)
}

#[test]
fn single_repository_with_single_contributor_is_reported_in_full() {
    let items = vec![RepositoryDetails {
        stargazers_count: 199,
        contributors_url: "https://api.github.com/repos/test/contributors".to_string(),
        full_name: "test".to_string(),
    }];
    let report = run_stages(items, &[&[("test_user", 199)]]);
    assert_eq!(report.len(), 1);
    assert_eq!(report[0].repo_name, "test");
    assert_eq!(report[0].login, "test_user");
    assert_eq!(report[0].bus_factor, 100);
    assert_eq!(report[0].stargazers, 199);
}

#[test]
fn empty_search_result_yields_empty_report() {
    let report = run_stages(Vec::new(), &[]);
    assert!(report.is_empty());
}

#[test]
fn forty_projects_with_large_total_count_need_two_requests() {
    let command = bus_factor::BusFactorQueryCommand {
        language: "rust".to_string(),
        project_count: 40,
        github_url: "https://api.github.com/search/repositories".to_string(),
    };
    let page_size = RepositoryHandler::determine_page_size(&command);
    assert_eq!(page_size, 30);
    let additional = RepositoryHandler::determine_additional_pages(40, page_size, 555);
    // one initial request plus the planned pages
    assert_eq!(1 + additional.len(), 2);
    assert_eq!(additional, vec![2]);
}

#[test]
fn small_total_count_skips_additional_pages() {
    let additional = RepositoryHandler::determine_additional_pages(40, 30, 5);
    assert!(additional.is_empty());
}

#[test]
fn rerunning_on_identical_responses_reproduces_the_report() {
    let items = || {
        vec![
            RepositoryDetails {
                stargazers_count: 10,
                contributors_url: "https://api.github.com/repos/one/contributors".to_string(),
                full_name: "one".to_string(),
            },
            RepositoryDetails {
                stargazers_count: 20,
                contributors_url: "https://api.github.com/repos/two/contributors".to_string(),
                full_name: "two".to_string(),
            },
            RepositoryDetails {
                stargazers_count: 30,
                contributors_url: "https://api.github.com/repos/three/contributors".to_string(),
                full_name: "three".to_string(),
            },
        ]
    };
    let lists: &[&[(&str, u32)]] = &[
        &[("ann", 800), ("bob", 200)],
        &[("cey", 500), ("dan", 500)],
        &[("eve", 990), ("fay", 10)],
    ];
    let first = run_stages(items(), lists);
    let second = run_stages(items(), lists);
    assert_eq!(first.len(), second.len());
    for (a, b) in first.iter().zip(second.iter()) {
        assert_eq!(a.login, b.login);
        assert_eq!(a.contributions, b.contributions);
        assert_eq!(a.repo_name, b.repo_name);
        assert_eq!(a.bus_factor, b.bus_factor);
        assert_eq!(a.stargazers, b.stargazers);
    }
    // the dominated repositories come out ordered by percentage, descending
    assert_eq!(first.len(), 2);
    assert_eq!(first[0].repo_name, "three");
    assert_eq!(first[0].bus_factor, 99);
    assert_eq!(first[1].repo_name, "one");
    assert_eq!(first[1].bus_factor, 80);
}

#[test]
fn sort_orders_by_percentage_descending_and_keeps_ties_in_arrival_order() {
    let result = |name: &str, pct: u32| BusFactorQueryResult {
        login: format!("user_{name}"),
        contributions: 1,
        repo_name: name.to_string(),
        bus_factor: pct,
        stargazers: 0,
    };
    let sorted = ReportGenerator::sort_results(vec![
        result("a", 80),
        result("b", 95),
        result("c", 80),
        result("d", 100),
    ]);
    let order: Vec<(&str, u32)> = sorted
        .iter()
        .map(|r| (r.repo_name.as_str(), r.bus_factor))
        .collect();
    assert_eq!(order, vec![("d", 100), ("b", 95), ("a", 80), ("c", 80)]);
}

#[test]
fn decimal_writing_is_exact() {
    assert_eq!(u32_to_decimal(0), "0");
    assert_eq!(u32_to_decimal(7), "7");
    assert_eq!(u32_to_decimal(10), "10");
    assert_eq!(u32_to_decimal(30), "30");
    assert_eq!(u32_to_decimal(100), "100");
    assert_eq!(u32_to_decimal(4294967295), "4294967295");
}
