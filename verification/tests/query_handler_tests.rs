use bus_factor::query_handler::bus_factor::{ContributorDetails, ContributorHandler};
use bus_factor::query_handler::repository::RepositoryHandler;
use bus_factor::query_handler::UrlError;
use bus_factor::{validate_command, BusFactorQueryCommand};

#[test]
fn calculate_page_size_for_typical_use_cases_beside_first_page() {
    let result = RepositoryHandler::determine_page_count(40, 30);
    assert_eq!(result, 2);
    let result = RepositoryHandler::determine_page_count(60, 30);
    assert_eq!(result, 2);
    let result = RepositoryHandler::determine_page_count(99, 30);
    assert_eq!(result, 4);
}

#[test]
fn calculate_bus_factor_simple() {
    let result = ContributorHandler::detect_bus_factor(
        &[ContributorDetails {
            login: "luke".to_string(),
            contributions: 1000,
        }],
        "minigun".to_string(),
        100,
    );
    assert!(result.is_some());
    assert_eq!(result.unwrap().bus_factor, 100)
}

#[test]
fn calculate_bus_factor_advance() {
    let result = ContributorHandler::detect_bus_factor(
        &[
            ContributorDetails {
                login: "luke".to_string(),
                contributions: 1000,
            },
            ContributorDetails {
                login: "kubot".to_string(),
                contributions: 500,
            },
        ],
        "minigun".to_string(),
        100,
    );
    assert!(result.is_none());
}

#[test]
fn calculate_bus_factor_almost() {
    let result = ContributorHandler::detect_bus_factor(
        &[
            ContributorDetails {
                login: "luke".to_string(),
                contributions: 750,
            },
            ContributorDetails {
                login: "kubot".to_string(),
                contributions: 250,
            },
        ],
        "minigun".to_string(),
        100,
    );
    assert!(result.is_some());
    assert_eq!(result.unwrap().bus_factor, 75)
}

#[test]
fn bus_factor_empty_contributor_list_gives_nothing() {
    let result = ContributorHandler::detect_bus_factor(&[], "minigun".to_string(), 100);
    assert!(result.is_none());
}

#[test]
fn bus_factor_zero_contribution_sum_gives_nothing() {
    let result = ContributorHandler::detect_bus_factor(
        &[ContributorDetails {
            login: "luke".to_string(),
            contributions: 0,
        }],
        "minigun".to_string(),
        100,
    );
    assert!(result.is_none());
}

#[test]
fn bus_factor_reports_first_contributor_fields() {
    let result = ContributorHandler::detect_bus_factor(
        &[
            ContributorDetails {
                login: "luke".to_string(),
                contributions: 900,
            },
            ContributorDetails {
                login: "kubot".to_string(),
                contributions: 100,
            },
        ],
        "minigun".to_string(),
        42,
    )
    .unwrap();
    assert_eq!(result.login, "luke");
    assert_eq!(result.contributions, 900);
    assert_eq!(result.repo_name, "minigun");
    assert_eq!(result.bus_factor, 90);
    assert_eq!(result.stargazers, 42);
}

#[test]
fn page_count_of_exact_page_is_one() {
    assert_eq!(RepositoryHandler::determine_page_count(30, 30), 1);
}

#[test]
fn page_size_is_capped_by_request() {
    let small = BusFactorQueryCommand {
        language: "rust".to_string(),
        project_count: 7,
        github_url: "https://api.github.com/search/repositories".to_string(),
    };
    assert_eq!(RepositoryHandler::determine_page_size(&small), 7);
    let large = BusFactorQueryCommand {
        language: "rust".to_string(),
        project_count: 40,
        github_url: "https://api.github.com/search/repositories".to_string(),
    };
    assert_eq!(RepositoryHandler::determine_page_size(&large), 30);
}

#[test]
fn validate_command_rejects_empty_language_and_zero_count() {
    let good = BusFactorQueryCommand {
        language: "rust".to_string(),
        project_count: 10,
        github_url: "https://api.github.com/search/repositories".to_string(),
    };
    assert!(validate_command(&good));
    let no_language = BusFactorQueryCommand {
        language: "".to_string(),
        ..good.clone()
    };
    assert!(!validate_command(&no_language));
    let no_count = BusFactorQueryCommand {
        project_count: 0,
        ..good
    };
    assert!(!validate_command(&no_count));
}

#[test]
fn contrib_url_appends_fixed_query() {
    let url = ContributorHandler::create_contrib_url(
        "https://api.github.com/repos/someone/minigun/contributors".to_string(),
    )
    .unwrap();
    assert_eq!(
        url,
        "https://api.github.com/repos/someone/minigun/contributors?sort=contributions&order=desc&per_page=25"
    );
}

#[test]
fn repo_url_carries_language_page_and_size() {
    let command = BusFactorQueryCommand {
        language: "rust".to_string(),
        project_count: 40,
        github_url: "https://api.github.com/search/repositories".to_string(),
    };
    let url = bus_factor::query_handler::repository::create_repo_url(2, &command, 30).unwrap();
    assert_eq!(
        url,
        "https://api.github.com/search/repositories?q=language:rust&sort=stars&order=desc&page=2&per_page=30"
    );
}

#[test]
fn bad_base_url_is_reported() {
    let result = ContributorHandler::create_contrib_url("not a url at all".to_string());
    assert_eq!(result, Err(UrlError::InvalidBase));
}
