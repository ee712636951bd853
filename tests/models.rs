use axum_redis_cache::models::{
    GetGithubRepositoriesParams, GetGithubRepositoriesResponse,
    GetGithubRepositoryGoodFirstIssuesParams, GetGithubRepositoryGoodFirstIssuesResponse, GithubIssueAPI,
    GithubIssueState, GithubPullRequestAPI, GithubRepositoryAPI, GithubRepositoryLicenseAPI,
    GithubRepositoryOwnerAPI, SearchGithubRepositoriesResponseAPI,
};

fn hello_world(license: Option<&str>) -> GithubRepositoryAPI {
    GithubRepositoryAPI {
        id: 1296269,
        full_name: "octocat/Hello-World".to_string(),
        private: false,
        html_url: "https://github.com/octocat/Hello-World".to_string(),
        description: Some("This your first repo!".to_string()),
        stargazers_count: 80,
        open_issues_count: 0,
        has_issues: true,
        owner: GithubRepositoryOwnerAPI {
            avatar_url: "https://github.com/images/error/octocat_happy.gif".to_string(),
        },
        license: license.map(|name| GithubRepositoryLicenseAPI { name: name.to_string() }),
    }
}

#[test]
fn repositories_page_maps_each_repository() {
    let page = SearchGithubRepositoriesResponseAPI {
        total_count: 2,
        items: vec![hello_world(Some("MIT License")), hello_world(None)],
    };
    let response = GetGithubRepositoriesResponse::from_api(page);
    assert_eq!(response.total_count, 2);
    assert_eq!(response.items.len(), 2);
    let repo = &response.items[0];
    assert_eq!(repo.id, 1296269);
    assert_eq!(repo.name, "octocat/Hello-World");
    assert_eq!(repo.url, "https://github.com/octocat/Hello-World");
    assert_eq!(repo.avatar_url, "https://github.com/images/error/octocat_happy.gif");
    assert_eq!(repo.description.as_deref(), Some("This your first repo!"));
    assert_eq!(repo.stars_count, 80);
    assert!(repo.has_issues);
    assert!(!repo.private);
    assert_eq!(repo.license.as_deref(), Some("MIT License"));
    assert_eq!(response.items[1].license, None);
}

#[test]
fn empty_repositories_page() {
    let page = SearchGithubRepositoriesResponseAPI { total_count: 0, items: vec![] };
    let response = GetGithubRepositoriesResponse::from_api(page);
    assert_eq!(response.total_count, 0);
    assert!(response.items.is_empty());
}

#[test]
fn issues_map_each_issue() {
    let issues = vec![
        GithubIssueAPI {
            id: 1,
            title: "Found a bug".to_string(),
            description: None,
            body: Some("I'm having a problem with this.".to_string()),
            html_url: "https://github.com/octocat/Hello-World/issues/1347".to_string(),
            state: GithubIssueState::Open,
            pull_request: Some(GithubPullRequestAPI {
                html_url: "https://github.com/octocat/Hello-World/pull/1347".to_string(),
            }),
        },
        GithubIssueAPI {
            id: 2,
            title: "Second".to_string(),
            description: Some("d".to_string()),
            body: None,
            html_url: "u".to_string(),
            state: GithubIssueState::Close,
            pull_request: None,
        },
    ];
    let response = GetGithubRepositoryGoodFirstIssuesResponse::from_api(issues);
    assert_eq!(response.items.len(), 2);
    let issue = &response.items[0];
    assert_eq!(issue.title, "Found a bug");
    assert_eq!(issue.body.as_deref(), Some("I'm having a problem with this."));
    assert_eq!(issue.url, "https://github.com/octocat/Hello-World/issues/1347");
    assert_eq!(issue.state, GithubIssueState::Open);
    assert_eq!(
        issue.pull_request.as_ref().map(|p| p.url.as_str()),
        Some("https://github.com/octocat/Hello-World/pull/1347")
    );
    assert_eq!(response.items[1].id, 2);
    assert_eq!(response.items[1].state, GithubIssueState::Close);
    assert!(response.items[1].pull_request.is_none());
}

#[test]
fn params_defaults() {
    let params = GetGithubRepositoriesParams { per_page: None, page: None };
    assert_eq!(params.per_page_or_default(), 10);
    assert_eq!(params.page_or_default(), 1);
    let params = GetGithubRepositoriesParams { per_page: Some(50), page: Some(3) };
    assert_eq!(params.per_page_or_default(), 50);
    assert_eq!(params.page_or_default(), 3);
    let params = GetGithubRepositoryGoodFirstIssuesParams { owner: "cube-js".to_string(), per_page: Some(5), page: None };
    assert_eq!(params.per_page_or_default(), 5);
    assert_eq!(params.page_or_default(), 1);
}
