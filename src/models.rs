//! The upstream's reply shapes, the service's own shapes, and the mapping
//! between them.

use vstd::prelude::*;

verus! {

/// The body of an error reply of the upstream.
#[derive(Debug, Clone)]
pub struct GithubApiErrorPayload {
    pub message: String,
}

/// A page of repository search results, as the upstream gives it.
#[derive(Debug)]
pub struct SearchGithubRepositoriesResponseAPI {
    pub total_count: u32,
    pub items: Vec<GithubRepositoryAPI>,
}

#[derive(Debug)]
pub struct GithubRepositoryAPI {
    pub id: u32,
    pub full_name: String,
    pub private: bool,
    pub html_url: String,
    pub description: Option<String>,
    pub stargazers_count: u32,
    pub open_issues_count: u32,
    pub has_issues: bool,
    pub owner: GithubRepositoryOwnerAPI,
    pub license: Option<GithubRepositoryLicenseAPI>,
}

#[derive(Debug)]
pub struct GithubIssueAPI {
    pub id: u32,
    pub title: String,
    pub description: Option<String>,
    pub body: Option<String>,
    pub html_url: String,
    pub state: GithubIssueState,
    pub pull_request: Option<GithubPullRequestAPI>,
}

#[derive(Debug)]
pub struct GithubPullRequestAPI {
    pub html_url: String,
}

#[derive(Debug)]
pub struct GithubRepositoryOwnerAPI {
    pub avatar_url: String,
}

#[derive(Debug)]
pub struct GithubRepositoryLicenseAPI {
    pub name: String,
}

#[derive(Debug, Clone)]
pub struct GithubRepository {
    pub id: u32,
    pub url: String,
    pub name: String,
    pub private: bool,
    pub avatar_url: String,
    pub description: Option<String>,
    pub stars_count: u32,
    pub open_issues_count: u32,
    pub has_issues: bool,
    pub license: Option<String>,
}

#[derive(Debug, Clone)]
pub struct GithubIssue {
    pub id: u32,
    pub title: String,
    pub description: Option<String>,
    pub body: Option<String>,
    pub url: String,
    pub state: GithubIssueState,
    pub pull_request: Option<GithubPullRequest>,
}

#[derive(Debug, Clone)]
pub struct GithubPullRequest {
    pub url: String,
}

#[derive(Debug, Clone, Copy, PartialEq, Eq)]
pub enum GithubIssueState {
    Open,
    Close,
}

/// The page size asked of the upstream where the request names none.
pub const DEFAULT_PER_PAGE: u32 = 10;

/// The page asked of the upstream where the request names none.
pub const DEFAULT_PAGE: u32 = 1;

/// The value given, or the default where none is.
pub open spec fn or_default(value: Option<u32>, default: u32) -> u32 {
    match value {
        Some(v) => v,
        None => default,
    }
}

fn value_or(value: Option<u32>, default: u32) -> (r: u32)
    ensures
        r == or_default(value, default),
{
    match value {
        Some(v) => v,
        None => default,
    }
}

/// The query of a repository listing.
#[derive(Debug, Clone, Copy, PartialEq, Eq)]
pub struct GetGithubRepositoriesParams {
    pub per_page: Option<u32>,
    pub page: Option<u32>,
}

impl GetGithubRepositoriesParams {
    /// The page size to ask the upstream for.
    pub fn per_page_or_default(&self) -> (r: u32)
        ensures
            r == or_default(self.per_page, DEFAULT_PER_PAGE),
    {
        value_or(self.per_page, DEFAULT_PER_PAGE)
    }

    /// The page to ask the upstream for.
    pub fn page_or_default(&self) -> (r: u32)
        ensures
            r == or_default(self.page, DEFAULT_PAGE),
    {
        value_or(self.page, DEFAULT_PAGE)
    }
}

#[derive(Debug, Clone)]
pub struct GetGithubRepositoriesResponse {
    pub total_count: u32,
    pub items: Vec<GithubRepository>,
}

/// The query of a listing of a repository's good first issues.
#[derive(Debug, Clone)]
pub struct GetGithubRepositoryGoodFirstIssuesParams {
    pub owner: String,
    pub per_page: Option<u32>,
    pub page: Option<u32>,
}

impl GetGithubRepositoryGoodFirstIssuesParams {
    /// The page size to ask the upstream for.
    pub fn per_page_or_default(&self) -> (r: u32)
        ensures
            r == or_default(self.per_page, DEFAULT_PER_PAGE),
    {
        value_or(self.per_page, DEFAULT_PER_PAGE)
    }

    /// The page to ask the upstream for.
    pub fn page_or_default(&self) -> (r: u32)
        ensures
            r == or_default(self.page, DEFAULT_PAGE),
    {
        value_or(self.page, DEFAULT_PAGE)
    }
}

#[derive(Debug, Clone)]
pub struct GetGithubRepositoryGoodFirstIssuesPathParams {
    pub repo: String,
}

#[derive(Debug, Clone)]
pub struct GetGithubRepositoryGoodFirstIssuesResponse {
    pub items: Vec<GithubIssue>,
}

/// The service's form of a repository that the upstream described.
pub open spec fn repository_from_api(repo: GithubRepositoryAPI) -> GithubRepository {
    GithubRepository {
        id: repo.id,
        url: repo.html_url,
        name: repo.full_name,
        private: repo.private,
        avatar_url: repo.owner.avatar_url,
        description: repo.description,
        stars_count: repo.stargazers_count,
        open_issues_count: repo.open_issues_count,
        has_issues: repo.has_issues,
        license: match repo.license {
            Some(license) => Some(license.name),
            None => None,
        },
    }
}

/// The service's form of an issue that the upstream described.
pub open spec fn issue_from_api(issue: GithubIssueAPI) -> GithubIssue {
    GithubIssue {
        id: issue.id,
        title: issue.title,
        description: issue.description,
        body: issue.body,
        url: issue.html_url,
        state: issue.state,
        pull_request: match issue.pull_request {
            Some(pull_request) => Some(GithubPullRequest { url: pull_request.html_url }),
            None => None,
        },
    }
}

impl GithubRepository {
    pub fn from_api(repo: GithubRepositoryAPI) -> (r: GithubRepository)
        ensures
            r == repository_from_api(repo),
    {
        let license = match repo.license {
            Some(license) => Some(license.name),
            None => None,
        };
        GithubRepository {
            id: repo.id,
            url: repo.html_url,
            name: repo.full_name,
            private: repo.private,
            avatar_url: repo.owner.avatar_url,
            description: repo.description,
            stars_count: repo.stargazers_count,
            open_issues_count: repo.open_issues_count,
            has_issues: repo.has_issues,
            license,
        }
    }
}

impl GithubIssue {
    pub fn from_api(issue: GithubIssueAPI) -> (r: GithubIssue)
        ensures
            r == issue_from_api(issue),
    {
        let pull_request = match issue.pull_request {
            Some(pull_request) => Some(GithubPullRequest { url: pull_request.html_url }),
            None => None,
        };
        GithubIssue {
            id: issue.id,
            title: issue.title,
            description: issue.description,
            body: issue.body,
            url: issue.html_url,
            state: issue.state,
            pull_request,
        }
    }
}

impl GetGithubRepositoriesResponse {
    /// The listing that the service answers with for a page of search results:
    /// the same count, and each repository in the service's form, in order.
    pub fn from_api(page: SearchGithubRepositoriesResponseAPI) -> (r: GetGithubRepositoriesResponse)
        ensures
            r.total_count == page.total_count,
            r.items@ == page.items@.map_values(|repo: GithubRepositoryAPI| repository_from_api(repo)),
    {
        let ghost given = page.items@;
        let mut rest = page.items;
        let mut items: Vec<GithubRepository> = Vec::new();
        while rest.len() > 0
            invariant
                items@.len() + rest@.len() == given.len(),
                rest@ == given.skip(items@.len() as int),
                items@ == given.take(items@.len() as int).map_values(
                    |repo: GithubRepositoryAPI| repository_from_api(repo),
                ),
            decreases rest@.len(),
        {
            let ghost done = items@.len() as int;
            let repo = rest.remove(0);
            items.push(GithubRepository::from_api(repo));
            assert(given.take(done + 1) == given.take(done).push(given[done]));
            assert(rest@ == given.skip(done + 1));
            assert(items@ == given.take(done + 1).map_values(
                |repo: GithubRepositoryAPI| repository_from_api(repo),
            ));
        }
        assert(given.take(given.len() as int) == given);
        GetGithubRepositoriesResponse { total_count: page.total_count, items }
    }
}

impl GetGithubRepositoryGoodFirstIssuesResponse {
    /// The listing that the service answers with for the issues that the
    /// upstream listed: each issue in the service's form, in order.
    pub fn from_api(issues: Vec<GithubIssueAPI>) -> (r: GetGithubRepositoryGoodFirstIssuesResponse)
        ensures
            r.items@ == issues@.map_values(|issue: GithubIssueAPI| issue_from_api(issue)),
    {
        let ghost given = issues@;
        let mut rest = issues;
        let mut items: Vec<GithubIssue> = Vec::new();
        while rest.len() > 0
            invariant
                items@.len() + rest@.len() == given.len(),
                rest@ == given.skip(items@.len() as int),
                items@ == given.take(items@.len() as int).map_values(
                    |issue: GithubIssueAPI| issue_from_api(issue),
                ),
            decreases rest@.len(),
        {
            let ghost done = items@.len() as int;
            let issue = rest.remove(0);
            items.push(GithubIssue::from_api(issue));
            assert(given.take(done + 1) == given.take(done).push(given[done]));
            assert(rest@ == given.skip(done + 1));
            assert(items@ == given.take(done + 1).map_values(
                |issue: GithubIssueAPI| issue_from_api(issue),
            ));
        }
        assert(given.take(given.len() as int) == given);
        GetGithubRepositoryGoodFirstIssuesResponse { items }
    }
}

} // verus!
