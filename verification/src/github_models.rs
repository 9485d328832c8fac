//! The records that the GitHub API returns and the webhook events it sends.

use vstd::prelude::*;

verus! {

/// GitHub repository.
#[derive(Clone, Debug)]
pub struct Repository {
    pub id: u64,
    pub name: String,
    pub full_name: String,
    pub owner: User,
    pub description: Option<String>,
    pub private: bool,
    pub default_branch: String,
    pub html_url: String,
}

#[derive(Clone, Debug)]
pub struct User {
    pub login: String,
    pub id: u64,
    pub avatar_url: String,
    pub html_url: String,
}

/// GitHub pull request.
#[derive(Clone, Debug)]
pub struct PullRequest {
    pub id: u64,
    pub number: u64,
    pub title: String,
    pub body: Option<String>,
    pub state: String,
    pub user: User,
    pub created_at: String,
    pub updated_at: String,
    pub merged_at: Option<String>,
    pub mergeable: Option<bool>,
    pub draft: bool,
    pub head: GitRef,
    pub base: GitRef,
    pub requested_reviewers: Vec<User>,
}

#[derive(Clone, Debug)]
pub struct GitRef {
    pub ref_: String,
    pub sha: String,
    pub repo: Repository,
}

/// GitHub issue.
#[derive(Clone, Debug)]
pub struct Issue {
    pub id: u64,
    pub number: u64,
    pub title: String,
    pub body: Option<String>,
    pub state: String,
    pub user: User,
    pub labels: Vec<Label>,
    pub created_at: String,
    pub updated_at: String,
    pub closed_at: Option<String>,
}

#[derive(Clone, Debug)]
pub struct Label {
    pub id: u64,
    pub name: String,
    pub color: String,
    pub description: Option<String>,
}

/// GitHub branch.
#[derive(Clone, Debug)]
pub struct Branch {
    pub name: String,
    pub commit: Commit,
    pub protected: bool,
}

#[derive(Clone, Debug)]
pub struct Commit {
    pub sha: String,
    pub html_url: String,
    pub message: String,
    pub author: Option<CommitAuthor>,
}

#[derive(Clone, Debug)]
pub struct CommitAuthor {
    pub name: String,
    pub email: String,
    pub date: String,
}

/// GitHub commit.
#[derive(Clone, Debug)]
pub struct GitCommit {
    pub sha: String,
    pub commit: Commit,
    pub html_url: String,
}

/// Pull request webhook events, told apart by their `action`.
#[derive(Clone, Debug)]
pub enum PullRequestEvent {
    Opened { pull_request: PullRequest, repository: Repository },
    Closed { pull_request: PullRequest, merged: bool, repository: Repository },
    Synchronize { pull_request: PullRequest, repository: Repository },
    ReviewRequested { pull_request: PullRequest, requested_reviewer: User, repository: Repository },
}

/// Issue webhook events, told apart by their `action`.
#[derive(Clone, Debug)]
pub enum IssueEvent {
    Opened { issue: Issue, repository: Repository },
    Closed { issue: Issue, repository: Repository },
    Reopened { issue: Issue, repository: Repository },
    Labeled { issue: Issue, label: Label, repository: Repository },
}

/// Push webhook event.
#[derive(Clone, Debug)]
pub struct PushEvent {
    pub ref_: String,
    pub before: String,
    pub after: String,
    pub repository: Repository,
    pub pusher: Pusher,
    pub commits: Vec<Commit>,
}

#[derive(Clone, Debug)]
pub struct Pusher {
    pub name: String,
    pub email: String,
}

/// The fields of a webhook payload that the handlers read.
#[derive(Clone, Debug)]
pub struct WebhookPayload {
    pub action: Option<String>,
    pub repository: Option<Repository>,
    pub pull_request: Option<PullRequest>,
    pub issue: Option<Issue>,
    pub ref_: Option<String>,
}

} // verus!
