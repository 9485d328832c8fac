//! The records that the Azure DevOps API returns.

use vstd::prelude::*;

verus! {

/// Azure DevOps project.
#[derive(Clone, Debug)]
pub struct Project {
    pub id: String,
    pub name: String,
    pub description: Option<String>,
    pub url: String,
    pub state: String,
}

/// Azure DevOps sprint (iteration).
#[derive(Clone, Debug)]
pub struct Sprint {
    pub id: String,
    pub name: String,
    pub path: String,
    pub start_date: Option<String>,
    pub finish_date: Option<String>,
    pub attributes: SprintAttributes,
}

#[derive(Clone, Debug)]
pub struct SprintAttributes {
    pub start_date: Option<String>,
    pub finish_date: Option<String>,
    pub time_frame: Option<String>,
}

/// Azure DevOps build.
#[derive(Clone, Debug)]
pub struct Build {
    pub id: u64,
    pub build_number: String,
    pub status: String,
    pub result: Option<String>,
    pub definition: BuildDefinitionRef,
    pub queue_time: String,
    pub start_time: Option<String>,
    pub finish_time: Option<String>,
    pub url: String,
}

#[derive(Clone, Debug)]
pub struct BuildDefinitionRef {
    pub id: u64,
    pub name: String,
    pub url: String,
}

/// Azure DevOps release.
#[derive(Clone, Debug)]
pub struct Release {
    pub id: u64,
    pub name: String,
    pub status: String,
    pub created_on: String,
    pub modified_on: String,
    pub environments: Vec<ReleaseEnvironment>,
}

#[derive(Clone, Debug)]
pub struct ReleaseEnvironment {
    pub id: u64,
    pub name: String,
    pub status: String,
}

/// Azure DevOps Git repository.
#[derive(Clone, Debug)]
pub struct Repository {
    pub id: String,
    pub name: String,
    pub url: String,
    pub remote_url: Option<String>,
    pub project: Option<ProjectRef>,
    pub default_branch: Option<String>,
}

#[derive(Clone, Debug)]
pub struct ProjectRef {
    pub id: String,
    pub name: String,
}

/// Azure DevOps pull request.
#[derive(Clone, Debug)]
pub struct PullRequest {
    pub pull_request_id: u64,
    pub title: String,
    pub description: Option<String>,
    pub status: String,
    pub created_by: IdentityRef,
    pub creation_date: String,
    pub source_branch: String,
    pub target_branch: String,
    pub merge_status: String,
    pub url: String,
}

#[derive(Clone, Debug)]
pub struct IdentityRef {
    pub display_name: Option<String>,
    pub unique_name: Option<String>,
    pub url: String,
}

/// Azure DevOps task board.
#[derive(Clone, Debug)]
pub struct Board {
    pub id: String,
    pub name: String,
    pub url: String,
    pub columns: Vec<BoardColumn>,
}

#[derive(Clone, Debug)]
pub struct BoardColumn {
    pub id: String,
    pub name: String,
    pub order: u64,
}

} // verus!
