//! GitLab: the merge request that `lon` opens, and where it sends it.

use vstd::prelude::*;

use crate::forge::{is_success, ForgeError};
use crate::git::{concat, owned, views};
use crate::text::{join, join_strings, split_char, split_on};

verus! {

/// A merge request as GitLab's API takes it.
pub struct MergeRequest {
    pub source_branch: String,
    pub target_branch: String,
    pub title: String,
    pub body: Option<String>,
    pub remove_source_branch: bool,
    pub allow_collaboration: bool,
    pub labels: String,
}

/// A GitLab project, as the CI environment and the user describe it.
pub struct GitLab {
    api_url: String,
    project_id: String,
    default_branch: String,
    labels: Vec<String>,
    token: String,
}

pub struct GitLabView {
    pub api_url: Seq<char>,
    pub project_id: Seq<char>,
    pub default_branch: Seq<char>,
    pub labels: Seq<Seq<char>>,
    pub token: Seq<char>,
}

impl View for GitLab {
    type V = GitLabView;

    closed spec fn view(&self) -> GitLabView {
        GitLabView {
            api_url: self.api_url@,
            project_id: self.project_id@,
            default_branch: self.default_branch@,
            labels: views(self.labels@),
            token: self.token@,
        }
    }
}

/// The text of an optional string.
pub open spec fn optional_view(s: Option<String>) -> Option<Seq<char>> {
    match s {
        Some(t) => Some(t@),
        None => None,
    }
}

/// The title of the request that updates the dependency `name`.
pub open spec fn update_title(name: Seq<char>) -> Seq<char> {
    "lon: update "@ + name
}

impl GitLab {
    /// A project from the values of `CI_API_V4_URL`, `CI_PROJECT_ID`,
    /// `CI_DEFAULT_BRANCH`, `LON_LABELS` (empty when unset, a comma-separated
    /// list) and `LON_TOKEN`.
    pub fn from_env(
        api_url: &str,
        project_id: &str,
        default_branch: &str,
        labels: &str,
        token: &str,
    ) -> (g: GitLab)
        ensures
            g@ == (GitLabView {
                api_url: api_url@,
                project_id: project_id@,
                default_branch: default_branch@,
                labels: split_on(labels@, ','),
                token: token@,
            }),
    {
        GitLab {
            api_url: owned(api_url),
            project_id: owned(project_id),
            default_branch: owned(default_branch),
            labels: split_char(labels, ','),
            token: owned(token),
        }
    }

    /// The API URL of the project.
    pub fn project_api_url(&self) -> (u: String)
        ensures
            u@ == self@.api_url + "/projects/"@ + self@.project_id,
    {
        let mut u = concat(self.api_url.as_str(), "/projects/");
        u.append(self.project_id.as_str());
        u
    }

    /// Where merge requests are opened.
    pub fn merge_requests_url(&self) -> (u: String)
        ensures
            u@ == self@.api_url + "/projects/"@ + self@.project_id + "/merge_requests"@,
    {
        let mut u = self.project_api_url();
        u.append("/merge_requests");
        u
    }

    /// The token that authenticates the requests.
    pub fn token(&self) -> (t: &str)
        ensures
            t@ == self@.token,
    {
        self.token.as_str()
    }

    /// The merge request that updates the dependency `name` from the branch
    /// `branch` into the default branch, with the project's labels.
    pub fn merge_request(&self, branch: &str, name: &str, body: Option<String>) -> (m: MergeRequest)
        ensures
            m.source_branch@ == branch@,
            m.target_branch@ == self@.default_branch,
            m.title@ == update_title(name@),
            optional_view(m.body) == optional_view(body),
            m.remove_source_branch,
            m.allow_collaboration,
            m.labels@ == join(self@.labels, ","@),
    {
        MergeRequest {
            source_branch: owned(branch),
            target_branch: self.default_branch.clone(),
            title: concat("lon: update ", name),
            body,
            remove_source_branch: true,
            allow_collaboration: true,
            labels: join_strings(&self.labels, ","),
        }
    }

    /// The error when GitLab answers the merge request at `url` with a
    /// status that is not a success.
    pub fn refused(url: &str, status: u16) -> (e: ForgeError)
        ensures
            e@ == (crate::forge::ForgeErrorView::Refused {
                action: "Failed to open Merge Request at "@,
                url: url@,
                status,
                body: None,
            }),
    {
        ForgeError::Refused {
            action: owned("Failed to open Merge Request at "),
            url: owned(url),
            status,
            body: None,
        }
    }
}

impl GitLab {
    /// Decides on GitLab's answer to the merge request: its status must be a
    /// success, and any other status ends the request with the refusal.
    pub fn answered(&self, status: u16) -> (r: Result<(), ForgeError>)
        ensures
            r is Ok <==> is_success(status),
            r matches Err(e) ==> e@ == (crate::forge::ForgeErrorView::Refused {
                action: "Failed to open Merge Request at "@,
                url: self@.api_url + "/projects/"@ + self@.project_id + "/merge_requests"@,
                status,
                body: None,
            }),
    {
        if crate::forge::status_is_success(status) {
            Ok(())
        } else {
            Err(GitLab::refused(self.merge_requests_url().as_str(), status))
        }
    }
}

/// The labels that a merge request carries are the value of `LON_LABELS`
/// as it was given.
pub proof fn law_labels_round_trip(labels: Seq<char>)
    ensures
        join(split_on(labels, ','), ","@) == labels,
{
    reveal_strlit(",");
    crate::text::law_join_split(labels, ',');
    assert(","@ == seq![',']);
}

} // verus!
