//! GitHub: the requests that open a pull request and label it, in order.

use vstd::prelude::*;

use crate::forge::{authorization_header, is_success, ForgeError, ForgeErrorView};
use crate::header::HeaderText;
#[allow(unused_imports)]
use vstd::utf8::encode_utf8;
use crate::git::{concat, owned, views};
use crate::gitlab::{optional_view, update_title};
use crate::text::{signed_decimal, signed_decimal_string, split_char, split_on};

verus! {

/// A pull request as GitHub's API takes it.
pub struct PullRequest {
    pub head: String,
    pub base: String,
    pub title: String,
    pub body: Option<String>,
    pub maintainer_can_modify: bool,
}

/// The labels to add to an issue or pull request.
pub struct Labels {
    pub labels: Vec<String>,
}

/// A GitHub repository, as the CI environment and the user describe it,
/// with the authorization its requests carry.
pub struct GitHub {
    api_url: String,
    repository: String,
    labels: Vec<String>,
    authorization: HeaderText,
}

pub struct GitHubView {
    pub api_url: Seq<char>,
    pub repository: Seq<char>,
    pub labels: Seq<Seq<char>>,
    /// The bytes of the `Authorization` header value.
    pub authorization: Seq<u8>,
}

impl View for GitHub {
    type V = GitHubView;

    closed spec fn view(&self) -> GitHubView {
        GitHubView {
            api_url: self.api_url@,
            repository: self.repository@,
            labels: views(self.labels@),
            authorization: self.authorization.held(),
        }
    }
}

/// The API URL of the repository.
pub open spec fn repo_api_url(g: GitHubView) -> Seq<char> {
    g.api_url + "/repos/"@ + g.repository
}

/// The headers that every request to GitHub carries besides the
/// authorization: the media type and the API version.
pub open spec fn github_fixed_headers() -> Seq<(Seq<char>, Seq<char>)> {
    seq![
        ("accept"@, "application/vnd.github+json"@),
        ("x-github-api-version"@, "2022-11-28"@),
    ]
}

/// The text of an optional string slice.
pub open spec fn optional_str(s: Option<&str>) -> Option<Seq<char>> {
    match s {
        Some(t) => Some(t@),
        None => None,
    }
}

/// What `GitHub::from_env` gives from `LON_TOKEN`, `GITHUB_API_URL`,
/// `GITHUB_REPOSITORY` (each `None` when unset) and `LON_LABELS`: the
/// token is checked first, then the two variables in turn.
pub open spec fn github_from_env(
    token: Seq<char>,
    api_url: Option<Seq<char>>,
    repository: Option<Seq<char>>,
    labels: Seq<char>,
) -> Result<GitHubView, ForgeErrorView> {
    if !crate::forge::header_text_valid("Bearer "@ + token) {
        Err(ForgeErrorView::InvalidToken)
    } else if api_url is None {
        Err(ForgeErrorView::MissingVariable { name: "GITHUB_API_URL"@ })
    } else if repository is None {
        Err(ForgeErrorView::MissingVariable { name: "GITHUB_REPOSITORY"@ })
    } else {
        Ok(
            GitHubView {
                api_url: api_url->0,
                repository: repository->0,
                labels: split_on(labels, ','),
                authorization: encode_utf8("Bearer "@ + token),
            },
        )
    }
}

impl GitHub {
    /// A repository from the value of `LON_TOKEN`, the values of
    /// `GITHUB_API_URL` and `GITHUB_REPOSITORY` (`None` when unset), and
    /// that of `LON_LABELS` (empty when unset, a comma-separated list). Its
    /// requests carry `Authorization: Bearer {token}`.
    pub fn from_env(
        token: &str,
        api_url: Option<&str>,
        repository: Option<&str>,
        labels: &str,
    ) -> (r: Result<GitHub, ForgeError>)
        ensures
            match (r, github_from_env(token@, optional_str(api_url), optional_str(repository), labels@)) {
                (Ok(g), Ok(v)) => g@ == v,
                (Err(e), Err(f)) => e@ == f,
                _ => false,
            },
    {
        let authorization = match authorization_header(token) {
            Ok(h) => h,
            Err(e) => return Err(e),
        };
        let api_url = match api_url {
            Some(u) => u,
            None => return Err(ForgeError::MissingVariable { name: owned("GITHUB_API_URL") }),
        };
        let repository = match repository {
            Some(r) => r,
            None => return Err(ForgeError::MissingVariable { name: owned("GITHUB_REPOSITORY") }),
        };
        Ok(
            GitHub {
                api_url: owned(api_url),
                repository: owned(repository),
                labels: split_char(labels, ','),
                authorization,
            },
        )
    }

    /// The API URL of the repository.
    pub fn repo_api_url(&self) -> (u: String)
        ensures
            u@ == repo_api_url(self@),
    {
        let mut u = concat(self.api_url.as_str(), "/repos/");
        u.append(self.repository.as_str());
        u
    }

    /// The value of the `Authorization` header that every request carries.
    pub fn authorization(&self) -> (h: &HeaderText)
        ensures
            h.held() == self@.authorization,
    {
        &self.authorization
    }

    /// The other headers that every request carries, as name and value.
    pub fn headers(&self) -> (h: Vec<(&'static str, &'static str)>)
        ensures
            h@.map_values(|p: (&'static str, &'static str)| (p.0@, p.1@)) == github_fixed_headers(),
    {
        let h = vec![("accept", "application/vnd.github+json"), ("x-github-api-version", "2022-11-28")];
        assert(h@.map_values(|p: (&'static str, &'static str)| (p.0@, p.1@)) =~= github_fixed_headers());
        h
    }

    /// The user agent that every request names.
    pub fn user_agent(&self) -> (a: &'static str)
        ensures
            a@ == "LonBot"@,
    {
        "LonBot"
    }
}

/// A request to send to GitHub.
pub enum ForgeRequest {
    /// Read the repository, for its default branch.
    GetRepository { url: String },
    /// Open the pull request.
    OpenPullRequest { url: String, request: PullRequest },
    /// Label the pull request.
    AddLabels { url: String, labels: Labels },
}

fn clone_optional(o: &Option<String>) -> (r: Option<String>)
    ensures
        optional_view(r) == optional_view(*o),
{
    match o {
        Some(s) => Some(s.clone()),
        None => None,
    }
}

/// The refusal text of the request at each stage.
pub open spec fn refusal_action(stage: int) -> Seq<char> {
    if stage == 0 {
        "Failed to get repository information from "@
    } else if stage == 1 {
        "Failed to open Pull Request at "@
    } else {
        "Failed to add labels to "@
    }
}

/// Opening a pull request on GitHub: read the repository's default branch,
/// open the pull request into it, then label the pull request. After each
/// request its answer's status decides: a success lets the flow go on, any
/// other status ends it with the refusal.
pub struct PullRequestFlow {
    repo_url: String,
    branch: String,
    name: String,
    body: Option<String>,
    labels: Vec<String>,
    stage: u8,
    current_url: String,
    answer: Option<u16>,
    html_url: String,
}

impl PullRequestFlow {
    #[verifier::type_invariant]
    spec fn well_formed(self) -> bool {
        &&& self.stage <= 2
        &&& self.answer matches Some(s) ==> 100 <= s <= 999
    }

    /// Which request is under way: 0 reads the repository, 1 opens the pull
    /// request, 2 labels it.
    pub closed spec fn stage(self) -> int {
        self.stage as int
    }

    /// The API URL of the repository.
    pub closed spec fn repo_url(self) -> Seq<char> {
        self.repo_url@
    }

    /// Where the current request is sent.
    pub closed spec fn current_url(self) -> Seq<char> {
        self.current_url@
    }

    /// The status the current request was answered with, once it is.
    pub closed spec fn answer(self) -> Option<u16> {
        self.answer
    }

    /// Whether the current request was answered with a success.
    pub open spec fn accepted(self) -> bool {
        self.answer() matches Some(s) && is_success(s)
    }

    /// Whether the current request was answered with another status.
    pub open spec fn refused_now(self) -> bool {
        self.answer() matches Some(s) && !is_success(s)
    }

    /// The URL of the pull request, once it is opened.
    pub closed spec fn html_url(self) -> Seq<char> {
        self.html_url@
    }

    /// What is asked for: branch, dependency name, body, labels.
    pub closed spec fn asked(self) -> (Seq<char>, Seq<char>, Option<Seq<char>>, Seq<Seq<char>>) {
        (self.branch@, self.name@, optional_view(self.body), views(self.labels@))
    }

    /// Starts opening a pull request from `branch` for the dependency
    /// `name`; the first request reads the repository.
    pub fn start(github: &GitHub, branch: &str, name: &str, body: Option<String>) -> (r: (
        PullRequestFlow,
        ForgeRequest,
    ))
        ensures
            r.0.stage() == 0,
            r.0.answer() is None,
            r.0.repo_url() == repo_api_url(github@),
            r.0.current_url() == repo_api_url(github@),
            r.0.asked() == (branch@, name@, optional_view(body), github@.labels),
            r.1 matches ForgeRequest::GetRepository { url } && url@ == repo_api_url(github@),
    {
        let repo_url = github.repo_api_url();
        let request = ForgeRequest::GetRepository { url: repo_url.clone() };
        let flow = PullRequestFlow {
            current_url: repo_url.clone(),
            repo_url,
            branch: owned(branch),
            name: owned(name),
            body,
            labels: github.labels.clone(),
            stage: 0,
            answer: None,
            html_url: String::new(),
        };
        proof {
            assert(views(flow.labels@) =~= github@.labels);
        }
        (flow, request)
    }

    /// The current request was answered with `status`: whether it was
    /// accepted. When it was not, the only way on is `refused`.
    pub fn answered(&mut self, status: u16) -> (accepted: bool)
        requires
            old(self).answer() is None,
            100 <= status <= 999,
        ensures
            accepted == is_success(status),
            final(self).answer() == Some(status),
            final(self).stage() == old(self).stage(),
            final(self).repo_url() == old(self).repo_url(),
            final(self).current_url() == old(self).current_url(),
            final(self).asked() == old(self).asked(),
            final(self).html_url() == old(self).html_url(),
    {
        proof {
            use_type_invariant(&*self);
        }
        self.answer = Some(status);
        crate::forge::status_is_success(status)
    }

    /// The error that ends the flow when the current request was refused,
    /// with `text` the body of the answer.
    pub fn refused(&self, text: &str) -> (e: ForgeError)
        requires
            self.refused_now(),
        ensures
            e@ == (ForgeErrorView::Refused {
                action: refusal_action(self.stage()),
                url: self.current_url(),
                status: self.answer()->0,
                body: Some(text@),
            }),
    {
        proof {
            use_type_invariant(self);
        }
        let action = if self.stage == 0 {
            owned("Failed to get repository information from ")
        } else if self.stage == 1 {
            owned("Failed to open Pull Request at ")
        } else {
            owned("Failed to add labels to ")
        };
        let status = match self.answer {
            Some(s) => s,
            None => vstd::pervasive::unreached(),
        };
        ForgeError::Refused {
            action,
            url: self.current_url.clone(),
            status,
            body: Some(owned(text)),
        }
    }

    /// The repository was read, after an accepted answer: open the pull
    /// request into its default branch.
    pub fn repository_found(&mut self, default_branch: &str) -> (r: ForgeRequest)
        requires
            old(self).stage() == 0,
            old(self).accepted(),
        ensures
            final(self).stage() == 1,
            final(self).answer() is None,
            final(self).repo_url() == old(self).repo_url(),
            final(self).current_url() == old(self).repo_url() + "/pulls"@,
            final(self).asked() == old(self).asked(),
            r matches ForgeRequest::OpenPullRequest { url, request } && {
                &&& url@ == old(self).repo_url() + "/pulls"@
                &&& request.head@ == old(self).asked().0
                &&& request.base@ == default_branch@
                &&& request.title@ == update_title(old(self).asked().1)
                &&& optional_view(request.body) == old(self).asked().2
                &&& request.maintainer_can_modify
            },
    {
        let request = PullRequest {
            head: self.branch.clone(),
            base: owned(default_branch),
            title: concat("lon: update ", self.name.as_str()),
            body: clone_optional(&self.body),
            maintainer_can_modify: true,
        };
        let url = concat(self.repo_url.as_str(), "/pulls");
        self.stage = 1;
        self.answer = None;
        self.current_url = url.clone();
        ForgeRequest::OpenPullRequest { url, request }
    }

    /// The pull request was opened, after an accepted answer, as number
    /// `number` at `html_url`: label it.
    pub fn pull_request_opened(&mut self, html_url: &str, number: i64) -> (r: ForgeRequest)
        requires
            old(self).stage() == 1,
            old(self).accepted(),
        ensures
            final(self).stage() == 2,
            final(self).answer() is None,
            final(self).repo_url() == old(self).repo_url(),
            final(self).asked() == old(self).asked(),
            final(self).html_url() == html_url@,
            final(self).current_url() == old(self).repo_url() + "/issues/"@ + signed_decimal(
                number as int,
            ) + "/labels"@,
            r matches ForgeRequest::AddLabels { url, labels } && {
                &&& url@ == old(self).repo_url() + "/issues/"@ + signed_decimal(number as int)
                    + "/labels"@
                &&& views(labels.labels@) == old(self).asked().3
            },
    {
        let mut url = concat(self.repo_url.as_str(), "/issues/");
        url.append(signed_decimal_string(number).as_str());
        url.append("/labels");
        let labels = Labels { labels: self.labels.clone() };
        proof {
            assert(views(labels.labels@) =~= views(self.labels@));
        }
        self.stage = 2;
        self.answer = None;
        self.current_url = url.clone();
        self.html_url = owned(html_url);
        ForgeRequest::AddLabels { url, labels }
    }

    /// The pull request was labelled, after an accepted answer: the result
    /// is its URL.
    pub fn labels_added(&self) -> (u: String)
        requires
            self.stage() == 2,
            self.accepted(),
        ensures
            u@ == self.html_url(),
    {
        self.html_url.clone()
    }
}

/// A refused answer ends the flow: once the current request was refused,
/// no step that sends a further request or gives the pull request's URL
/// can be taken, and the refusal is what remains.
pub proof fn law_refusal_ends_flow(flow: PullRequestFlow)
    ensures
        flow.refused_now() ==> !flow.accepted(),
{
}

} // verus!
