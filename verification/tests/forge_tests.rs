use lon::forge::{authorization_header, status_is_success, status_string, ForgeError};
use lon::github::{ForgeRequest, GitHub, PullRequestFlow};
use lon::gitlab::GitLab;

#[test]
fn success_statuses() {
    assert!(status_is_success(200));
    assert!(status_is_success(201));
    assert!(status_is_success(299));
    assert!(!status_is_success(199));
    assert!(!status_is_success(300));
    assert!(!status_is_success(404));
}

#[test]
fn statuses_display_with_reason() {
    assert_eq!(status_string(404), "404 Not Found");
    assert_eq!(status_string(201), "201 Created");
    assert_eq!(status_string(599), "599 <unknown status code>");
    assert_eq!(status_string(422), reqwest::StatusCode::from_u16(422).unwrap().to_string());
}

#[test]
fn authorization_header_checks_token() {
    let v = authorization_header("ghp_abc123").ok().unwrap();
    assert_eq!(v.value().to_str().unwrap(), "Bearer ghp_abc123");
    assert_eq!(v.bytes(), b"Bearer ghp_abc123");
    let v = authorization_header("tök\tn").ok().unwrap();
    assert_eq!(v.bytes(), "Bearer tök\tn".as_bytes());
    assert_eq!(v.value().as_bytes(), "Bearer tök\tn".as_bytes());
    let e = authorization_header("bad\ntoken").err().unwrap();
    assert!(matches!(e, ForgeError::InvalidToken));
    assert_eq!(e.message(), "Failed to parse token as header value");
    assert!(authorization_header("del\u{7f}").is_err());
}

#[test]
fn gitlab_merge_request() {
    let g = GitLab::from_env("https://gitlab.example.org/api/v4", "42", "main", "deps,bot", "tok");
    assert_eq!(g.project_api_url(), "https://gitlab.example.org/api/v4/projects/42");
    assert_eq!(g.merge_requests_url(), "https://gitlab.example.org/api/v4/projects/42/merge_requests");
    assert_eq!(g.token(), "tok");
    let m = g.merge_request("lon/nixpkgs", "nixpkgs", Some("body".to_string()));
    assert_eq!(m.source_branch, "lon/nixpkgs");
    assert_eq!(m.target_branch, "main");
    assert_eq!(m.title, "lon: update nixpkgs");
    assert_eq!(m.body.as_deref(), Some("body"));
    assert!(m.remove_source_branch);
    assert!(m.allow_collaboration);
    assert_eq!(m.labels, "deps,bot");
    let e = GitLab::refused("https://x/merge_requests", 403);
    assert_eq!(e.message(), "Failed to open Merge Request at https://x/merge_requests: 403 Forbidden");
    assert!(g.answered(201).is_ok());
    let e = g.answered(403).err().unwrap();
    assert_eq!(
        e.message(),
        "Failed to open Merge Request at https://gitlab.example.org/api/v4/projects/42/merge_requests: 403 Forbidden"
    );
}

#[test]
fn gitlab_labels_round_trip() {
    for labels in ["", "a", "a,,b", ","] {
        let g = GitLab::from_env("u", "1", "main", labels, "t");
        assert_eq!(g.merge_request("b", "n", None).labels, labels);
    }
}

fn github() -> GitHub {
    GitHub::from_env("tok", Some("https://api.github.com"), Some("nikstur/lon"), "deps,bot").ok().unwrap()
}

#[test]
fn github_from_env() {
    let g = github();
    assert_eq!(g.repo_api_url(), "https://api.github.com/repos/nikstur/lon");
    assert_eq!(g.authorization().bytes(), b"Bearer tok");
    assert_eq!(g.authorization().value().to_str().unwrap(), "Bearer tok");
    assert_eq!(
        g.headers(),
        vec![("accept", "application/vnd.github+json"), ("x-github-api-version", "2022-11-28")]
    );
    assert_eq!(g.user_agent(), "LonBot");
    for (name, value) in g.headers() {
        reqwest::header::HeaderName::from_static(name);
        reqwest::header::HeaderValue::from_static(value);
    }
    // The token is checked first, then the variables in turn.
    let e = GitHub::from_env("bad\ntoken", None, None, "").err().unwrap();
    assert_eq!(e.message(), "Failed to parse token as header value");
    let e = GitHub::from_env("tok", None, None, "").err().unwrap();
    assert_eq!(e.message(), "Failed to read the environment variable GITHUB_API_URL");
    let e = GitHub::from_env("tok", Some("u"), None, "").err().unwrap();
    assert_eq!(e.message(), "Failed to read the environment variable GITHUB_REPOSITORY");
}

#[test]
fn github_pull_request_flow() {
    let g = github();
    let (mut flow, first) = PullRequestFlow::start(&g, "lon/nixpkgs", "nixpkgs", None);
    match first {
        ForgeRequest::GetRepository { url } => assert_eq!(url, "https://api.github.com/repos/nikstur/lon"),
        _ => panic!("expected the repository to be read first"),
    }
    assert!(flow.answered(200));
    match flow.repository_found("master") {
        ForgeRequest::OpenPullRequest { url, request } => {
            assert_eq!(url, "https://api.github.com/repos/nikstur/lon/pulls");
            assert_eq!(request.head, "lon/nixpkgs");
            assert_eq!(request.base, "master");
            assert_eq!(request.title, "lon: update nixpkgs");
            assert!(request.body.is_none());
            assert!(request.maintainer_can_modify);
        }
        _ => panic!("expected the pull request to be opened"),
    }
    assert!(flow.answered(201));
    match flow.pull_request_opened("https://github.com/nikstur/lon/pull/7", 7) {
        ForgeRequest::AddLabels { url, labels } => {
            assert_eq!(url, "https://api.github.com/repos/nikstur/lon/issues/7/labels");
            assert_eq!(labels.labels, vec!["deps", "bot"]);
        }
        _ => panic!("expected the labels to be added"),
    }
    assert!(flow.answered(200));
    assert_eq!(flow.labels_added(), "https://github.com/nikstur/lon/pull/7");
}

#[test]
fn github_refusals() {
    let g = github();
    let (mut flow, _) = PullRequestFlow::start(&g, "b", "n", None);
    assert!(!flow.answered(404));
    assert_eq!(
        flow.refused("{}").message(),
        "Failed to get repository information from https://api.github.com/repos/nikstur/lon: 404 Not Found:\n{}"
    );

    let (mut flow, _) = PullRequestFlow::start(&g, "b", "n", Some("body".to_string()));
    assert!(flow.answered(200));
    flow.repository_found("main");
    assert!(!flow.answered(422));
    assert_eq!(
        flow.refused("invalid").message(),
        "Failed to open Pull Request at https://api.github.com/repos/nikstur/lon/pulls: 422 Unprocessable Entity:\ninvalid"
    );

    let (mut flow, _) = PullRequestFlow::start(&g, "b", "n", None);
    assert!(flow.answered(200));
    flow.repository_found("main");
    assert!(flow.answered(201));
    flow.pull_request_opened("h", -3);
    assert!(!flow.answered(500));
    assert_eq!(
        flow.refused("").message(),
        "Failed to add labels to https://api.github.com/repos/nikstur/lon/issues/-3/labels: 500 Internal Server Error:\n"
    );
}
