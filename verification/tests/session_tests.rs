use lon::git::{CommandOutput, GitError, User};
use lon::session::{format_history, GitAnswer, GitSession, GitStep, GitTask};

fn ok(stdout: &[u8]) -> CommandOutput {
    CommandOutput { success: true, code: Some(0), stdout: stdout.to_vec(), stderr: Vec::new() }
}

fn failed(stderr: &[u8]) -> CommandOutput {
    CommandOutput { success: false, code: Some(1), stdout: Vec::new(), stderr: stderr.to_vec() }
}

fn run_args(step: GitStep) -> Vec<String> {
    match step {
        GitStep::Run(c) => c.args,
        GitStep::Finished(_) => panic!("expected a command"),
    }
}

fn finished(step: GitStep) -> Result<GitAnswer, GitError> {
    match step {
        GitStep::Run(c) => panic!("expected the end, got {:?}", c.args),
        GitStep::Finished(r) => r,
    }
}

fn last_modified() -> GitTask {
    GitTask::LastModified { url: "https://example.org/r".to_string(), revision: "abc".to_string() }
}

#[test]
fn last_modified_commands_and_result() {
    let (mut s, first) = GitSession::start(last_modified(), "/tmp/g");
    assert_eq!(first.args, vec!["--git-dir", "/tmp/g", "init"]);
    assert_eq!(first.spawn_failure, "Failed to execute git init. Most likely it's not on PATH");
    assert_eq!(
        run_args(s.advance(&ok(b""))),
        vec!["--git-dir", "/tmp/g", "remote", "add", "origin", "https://example.org/r"]
    );
    assert_eq!(
        run_args(s.advance(&ok(b""))),
        vec!["--git-dir", "/tmp/g", "fetch", "--depth=1", "--no-show-forced-updates", "origin", "abc"]
    );
    assert_eq!(
        run_args(s.advance(&ok(b""))),
        vec!["--git-dir", "/tmp/g", "log", "-1", "--format=%ct", "--no-show-signature", "abc"]
    );
    match finished(s.advance(&ok(b"1700000000\n"))) {
        Ok(GitAnswer::Timestamp(t)) => assert_eq!(t, 1700000000),
        _ => panic!("expected a timestamp"),
    }
}

#[test]
fn last_modified_unparsable() {
    let (mut s, _) = GitSession::start(last_modified(), "g");
    for _ in 0..3 {
        run_args(s.advance(&ok(b"")));
    }
    let e = finished(s.advance(&ok(b"yesterday\n"))).err().unwrap();
    assert!(matches!(e, GitError::TimestampUnparsable));
    assert_eq!(e.message(), "Failed to parse last modified timestamp.");
}

#[test]
fn last_modified_failures() {
    let (mut s, _) = GitSession::start(last_modified(), "g");
    let e = finished(s.advance(&failed(b"no space"))).err().unwrap();
    assert_eq!(e.message(), "Failed to initialize a fresh git repository\nno space");

    let (mut s, _) = GitSession::start(last_modified(), "g");
    run_args(s.advance(&ok(b"")));
    let e = finished(s.advance(&failed(b"bad url\n"))).err().unwrap();
    assert_eq!(e.message(), "Failed to add the remote https://example.org/r\nbad url\n");

    let (mut s, _) = GitSession::start(last_modified(), "g");
    run_args(s.advance(&ok(b"")));
    run_args(s.advance(&ok(b"")));
    let e = finished(s.advance(&failed(b"not our ref"))).err().unwrap();
    assert_eq!(e.message(), "Failed to fetch the revision abc\nnot our ref");
    let (mut s, _) = GitSession::start(last_modified(), "g");
    for _ in 0..3 {
        run_args(s.advance(&ok(b"")));
    }
    let e = finished(s.advance(&failed(b"x"))).err().unwrap();
    assert_eq!(e.message(), "Failed to log the revision abc\nx");
}

fn diff_history() -> GitTask {
    GitTask::DiffHistory {
        url: "u".to_string(),
        old_revision: "old".to_string(),
        new_revision: "new".to_string(),
        num_commits: 50,
    }
}

#[test]
fn diff_history_commands_and_result() {
    let (mut s, first) = GitSession::start(diff_history(), "d");
    assert_eq!(first.args, vec!["--git-dir", "d", "init"]);
    run_args(s.advance(&ok(b"")));
    assert_eq!(
        run_args(s.advance(&ok(b""))),
        vec!["--git-dir", "d", "fetch", "--depth=1", "--no-show-forced-updates", "origin", "old"]
    );
    assert_eq!(
        run_args(s.advance(&ok(b""))),
        vec![
            "--git-dir",
            "d",
            "fetch",
            "--no-show-forced-updates",
            "--negotiation-tip",
            "old",
            "origin",
            "new",
            "--depth=50"
        ]
    );
    assert_eq!(run_args(s.advance(&ok(b""))), vec!["--git-dir", "d", "rev-list", "--oneline", "old..new"]);
    match finished(s.advance(&ok(b"aaa first\nbbb second\n"))) {
        Ok(GitAnswer::History(h)) => assert_eq!(h, "  aaa first\n  bbb second"),
        _ => panic!("expected a history"),
    }
}

#[test]
fn diff_history_failure_and_text_step() {
    let (mut s, _) = GitSession::start(diff_history(), "d");
    for _ in 0..3 {
        run_args(s.advance(&ok(b"")));
    }
    let e = finished(s.advance(&failed(b"shallow"))).err().unwrap();
    assert_eq!(e.message(), "Failed to fetch the revision new\nshallow");

    let (mut s, _) = GitSession::start(diff_history(), "d");
    for _ in 0..4 {
        run_args(s.advance(&ok(b"")));
    }
    let e = finished(s.advance(&failed(b"bad range"))).err().unwrap();
    assert_eq!(e.message(), "Failed to list the history for old..new\nbad range");

    let (mut s, _) = GitSession::start(diff_history(), "d");
    for _ in 0..4 {
        assert!(!s.expects_text());
        run_args(s.advance(&ok(b"")));
    }
    assert!(s.expects_text());
    let (s, _) = GitSession::start(GitTask::CurrentRev, "r");
    assert!(!s.expects_text());
}

#[test]
fn format_history_indents_lines() {
    assert_eq!(format_history(""), "");
    assert_eq!(format_history("a\r\nb"), "  a\n  b");
    assert_eq!(format_history("one\n\ntwo\n"), "  one\n  \n  two");
}

#[test]
fn add_commit_checkout_push() {
    let (mut s, c) = GitSession::start(
        GitTask::Add { paths: vec!["a.nix".to_string(), "lon.lock".to_string()] },
        "/repo",
    );
    assert_eq!(c.args, vec!["-C", "/repo", "add", "a.nix", "lon.lock"]);
    assert!(matches!(finished(s.advance(&ok(b""))), Ok(GitAnswer::Done)));
    let e = finished(s.advance(&failed(b"nope"))).err().unwrap();
    assert_eq!(e.message(), "Failed to add files to git statging\nnope");

    let user = User::new("LonBot", "lonbot@example.org");
    let (mut s, c) = GitSession::start(
        GitTask::Commit { message: "lon: update x".to_string(), user: Some(user) },
        "/repo",
    );
    assert_eq!(
        c.args,
        vec![
            "-C",
            "/repo",
            "-c",
            "user.name=LonBot",
            "-c",
            "user.email=lonbot@example.org",
            "commit",
            "--message",
            "lon: update x"
        ]
    );
    assert_eq!(finished(s.advance(&failed(b"nothing"))).err().unwrap().message(), "Failed to commit files\nnothing");
    let (_, c) = GitSession::start(GitTask::Commit { message: "m".to_string(), user: None }, "r");
    assert_eq!(c.args, vec!["-C", "r", "commit", "--message", "m"]);

    let (mut s, c) = GitSession::start(
        GitTask::Checkout { reference: "lon/x".to_string(), create_or_reset: true },
        "r",
    );
    assert_eq!(c.args, vec!["-C", "r", "checkout", "-B", "lon/x"]);
    assert_eq!(
        finished(s.advance(&failed(b"conflict"))).err().unwrap().message(),
        "Failed to checkout ref lon/x \nconflict"
    );
    let (_, c) = GitSession::start(GitTask::Checkout { reference: "main".to_string(), create_or_reset: false }, "r");
    assert_eq!(c.args, vec!["-C", "r", "checkout", "main"]);

    let (mut s, c) = GitSession::start(GitTask::ForcePush { url: None, branch: "lon/x".to_string() }, "r");
    assert_eq!(c.args, vec!["-C", "r", "push", "--force", "origin", "lon/x"]);
    assert_eq!(
        finished(s.advance(&failed(b"denied"))).err().unwrap().message(),
        "Failed to force push current branch \ndenied"
    );
    let (_, c) = GitSession::start(
        GitTask::ForcePush { url: Some("https://t@example.org/r".to_string()), branch: "b".to_string() },
        "r",
    );
    assert_eq!(c.args, vec!["-C", "r", "push", "--force", "https://t@example.org/r", "b"]);
}

#[test]
fn current_rev_on_branch_and_detached() {
    let (mut s, c) = GitSession::start(GitTask::CurrentRev, "r");
    assert_eq!(c.args, vec!["-C", "r", "symbolic-ref", "--short", "HEAD"]);
    match finished(s.advance(&ok(b"main\n"))) {
        Ok(GitAnswer::Rev(r)) => assert_eq!(r, "main"),
        _ => panic!("expected a branch"),
    }

    let (mut s, _) = GitSession::start(GitTask::CurrentRev, "r");
    let next = s.advance(&failed(b"fatal: ref HEAD is not a symbolic ref"));
    assert_eq!(run_args(next), vec!["-C", "r", "rev-parse", "HEAD"]);
    match finished(s.advance(&ok(b"0123abcd \n"))) {
        Ok(GitAnswer::Rev(r)) => assert_eq!(r, "0123abcd"),
        _ => panic!("expected a commit"),
    }

    let (mut s, _) = GitSession::start(GitTask::CurrentRev, "r");
    run_args(s.advance(&failed(b"")));
    let e = finished(s.advance(&failed(b"not a repo"))).err().unwrap();
    assert_eq!(e.message(), "Failed to find current commit \nnot a repo");
}
