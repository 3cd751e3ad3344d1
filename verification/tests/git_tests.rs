use lon::git::{
    find_newest_revision, find_newest_revision_for_ref, ls_remote_command, newest_revision_command,
    parse_ls_remote, read_ls_remote, CommandOutput, GitError, RemoteInfo, Revision, User,
};

fn output(success: bool, code: Option<i32>, stdout: &[u8], stderr: &[u8]) -> CommandOutput {
    CommandOutput { success, code, stdout: stdout.to_vec(), stderr: stderr.to_vec() }
}

fn info(revision: &str, reference: &str) -> RemoteInfo {
    RemoteInfo { revision: revision.to_string(), reference: reference.to_string() }
}

#[test]
fn revision_round_trip() {
    let r = Revision::new("0123abcd");
    assert_eq!(r.as_str(), "0123abcd");
    assert_eq!(r.to_string(), "0123abcd");
    assert!(r == r.clone());
}

#[test]
fn user_keeps_name_and_email() {
    let u = User::new("lon", "lon@example.org");
    assert_eq!(u.name(), "lon");
    assert_eq!(u.email(), "lon@example.org");
}

#[test]
fn ls_remote_command_arguments() {
    let c = ls_remote_command("https://example.org/repo.git", "refs/heads/main");
    assert_eq!(c.args, vec!["ls-remote", "--refs", "https://example.org/repo.git", "refs/heads/main"]);
    assert_eq!(c.spawn_failure, "Failed to execute git ls-remote. Most likely it's not on PATH");
    let c = newest_revision_command("u", "dev");
    assert_eq!(c.args, vec!["ls-remote", "--refs", "u", "refs/heads/dev"]);
}

#[test]
fn parse_ls_remote_lines() {
    let text = "abc\trefs/heads/main\n\ndef\trefs/heads/dev\r\n";
    let parsed = parse_ls_remote(text).ok().unwrap();
    assert_eq!(parsed, vec![info("abc", "refs/heads/main"), info("def", "refs/heads/dev")]);
    assert_eq!(parse_ls_remote("").ok().unwrap(), Vec::new());
    assert_eq!(parse_ls_remote("\n\n").ok().unwrap(), Vec::new());
}

#[test]
fn parse_ls_remote_errors() {
    let e = parse_ls_remote("abc refs/heads/main\n").err().unwrap();
    assert!(matches!(e, GitError::LineWithoutTab));
    assert_eq!(e.message(), "git ls-remote output line contains no '\\t'");
    let e = parse_ls_remote("abc\trefs\theads\n").err().unwrap();
    assert!(matches!(e, GitError::LineWithSeveralTabs));
    assert_eq!(e.message(), "git ls-remote output line contains more than one '\\t'");
    // The first line that cannot be read decides.
    let e = parse_ls_remote("a\tb\nno tab\nx\ty\tz\n").err().unwrap();
    assert!(matches!(e, GitError::LineWithoutTab));
}

#[test]
fn ls_remote_round_trip() {
    let entries = vec![info("0a1b", "refs/heads/main"), info("ffff", "refs/tags/v1"), info("", "")];
    let text: String = entries.iter().map(|e| format!("{}\t{}\n", e.revision, e.reference)).collect();
    assert_eq!(parse_ls_remote(&text).ok().unwrap(), entries);
}

#[test]
fn read_ls_remote_failure_message() {
    let out = output(false, Some(128), b"", b"fatal: could not read\n\n  remote said no\n");
    let e = read_ls_remote(&out).err().unwrap();
    assert_eq!(
        e.message(),
        "git ls-remote failed with exit code 128:\nfatal: could not read   remote said no"
    );
    let out = output(false, None, b"", b"");
    assert_eq!(read_ls_remote(&out).err().unwrap().message(), "git ls-remote failed with exit code None:\n");
    let out = output(false, Some(-2), b"", b"x");
    assert_eq!(read_ls_remote(&out).err().unwrap().message(), "git ls-remote failed with exit code -2:\nx");
}

#[test]
fn read_ls_remote_decodes_lossily() {
    let out = output(true, Some(0), b"ab\xffc\tref\n", b"");
    let v = read_ls_remote(&out).ok().unwrap();
    assert_eq!(v, vec![info("ab\u{fffd}c", "ref")]);
}

#[test]
fn newest_revision_found() {
    let out = output(true, Some(0), b"0123456789abcdef\trefs/heads/main\n", b"");
    let r = find_newest_revision("https://example.org/r", "main", Some(&out)).ok().unwrap();
    assert_eq!(r.as_str(), "0123456789abcdef");
    let r = find_newest_revision_for_ref("u", "refs/heads/main", Some(&out)).ok().unwrap();
    assert_eq!(r.as_str(), "0123456789abcdef");
}

fn chain(e: &GitError) -> Vec<String> {
    let mut messages = vec![e.message()];
    let mut current = e;
    while let Some(cause) = current.cause() {
        messages.push(cause.message());
        current = cause;
    }
    messages
}

#[test]
fn newest_revision_missing() {
    let out = output(true, Some(0), b"\n", b"");
    let e = find_newest_revision_for_ref("https://example.org/r", "refs/heads/main", Some(&out))
        .err()
        .unwrap();
    assert_eq!(
        e.message(),
        "The repository https://example.org/r doesn't contain the reference refs/heads/main"
    );
    assert!(e.cause().is_none());
    let e = find_newest_revision("https://example.org/r", "main", Some(&out)).err().unwrap();
    assert_eq!(
        chain(&e),
        vec![
            "Failed to find newest revision for https://example.org/r (main).\nAre you sure the repo exists and contains the branch main?",
            "The repository https://example.org/r doesn't contain the reference refs/heads/main",
        ]
    );
}

#[test]
fn newest_revision_ambiguous() {
    let out = output(true, Some(0), b"a\trefs/heads/main\nb\trefs/heads/main\n", b"");
    let e = find_newest_revision_for_ref("u", "refs/heads/main", Some(&out)).err().unwrap();
    assert_eq!(e.message(), "The reference refs/heads/main is ambiguous and points to multiple revisions");
}

#[test]
fn newest_revision_unreachable() {
    let out = output(false, Some(2), b"a\trefs/heads/main\n", b"fatal: repository not found\n");
    let e = find_newest_revision_for_ref("u", "refs/heads/main", Some(&out)).err().unwrap();
    assert!(matches!(e, GitError::Unreachable { .. }));
    assert_eq!(
        chain(&e),
        vec!["Failed to reach u", "git ls-remote failed with exit code 2:\nfatal: repository not found"]
    );
    let e = find_newest_revision("u", "main", Some(&out)).err().unwrap();
    assert_eq!(
        chain(&e),
        vec![
            "Failed to find newest revision for u (main).\nAre you sure the repo exists and contains the branch main?",
            "Failed to reach u",
            "git ls-remote failed with exit code 2:\nfatal: repository not found",
        ]
    );
    let out = output(true, Some(0), b"no tab here\n", b"");
    let e = find_newest_revision_for_ref("u", "refs/heads/main", Some(&out)).err().unwrap();
    assert_eq!(chain(&e), vec!["Failed to reach u", "git ls-remote output line contains no '\\t'"]);
}

#[test]
fn newest_revision_git_not_started() {
    let e = find_newest_revision("u", "dev", None).err().unwrap();
    assert_eq!(
        chain(&e),
        vec![
            "Failed to find newest revision for u (dev).\nAre you sure the repo exists and contains the branch dev?",
            "Failed to reach u",
            "Failed to execute git ls-remote. Most likely it's not on PATH",
        ]
    );
}
