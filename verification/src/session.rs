//! The git operations that take one or more commands, as a state machine:
//! the library says which command to run next and decides on each output;
//! the caller runs the commands.

use vstd::prelude::*;
#[allow(unused_imports)]
use vstd::utf8::{decode_utf8, valid_utf8};

use crate::decode::{decode_lossy, decode_strict, utf8_lossy};
use crate::git::{concat, owned, views, CommandOutput, GitCommand, GitError, GitErrorView, User};
use crate::text::{
    is_whitespace, law_lines_lack_breaks, law_parse_decimal, law_split_join,
    law_trim_end_drops_trailing, split_on,
    decimal, decimal_string, join, join_strings, lines, parse_u64, parse_u64_exec, split_lines,
    trim_end, trim_end_string,
};

verus! {

/// An operation on a git repository.
pub enum GitTask {
    /// The commit time of `revision` in the repository at `url`.
    LastModified { url: String, revision: String },
    /// The commits between two revisions of the repository at `url`, at
    /// most `num_commits` deep.
    DiffHistory { url: String, old_revision: String, new_revision: String, num_commits: usize },
    /// Stage `paths`.
    Add { paths: Vec<String> },
    /// Commit what is staged, under `user` when one is given.
    Commit { message: String, user: Option<User> },
    /// The current branch, or the commit of a detached HEAD.
    CurrentRev,
    /// Check out `reference`, creating or resetting the branch if asked.
    Checkout { reference: String, create_or_reset: bool },
    /// Force push `branch` to `url`, or to `origin`.
    ForcePush { url: Option<String>, branch: String },
}

/// What a finished operation gives.
pub enum GitAnswer {
    Done,
    Timestamp(u64),
    History(String),
    Rev(String),
}

pub enum GitAnswerView {
    Done,
    Timestamp(u64),
    History(Seq<char>),
    Rev(Seq<char>),
}

impl View for GitAnswer {
    type V = GitAnswerView;

    open spec fn view(&self) -> GitAnswerView {
        match self {
            GitAnswer::Done => GitAnswerView::Done,
            GitAnswer::Timestamp(t) => GitAnswerView::Timestamp(*t),
            GitAnswer::History(h) => GitAnswerView::History(h@),
            GitAnswer::Rev(r) => GitAnswerView::Rev(r@),
        }
    }
}

/// What to do after a command: run the next one, or stop with a result.
pub enum GitStep {
    Run(GitCommand),
    Finished(Result<GitAnswer, GitError>),
}

/// What the rules say comes after a command.
pub enum Next {
    Continue,
    Finished(Result<GitAnswerView, GitErrorView>),
}

pub open spec fn with_git_dir(place: Seq<char>, rest: Seq<Seq<char>>) -> Seq<Seq<char>> {
    seq!["--git-dir"@, place] + rest
}

pub open spec fn in_directory(place: Seq<char>, rest: Seq<Seq<char>>) -> Seq<Seq<char>> {
    seq!["-C"@, place] + rest
}

/// The first three commands of an operation on a fresh repository: create
/// it, add the remote `url`, fetch `revision` from it.
pub open spec fn setup_planned(place: Seq<char>, url: Seq<char>, revision: Seq<char>, step: int) -> (
    Seq<Seq<char>>,
    Seq<char>,
) {
    if step == 0 {
        (
            with_git_dir(place, seq!["init"@]),
            "Failed to execute git init. Most likely it's not on PATH"@,
        )
    } else if step == 1 {
        (
            with_git_dir(place, seq!["remote"@, "add"@, "origin"@, url]),
            "Failed to execute git remote add."@,
        )
    } else {
        (
            with_git_dir(
                place,
                seq!["fetch"@, "--depth=1"@, "--no-show-forced-updates"@, "origin"@, revision],
            ),
            "Failed to execute git fetch."@,
        )
    }
}

/// The arguments that set the committer, when a user is given.
pub open spec fn user_args(user: Option<User>) -> Seq<Seq<char>> {
    match user {
        Some(u) => seq!["-c"@, "user.name="@ + u@.0, "-c"@, "user.email="@ + u@.1],
        None => Seq::empty(),
    }
}

fn setup_command(place: &str, url: &str, revision: &str, step: usize) -> (c: GitCommand)
    requires
        step <= 2,
    ensures
        c@ == setup_planned(place@, url@, revision@, step as int),
{
    if step == 0 {
        let rest = vec![owned("init")];
        assert(views(rest@) =~= seq!["init"@]);
        GitCommand {
            args: with_git_dir_exec(place, rest),
            spawn_failure: owned("Failed to execute git init. Most likely it's not on PATH"),
        }
    } else if step == 1 {
        let rest = vec![owned("remote"), owned("add"), owned("origin"), owned(url)];
        assert(views(rest@) =~= seq!["remote"@, "add"@, "origin"@, url@]);
        GitCommand {
            args: with_git_dir_exec(place, rest),
            spawn_failure: owned("Failed to execute git remote add."),
        }
    } else {
        let rest = vec![
            owned("fetch"),
            owned("--depth=1"),
            owned("--no-show-forced-updates"),
            owned("origin"),
            owned(revision),
        ];
        assert(views(rest@) =~= seq![
            "fetch"@,
            "--depth=1"@,
            "--no-show-forced-updates"@,
            "origin"@,
            revision@,
        ]);
        GitCommand {
            args: with_git_dir_exec(place, rest),
            spawn_failure: owned("Failed to execute git fetch."),
        }
    }
}

/// The command of step `step` of `task`, run at `place` (the git directory
/// of a fresh repository, or the working tree): its arguments and what to
/// report when git cannot be started; `None` past the last step.
pub open spec fn planned(task: GitTask, place: Seq<char>, step: int) -> Option<
    (Seq<Seq<char>>, Seq<char>),
> {
    match task {
        GitTask::LastModified { url, revision } => if 0 <= step <= 2 {
            Some(setup_planned(place, url@, revision@, step))
        } else if step == 3 {
            Some(
                (
                    with_git_dir(
                        place,
                        seq![
                            "log"@,
                            "-1"@,
                            "--format=%ct"@,
                            "--no-show-signature"@,
                            revision@,
                        ],
                    ),
                    "Failed to execute git log."@,
                ),
            )
        } else {
            None
        },
        GitTask::DiffHistory { url, old_revision, new_revision, num_commits } => if 0 <= step
            <= 2 {
            Some(setup_planned(place, url@, old_revision@, step))
        } else if step == 3 {
            Some(
                (
                    with_git_dir(
                        place,
                        seq![
                            "fetch"@,
                            "--no-show-forced-updates"@,
                            "--negotiation-tip"@,
                            old_revision@,
                            "origin"@,
                            new_revision@,
                            "--depth="@ + decimal(num_commits as nat),
                        ],
                    ),
                    "Failed to execute git fetch."@,
                ),
            )
        } else if step == 4 {
            Some(
                (
                    with_git_dir(
                        place,
                        seq!["rev-list"@, "--oneline"@, old_revision@ + ".."@ + new_revision@],
                    ),
                    "Failed to execute git rev-list."@,
                ),
            )
        } else {
            None
        },
        GitTask::Add { paths } => if step == 0 {
            Some(
                (
                    in_directory(place, seq!["add"@] + views(paths@)),
                    "Failed to execute git add. Most likely it's not on PATH"@,
                ),
            )
        } else {
            None
        },
        GitTask::Commit { message, user } => if step == 0 {
            Some(
                (
                    in_directory(
                        place,
                        user_args(user) + seq!["commit"@, "--message"@, message@],
                    ),
                    "Failed to execute git commit. Most likely it's not on PATH"@,
                ),
            )
        } else {
            None
        },
        GitTask::CurrentRev => if step == 0 {
            Some(
                (
                    in_directory(place, seq!["symbolic-ref"@, "--short"@, "HEAD"@]),
                    "Failed to execute git symbolic-ref. Most likely it's not on PATH"@,
                ),
            )
        } else if step == 1 {
            Some(
                (
                    in_directory(place, seq!["rev-parse"@, "HEAD"@]),
                    "Failed to execute git rev-parse. Most likely it's not on PATH"@,
                ),
            )
        } else {
            None
        },
        GitTask::Checkout { reference, create_or_reset } => if step == 0 {
            Some(
                (
                    in_directory(
                        place,
                        seq!["checkout"@] + (if create_or_reset {
                            seq!["-B"@]
                        } else {
                            Seq::empty()
                        }) + seq![reference@],
                    ),
                    "Failed to execute git checkout. Most likely it's not on PATH"@,
                ),
            )
        } else {
            None
        },
        GitTask::ForcePush { url, branch } => if step == 0 {
            Some(
                (
                    in_directory(
                        place,
                        seq![
                            "push"@,
                            "--force"@,
                            match url {
                                Some(u) => u@,
                                None => "origin"@,
                            },
                            branch@,
                        ],
                    ),
                    "Failed to execute git push. Most likely it's not on PATH"@,
                ),
            )
        } else {
            None
        },
    }
}

/// What is reported when the command of step `step` of `task` fails.
pub open spec fn failure_what(task: GitTask, step: int) -> Seq<char> {
    match task {
        GitTask::LastModified { url, revision } => if step == 0 {
            "Failed to initialize a fresh git repository"@
        } else if step == 1 {
            "Failed to add the remote "@ + url@
        } else if step == 2 {
            "Failed to fetch the revision "@ + revision@
        } else {
            "Failed to log the revision "@ + revision@
        },
        GitTask::DiffHistory { url, old_revision, new_revision, num_commits } => if step == 0 {
            "Failed to initialize a fresh git repository"@
        } else if step == 1 {
            "Failed to add the remote "@ + url@
        } else if step == 2 {
            "Failed to fetch the revision "@ + old_revision@
        } else if step == 3 {
            "Failed to fetch the revision "@ + new_revision@
        } else {
            "Failed to list the history for "@ + old_revision@ + ".."@ + new_revision@
        },
        GitTask::Add { .. } => "Failed to add files to git statging"@,
        GitTask::Commit { .. } => "Failed to commit files"@,
        GitTask::CurrentRev => "Failed to find current commit "@,
        GitTask::Checkout { reference, .. } => "Failed to checkout ref "@ + reference@ + " "@,
        GitTask::ForcePush { .. } => "Failed to force push current branch "@,
    }
}

/// The history as it is reported: each line of `git rev-list --oneline`
/// indented by two spaces.
pub open spec fn history_text(text: Seq<char>) -> Seq<char> {
    join(lines(text).map_values(|l: Seq<char>| "  "@ + l), "\n"@)
}

/// Whether what the command of step `step` of `task` prints must be UTF-8
/// text: that of `git rev-list`, which is read line by line as text.
pub open spec fn expects_text(task: GitTask, step: int) -> bool {
    task is DiffHistory && step == 4
}

/// What follows when the command of step `step` of `task` gave `output`.
pub open spec fn after(task: GitTask, step: int, output: CommandOutput) -> Next {
    let failed = Next::Finished(
        Err(
            GitErrorView::CommandFailed {
                what: failure_what(task, step),
                stderr: utf8_lossy(output.stderr@),
            },
        ),
    );
    let printed = trim_end(utf8_lossy(output.stdout@));
    match task {
        GitTask::LastModified { .. } => if !output.success {
            failed
        } else if step < 3 {
            Next::Continue
        } else {
            match parse_u64(printed) {
                Some(t) => Next::Finished(Ok(GitAnswerView::Timestamp(t))),
                None => Next::Finished(Err(GitErrorView::TimestampUnparsable)),
            }
        },
        GitTask::DiffHistory { .. } => if !output.success {
            failed
        } else if step < 4 {
            Next::Continue
        } else {
            Next::Finished(Ok(GitAnswerView::History(history_text(decode_utf8(output.stdout@)))))
        },
        GitTask::CurrentRev => if output.success {
            Next::Finished(Ok(GitAnswerView::Rev(printed)))
        } else if step == 0 {
            Next::Continue
        } else {
            failed
        },
        _ => if output.success {
            Next::Finished(Ok(GitAnswerView::Done))
        } else {
            failed
        },
    }
}

/// `r` holds the result `expected`.
pub open spec fn answer_matches(
    r: Result<GitAnswer, GitError>,
    expected: Result<GitAnswerView, GitErrorView>,
) -> bool {
    match (r, expected) {
        (Ok(v), Ok(w)) => v@ == w,
        (Err(e), Err(f)) => e@ == f,
        _ => false,
    }
}


fn push_all(args: &mut Vec<String>, more: &Vec<String>)
    ensures
        views(final(args)@) == views(old(args)@) + views(more@),
{
    let mut i: usize = 0;
    while i < more.len()
        invariant
            i <= more.len(),
            views(args@) == views(old(args)@) + views(more@).take(i as int),
        decreases more.len() - i,
    {
        let ghost before = views(args@);
        args.push(more[i].clone());
        proof {
            assert(views(args@) =~= before.push(more@[i as int]@));
            assert(views(more@).take(i + 1) =~= views(more@).take(i as int).push(more@[i as int]@));
        }
        i = i + 1;
    }
    proof {
        assert(views(more@).take(more.len() as int) =~= views(more@));
    }
}

fn with_git_dir_exec(place: &str, rest: Vec<String>) -> (args: Vec<String>)
    ensures
        views(args@) == with_git_dir(place@, views(rest@)),
{
    let mut args = vec![owned("--git-dir"), owned(place)];
    let ghost start = views(args@);
    assert(start =~= seq!["--git-dir"@, place@]);
    push_all(&mut args, &rest);
    args
}

fn in_directory_exec(place: &str, rest: Vec<String>) -> (args: Vec<String>)
    ensures
        views(args@) == in_directory(place@, views(rest@)),
{
    let mut args = vec![owned("-C"), owned(place)];
    let ghost start = views(args@);
    assert(start =~= seq!["-C"@, place@]);
    push_all(&mut args, &rest);
    args
}

/// The command of step `step` of `task`, run at `place`.
fn command_for(task: &GitTask, place: &str, step: usize) -> (c: GitCommand)
    requires
        planned(*task, place@, step as int) is Some,
    ensures
        planned(*task, place@, step as int) == Some(c@),
{
    match task {
        GitTask::LastModified { url, revision } => {
            if step <= 2 {
                return setup_command(place, url.as_str(), revision.as_str(), step);
            }
            let rest = vec![
                owned("log"),
                owned("-1"),
                owned("--format=%ct"),
                owned("--no-show-signature"),
                revision.clone(),
            ];
            assert(views(rest@) =~= seq![
                "log"@,
                "-1"@,
                "--format=%ct"@,
                "--no-show-signature"@,
                revision@,
            ]);
            GitCommand {
                args: with_git_dir_exec(place, rest),
                spawn_failure: owned("Failed to execute git log."),
            }
        },
        GitTask::DiffHistory { url, old_revision, new_revision, num_commits } => {
            if step <= 2 {
                setup_command(place, url.as_str(), old_revision.as_str(), step)
            } else if step == 3 {
                let depth = concat("--depth=", decimal_string(*num_commits as u64).as_str());
                let rest = vec![
                    owned("fetch"),
                    owned("--no-show-forced-updates"),
                    owned("--negotiation-tip"),
                    old_revision.clone(),
                    owned("origin"),
                    new_revision.clone(),
                    depth,
                ];
                assert(views(rest@) =~= seq![
                    "fetch"@,
                    "--no-show-forced-updates"@,
                    "--negotiation-tip"@,
                    old_revision@,
                    "origin"@,
                    new_revision@,
                    "--depth="@ + decimal(*num_commits as nat),
                ]);
                GitCommand {
                    args: with_git_dir_exec(place, rest),
                    spawn_failure: owned("Failed to execute git fetch."),
                }
            } else {
                let mut range = concat(old_revision.as_str(), "..");
                range.append(new_revision.as_str());
                let rest = vec![owned("rev-list"), owned("--oneline"), range];
                assert(views(rest@) =~= seq![
                    "rev-list"@,
                    "--oneline"@,
                    old_revision@ + ".."@ + new_revision@,
                ]);
                GitCommand {
                    args: with_git_dir_exec(place, rest),
                    spawn_failure: owned("Failed to execute git rev-list."),
                }
            }
        },
        GitTask::Add { paths } => {
            let mut rest = vec![owned("add")];
            assert(views(rest@) =~= seq!["add"@]);
            push_all(&mut rest, paths);
            GitCommand {
                args: in_directory_exec(place, rest),
                spawn_failure: owned("Failed to execute git add. Most likely it's not on PATH"),
            }
        },
        GitTask::Commit { message, user } => {
            let mut rest: Vec<String> = Vec::new();
            match user {
                Some(u) => {
                    rest.push(owned("-c"));
                    rest.push(concat("user.name=", u.name()));
                    rest.push(owned("-c"));
                    rest.push(concat("user.email=", u.email()));
                },
                None => {},
            }
            assert(views(rest@) =~= user_args(*user));
            let tail = vec![owned("commit"), owned("--message"), message.clone()];
            assert(views(tail@) =~= seq!["commit"@, "--message"@, message@]);
            push_all(&mut rest, &tail);
            GitCommand {
                args: in_directory_exec(place, rest),
                spawn_failure: owned("Failed to execute git commit. Most likely it's not on PATH"),
            }
        },
        GitTask::CurrentRev => {
            if step == 0 {
                let rest = vec![owned("symbolic-ref"), owned("--short"), owned("HEAD")];
                assert(views(rest@) =~= seq!["symbolic-ref"@, "--short"@, "HEAD"@]);
                GitCommand {
                    args: in_directory_exec(place, rest),
                    spawn_failure: owned(
                        "Failed to execute git symbolic-ref. Most likely it's not on PATH",
                    ),
                }
            } else {
                let rest = vec![owned("rev-parse"), owned("HEAD")];
                assert(views(rest@) =~= seq!["rev-parse"@, "HEAD"@]);
                GitCommand {
                    args: in_directory_exec(place, rest),
                    spawn_failure: owned(
                        "Failed to execute git rev-parse. Most likely it's not on PATH",
                    ),
                }
            }
        },
        GitTask::Checkout { reference, create_or_reset } => {
            let mut rest = vec![owned("checkout")];
            if *create_or_reset {
                rest.push(owned("-B"));
            }
            rest.push(reference.clone());
            assert(views(rest@) =~= seq!["checkout"@] + (if *create_or_reset {
                seq!["-B"@]
            } else {
                Seq::empty()
            }) + seq![reference@]);
            GitCommand {
                args: in_directory_exec(place, rest),
                spawn_failure: owned("Failed to execute git checkout. Most likely it's not on PATH"),
            }
        },
        GitTask::ForcePush { url, branch } => {
            let repository = match url {
                Some(u) => u.clone(),
                None => owned("origin"),
            };
            let rest = vec![owned("push"), owned("--force"), repository, branch.clone()];
            assert(views(rest@) =~= seq![
                "push"@,
                "--force"@,
                match url {
                    Some(u) => u@,
                    None => "origin"@,
                },
                branch@,
            ]);
            GitCommand {
                args: in_directory_exec(place, rest),
                spawn_failure: owned("Failed to execute git push. Most likely it's not on PATH"),
            }
        },
    }
}


fn failure_what_exec(task: &GitTask, step: usize) -> (w: String)
    ensures
        w@ == failure_what(*task, step as int),
{
    match task {
        GitTask::LastModified { url, revision } => {
            if step == 0 {
                owned("Failed to initialize a fresh git repository")
            } else if step == 1 {
                concat("Failed to add the remote ", url.as_str())
            } else if step == 2 {
                concat("Failed to fetch the revision ", revision.as_str())
            } else {
                concat("Failed to log the revision ", revision.as_str())
            }
        },
        GitTask::DiffHistory { url, old_revision, new_revision, .. } => {
            if step == 0 {
                owned("Failed to initialize a fresh git repository")
            } else if step == 1 {
                concat("Failed to add the remote ", url.as_str())
            } else if step == 2 {
                concat("Failed to fetch the revision ", old_revision.as_str())
            } else if step == 3 {
                concat("Failed to fetch the revision ", new_revision.as_str())
            } else {
                let mut w = concat("Failed to list the history for ", old_revision.as_str());
                w.append("..");
                w.append(new_revision.as_str());
                w
            }
        },
        GitTask::Add { .. } => owned("Failed to add files to git statging"),
        GitTask::Commit { .. } => owned("Failed to commit files"),
        GitTask::CurrentRev => owned("Failed to find current commit "),
        GitTask::Checkout { reference, .. } => {
            let mut w = concat("Failed to checkout ref ", reference.as_str());
            w.append(" ");
            w
        },
        GitTask::ForcePush { .. } => owned("Failed to force push current branch "),
    }
}

/// Indents each line of `git rev-list --oneline` output by two spaces and
/// joins the lines again.
pub fn format_history(text: &str) -> (h: String)
    ensures
        h@ == history_text(text@),
{
    let ls = split_lines(text);
    let ghost lv = views(ls@);
    let mut indented: Vec<String> = Vec::new();
    let mut i: usize = 0;
    while i < ls.len()
        invariant
            i <= ls.len(),
            lv == views(ls@),
            views(indented@) =~= lv.take(i as int).map_values(|l: Seq<char>| "  "@ + l),
        decreases ls.len() - i,
    {
        let ghost before = views(indented@);
        indented.push(concat("  ", ls[i].as_str()));
        proof {
            assert(views(indented@) =~= before.push("  "@ + lv[i as int]));
            assert(lv.take(i + 1) =~= lv.take(i as int).push(lv[i as int]));
        }
        i = i + 1;
    }
    proof {
        assert(lv.take(ls.len() as int) =~= lv);
    }
    join_strings(&indented, "\n")
}

/// A git operation under way: the command of its current step is being run.
pub struct GitSession {
    task: GitTask,
    place: String,
    step: usize,
}

impl GitSession {
    #[verifier::type_invariant]
    spec fn well_formed(self) -> bool {
        planned(self.task, self.place@, self.step as int) is Some
    }

    /// The operation.
    pub closed spec fn task(self) -> GitTask {
        self.task
    }

    /// Where its commands run.
    pub closed spec fn place(self) -> Seq<char> {
        self.place@
    }

    /// The step whose command is being run.
    pub closed spec fn step(self) -> int {
        self.step as int
    }

    /// Starts `task` at `place` (for `LastModified` and `DiffHistory`, the git
    /// directory of a fresh repository; otherwise the working tree), and
    /// gives its first command.
    pub fn start(task: GitTask, place: &str) -> (r: (GitSession, GitCommand))
        ensures
            r.0.task() == task,
            r.0.place() == place@,
            r.0.step() == 0,
            planned(task, place@, 0) == Some(r.1@),
    {
        let command = command_for(&task, place, 0);
        (GitSession { task, place: owned(place), step: 0 }, command)
    }

    /// Whether the current command's output must be UTF-8 text when it
    /// succeeds.
    pub fn expects_text(&self) -> (b: bool)
        ensures
            b == expects_text(self.task(), self.step()),
    {
        match &self.task {
            GitTask::DiffHistory { .. } => self.step == 4,
            _ => false,
        }
    }

    /// Decides on what the current command gave: the next command to run,
    /// or the result of the operation. Output that must be text and is not
    /// UTF-8 is left out: on it, reading the history fails outright.
    pub fn advance(&mut self, output: &CommandOutput) -> (next: GitStep)
        requires
            expects_text(old(self).task(), old(self).step()) && output.success ==> valid_utf8(
                output.stdout@,
            ),
        ensures
            final(self).task() == old(self).task(),
            final(self).place() == old(self).place(),
            match after(old(self).task(), old(self).step(), *output) {
                Next::Continue => {
                    &&& final(self).step() == old(self).step() + 1
                    &&& next is Run
                    &&& planned(old(self).task(), old(self).place(), old(self).step() + 1) == Some(
                        next->Run_0@,
                    )
                },
                Next::Finished(r) => {
                    &&& final(self).step() == old(self).step()
                    &&& next is Finished
                    &&& answer_matches(next->Finished_0, r)
                },
            },
    {
        proof {
            use_type_invariant(&*self);
        }
        let step = self.step;
        let is_current_rev = match &self.task {
            GitTask::CurrentRev => true,
            _ => false,
        };
        if !output.success {
            if is_current_rev && step == 0 {
                self.step = 1;
                return GitStep::Run(command_for(&self.task, self.place.as_str(), 1));
            }
            let what = failure_what_exec(&self.task, step);
            let stderr = decode_lossy(output.stderr.as_slice());
            return GitStep::Finished(Err(GitError::CommandFailed { what, stderr }));
        }
        match &self.task {
            GitTask::LastModified { .. } => {
                if step < 3 {
                    self.step = step + 1;
                    GitStep::Run(command_for(&self.task, self.place.as_str(), step + 1))
                } else {
                    let printed = trim_end_string(decode_lossy(output.stdout.as_slice()).as_str());
                    match parse_u64_exec(printed.as_str()) {
                        Some(t) => GitStep::Finished(Ok(GitAnswer::Timestamp(t))),
                        None => GitStep::Finished(Err(GitError::TimestampUnparsable)),
                    }
                }
            },
            GitTask::DiffHistory { .. } => {
                if step < 4 {
                    self.step = step + 1;
                    GitStep::Run(command_for(&self.task, self.place.as_str(), step + 1))
                } else {
                    match decode_strict(output.stdout.as_slice()) {
                        Some(text) => GitStep::Finished(
                            Ok(GitAnswer::History(format_history(text))),
                        ),
                        None => vstd::pervasive::unreached(),
                    }
                }
            },
            GitTask::CurrentRev => {
                let printed = trim_end_string(decode_lossy(output.stdout.as_slice()).as_str());
                GitStep::Finished(Ok(GitAnswer::Rev(printed)))
            },
            _ => GitStep::Finished(Ok(GitAnswer::Done)),
        }
    }
}


/// When `git log --format=%ct` prints a timestamp in decimal, followed by
/// whitespace such as its line break, the last-modified operation gives
/// that timestamp.
pub proof fn law_timestamp_read_back(
    task: GitTask,
    output: CommandOutput,
    timestamp: u64,
    trailing: Seq<char>,
)
    requires
        task is LastModified,
        output.success,
        forall|i: int| 0 <= i < trailing.len() ==> is_whitespace(#[trigger] trailing[i]),
        utf8_lossy(output.stdout@) == decimal(timestamp as nat) + trailing,
    ensures
        after(task, 3, output) == Next::Finished(Ok(GitAnswerView::Timestamp(timestamp))),
{
    law_parse_decimal(timestamp, trailing);
}

/// The commands of an operation on a fresh repository all name its git
/// directory; those of an operation on a working tree all name the tree.
pub proof fn law_commands_name_their_place(task: GitTask, place: Seq<char>, step: int)
    ensures
        planned(task, place, step) matches Some((args, _)) ==> args.take(2) == (if (task is LastModified
            || task is DiffHistory) {
            seq!["--git-dir"@, place]
        } else {
            seq!["-C"@, place]
        }),
{
    if let Some((args, _)) = planned(task, place, step) {
        if task is LastModified || task is DiffHistory {
            assert(args.take(2) =~= seq!["--git-dir"@, place]);
        } else {
            assert(args.take(2) =~= seq!["-C"@, place]);
        }
    }
}

/// Every operation runs at most five commands, and it goes on to a next
/// command only where there is one.
pub proof fn law_operations_end(task: GitTask, place: Seq<char>, step: int, output: CommandOutput)
    ensures
        step >= 5 ==> planned(task, place, step) is None,
        planned(task, place, step) is Some && after(task, step, output) is Continue ==> planned(
            task,
            place,
            step + 1,
        ) is Some,
{
}

/// A command that fails ends its operation with the failure and what git
/// wrote on stderr; the one exception is that a detached HEAD, on which
/// `git symbolic-ref` fails, sends `current_rev` on to `git rev-parse`.
pub proof fn law_failure_ends(task: GitTask, step: int, output: CommandOutput)
    requires
        !output.success,
        !(task is CurrentRev && step == 0),
    ensures
        after(task, step, output) == Next::Finished(
            Err::<GitAnswerView, _>(
                GitErrorView::CommandFailed {
                    what: failure_what(task, step),
                    stderr: utf8_lossy(output.stderr@),
                },
            ),
        ),
{
}


/// Looking up the current ref gives the whole name git printed, from
/// either command, with only the whitespace after it dropped: a branch
/// name keeps every `/` and every character before it.
pub proof fn law_current_rev_whole_name(
    task: GitTask,
    step: int,
    output: CommandOutput,
    name: Seq<char>,
    trailing: Seq<char>,
)
    requires
        task is CurrentRev,
        0 <= step <= 1,
        output.success,
        utf8_lossy(output.stdout@) == name + trailing,
        name.len() == 0 || !is_whitespace(name.last()),
        forall|i: int| 0 <= i < trailing.len() ==> is_whitespace(#[trigger] trailing[i]),
    ensures
        after(task, step, output) == Next::Finished(Ok::<_, GitErrorView>(GitAnswerView::Rev(name))),
{
    law_trim_end_drops_trailing(name, trailing);
}

/// Adding, committing, checking out and pushing succeed exactly when git
/// exits successfully, whatever git wrote on stderr or stdout.
pub proof fn law_success_is_done(task: GitTask, output: CommandOutput)
    requires
        task is Add || task is Commit || task is Checkout || task is ForcePush,
    ensures
        output.success ==> after(task, 0, output) == Next::Finished(
            Ok::<_, GitErrorView>(GitAnswerView::Done),
        ),
        !output.success ==> after(task, 0, output) matches Next::Finished(Err(_)),
{
}

/// The history has one line for each line of the `git rev-list` output,
/// in the same order, each indented by two spaces; no output gives no
/// history.
pub proof fn law_history_one_line_per_commit(text: Seq<char>)
    ensures
        lines(text).len() == 0 ==> history_text(text) == Seq::<char>::empty(),
        lines(text).len() > 0 ==> split_on(history_text(text), '\n') == lines(text).map_values(
            |l: Seq<char>| "  "@ + l,
        ),
{
    let ls = lines(text);
    let indented = ls.map_values(|l: Seq<char>| "  "@ + l);
    if ls.len() == 0 {
        assert(indented.len() == 0);
    } else {
        reveal_strlit("  ");
        reveal_strlit("\n");
        assert("\n"@ =~= seq!['\n']);
        law_lines_lack_breaks(text);
        assert forall|i: int| 0 <= i < indented.len() implies !(#[trigger] indented[i]).contains(
            '\n',
        ) by {
            let l = ls[i];
            assert(indented[i] == "  "@ + l);
            assert(!l.contains('\n'));
            if indented[i].contains('\n') {
                let k = choose|k: int| 0 <= k < indented[i].len() && indented[i][k] == '\n';
                if k >= 2 {
                    assert(l[k - 2] == '\n');
                }
            }
        }
        law_split_join(indented, '\n');
    }
}

} // verus!
