//! What `lon` does with git: the commands it runs, and what it makes of
//! their output.

use vstd::prelude::*;

use crate::decode::{decode_lossy, utf8_lossy};
use crate::text::{
    join, join_strings, law_split_join, lemma_split_concat, lemma_split_without_sep, lines,
    signed_decimal, signed_decimal_string, split_char, split_lines, split_on, strip_cr,
};

verus! {

/// The views of a sequence of strings.
pub open spec fn views(v: Seq<String>) -> Seq<Seq<char>> {
    v.map_values(|s: String| s@)
}

pub(crate) fn owned(s: &str) -> (r: String)
    ensures
        r@ == s@,
{
    String::from_str(s)
}

pub(crate) fn concat(a: &str, b: &str) -> (r: String)
    ensures
        r@ == a@ + b@,
{
    let mut r = String::from_str(a);
    r.append(b);
    r
}

/// A git revision (aka commit).
#[derive(PartialEq, Clone)]
pub struct Revision(String);

impl View for Revision {
    type V = Seq<char>;

    closed spec fn view(&self) -> Seq<char> {
        self.0@
    }
}

impl Revision {
    pub fn new(s: &str) -> (r: Self)
        ensures
            r@ == s@,
    {
        Revision(String::from_str(s))
    }

    pub fn as_str(&self) -> (r: &str)
        ensures
            r@ == self@,
    {
        self.0.as_str()
    }

    /// The revision as text, as it is displayed.
    pub fn to_string(&self) -> (r: String)
        ensures
            r@ == self@,
    {
        self.0.clone()
    }
}

/// A line of the output of `git ls-remote`.
#[derive(Debug, Clone, PartialEq, Eq, Hash)]
pub struct RemoteInfo {
    pub revision: String,
    pub reference: String,
}

impl View for RemoteInfo {
    type V = (Seq<char>, Seq<char>);

    open spec fn view(&self) -> (Seq<char>, Seq<char>) {
        (self.revision@, self.reference@)
    }
}

/// The name and e-mail address that a commit is made under.
pub struct User {
    name: String,
    email: String,
}

impl View for User {
    type V = (Seq<char>, Seq<char>);

    closed spec fn view(&self) -> (Seq<char>, Seq<char>) {
        (self.name@, self.email@)
    }
}

impl User {
    /// The committer's name.
    pub fn name(&self) -> (r: &str)
        ensures
            r@ == self@.0,
    {
        self.name.as_str()
    }

    /// The committer's e-mail address.
    pub fn email(&self) -> (r: &str)
        ensures
            r@ == self@.1,
    {
        self.email.as_str()
    }

    pub fn new(name: &str, email: &str) -> (u: Self)
        ensures
            u@ == (name@, email@),
    {
        User { name: String::from_str(name), email: String::from_str(email) }
    }
}

/// How a git process ended, and what it wrote.
pub struct CommandOutput {
    pub success: bool,
    pub code: Option<i32>,
    pub stdout: Vec<u8>,
    pub stderr: Vec<u8>,
}

/// A git command to run: its arguments, and what to report when git
/// cannot be started at all.
pub struct GitCommand {
    pub args: Vec<String>,
    pub spawn_failure: String,
}

impl View for GitCommand {
    type V = (Seq<Seq<char>>, Seq<char>);

    open spec fn view(&self) -> (Seq<Seq<char>>, Seq<char>) {
        (views(self.args@), self.spawn_failure@)
    }
}

/// Why a git operation failed. An error may carry the error it was
/// reported for, as context around it.
pub enum GitError {
    /// A git command exited unsuccessfully: what failed, and what git wrote
    /// on stderr.
    CommandFailed { what: String, stderr: String },
    /// git could not be started for a command: what was being run.
    NotStarted { what: String },
    /// A line of `git ls-remote` output has no tab.
    LineWithoutTab,
    /// A line of `git ls-remote` output has more than one tab.
    LineWithSeveralTabs,
    /// The repository has no such reference.
    MissingReference { url: String, reference: String },
    /// The reference names more than one revision.
    AmbiguousReference { reference: String },
    /// `git log` did not print a timestamp.
    TimestampUnparsable,
    /// The repository at `url` could not be listed, for `cause`.
    Unreachable { url: String, cause: Box<GitError> },
    /// The newest revision of `branch` at `url` could not be found, for
    /// `cause`.
    NewestRevisionNotFound { url: String, branch: String, cause: Box<GitError> },
}

pub enum GitErrorView {
    CommandFailed { what: Seq<char>, stderr: Seq<char> },
    NotStarted { what: Seq<char> },
    LineWithoutTab,
    LineWithSeveralTabs,
    MissingReference { url: Seq<char>, reference: Seq<char> },
    AmbiguousReference { reference: Seq<char> },
    TimestampUnparsable,
    Unreachable { url: Seq<char>, cause: Box<GitErrorView> },
    NewestRevisionNotFound { url: Seq<char>, branch: Seq<char>, cause: Box<GitErrorView> },
}

/// The view of an error, its causes included.
pub open spec fn error_view(e: GitError) -> GitErrorView
    decreases e,
{
    match e {
        GitError::CommandFailed { what, stderr } => GitErrorView::CommandFailed {
            what: what@,
            stderr: stderr@,
        },
        GitError::NotStarted { what } => GitErrorView::NotStarted { what: what@ },
        GitError::LineWithoutTab => GitErrorView::LineWithoutTab,
        GitError::LineWithSeveralTabs => GitErrorView::LineWithSeveralTabs,
        GitError::MissingReference { url, reference } => GitErrorView::MissingReference {
            url: url@,
            reference: reference@,
        },
        GitError::AmbiguousReference { reference } => GitErrorView::AmbiguousReference {
            reference: reference@,
        },
        GitError::TimestampUnparsable => GitErrorView::TimestampUnparsable,
        GitError::Unreachable { url, cause } => GitErrorView::Unreachable {
            url: url@,
            cause: Box::new(error_view(*cause)),
        },
        GitError::NewestRevisionNotFound { url, branch, cause } => GitErrorView::NewestRevisionNotFound {
            url: url@,
            branch: branch@,
            cause: Box::new(error_view(*cause)),
        },
    }
}

impl View for GitError {
    type V = GitErrorView;

    open spec fn view(&self) -> GitErrorView {
        error_view(*self)
    }
}

/// The text by which an error is reported; for an error that carries a
/// cause, the context it puts around the cause.
pub open spec fn error_message(e: GitErrorView) -> Seq<char> {
    match e {
        GitErrorView::CommandFailed { what, stderr } => what + "\n"@ + stderr,
        GitErrorView::NotStarted { what } => what,
        GitErrorView::LineWithoutTab => "git ls-remote output line contains no '\\t'"@,
        GitErrorView::LineWithSeveralTabs => "git ls-remote output line contains more than one '\\t'"@,
        GitErrorView::MissingReference { url, reference } => "The repository "@ + url
            + " doesn't contain the reference "@ + reference,
        GitErrorView::AmbiguousReference { reference } => "The reference "@ + reference
            + " is ambiguous and points to multiple revisions"@,
        GitErrorView::TimestampUnparsable => "Failed to parse last modified timestamp."@,
        GitErrorView::Unreachable { url, .. } => "Failed to reach "@ + url,
        GitErrorView::NewestRevisionNotFound { url, branch, .. } => "Failed to find newest revision for "@
            + url + " ("@ + branch + ").\nAre you sure the repo exists and contains the branch "@
            + branch + "?"@,
    }
}

/// The error that `e` was reported for, if it carries one.
pub open spec fn error_cause(e: GitErrorView) -> Option<GitErrorView> {
    match e {
        GitErrorView::Unreachable { cause, .. } => Some(*cause),
        GitErrorView::NewestRevisionNotFound { cause, .. } => Some(*cause),
        _ => None,
    }
}

impl GitError {
    /// The text by which the error is reported.
    pub fn message(&self) -> (m: String)
        ensures
            m@ == error_message(self@),
    {
        match self {
            GitError::CommandFailed { what, stderr } => {
                let mut m = concat(what.as_str(), "\n");
                m.append(stderr.as_str());
                m
            },
            GitError::NotStarted { what } => what.clone(),
            GitError::LineWithoutTab => owned("git ls-remote output line contains no '\\t'"),
            GitError::LineWithSeveralTabs => owned(
                "git ls-remote output line contains more than one '\\t'",
            ),
            GitError::MissingReference { url, reference } => {
                let mut m = concat("The repository ", url.as_str());
                m.append(" doesn't contain the reference ");
                m.append(reference.as_str());
                m
            },
            GitError::AmbiguousReference { reference } => {
                let mut m = concat("The reference ", reference.as_str());
                m.append(" is ambiguous and points to multiple revisions");
                m
            },
            GitError::TimestampUnparsable => owned("Failed to parse last modified timestamp."),
            GitError::Unreachable { url, .. } => concat("Failed to reach ", url.as_str()),
            GitError::NewestRevisionNotFound { url, branch, .. } => {
                let mut m = concat("Failed to find newest revision for ", url.as_str());
                m.append(" (");
                m.append(branch.as_str());
                m.append(").\nAre you sure the repo exists and contains the branch ");
                m.append(branch.as_str());
                m.append("?");
                m
            },
        }
    }

    /// The error this one was reported for, if it carries one.
    pub fn cause(&self) -> (c: Option<&GitError>)
        ensures
            match c {
                Some(inner) => error_cause(self@) == Some(inner@),
                None => error_cause(self@) is None,
            },
    {
        match self {
            GitError::Unreachable { cause, .. } => Some(&**cause),
            GitError::NewestRevisionNotFound { cause, .. } => Some(&**cause),
            _ => None,
        }
    }
}

/// The elements of `ls` that are not empty, in order.
pub open spec fn non_empty(ls: Seq<Seq<char>>) -> Seq<Seq<char>>
    decreases ls.len(),
{
    if ls.len() == 0 {
        Seq::<Seq<char>>::empty()
    } else {
        let rest = non_empty(ls.drop_last());
        if ls.last().len() == 0 {
            rest
        } else {
            rest.push(ls.last())
        }
    }
}

/// What a line of `git ls-remote` output says: a revision, a tab, and a
/// reference.
pub open spec fn parse_remote_line(l: Seq<char>) -> Result<(Seq<char>, Seq<char>), GitErrorView> {
    let pieces = split_on(l, '\t');
    if pieces.len() <= 1 {
        Err(GitErrorView::LineWithoutTab)
    } else if pieces.len() == 2 {
        Ok((pieces[0], pieces[1]))
    } else {
        Err(GitErrorView::LineWithSeveralTabs)
    }
}

/// The lines read in order; the first line that cannot be read decides the
/// error.
pub open spec fn parse_remote_lines(ls: Seq<Seq<char>>) -> Result<
    Seq<(Seq<char>, Seq<char>)>,
    GitErrorView,
>
    decreases ls.len(),
{
    if ls.len() == 0 {
        Ok(Seq::empty())
    } else {
        match parse_remote_lines(ls.drop_last()) {
            Err(e) => Err(e),
            Ok(v) => match parse_remote_line(ls.last()) {
                Err(e) => Err(e),
                Ok(x) => Ok(v.push(x)),
            },
        }
    }
}

/// What the text that `git ls-remote` printed lists; empty lines are skipped.
pub open spec fn ls_remote_listing(text: Seq<char>) -> Result<Seq<(Seq<char>, Seq<char>)>, GitErrorView> {
    parse_remote_lines(non_empty(lines(text)))
}

/// `r` holds what `expected` says: the same list, or the same error.
pub open spec fn listing_matches(
    r: Result<Vec<RemoteInfo>, GitError>,
    expected: Result<Seq<(Seq<char>, Seq<char>)>, GitErrorView>,
) -> bool {
    match (r, expected) {
        (Ok(v), Ok(w)) => v@.map_values(|i: RemoteInfo| i@) == w,
        (Err(e), Err(f)) => e@ == f,
        _ => false,
    }
}

pub open spec fn is_prefix(x: Seq<Seq<char>>, y: Seq<Seq<char>>) -> bool {
    x.len() <= y.len() && y.take(x.len() as int) == x
}

proof fn lemma_parse_error_stays(x: Seq<Seq<char>>, y: Seq<Seq<char>>)
    requires
        is_prefix(x, y),
        parse_remote_lines(x) is Err,
    ensures
        parse_remote_lines(y) == parse_remote_lines(x),
    decreases y.len(),
{
    if y.len() == x.len() {
        assert(y.take(x.len() as int) =~= y);
    } else {
        assert(y.drop_last().take(x.len() as int) =~= y.take(x.len() as int));
        lemma_parse_error_stays(x, y.drop_last());
    }
}

fn non_empty_strings(v: &Vec<String>) -> (r: Vec<String>)
    ensures
        views(r@) == non_empty(views(v@)),
{
    let mut r: Vec<String> = Vec::new();
    let mut i: usize = 0;
    while i < v.len()
        invariant
            i <= v.len(),
            views(r@) =~= non_empty(views(v@).take(i as int)),
        decreases v.len() - i,
    {
        proof {
            assert(views(v@).take(i + 1).drop_last() =~= views(v@).take(i as int));
            assert(views(v@).take(i + 1).last() == v@[i as int]@);
        }
        if v[i].as_str().unicode_len() > 0 {
            let ghost before = views(r@);
            r.push(v[i].clone());
            proof {
                assert(views(r@) =~= before.push(v@[i as int]@));
            }
        }
        i = i + 1;
    }
    proof {
        assert(views(v@).take(v.len() as int) =~= views(v@));
    }
    r
}

/// Reads the lines of `git ls-remote` output: each non-empty line is a
/// revision and a reference, parted by one tab.
pub fn parse_ls_remote(text: &str) -> (r: Result<Vec<RemoteInfo>, GitError>)
    ensures
        listing_matches(r, ls_remote_listing(text@)),
{
    let all = split_lines(text);
    let ls = non_empty_strings(&all);
    let ghost lv = views(ls@);
    proof {
        assert(lv == non_empty(lines(text@)));
    }
    let mut out: Vec<RemoteInfo> = Vec::new();
    let mut i: usize = 0;
    proof {
        assert(lv.take(0) =~= Seq::<Seq<char>>::empty());
        assert(out@.map_values(|x: RemoteInfo| x@) =~= Seq::<(Seq<char>, Seq<char>)>::empty());
    }
    while i < ls.len()
        invariant
            i <= ls.len(),
            lv == views(ls@),
            lv == non_empty(lines(text@)),
            parse_remote_lines(lv.take(i as int)) == Ok::<_, GitErrorView>(
                out@.map_values(|x: RemoteInfo| x@),
            ),
        decreases ls.len() - i,
    {
        proof {
            assert(lv.take(i + 1).drop_last() =~= lv.take(i as int));
            assert(lv.take(i + 1).last() == ls@[i as int]@);
        }
        let pieces = split_char(ls[i].as_str(), '\t');
        proof {
            assert(views(pieces@) == split_on(lv[i as int], '\t'));
        }
        if pieces.len() <= 1 {
            proof {
                lemma_parse_error_stays(lv.take(i + 1), lv);
                assert(lv.take(i + 1).take((i + 1) as int) =~= lv.take(i + 1));
                assert(lv.take(lv.len() as int) =~= lv);
            }
            return Err(GitError::LineWithoutTab);
        } else if pieces.len() == 2 {
            let ghost before = out@.map_values(|x: RemoteInfo| x@);
            let info = RemoteInfo { revision: pieces[0].clone(), reference: pieces[1].clone() };
            out.push(info);
            proof {
                assert(out@.map_values(|x: RemoteInfo| x@) =~= before.push(
                    (pieces@[0]@, pieces@[1]@),
                ));
            }
        } else {
            proof {
                lemma_parse_error_stays(lv.take(i + 1), lv);
                assert(lv.take(lv.len() as int) =~= lv);
            }
            return Err(GitError::LineWithSeveralTabs);
        }
        i = i + 1;
    }
    proof {
        assert(lv.take(ls.len() as int) =~= lv);
    }
    Ok(out)
}


/// How a failed command's exit code is reported: the code, or `None` when
/// the process was ended by a signal.
pub open spec fn status_text(code: Option<i32>) -> Seq<char> {
    match code {
        Some(c) => signed_decimal(c as int),
        None => "None"@,
    }
}

/// The non-empty lines of what git wrote on stderr, parted by spaces.
pub open spec fn stderr_summary(stderr: Seq<u8>) -> Seq<char> {
    join(non_empty(lines(utf8_lossy(stderr))), " "@)
}

/// What a run of `git ls-remote` gives: the listing it printed, or why it
/// failed.
pub open spec fn ls_remote_outcome(output: CommandOutput) -> Result<
    Seq<(Seq<char>, Seq<char>)>,
    GitErrorView,
> {
    if !output.success {
        Err(
            GitErrorView::CommandFailed {
                what: "git ls-remote failed with exit code "@ + status_text(output.code) + ":"@,
                stderr: stderr_summary(output.stderr@),
            },
        )
    } else {
        ls_remote_listing(utf8_lossy(output.stdout@))
    }
}

fn status_string(code: Option<i32>) -> (r: String)
    ensures
        r@ == status_text(code),
{
    match code {
        Some(c) => signed_decimal_string(c as i64),
        None => owned("None"),
    }
}

/// The command that lists the revisions `reference` names in the
/// repository at `url`.
pub fn ls_remote_command(url: &str, reference: &str) -> (c: GitCommand)
    ensures
        c@ == (
            seq!["ls-remote"@, "--refs"@, url@, reference@],
            "Failed to execute git ls-remote. Most likely it's not on PATH"@,
        ),
{
    let args = vec![owned("ls-remote"), owned("--refs"), owned(url), owned(reference)];
    proof {
        assert(views(args@) =~= seq!["ls-remote"@, "--refs"@, url@, reference@]);
    }
    GitCommand {
        args,
        spawn_failure: owned("Failed to execute git ls-remote. Most likely it's not on PATH"),
    }
}

/// Reads what a run of `git ls-remote` gave.
pub fn read_ls_remote(output: &CommandOutput) -> (r: Result<Vec<RemoteInfo>, GitError>)
    ensures
        listing_matches(r, ls_remote_outcome(*output)),
{
    if !output.success {
        let status = status_string(output.code);
        let stderr = decode_lossy(output.stderr.as_slice());
        let kept = non_empty_strings(&split_lines(stderr.as_str()));
        let mut what = concat("git ls-remote failed with exit code ", status.as_str());
        what.append(":");
        return Err(GitError::CommandFailed { what, stderr: join_strings(&kept, " ") });
    }
    let stdout = decode_lossy(output.stdout.as_slice());
    parse_ls_remote(stdout.as_str())
}

/// The reference of the branch `branch`.
pub open spec fn branch_reference(branch: Seq<char>) -> Seq<char> {
    "refs/heads/"@ + branch
}

/// The newest revision of `reference`, from a run of
/// `git ls-remote --refs url reference` (`None` when git could not be
/// started): exactly one line must name it. An error in listing the
/// repository is reported as the repository being unreachable.
pub open spec fn newest_revision(url: Seq<char>, reference: Seq<char>, output: Option<CommandOutput>) -> Result<
    Seq<char>,
    GitErrorView,
> {
    match output {
        None => Err(
            GitErrorView::Unreachable {
                url,
                cause: Box::new(
                    GitErrorView::NotStarted {
                        what: "Failed to execute git ls-remote. Most likely it's not on PATH"@,
                    },
                ),
            },
        ),
        Some(out) => match ls_remote_outcome(out) {
            Err(e) => Err(GitErrorView::Unreachable { url, cause: Box::new(e) }),
            Ok(listing) => if listing.len() == 0 {
                Err(GitErrorView::MissingReference { url, reference })
            } else if listing.len() > 1 {
                Err(GitErrorView::AmbiguousReference { reference })
            } else {
                Ok(listing[0].0)
            },
        },
    }
}

/// The newest revision of the branch `branch`: that of its reference, with
/// every error reported as the revision not being found.
pub open spec fn newest_branch_revision(url: Seq<char>, branch: Seq<char>, output: Option<CommandOutput>) -> Result<
    Seq<char>,
    GitErrorView,
> {
    match newest_revision(url, branch_reference(branch), output) {
        Ok(r) => Ok(r),
        Err(e) => Err(GitErrorView::NewestRevisionNotFound { url, branch, cause: Box::new(e) }),
    }
}

/// The view of an optional output.
pub open spec fn output_of(output: Option<&CommandOutput>) -> Option<CommandOutput> {
    match output {
        Some(o) => Some(*o),
        None => None,
    }
}

/// `r` holds what `expected` says.
pub open spec fn revision_matches(r: Result<Revision, GitError>, expected: Result<Seq<char>, GitErrorView>) -> bool {
    match (r, expected) {
        (Ok(v), Ok(w)) => v@ == w,
        (Err(e), Err(f)) => e@ == f,
        _ => false,
    }
}

/// Find the newest revision for a reference of a git repository, from what
/// `ls_remote_command(url, reference)` printed (`None` when git could not
/// be started).
pub fn find_newest_revision_for_ref(url: &str, reference: &str, output: Option<&CommandOutput>) -> (r: Result<
    Revision,
    GitError,
>)
    ensures
        revision_matches(r, newest_revision(url@, reference@, output_of(output))),
{
    let output = match output {
        Some(o) => o,
        None => {
            let cause = GitError::NotStarted {
                what: owned("Failed to execute git ls-remote. Most likely it's not on PATH"),
            };
            assert(cause@ == GitErrorView::NotStarted {
                what: "Failed to execute git ls-remote. Most likely it's not on PATH"@,
            });
            return Err(GitError::Unreachable { url: owned(url), cause: Box::new(cause) });
        },
    };
    let mut references = match read_ls_remote(output) {
        Ok(v) => v,
        Err(e) => return Err(GitError::Unreachable { url: owned(url), cause: Box::new(e) }),
    };
    let ghost listing = references@.map_values(|i: RemoteInfo| i@);
    if references.len() == 0 {
        return Err(GitError::MissingReference { url: owned(url), reference: owned(reference) });
    }
    if references.len() > 1 {
        return Err(GitError::AmbiguousReference { reference: owned(reference) });
    }
    let first = references.remove(0);
    proof {
        assert(first@ == listing[0]);
    }
    Ok(Revision(first.revision))
}

/// The command that `find_newest_revision` needs run: `git ls-remote` for
/// the branch `branch`.
pub fn newest_revision_command(url: &str, branch: &str) -> (c: GitCommand)
    ensures
        c@ == (
            seq!["ls-remote"@, "--refs"@, url@, branch_reference(branch@)],
            "Failed to execute git ls-remote. Most likely it's not on PATH"@,
        ),
{
    let reference = concat("refs/heads/", branch);
    ls_remote_command(url, reference.as_str())
}

/// Find the newest revision for a branch of a git repository, from what
/// `newest_revision_command(url, branch)` printed (`None` when git could
/// not be started).
pub fn find_newest_revision(url: &str, branch: &str, output: Option<&CommandOutput>) -> (r: Result<
    Revision,
    GitError,
>)
    ensures
        revision_matches(r, newest_branch_revision(url@, branch@, output_of(output))),
{
    let reference = concat("refs/heads/", branch);
    match find_newest_revision_for_ref(url, reference.as_str(), output) {
        Ok(r) => Ok(r),
        Err(e) => Err(
            GitError::NewestRevisionNotFound { url: owned(url), branch: owned(branch), cause: Box::new(e) },
        ),
    }
}

/// A failed lookup of a branch's newest revision is reported as not
/// finding it, around the reason; when git could not be started or listing
/// the repository failed, that reason is that the repository could not be
/// reached.
pub proof fn law_newest_revision_reported(url: Seq<char>, branch: Seq<char>, output: Option<CommandOutput>)
    ensures
        newest_branch_revision(url, branch, output) matches Err(e) ==> {
            &&& error_message(e) == "Failed to find newest revision for "@ + url + " ("@ + branch
                + ").\nAre you sure the repo exists and contains the branch "@ + branch + "?"@
            &&& error_cause(e) == newest_revision(url, branch_reference(branch), output).err()
        },
        (output is None || ls_remote_outcome(output->0) is Err) ==> (newest_branch_revision(
            url,
            branch,
            output,
        ) matches Err(e) && error_cause(e) matches Some(c) && error_message(c) == "Failed to reach "@
            + url),
{
}

/// When listing the repository finds exactly one entry, the newest
/// revision is that entry's revision, whole and unchanged, for the
/// reference and for the branch alike.
pub proof fn law_single_entry_is_newest(
    url: Seq<char>,
    branch: Seq<char>,
    output: CommandOutput,
    revision: Seq<char>,
    reference: Seq<char>,
)
    requires
        ls_remote_outcome(output) == Ok::<_, GitErrorView>(seq![(revision, reference)]),
    ensures
        newest_revision(url, reference, Some(output)) == Ok::<_, GitErrorView>(revision),
        newest_revision(url, branch_reference(branch), Some(output)) == Ok::<_, GitErrorView>(
            revision,
        ),
        newest_branch_revision(url, branch, Some(output)) == Ok::<_, GitErrorView>(revision),
{
}

/// When `git ls-remote` succeeds and prints one line, the revision on that
/// line is the newest revision of the branch, whole and unchanged.
pub proof fn law_printed_revision_is_newest(
    url: Seq<char>,
    branch: Seq<char>,
    output: CommandOutput,
    revision: Seq<char>,
)
    requires
        output.success,
        utf8_lossy(output.stdout@) == revision + "\t"@ + branch_reference(branch) + "\n"@,
        listable((revision, branch_reference(branch))),
    ensures
        newest_branch_revision(url, branch, Some(output)) == Ok::<_, GitErrorView>(revision),
{
    let entries = seq![(revision, branch_reference(branch))];
    law_ls_remote_round_trip(entries);
    let ls = entries.map_values(|e: (Seq<char>, Seq<char>)| ls_remote_line(e));
    assert(ls =~= seq![ls_remote_line(entries[0])]);
    assert(join(ls, "\n"@) == ls[0]);
    assert(ls_remote_text(entries) == utf8_lossy(output.stdout@));
}

/// A line of `git ls-remote` output: the revision, a tab, the reference.
pub open spec fn ls_remote_line(entry: (Seq<char>, Seq<char>)) -> Seq<char> {
    entry.0 + "\t"@ + entry.1
}

/// What `git ls-remote` prints for `entries`: one line each.
pub open spec fn ls_remote_text(entries: Seq<(Seq<char>, Seq<char>)>) -> Seq<char> {
    join(entries.map_values(|e: (Seq<char>, Seq<char>)| ls_remote_line(e)), "\n"@) + "\n"@
}

/// Whether an entry can be written on a line of `git ls-remote` output and
/// read back: no tab or line break in either part, and no carriage return
/// at the end of the line.
pub open spec fn listable(entry: (Seq<char>, Seq<char>)) -> bool {
    &&& !entry.0.contains('\t')
    &&& !entry.0.contains('\n')
    &&& !entry.1.contains('\t')
    &&& !entry.1.contains('\n')
    &&& (entry.1.len() == 0 || entry.1.last() != '\r')
}

proof fn lemma_listable_line(entry: (Seq<char>, Seq<char>))
    requires
        listable(entry),
    ensures
        !ls_remote_line(entry).contains('\n'),
        ls_remote_line(entry).len() > 0,
        strip_cr(ls_remote_line(entry)) == ls_remote_line(entry),
        parse_remote_line(ls_remote_line(entry)) == Ok::<_, GitErrorView>(entry),
{
    reveal_strlit("\t");
    let l = ls_remote_line(entry);
    assert(l == entry.0 + seq!['\t'] + entry.1);
    if l.contains('\n') {
        let k = choose|k: int| 0 <= k < l.len() && l[k] == '\n';
        if k < entry.0.len() {
            assert(entry.0[k] == '\n');
        } else if k > entry.0.len() {
            assert(entry.1[k - entry.0.len() - 1] == '\n');
        }
    }
    if entry.1.len() > 0 {
        assert(l.last() == entry.1.last());
    }
    lemma_split_concat(entry.0, entry.1, '\t');
    lemma_split_without_sep(entry.0, '\t');
    lemma_split_without_sep(entry.1, '\t');
    assert(split_on(l, '\t') =~= seq![entry.0, entry.1]);
}

proof fn lemma_parse_listable(entries: Seq<(Seq<char>, Seq<char>)>)
    requires
        forall|i: int| 0 <= i < entries.len() ==> listable(#[trigger] entries[i]),
    ensures
        non_empty(entries.map_values(|e: (Seq<char>, Seq<char>)| ls_remote_line(e)))
            == entries.map_values(|e: (Seq<char>, Seq<char>)| ls_remote_line(e)),
        parse_remote_lines(entries.map_values(|e: (Seq<char>, Seq<char>)| ls_remote_line(e)))
            == Ok::<_, GitErrorView>(entries),
    decreases entries.len(),
{
    let ls = entries.map_values(|e: (Seq<char>, Seq<char>)| ls_remote_line(e));
    if entries.len() == 0 {
        assert(ls =~= Seq::<Seq<char>>::empty());
        assert(entries =~= Seq::<(Seq<char>, Seq<char>)>::empty());
    } else {
        let front = entries.drop_last();
        assert forall|i: int| 0 <= i < front.len() implies listable(#[trigger] front[i]) by {
            assert(front[i] == entries[i]);
        }
        lemma_parse_listable(front);
        assert(ls.drop_last() =~= front.map_values(|e: (Seq<char>, Seq<char>)| ls_remote_line(e)));
        assert(ls.last() == ls_remote_line(entries.last()));
        assert(listable(entries[entries.len() - 1]));
        lemma_listable_line(entries.last());
        assert(front.push(entries.last()) =~= entries);
    }
}

/// What `git ls-remote` prints for a non-empty list of entries, read back,
/// is that list, when each entry can be written on a line and read back.
pub proof fn law_ls_remote_round_trip(entries: Seq<(Seq<char>, Seq<char>)>)
    requires
        entries.len() >= 1,
        forall|i: int| 0 <= i < entries.len() ==> listable(#[trigger] entries[i]),
    ensures
        ls_remote_listing(ls_remote_text(entries)) == Ok::<_, GitErrorView>(entries),
{
    reveal_strlit("\n");
    let ls = entries.map_values(|e: (Seq<char>, Seq<char>)| ls_remote_line(e));
    assert forall|i: int| 0 <= i < ls.len() implies !(#[trigger] ls[i]).contains('\n') by {
        assert(listable(entries[i]));
        lemma_listable_line(entries[i]);
    }
    law_split_join(ls, '\n');
    let text = ls_remote_text(entries);
    assert("\n"@ =~= seq!['\n']);
    assert(text == join(ls, "\n"@) + "\n"@);
    assert(text =~= join(ls, seq!['\n']) + seq!['\n'] + Seq::<char>::empty());
    lemma_split_concat(join(ls, seq!['\n']), Seq::<char>::empty(), '\n');
    let pieces = split_on(text, '\n');
    assert(pieces =~= ls.push(Seq::<char>::empty()));
    assert(pieces.drop_last() =~= ls);
    assert(ls.map_values(|l: Seq<char>| strip_cr(l)) =~= ls) by {
        assert forall|i: int| 0 <= i < ls.len() implies strip_cr(#[trigger] ls[i]) == ls[i] by {
            assert(listable(entries[i]));
            lemma_listable_line(entries[i]);
        }
    }
    assert(lines(text) == ls);
    lemma_parse_listable(entries);
}

} // verus!
