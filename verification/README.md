# lon

The logic of `lon`'s git and forge handling, verified with Verus.

- `src/text.rs`: splitting, joining, line breaking, trimming, and decimal
  numbers, each against a specification of the std behaviour it follows.
- `src/decode.rs`: UTF-8 decoding of what git prints, through std.
- `src/git.rs`: revisions, users, `git ls-remote` output and the newest
  revision of a branch, with the error texts.
- `src/session.rs`: the multi-command git operations (last modification
  time, history between revisions, add, commit, current ref, checkout,
  force push) as a state machine from command output to next command or
  result.
- `src/header.rs`: header values, made only by the http crate's parser and
  paired with the bytes they hold.
- `src/forge.rs`, `src/gitlab.rs`, `src/github.rs`: HTTP statuses, the
  authorization header, and the requests that open and label a pull
  (merge) request, with the decision on each answer's status.
- `app/`: the I/O around the library: running git, temporary directories,
  environment variables, HTTP and JSON.
