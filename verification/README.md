# action-pull-request-merge

A GitHub / Gitea Action that merges a pull request when a workflow runs,
written as a verified library plus a thin program around it.

- `src/` is the library, verified with Verus:
  - `inputs` reads and checks the action inputs (`github-token`, `number`,
    `merge-method`, `allowed-usernames-regex`, `filter-label`,
    `merge-title`, `merge-message`);
  - `context` interprets the runner's `GITHUB_*` / `GITEA_ACTIONS`
    variables and detects Gitea;
  - `action` is the merge workflow as a state machine (`advance`) and its
    driver (`run`), with the workflow's laws; `run` is stated as a replay
    of the state machine on the client's replies (`run_spec`): the calls
    it makes through its `ClientSession` are exactly the replay's
    requests, and the lines it logs are the replay's lines;
  - `github_client` and `gitea_client` compute what goes on the wire:
    request paths, merge bodies, label-name encoding, status handling;
  - `logger` formats workflow commands and hands them, one per line, to
    standard output or an in-memory buffer;
  - `pattern` and `text` hold the regex bindings and string helpers.
- `app/` is the program: it reads the environment, performs the HTTP
  requests with `octocrab` on a `tokio` runtime, and sets the exit code.
- `tests/` exercises the library on concrete values.
