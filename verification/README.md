# bettr

bettr is a local issue tracker for work shared by people and agents. Its
rules are a Verus-verified library; the `bettr` command around it stores
projects and Issues in SQLite and serves a loopback-only web UI.

## Layout

- `src/` — the verified library:
  - `domain` — Issues, states and transitions, patches, decisions, references;
  - `app` — argument and request checks, context resolution, status lanes;
  - `store/` — what every write decides, and in what order its refusals
    come before anything is written: revisions, state changes and
    decisions (`writes`), claims and leases, relations and their graph checks, idempotency,
    audit fields and failure auditing, the JSONL audit chain (its lines
    written and read as JSON, hashed and verified), backups,
    schema identity and migrations, listing queries, batches;
  - `web` — request parsing, routing and the wait context of the web UI;
  - `output` — the human and JSON renderings;
  - `json` — JSON documents, read and written with `serde_json`;
  - `self_update` — reading release and commit responses and release
    manifests, checking checksums, archive listings and managed skills;
  - `cli`, `worktree`, `text`, `error`;
  - `laws` — proof functions for the laws that span several functions.
- `tests/` — tests of the library on concrete values.
- `app/` — the command: clap parsing, configuration files, SQLite, the
  socket, the clock, downloads and the file system. It hands the library
  plain values and prints what comes back. Times are nanoseconds since the
  Unix epoch, written as RFC 3339 text.
