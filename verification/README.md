# lazybucket

A lightweight self-hosted object store: buckets of objects kept as files on
disk, with their metadata in SQLite, behind a small HTTP API.

- `src/` is the verified library: where an object's file lives
  (`storage`), the credential check of the API (`auth`), the record an upload
  stores and the listings built from records (`records`, `digest`), the HTTP
  statuses (`status`), and the decisions of every request handler as a small
  state machine (`flow`): which storage or database step comes next, and what
  the request answers once a step has ended.
- `app/` is the server: configuration from the environment, the SQLite
  queries, file I/O, and the axum handlers, which run the steps that `flow`
  asks for and hand back how each one ended.
- `tests/` exercises the library on concrete values.
