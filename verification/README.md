# account_store

A store of accounts for a desktop client that can log in as any of them: which
accounts there are, which one is active, and which are masked. One writer applies
updates in turn, writes each to disk before it becomes visible, and publishes a
snapshot that readers use without disk I/O.

- `src/` is the verified library.
  - `types` holds the data and its views, `error` the failures and their messages.
  - `model` says what each operation makes of a store; `storage` holds the
    operations.
  - `writer` holds the rules of the single writer, `files` the steps by which
    files are read and replaced, `paths` where they lie, `clock` the time.
  - `laws` and `file_laws` state and prove what the operations, the writer and the
    steps on the files promise together.
- `app/` is ordinary Rust around it: the thread, the queue, the lock and the files.
- `tests/` runs the library.
