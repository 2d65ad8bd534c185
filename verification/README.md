# meilisearch_bridge

The verified core of a Node.js bridge to the Meilisearch engine (`milli`).

- `src/` — the library, checked by Verus:
  - `task.rs`: the task lifecycle (enqueued → processing → succeeded/failed),
    uid allocation, task file naming and uid recovery from stored files, with
    the lifecycle laws.
  - `index.rs`: NDJSON document intake, paging windows, attribute projection,
    the id a hit is reported under, and the details tasks report.
  - `json.rs`: the `serde_json` calls the library makes, with their contracts.
  - `engine.rs`: which directory entries are indexes, create/delete checks.
  - `handle.rs`: index handles that refuse use once disposed.
  - `errors.rs`: error codes, their statuses and messages.
  - `text.rs`: decimal rendering, `u32` parsing, trimming and line splitting.
- `tests/` — tests of the library.
- `app/` — the N-API shell: classes exposed to JavaScript, engine calls, file
  and thread plumbing.
