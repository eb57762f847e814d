# Dataverse Heavy Uploader — verified core

A library for a desktop application that uploads large batches of files to a
Dataverse dataset: it scans local sources, compares them with the files already
in the dataset, plans and runs the transfer with retries, pause, resume and
cancel, survives interruptions, and reports what happened.

## Layout

- `src/` — the verified library (Verus). Public functions state their
  results in `ensures`; where a result comes from an outside crate (a hash,
  the clock, a random identifier, a parsed URL), the contract states what
  that crate guarantees of it and what the library does with it. The laws of
  the library are public proof functions named `law_*`.
  - `domain/` — data types, errors and their messages, the session and item
    state machines.
  - `services/analyzer.rs` — the local/remote comparison and its summary.
  - `services/scanner.rs`, `services/bundle_service.rs` — what a scan counts
    and keeps; the names of files inside a ZIP bundle and of the bundle.
  - `services/dataverse_url.rs`, `services/dataverse_client.rs` — server URL
    normalization, request URLs, the meaning of every server reply, upload
    metadata and multipart plans.
  - `services/hashing.rs`, `services/clock.rs`, `services/ids.rs` — SHA-256
    checksums of file contents fed chunk by chunk, time stamps and fresh
    identifiers.
  - `services/retry.rs`, `services/transfer_engine.rs` — retry policy,
    transfer decisions, progress counters and the final report.
  - `services/session_store.rs`, `services/secrets.rs`,
    `services/reporting.rs`, `services/workflow.rs` — recovery and history
    rules, token keys and the session token copy, report files, and the rules
    of the user operations.
  - `text.rs` — string helpers with exact specifications.
- `tests/` — tests of the library.
- `app/` — the application around the library: SQLite storage, file system
  walks, ZIP writing, HTTP requests, the keychain and the transfer worker.
  It performs the input and output and asks the library for the decisions
  taken on what it reads.
