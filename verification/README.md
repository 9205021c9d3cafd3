# restream

The rules of a live restreaming server and of its test harness, as a Verus library: what is decided,
parsed, planned and reported is executable Rust with contracts that Verus proves.

## Layout

- `src/domain/`: audio routing, transcode profiles, stages, SRT ingest policy, ingest security
- `src/reconcile.rs`, `src/runtime.rs`: starting, retrying and stopping outputs; settings; ids
- `src/events.rs`, `src/diag/`: the event log, and the checks of a pipeline
- `src/db.rs`, `src/ffmpeg_extract.rs`, `src/sbom.rs`, `src/mcp.rs`, `src/matrix.rs`: queries,
  installing the embedded binary, the bill of materials, and the command lines of the tools
- `src/harness/`: plans of test scenarios, what is made of what they see, and their records
- `src/text.rs`, `src/number.rs`, `src/path.rs`, `src/json.rs`, `src/record.rs`: what all of these
  are written with
- `app/`: the programs around the library: sockets, processes, files, the database, the clock
- `tests/`: scenarios with concrete values

## What is taken on trust

Functions marked `#[verifier::external_body]` call other crates or the standard library; the comment
above each says what is claimed of the call. They are few: SHA-256 from `sha2`, reading and writing
JSON with `serde_json`, the clock of `chrono`, the channels of `tokio`, and appending, upper case,
quoting and decoding of text from the standard library.

Measurements that are floating-point numbers enter the library as text, together with the whole
numbers around them where they are compared.
