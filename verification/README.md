# wsprrs-web

A web dashboard for WSPR (Weak Signal Propagation Reporter) spots stored in
ClickHouse: a world map, a filterable spot table, aggregate statistics, and a
live stream of new spots.

## Layout

- `src/` — the verified library (Verus). Every function carries a
  `requires`/`ensures` contract over mathematical models, and the properties
  that span several functions are stated and proved as public proof
  functions (`lemma_*`).
  - `text.rs` — character classes, decimal printing and parsing, trimming and
    comma splitting, upper-casing.
  - `models/` — the spot filter, the band table with its colours, Maidenhead
    locator decoding (in 1/48ths of a degree), statistics and band summaries.
  - `db/queries.rs` — SQL text for every query (with input sanitising) and
    the per-band aggregation of query results.
  - `cache.rs` — the TTL cache and its key normalisation.
  - `config.rs` — configuration from environment values.
  - `display.rs` — count, time and table-cell formatting.
  - `live.rs` — the live-stream connection state machine (reconnect with
    exponential backoff).
  - `panel.rs` — the filter panel's state machine.
  - `debounce.rs` — debouncing of filter edits.
  - `server.rs` — default windows, cache keys and the live-poll watermark.
- `tests/` — tests of the library on concrete values.
- `app/` — the program around the library: the Axum/Leptos server, server
  functions, ClickHouse round trips, the UI components, and the
  floating-point geometry (great-circle distances, degrees).
