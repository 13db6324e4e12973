# uveddi

The decision-making core of the uveddi architectural analysis tool, written
in Verus: each public function carries a contract, and Verus proves the code
against it.

## Layout

- `src/` — the verified library.
  - `cache/` — the incremental analysis cache: an LRU cache of per-file
    results (from the `lru` crate) with dependency-driven invalidation,
    time-to-live expiry, memory-budget eviction and statistics.
  - `chaos/` — chaos-engineering settings, experiments and fault injection
    points with their trigger counts.
  - `cli/` — the commands: argument checks, help texts and error
    suggestions, the CI quality check, project detection for `init`,
    configuration validation output.
  - `community/` — members, roles and activities, stored times, JSON
    columns, analytics.
  - `config/` — the configuration, its range checks, its construction
    from environment values, and the configuration validator.
  - `tools/` — a dependency-cycle finder and the helpers of the
    benchmarking and demonstration programs.
  - `text.rs`, `numeric.rs`, `paths.rs`, `time.rs` — strings, IEEE-754
    fractions held as bit patterns, paths and time spans.
  - `json.rs` — parsed JSON documents as plain values, and field lookup.
- `app/` — the layer around the library: clap argument types, TOML and
  environment loading, file-system, process and terminal probes, and the
  figures reported as floating-point numbers.
- `tests/` — tests of the library on concrete values.
