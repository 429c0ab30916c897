# pg-collect

Collectors that read package indexes, registries and advisories, and write what
they find as N-Triples or N-Quads. The library is written in Verus: every function
states what it returns and what it writes, and the statements are proved.

## Layout

- `src/` is the library. It works on values that are already there: bytes of an
  index, replies of a service, rows of a query. A writer holds the statements
  written so far, and every emitting function says which statements it adds.
  - Writing: `ntriples`, `uris`, `forge`, `ir`, `emit/`.
  - Distributions: `alpine`, `arch`, `buildroot`, `debian`, `collect_sources`,
    `collect_salsa`, `collect_opkg_index`, `collect_openwrt_upstream`,
    `collect_spec`, `spec_file`, `ecosystem`, `deps`.
  - Registries: `cargo_collect`, `chocolatey`, `conda`, `cpan`, `cran`.
  - Advisories: `collect_bodhi`, `collect_glsa`.
  - Derived graphs: `derive_releases`, `derive_comparison`, `staging`, `rpmver`.
  - Caches and checkpoints: `cache`, `cached_fetch`, `checkpoint_generation`.
  - Texts and numbers: `text`, `split`, `textmap`, `order`, `number`, `percent`.
  - Errors, each with its kind: `failure`.
  - Outside crates, each behind functions whose contracts are believed:
    `archive` (flate2, tar), `calendar` (chrono), `casing` and `text` (std),
    `digest` (sha2, hmac), `pattern` (regex), `percent` (percent-encoding),
    `xml` (quick-xml).
- `tests/` runs the library on concrete values.
- `app/` is ordinary Rust around the library: clients, files, clocks and graph
  stores. Where outside work and decisions alternate, the library offers a
  function from a state and an event to the next state, and `app/` runs the loop.

## How contracts are written

A writer is modelled by a `Sheet`: the log of its statements, the definitions
written once, and its graph. A function `emit_x` ensures that the sheet after it is
`with_x` of the sheet before it, and that it returns how many statements were
added. The text of a sheet is `text_of(rendered(log, graph))`.
What an outside function computes is named by a function without a body, and the
logic that follows the call stands in a function that takes the result as an
argument.
