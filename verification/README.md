# devtools

Developer tools for the KDE desktop: a KRunner plugin that answers queries such as
`uuid`, `r16`, `now`, a timestamp or a JSON document, and a GUI worker whose web view
hosts the JSON workbench, data conversion, OCR, barcodes, image tools, metadata and
colour pages.

The library is written in Verus, and Verus proves each function against its contract.
Most contracts state the result exactly. Where a result depends on the clock, the
machine's time zone or a random number generator, the contract states what holds of
every outcome: a local time is the moment rendered with its row's pattern at some
offset under a day, a random string has the requested length and alphabet. Where an
outside crate computes a result (chrono's calendar, serde_json, the url parser, the
hotkey parser, revelo), the contract names that result and states what the library
does with it; the texts of outside error messages are carried, not stated.

- `src/text.rs` — text handling shared by the rest: trimming, splitting, lines,
  decimal numbers, ordering.
- `src/model.rs`, `src/tools.rs` — request contexts, settings, and the tools that
  prepare a payload for the web view.
- `src/runner/` — the KRunner plugin: query parsing, matches and their ids, the
  values a match copies, and the step machine behind `Match` and `Run`.
- `src/worker/` — the GUI worker: tool registry, settings and start-up decisions,
  global shortcuts, request checks for the helper programs and the reading of their
  output, metadata, quick input history and geometry, and desktop integration texts.
- `app/` — the programs around the library: D-Bus, clipboard, files, helper
  processes, and the parts computed in floating point.
- `tests/` — tests of the library on concrete values.
