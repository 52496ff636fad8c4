# hooklings

Developer preflight checks driven by cruxx pipelines, with the decision
logic verified by Verus.

- `src/` — the verified library:
  - `config` — defaults, the overlay of the project file on the global
    file (`merge`, `load`), and where both files are looked for;
  - `emit` — status names and labels, the markdown table, the JSON report,
    and how pipeline steps become check results;
  - `handlers` — what each built-in check reports, given what its command
    or query returned;
  - `json`, `text` — building and reading `serde_json` values, decoding
    process output, decimal numbers.
- `app/` — the `hooklings` program: command line, file and process I/O,
  the handler registry and the SQLite query.
- `tests/` — tests of the library on concrete values.
