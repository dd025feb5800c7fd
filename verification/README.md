# rust_log_etl

A log ETL tool: it reads log lines (nginx combined format, with the standard
or a custom pattern; JSON, with optional key renaming; or any pattern with
named groups), runs them through a chain of filters and enrichers (hour or
other time format, URL parts), and writes the kept records as JSON, CSV, raw
lines or delimited fields.

- `src/` is the library, verified with Verus: the parsers, the filters, the
  enrichers and their chain, the output formatting, the per-line bookkeeping of a run, and
  the choice of parts from a configuration. Regular expressions (`regex`),
  dates (`chrono`) and JSON (`serde_json`) are called through small trusted
  wrappers whose contracts say what the library relies on.
- `app/` is the command-line program: argument parsing (`clap`), reading the
  TOML configuration (`serde`, `toml`), the async file I/O (`tokio`), the
  dead-letter queue, and the floating-point comparisons that numeric filters
  ask for.
- `tests/` runs the library on concrete inputs.
