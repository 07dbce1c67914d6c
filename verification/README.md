# rusty_extract

The decision logic of a universal archive extractor for Windows
(UniExtract), written in Verus: which helper program to run for a format
and with which arguments, where the output goes, how a helper's output
is read, and what the GUI's windows, dialogs and tray decide. Every
executable function in `src/` carries a contract that Verus proves,
except two trusted items in `src/text.rs` whose contracts Verus takes
as given: `to_lower`, which calls `str::to_lowercase` (its result is
named `lowercase`), and the specification of `String::push`.

- `src/` — the verified library. `text` holds the string primitives the
  other modules state their contracts with; `extract` the per-format
  helper invocations and the format table; `outdir`, `file_arg`, `ini`,
  `password_search`, `log_eval` and the rest the extraction pipeline's
  rules; `gui` the window, dialog and tray decisions; `command_line` the
  command-line run.
- `tests/` — tests on concrete values, run against the compiled library.
- `app/` — the program: argument handling, disk and process work, the
  `eframe` window, the tray icon and the Windows queries, and the few
  measurements made in floating point.
