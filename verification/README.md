# rayhunter (verified core)

The decision and decoding logic of the rayhunter cellular-monitoring tools,
written in Verus with its contracts proved.

- `src/text.rs` — line splitting, whitespace fields, trimming, substring
  search, replacement and decimal parsing/printing over character sequences.
- `src/diag.rs`, `src/gsmtap.rs`, `src/parser.rs` — diagnostic log records,
  GSMTAP frames, and the conversion between them, with its laws.
- `src/connection.rs` — what the installer reads from a device shell (`df`,
  probe replies, `readlink`) and the commands it sends.
- `src/setup.rs`, `src/setup_laws.rs` — the data-directory setup as a state
  machine, and what holds of every run of it.
- `src/display.rs` — framebuffer pixel encoding and the keep-awake rules.
- `app/` — the asynchronous device, file and task plumbing around the
  library, and the floating-point timing-advance analyzer.
