# rptadv_samplerate_adapter

The decisions behind a versioned, mono-only libsamplerate adapter's C ABI,
verified with Verus.

- `src/` — the verified library: status codes and quality selectors
  (`status`), the exact ratio check on a binary64 bit pattern (`ratio`), the
  `create` decisions and the `Converter` type (`converter`), the `process` and
  `reset` decisions (`process`), the published identity (`descriptor`), and the
  end-to-end outcome of each entry point with the properties proved of it
  (`outcome`).
- `app/` — the C ABI itself: raw pointers, the libsamplerate bindings and the
  exported descriptor. Each entry point turns its arguments into plain values,
  asks the library what to do, makes the native call the library names, and
  hands the answer back.
- `tests/` — the adapter's scenarios, run against a fake libsamplerate backend.
