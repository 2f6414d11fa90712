# keyrx_daemon

The decision logic of a keyboard remapping daemon, written in Verus and
proved against its contracts.

- `src/keys.rs` — the platform-independent key codes and key events.
- `src/platform/` — device, tray and platform errors; the evdev (Linux),
  virtual-key (Windows) and CGKeyCode (macOS) key tables with their
  round-trip laws; held-key bookkeeping of output devices; a recording output device for
  exercising the pipeline; Windows device
  paths (serials, vendor/product IDs), hook, injection and raw-input
  decisions; and the platform domain model (value objects, aggregates
  with lifecycle laws, domain services).
- `src/processor/` — processing-loop decisions, state-transition contexts
  and the structured JSON log lines.
- `src/services/` — settings rules, configuration limits and fingerprints,
  device listing, simulation key names and scenarios.
- `src/test_utils/` — virtual device errors, device-search decisions and
  the buffering of captured events.
- `src/cli.rs`, `src/text.rs` — text helpers (truncation, number
  rendering, splitting, hexadecimal parsing).
- `tests/` — the test suite.
- `app/` — the command line around the library: device listing, event
  recording, settings file I/O, log output, and recovery of poisoned
  locks (std's locks may panic or never return when the calling thread
  already holds them, which no contract over them can exclude).

Two collections are held in a form that Verus can reason about:

- The Windows device table is a `HashMap` from raw input handle to device,
  owned by its user and changed through `&mut self`; sharing it behind a
  lock between clones is left to the caller, since a std lock cannot be
  reasoned about here.
- The keys an output device holds down are a `HashSet` of their evdev
  codes, seen as a set of keys.  vstd specifies `HashSet` for keys whose
  hashing it knows, such as `u16`, but not for the library's own key
  type; the evdev table is one-to-one, so a code names its key exactly.
