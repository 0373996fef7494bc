# waken_reporter

The core of the Waken-Wa reporter client: it reports the foreground
application, the window title and the media that plays to a Waken-Wa site,
mirrors this device's activity as a Discord presence, and keeps the
client's settings.  The library is written in Verus: the public functions
state their behaviour in their contracts, and Verus proves the code
against them.  What reads the clock or the host name states nothing of
the reading itself; the computation on a reading is stated in a function
that takes it as an argument.

- `src/` — the verified library: the JSON model, text helpers, settings
  and their validation, the reporter's turn-by-turn decisions and state,
  the Discord sync's decisions and state, the answers of the user
  interface's commands, and what the platform readers make of the output
  of `xprop`, `gdbus`, `kdotool`, `playerctl`, the macOS media adapter,
  the Windows media session and the Android collectors.  `src/laws.rs`
  holds the properties that span several calls.
- `app/` — the runtime around it: the state file, HTTP requests, the
  worker threads, the Discord IPC socket, and the Linux programs and files
  the readers consult.
- `tests/` — tests of the library on concrete values.

Outside crates are called from the library through a few trusted
wrappers (Base64, the RFC 3339 parser, UUID formatting, image decoding,
the host name, the clock); their doc comments say what is assumed of each.
