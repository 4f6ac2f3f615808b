# speake_rs

A local text-to-speech daemon with a Speech Dispatcher bridge, whose decision
logic is a Verus-verified library.

- `src/` — the verified library: text helpers (`text`), model variants
  (`model`), XDG paths (`paths`), the daemon protocol (`protocol`), the
  configuration and voice map (`config`), Speech Dispatcher input handling
  (`spd`), profiles (`profile`), the per-request synthesis state machine
  (`synth`), daemon decisions (`daemon`), client decisions and the
  voice-attempt state machine (`client`), and HTTP-mode decisions (`http`).
- `app/` — the programs around it: file, socket and HTTP I/O, the TTS model,
  command-line parsing, and the serialized forms of the library's types.
- `tests/` — tests of the library.
