# clipwallet

A keyboard-driven, multi-slot clipboard manager for macOS, with its core
verified by Verus.

- `src/` — the verified library:
  - `static_store.rs`: nine addressed slots (static mode) and the Tab cursor
    that skips empty slots;
  - `ram.rs`: the in-memory state of both modes, including the recency ring
    of dynamic mode (at most fifty entries, newest first, idle cursor reset);
  - `hotkey/chord.rs`: which Cmd+Opt chords fire which actions;
  - `hotkey/grabber.rs`: what the keyboard event tap does with each event;
  - `engine.rs`: how each action changes the store and which clipboard work
    (capture, sync, paste) follows;
  - `clip.rs`: clipboard payloads and the choice of payload on capture.
- `app/` — the macOS service around it: the Core Graphics event tap, key
  injection, the system clipboard and the command line.
- `tests/` — tests of the library on concrete values.
