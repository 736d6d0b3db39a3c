# winrmpc

The verified core of a desktop client for the Music Player Daemon (MPD).
What the client decides lives here as Verus code with contracts; drawing
and talking to servers is left to the shell around it.

- `src/ui/shortcut.rs` — keyboard shortcuts, gated so that a key meant as
  text is never taken as a command.
- `src/ui/theme/` — the dark and light palettes and the active mode.
- `src/ui/widgets/` — row highlighting, links, icons, the player bar.
- `src/ui/views/` — what each view lists and the captions it shows.
- `src/ui/app/` — the state machines: navigation, toasts, the album-art
  fetch queue, Snapcast controls, the server list, library ordering,
  playback and playlist decisions. `state.rs` ties them together: the
  app's state, and for each event the next state and the work the shell
  performs (`step`, `tick`, `enter_view`, `initial_state`); `lyrics.rs`
  decides when lyrics and biographies are looked up, `art_fetch.rs` what
  each stage of a cover lookup reports and stores, and `history.rs` how
  the play history is kept.
- `src/text.rs` — decimal numbers, trimming, parsing and joining text with
  the meaning the standard library gives them.
- `app/` — the shell: toolkit types, the clock, files and the desktop.
- `tests/` — examples run against the compiled library.
