# tokiodoshi

The core of a menu-bar pomodoro timer, verified with Verus.

- `src/timer_machine.rs` — the work-session state machine (`Idle`, `Work`,
  `Paused`), specified by the transition functions of `MachineView`;
  `src/timer_laws.rs` — what holds across its operations.
- `src/timer_state.rs`, `src/settings.rs`, `src/session.rs` — the shared
  data model; `src/error.rs` — the error type and its messages.
- `src/tray.rs` — the `MM:SS` title, icons, menu entries and event channels.
- `src/audio.rs` — which volume a name selects and when sound may play.
- `src/persistence.rs` — the history database schema.
- `app/` — the Tauri shell: commands, menu bar, store, ticker and rodio
  playback (not verified).

Wall-clock instants are nanoseconds since the UNIX epoch.
