# dile

Hold a key, speak, let go: Turkish-first dictation. This crate is the part of Dile whose
behaviour is stated in `requires` / `ensures` contracts and proved with Verus.

## Layout

- `src/` — the verified library.
  - `capture/` — the capture stage after conversion: the pre-roll ring, the recording cap,
    the speech tracker, device names and the ring size between callback and worker.
  - `engine/` — the supervisor's wake-up queue, its tier and restart decisions, the engine
    states the tray and panel show, and the first-run probe's scoring.
  - `settings/` — the settings document, its validation, what a replacement changed, and
    the checks the settings window runs.
  - `i18n.rs` — the catalogue, locale resolution and `{name}` interpolation.
  - `panel.rs`, `paste.rs`, `session.rs`, `tray.rs`, `platform/` — the review card, the
    transfer into the target window, the hotkey session, the tray icon and the per-platform
    decisions.
  - `cli.rs` — the grammar of `dile transcribe` and the tier it runs on.
- `tests/` — tests through the public interface.
- `app/` — the `dile transcribe` command and the runtime around the library: WAV reading,
  resampling, the level meter and voice detector, the capture worker thread, the settings
  file on disk and the Linux virtual keyboard.
