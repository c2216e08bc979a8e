# pomock

A terminal Pomodoro timer with two task lists, written as a Verus-verified library and a
thin terminal program around it.

- `src/` is the library. Every function there is verified against its `requires` /
  `ensures` contract, except the small wrappers marked `#[verifier::external_body]` that
  make the calls into std, `directories` and `ratatui`: their contracts are believed, not
  proved, and each doc comment says what is claimed. The laws of the library (what every
  transition keeps, what one call undoes, what survives being written out and read back)
  are public proof functions.
  - `timer`, `tasks`: the session timer and the two task lists, each with an abstract model.
  - `app`: the application state machine (actions, clicks, ticks) and its laws.
  - `config`, `settings`: validated configuration, what stored configuration entries read
    back as, and the settings overlay.
  - `input`, `runtime`, `effects`: key mapping, event-loop decisions and the side effects
    an outcome asks for.
  - `ui`: the texts of the interface, hit testing, help wrapping, the footer's metrics and
    the clock's glyph scale.
  - `persistence`, `cli`: file locations (held in the operating system's bytes), task-file
    checks, error texts and arguments.
- `app/` is the program: terminal drawing with ratatui, file I/O with serde and toml,
  notifications and sound. It hands the library plain values and performs the effects
  that the library decides.
- `tests/` exercises the library on concrete values.
