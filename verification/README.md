# pjsua_rust

A Rust binding for PJSIP's PJSUA user-agent API whose core is verified with
Verus.

## Layout

- `src/` — the verified library. Its functions state their behaviour in
  `requires` / `ensures` and Verus proves them, except a few small trusted
  functions that call the `toml` crate, tokio's channel and std text
  functions: their contracts are assumed. Where an outside call decides a
  result (whether a channel accepts an event), the contract says what holds
  whatever it answers.
  - `types.rs` — typed IDs, the SIP/SRTP/100rel enumerations with their
    native codes and names, call and account records, and the account URIs.
  - `config.rs` — decoding of the TOML configuration (defaults, required
    keys, error texts); the text is parsed by the `toml` crate.
  - `account.rs` — the native account settings an `AccountConfig` stands for.
  - `session.rs` — the decisions of the user-agent session: start-up
    sequence, transaction timers, DNS resolver updates, transport settings,
    account removal with retries, and records built from PJSUA's reports.
  - `event.rs` — `SipEvent` values built from callback data, text from C
    buffers, and the event sink around a tokio channel.
  - `media_port.rs`, `tonegen.rs` — custom audio ports, conference-slot
    bookkeeping, and tone/DTMF playback requests.
  - `logging.rs`, `error.rs`, `version.rs`, `text.rs` — log-line handling,
    error values, version decoding, decimal text.
- `app/` — the native glue: the bindgen FFI to PJSIP, the C callbacks, the
  `PjsuaApp` singleton, and file loading. It performs each PJSUA call and
  hands the outcome to the library.
- `tests/` — tests of the library.

Building `app/` needs the PJSIP headers and library (through bindgen).
