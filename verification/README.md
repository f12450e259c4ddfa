# swap_rescue

A tool that rebuilds and broadcasts the rescue transaction of a Boltz swap
whose local state was lost. The decisions of the tool are a Verus-verified
library; the window, file dialogs and network calls are a thin program
around it.

## Layout

- `src/text.rs` — Unicode whitespace, trimming, whitespace tokens, joining,
  decimal numbers and `u64` parsing, each against its specification.
- `src/words.rs` — the English BIP39 word list: membership and prefix
  suggestions.
- `src/chain.rs` — networks, how a provider config names them, which
  addresses belong to them, fees and Electrum connections.
- `src/config.rs` — the provider config and the rules a usable one follows.
- `src/rescue.rs` — which rescue a config asks for and its summary.
- `src/gui/` — the window's state machine (`app.rs`), its transition
  specification (`step.rs`), what the window shows (`display.rs`) and the
  properties that hold across events (`laws.rs`).
- `app/` — the iced window, file dialogs, YAML parsing and the Boltz/Electrum
  calls that build and broadcast transactions.
- `tests/` — tests of the library on concrete values.
