# deva

Shared building blocks of the Deva tools, as a Verus-verified library.

- `src/` — the verified library: configuration defaults; the GitHub, Azure
  DevOps and Telegram clients as request builders (`*_call` functions that
  return the exact request and the rule for reading its status) and response
  rules; the bot command language (`commands`); webhook dispatch; the
  scaffolding generator; text helpers (decimal numbers, whitespace words,
  `u32` parsing) and base64/UTF-8 decoding.
- `app/` — the I/O around it: sending requests with reqwest, the axum
  webhook server, TOML configuration files, logging, and reading/writing
  template files.
- `tests/` — tests of the library.
