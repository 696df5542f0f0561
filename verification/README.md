# grok_build

User-facing text and third-party payload handling for the Grok Build terminal client, verified
with Verus.

- `src/` is the verified library. Every renderer states its output as a sequence of characters,
  and every rewrite of a payload states the document that comes out.
  - `locale` — catalogs, locale selection, lookup and `{placeholder}` expansion.
  - `disk_usage`, `worktree`, `doctor_human`, `doctor_format`, `startup_failure`, `models`,
    `mode_support`, `share`, `version_mismatch`, `release` — one module for each surface.
  - `diagnostics`, `render`, `tally`, `text` — what the surfaces share.
  - `third_party`, `chat_messages`, `json`, `number` — payloads of third-party gateways.
  - `endpoint_trust` — which endpoints are first-party.
- `app/` is ordinary Rust around it: files, streams, process-wide state, typed parses.
- `tests/` runs the library with the real outside crates.

Widths, wrapping, calendar dates, URLs and JSON come from `unicode-width`, `textwrap`, `chrono`,
`url` and `serde_json`. Each call stands behind one declaration that says what is claimed of it.
