# quotax

QuotaX is a desktop widget that shows the Kimi Code quota. This crate is its
core, written in Verus: every decision the widget makes is a verified function
with a contract, and the program around it only performs I/O.

## Layout

- `src/` — the verified library
  - `credentials.rs` — the credentials shared with the Kimi Code CLI, token
    replies, staleness, the OAuth host, refresh errors
  - `auth.rs` — the device-code login (RFC 8628): reply classification, the
    token-polling state machine, the single login slot
  - `usage.rs` — the `/usages` reply and the rows the widget shows
  - `poller.rs` — one fetch as a state machine (refresh, 401 retry, deferred
    credential write-back, when to ask for a login) and the polling schedule
  - `tray_icon.rs` — choosing and decoding the over-quota tray icon (`ico`)
  - `bmp.rs` — whether a palette BMP entry's pixels stay within its colour
    table (`ico` panics on one that does not)
  - `widget.rs` — window sizes, settings, where the window is placed
  - `json.rs`, `text.rs` — JSON values and the string work the rest needs
- `tests/` — tests on concrete values
- `app/` — the Tauri program: windows, tray, files, HTTP, serde copies of
  the library's types

Laws that span several functions are public proof functions next to the
functions they speak of (for example `fetch_always_progresses` and
`deferred_write_dropped_only_when_settled` in `poller.rs`).
