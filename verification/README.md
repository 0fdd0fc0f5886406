# chathub_desktop

The settings and shell logic of a tray-resident desktop client that hosts
several chat services (ChatGPT, DeepSeek, Grok, Gemini, Qwen, Doubao), written
in Verus with its behaviour stated in contracts and proved.

- `src/text.rs` — string helpers over the `Seq<char>` view: ASCII
  lower-casing, substring and prefix tests, Unicode white-space trimming.
- `src/models.rs` — model identifiers, their default pages, and `ModelUrls`,
  the page remembered for each model.
- `src/history.rs` — bounded, most-recent-first histories without repeats.
- `src/proxy.rs` — normalisation of a typed proxy address (the `url` crate
  parses it).
- `src/settings.rs` — `AppSettings`, and how settings of older releases and
  loose stored values carry over.
- `src/shell.rs` — tray menu contents, window toggling, the navigation
  policy of the main window, tray commands (model switching opens the page
  remembered for the model, always-on-top, update page), and the settings windows (their
  query strings are percent-encoded by the `urlencoding` crate).
- `app/` — the Tauri application around the library: stores, files, windows.
