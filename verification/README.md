# cosmic_browser

A tabbed web browser for the COSMIC desktop, built around a library whose
logic is proved with Verus.

## Layout

- `src/` — the verified library.
  - `text.rs`: character-level string operations (prefix test, scheme part,
    `%s` replacement, decimal notation) with exact contracts over `Seq<char>`.
  - `urls.rs`: percent-encoding (stated byte by byte over the UTF-8 encoding)
    and the scheme/host that the `url` parser reads, behind two trusted
    wrappers.
  - `browser.rs`: address normalisation, the scheme allowlist, the handlers a
    web view calls (navigation, favicon, injected scripts), the per-tab record
    and the multi-tab engine, with laws about them.
  - `ui.rs`: the window's state and its `update` step, which returns what the
    engine and the progress display are to do; laws about new tabs, closing,
    loading and the address bar.
  - `settings.rs`, `settings_ui.rs`, `sidebar.rs`, `ipc.rs`: settings with
    their defaults and search engines, the settings page's messages, sidebar
    entries, and web-view events.
- `tests/` — tests of the library on concrete values.
- `app/` — the program: the libcosmic window and widgets, the wry/WebKit web
  views, the tokio event channel, and the JSON settings file. It carries out
  what the library decides.
