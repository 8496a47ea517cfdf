# Subpipe

A subscription converter for proxy clients: it reads a subscription body
(Base64 or plain text, one proxy URI per line) and writes a Clash, Sing-Box
or Surge configuration, either a simple one or by filling a template whose
placeholders (`{{ALL-TAG}}`, `{{INCLUDE-TAG:...}}`, `{{EXCLUDE-TAG:...}}`
and their combinations) select nodes by name.

The library under `src/` is verified with Verus; every public function
states its result over a mathematical model (`Seq`, `Tree` for documents).

- `utils/` — text helpers, Base64 decoding, and `ConfigValue`, the JSON /
  YAML document type with its `Tree` model.
- `parsers/` — the Trojan, Hysteria2 and AnyTLS URI parsers and their
  Clash / Sing-Box outputs.
- `templates/` — the placeholder language (`interpolation`), node
  selection (`filter`), filling Surge / Clash (`apply`) and Sing-Box
  (`singbox`) templates, the default templates, and the laws of the
  placeholder language and of filling.
- `builders/` — configurations built without a template.
- `convert.rs` — from a subscription body to nodes, and rendering.
- `cli.rs`, `config/` — the command's arguments, predefined rule sets and
  default Sing-Box documents.

`app/` holds the command line (clap), file and stream I/O, and the
conversions between `ConfigValue` and serde_json / serde_yaml values.
