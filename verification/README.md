# cua_driver_ocr

The decisions behind an on-device OCR tool, verified with Verus.

- `src/text.rs` — decimal notation, joining rows, and the blank-text test.
- `src/lines.rs` — which recognized observations become reported lines.
- `src/languages.rs` — reading language hints from a request, and choosing
  between automatic script detection and a restriction to the hints.
- `src/tool.rs` — the `ocr` tool's definition and the reply it gives for every
  outcome of a recognition.
- `app/` — the Apple Vision call, the bounding-box geometry (floating point),
  and the JSON side of the tool protocol.
- `tests/` — concrete checks of the library.
