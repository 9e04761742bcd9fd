# rofd

An OFD viewer/annotator, split in two:

- `src/` — the verified library (Verus): body-text selection over text codes
  (ranges between two hits, word and paragraph ranges), selection-handle
  strategies, hit-target resolution, scrollbar chrome decisions and colors,
  host input parsing (keys, tools, colors, buttons, scroll directions),
  focus tracking, document-session state and render-surface sizing.
- `app/` — the hosts around it: the native xilem application, the masonry
  widget, the WASM/WebGPU editor and the floating-point render layer, which
  call into the library for every decision it makes.
- `tests/` — tests of the library's public functions.
