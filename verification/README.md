# keyset

Keyboard layout diagrams: a layout from the keyboard layout editor, a keycap profile and a font
give a drawing of every key with its legends, as SVG, PNG or PDF.

- `src/` is the library, verified with Verus. Lengths are exact: a length is a whole number of
  subdivisions, chosen so that key units, dots (a thousandth of a key unit), millimetres and
  inches convert without rounding. The library holds the rules: legend text and its line breaks,
  key shapes read from layout-editor dimensions, the legends of a key, profiles and their legend
  geometry, the checks, names and metrics of a font, the shaping of text with rustybuzz and the
  placement of its glyphs, the plan of each
  key's drawing and the bounds of a layout.
- `app/` is the rest, in ordinary Rust: floating point outlines (rounded rectangles, arcs, glyph
  outlines, scaled legends), colours, reading JSON and TOML, and
  writing SVG, PNG and PDF files.
- `tests/` exercises the library.
