//! The verified core of a keyboard layout diagram generator.
//!
//! - `units` and `geom`: exact lengths in key units, dots, millimetres and inches, and the
//!   points, rectangles and margins built from them;
//! - `text`: legend text and its `<br>` line breaks;
//! - `key`: key shapes, legends, and keys read from layout-editor values;
//! - `profile`: keycap profiles, their legend geometry and the rules of a profile description;
//! - `font`: font validation, names, metrics, text shaping and the placement of its glyphs;
//! - `drawing`: the plan of each key's drawing and the bounds of a layout;
//! - `svg_utils`: lengths written as SVG numbers.

pub mod drawing;
pub mod font;
pub mod geom;
pub mod key;
pub mod profile;
pub mod strings;
pub mod svg_utils;
pub mod text;
pub mod units;
