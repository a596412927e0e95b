//! A decoder for `sfnt`-based font containers (OpenType / TrueType).
//!
//! The decoder never copies font bytes: every table value is a non-owning
//! view into a caller-supplied buffer, and every read is bounds-checked up
//! front.  The character-to-glyph lookup algorithms (`cmap` formats 4, 6 and
//! 12), the naming table and the horizontal metrics table are implemented on
//! top of a small bounds-checked big-endian decoding layer.

pub mod decode;
pub mod font;
pub mod table;
