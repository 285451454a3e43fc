//! Renders decoded segments of a JPEG/JFIF marker stream as human-readable
//! diagnostic text.
//!
//! An external parser walks the marker stream of a JPEG file, decodes each
//! segment's header fields into one of the structures in [`segment`], and
//! hands it to the matching method of [`text::TextFormat`], in stream order.
//! Each method appends the segment's rendering to a caller-supplied byte
//! buffer; the caller decides where those bytes go.

pub mod emit;
pub mod segment;
pub mod text;
pub mod utf8check;
