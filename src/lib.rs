//! Building blocks for hand-written `Debug` output that reads like the
//! derived one, with fields renamed, left out, reordered or given a text
//! of their own.
//!
//! `struct_pieces` and `tuple_pieces` lay out a value as texts and places
//! for the caller's own values. A caller writes the texts as they are and
//! each value under the formatter's options; in alternate mode it renders
//! the value to a string first (twice, with two different fill characters,
//! where a width and an alignment are set) and writes what `pad` makes of
//! it.
pub mod layout;
pub mod pad;
pub mod text;

pub use layout::{struct_pieces, tuple_pieces, Field, Piece};
pub use pad::{pad, Align, Flags};
pub use text::{fill_differences, indent};
