//! The state of a formatter as plain values, and what becomes of a value's
//! rendered text before it is written inside a larger structure.
use vstd::prelude::*;

use crate::text::{fill_differences, filled, indent, indented};

verus! {

/// Where padding puts a value inside its width.
#[derive(Clone, Copy, Debug, PartialEq, Eq, Structural)]
pub enum Align {
    Left,
    Right,
    Center,
}

/// The options a `Debug` implementation is asked to honour.
#[derive(Clone, Copy, Debug)]
pub struct Flags {
    /// Multi-line output (`{:#?}`).
    pub alternate: bool,
    /// A sign in front of non-negative numbers (`{:+?}`).
    pub sign_plus: bool,
    /// Zeros between sign and digits up to the width (`{:05?}`).
    pub zero_pad: bool,
    pub width: Option<usize>,
    pub precision: Option<usize>,
    pub align: Option<Align>,
    pub fill: char,
}

/// The text written for a value as a field of an enclosing structure, where
/// `first` and `second` are the value rendered under `flags`, in alternate
/// mode with two different fill characters where an alignment is set: on
/// one line the value's own text as it stands; in alternate mode, with the
/// fill character put where the two renderings differ (the padding) and
/// every line after the first indented by four columns.
pub open spec fn padded(flags: Flags, first: Seq<char>, second: Seq<char>) -> Seq<char> {
    if !flags.alternate {
        first
    } else if flags.width is Some && flags.align is Some {
        indented(filled(first, second, flags.fill))
    } else {
        indented(first)
    }
}

/// Finishes the text of a value for writing as a field of an enclosing
/// structure. Outside alternate mode the value's own text is kept. In
/// alternate mode, where a width and an alignment are set, the caller
/// renders the value twice, with two different fill characters, and the
/// positions where the renderings differ take the real fill character.
pub fn pad(flags: &Flags, first: &str, second: &str) -> (r: String)
    ensures
        r@ == padded(*flags, first@, second@),
{
    if !flags.alternate {
        first.to_owned()
    } else if flags.width.is_some() && flags.align.is_some() {
        let filled = fill_differences(first, second, flags.fill);
        indent(filled.as_str())
    } else {
        indent(first)
    }
}

} // verus!
