//! The glyph cell of the console font.
use vstd::prelude::*;

verus! {

/// Width of a glyph cell in pixels.
pub const WIDTH: usize = 8;
/// Height of a glyph cell in pixels.
pub const HEIGHT: usize = 8;

} // verus!
