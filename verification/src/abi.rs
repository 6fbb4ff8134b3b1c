//! Numbers of the engine's C interface.
use vstd::prelude::*;

verus! {

/// The call succeeded.
pub const SUCCESS: i32 = 0;

/// An allocation failed.
pub const OUT_OF_MEMORY: i32 = -1;

/// An argument was not acceptable.
pub const INVALID_VALUE: i32 = -2;

/// An output buffer was too small.
pub const OUT_OF_SPACE: i32 = -3;

/// The queried value is not set.
pub const NO_VALUE: i32 = -4;

/// The tag of a style color that is not set.
pub const STYLE_COLOR_NONE: u32 = 0;

/// The tag of a style color that is an index into the palette.
pub const STYLE_COLOR_PALETTE: u32 = 1;

/// The tag of a style color that is a direct color.
pub const STYLE_COLOR_RGB: u32 = 2;

} // verus!
