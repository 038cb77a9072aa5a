//! Size hints for the webview window.
//!
//! The native webview API takes the hint as a small integer; the encoding is
//! fixed by that C interface.

use vstd::prelude::*;

verus! {

/// How a width/height pair passed to the webview is to be interpreted.
#[derive(Debug, Copy, Clone, PartialEq, Eq, Structural)]
pub enum SizeHint {
    /// The size sets the window's current dimensions, freely resizable.
    NoHint,
    /// The size is a minimum.
    Min,
    /// The size is a maximum.
    Max,
    /// The window is fixed at the given size.
    Fixed,
}

/// The integer that the native webview API uses for a hint.
pub open spec fn hint_code(h: SizeHint) -> int {
    match h {
        SizeHint::NoHint => 0,
        SizeHint::Min => 1,
        SizeHint::Max => 2,
        SizeHint::Fixed => 3,
    }
}

impl SizeHint {
    /// Encode the hint as the integer the native webview API expects.
    pub fn as_i32(self) -> (r: i32)
        ensures
            r == hint_code(self),
    {
        match self {
            SizeHint::NoHint => 0,
            SizeHint::Min => 1,
            SizeHint::Max => 2,
            SizeHint::Fixed => 3,
        }
    }
}

} // verus!
