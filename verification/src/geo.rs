//! Plain geometric values handed to the native layer.

use vstd::prelude::*;

verus! {

/// An axis-aligned rectangle, in the native layer's pixel coordinates.
#[derive(Debug, Clone, Copy, PartialEq, Eq, Structural)]
pub struct Rect {
    pub x: i32,
    pub y: i32,
    pub width: u32,
    pub height: u32,
}

} // verus!
