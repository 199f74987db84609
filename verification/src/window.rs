//! Geometry of the display environment. The display server itself is an
//! outside collaborator: resolving the primary monitor is protocol I/O and
//! lives with the program around this library. What the library works on is
//! the resolved rectangle, in the display server's coordinate space.

use vstd::prelude::*;

verus! {

/// A position and size in the display server's coordinate space: the primary
/// monitor's bounds, or the bar's own bounds derived from them.
#[derive(Debug, Clone, Copy, PartialEq, Eq, Structural)]
pub struct Rectangle {
    pub x: i32,
    pub y: i32,
    pub width: u32,
    pub height: u32,
}

/// The error of the display-protocol layer: the connection could not be made,
/// outputs could not be enumerated, no primary output was designated, or the
/// primary output's controller geometry could not be read. All of these are
/// fatal at startup; none is retried.
#[derive(Debug, Clone, Copy, PartialEq, Eq, Structural)]
pub struct XcbError;

impl XcbError {
    /// The diagnostic line a caller logs before exiting.
    pub fn message(&self) -> (r: &'static str)
        ensures
            r@ == "An error occurred with XCB"@,
    {
        "An error occurred with XCB"
    }
}

} // verus!
