//! Geometry helpers for the display surface.
//!
//! The window layout itself is presentation and lives outside the library;
//! this computes the one position that depends on measured label geometry:
//! where the small seconds label sits relative to the large clock label.

use vstd::prelude::*;

verus! {

/// Vertical position of the seconds label: the clock label's top edge plus
/// ten eighteenths of the clock label's height, which places the seconds
/// beside the lower half of the large digits.
pub fn calculate_seconds_y(y: i32, height: i32) -> (r: i32)
    requires
        0 <= y,
        0 <= height,
        height * 10 <= i32::MAX,
        y + height * 10 / 18 <= i32::MAX,
    ensures
        r == y + height * 10 / 18,
{
    y + height * 10 / 18
}

} // verus!
