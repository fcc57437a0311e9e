//! Sampling modes for gridded geoid and terrain data.

use vstd::prelude::*;

verus! {

/// Sampling mode for interpolating gridded geoid/terrain data between posts.
#[derive(Clone, Copy, Debug, PartialEq, Eq, Structural)]
pub enum Interpolation {
    /// Snap to the closest grid post.
    Nearest,
    /// Weighted average of the surrounding 2x2 grid posts.
    Bilinear,
    /// Catmull-Rom cubic over the surrounding 4x4 grid posts.
    Bicubic,
}

impl Default for Interpolation {
    fn default() -> (i: Self)
        ensures
            i == Interpolation::Bilinear,
    {
        Interpolation::Bilinear
    }
}

} // verus!
