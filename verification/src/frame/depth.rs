//! What depth and disparity frames can be asked.

use crate::call::Call;
use crate::frame::marker::{Depth, Disparity};
use crate::frame::Frame;
use crate::kind::Float32;
use crate::query::Checked;
use vstd::prelude::*;

verus! {

impl Frame<Depth> {
    /// Asks for the distance at pixel (`x`, `y`). The SDK fails the call
    /// for a pixel outside the image.
    ///
    /// The coordinates are passed as the SDK's `int`, cut to its width as a
    /// cast cuts them.
    pub fn get_distance(&self, x: usize, y: usize) -> (query: Checked<Float32>)
        ensures
            query.call == (Call::DepthFrameGetDistance {
                frame: self@,
                x: x as i32,
                y: y as i32,
            }),
    {
        Checked::new(
            Call::DepthFrameGetDistance {
                frame: self.handle,
                x: #[verifier::truncate] (x as i32),
                y: #[verifier::truncate] (y as i32),
            },
        )
    }
}

impl Frame<Disparity> {
    /// Asks for the distance between the two imagers the disparity was
    /// measured with.
    pub fn get_baseline(&self) -> (query: Checked<Float32>)
        ensures
            query.call == (Call::DepthStereoFrameGetBaseline { frame: self@ }),
    {
        Checked::new(Call::DepthStereoFrameGetBaseline { frame: self.handle })
    }
}

} // verus!
