//! What a point cloud frame can be asked.

use crate::call::Call;
use crate::frame::marker::Points;
use crate::frame::Frame;
use crate::query::{Size, SpanLen};
use vstd::prelude::*;

verus! {

impl Frame<Points> {
    /// Asks for the points' coordinates: for their number first, for the
    /// array second. The array lives no longer than the frame.
    pub fn vertices(&self) -> (query: SpanLen)
        ensures
            query.call == (Call::GetFramePointsCount { frame: self@ }),
            query.follow_up == (Call::GetFrameVertices { frame: self@ }),
    {
        SpanLen {
            call: Call::GetFramePointsCount { frame: self.handle },
            follow_up: Call::GetFrameVertices { frame: self.handle },
        }
    }

    /// Asks for the points' texture coordinates: for their number first,
    /// for the array second. The array lives no longer than the frame.
    pub fn texture_coordinates(&self) -> (query: SpanLen)
        ensures
            query.call == (Call::GetFramePointsCount { frame: self@ }),
            query.follow_up == (Call::GetFrameTextureCoordinates { frame: self@ }),
    {
        SpanLen {
            call: Call::GetFramePointsCount { frame: self.handle },
            follow_up: Call::GetFrameTextureCoordinates { frame: self.handle },
        }
    }

    /// Asks for the number of points in the cloud.
    pub fn points_count(&self) -> (query: Size)
        ensures
            query.call == (Call::GetFramePointsCount { frame: self@ }),
    {
        Size { call: Call::GetFramePointsCount { frame: self.handle } }
    }
}

} // verus!
