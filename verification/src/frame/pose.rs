//! What a pose frame can be asked.

use crate::call::Call;
use crate::frame::marker::Pose;
use crate::frame::Frame;
use crate::query::Checked;
use vstd::prelude::*;

verus! {

impl Frame<Pose> {
    /// Asks for the pose sample. The SDK writes it into a structure of the
    /// caller's; `Data` is that structure, which this layer hands through
    /// unread.
    pub fn pose<Data>(&self) -> (query: Checked<Data>)
        ensures
            query.call == (Call::PoseFrameGetPoseData { frame: self@ }),
    {
        Checked::new(Call::PoseFrameGetPoseData { frame: self.handle })
    }
}

} // verus!
