//! What a motion frame holds.

use crate::call::Call;
use crate::error::Error;
use crate::frame::marker::Motion;
use crate::frame::Frame;
use crate::query::SpanLen;
use vstd::prelude::*;

verus! {

/// How many bytes a motion sample takes: three 32-bit floats.
pub const MOTION_DATA_LEN: usize = 12;

/// A motion sample: three 32-bit floats, each as the four bytes the frame
/// holds for it, in the order the frame holds them.
#[derive(Clone, Copy, Debug, PartialEq, Eq)]
pub struct MotionData {
    pub x: [u8; 4],
    pub y: [u8; 4],
    pub z: [u8; 4],
}

/// The sample at the head of `data`, if `data` is long enough to hold one.
pub open spec fn motion_data_in(data: Seq<u8>) -> Result<MotionData, Error> {
    if data.len() < MOTION_DATA_LEN {
        Err(Error::ShortMotionData(data.len() as usize))
    } else {
        Ok(
            MotionData {
                x: [data[0], data[1], data[2], data[3]],
                y: [data[4], data[5], data[6], data[7]],
                z: [data[8], data[9], data[10], data[11]],
            },
        )
    }
}

impl Frame<Motion> {
    /// Asks for the buffer that holds the motion sample: the frame's data.
    pub fn motion_buffer(&self) -> (query: SpanLen)
        ensures
            query.call == (Call::GetFrameDataSize { frame: self@ }),
            query.follow_up == (Call::GetFrameData { frame: self@ }),
    {
        self.data()
    }

    /// Reads the motion sample from the frame's buffer.
    ///
    /// A buffer of fewer than twelve bytes holds no sample: that is an
    /// error, and no byte of the buffer is read. Otherwise the sample is the
    /// first twelve bytes, four for each axis.
    pub fn get_motion_data(&self, data: &[u8]) -> (sample: Result<MotionData, Error>)
        ensures
            sample == motion_data_in(data@),
            data@.len() < 12 <==> sample is Err,
    {
        if data.len() < MOTION_DATA_LEN {
            Err(Error::ShortMotionData(data.len()))
        } else {
            Ok(
                MotionData {
                    x: [data[0], data[1], data[2], data[3]],
                    y: [data[4], data[5], data[6], data[7]],
                    z: [data[8], data[9], data[10], data[11]],
                },
            )
        }
    }
}

} // verus!
