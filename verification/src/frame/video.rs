//! What an image frame can be asked.

use crate::call::Call;
use crate::error::Error;
use crate::frame::marker::Video;
use crate::frame::Frame;
use crate::kind::Resolution;
use crate::native::Reply;
use crate::query::Size;
use vstd::prelude::*;

verus! {

/// The first call of reading a resolution: the one for the width.
#[derive(Debug, PartialEq, Eq)]
pub struct ResolutionWidth {
    pub call: Call,
    /// The call that returns the height.
    pub follow_up: Call,
}

/// The second call of reading a resolution: the one for the height.
#[derive(Debug, PartialEq, Eq)]
pub struct ResolutionHeight {
    pub call: Call,
    /// The width the first call returned.
    pub width: usize,
}

impl ResolutionWidth {
    /// What follows from `reply`: the call for the height, or the failure.
    pub open spec fn outcome(self, reply: Reply<i32>) -> Result<ResolutionHeight, Error> {
        match reply.error {
            Some(message) => Err(Error::Native(message)),
            None => Ok(ResolutionHeight { call: self.follow_up, width: reply.value as usize }),
        }
    }

    /// Takes the width and asks for the height, unless the call failed.
    pub fn resume(self, reply: Reply<i32>) -> (result: Result<ResolutionHeight, Error>)
        ensures
            result == self.outcome(reply),
            reply.error is None && reply.value >= 0 ==> result->Ok_0.width == reply.value,
    {
        match reply.error {
            Some(message) => Err(Error::Native(message)),
            None => Ok(
                ResolutionHeight {
                    call: self.follow_up,
                    width: #[verifier::truncate] (reply.value as usize),
                },
            ),
        }
    }
}

impl ResolutionHeight {
    /// What `reply` says the resolution is.
    pub open spec fn outcome(self, reply: Reply<i32>) -> Result<Resolution, Error> {
        match reply.error {
            Some(message) => Err(Error::Native(message)),
            None => Ok(Resolution { width: self.width, height: reply.value as usize }),
        }
    }

    /// The resolution: the width of the first answer and the height of this
    /// one, unless the call failed.
    pub fn resume(self, reply: Reply<i32>) -> (result: Result<Resolution, Error>)
        ensures
            result == self.outcome(reply),
            reply.error is None && reply.value >= 0 ==> result->Ok_0.height == reply.value,
    {
        match reply.error {
            Some(message) => Err(Error::Native(message)),
            None => Ok(
                Resolution {
                    width: self.width,
                    height: #[verifier::truncate] (reply.value as usize),
                },
            ),
        }
    }
}

impl Frame<Video> {
    /// Asks for the image's width and height, each with a call of its own.
    pub fn resolution(&self) -> (query: ResolutionWidth)
        ensures
            query.call == (Call::GetFrameWidth { frame: self@ }),
            query.follow_up == (Call::GetFrameHeight { frame: self@ }),
    {
        ResolutionWidth {
            call: Call::GetFrameWidth { frame: self.handle },
            follow_up: Call::GetFrameHeight { frame: self.handle },
        }
    }

    /// Asks for the image's width in pixels.
    pub fn width(&self) -> (query: Size)
        ensures
            query.call == (Call::GetFrameWidth { frame: self@ }),
    {
        Size { call: Call::GetFrameWidth { frame: self.handle } }
    }

    /// Asks for the image's height in pixels.
    pub fn height(&self) -> (query: Size)
        ensures
            query.call == (Call::GetFrameHeight { frame: self@ }),
    {
        Size { call: Call::GetFrameHeight { frame: self.handle } }
    }

    /// Asks for the length of one row of the image in bytes.
    pub fn stride_in_bytes(&self) -> (query: Size)
        ensures
            query.call == (Call::GetFrameStrideInBytes { frame: self@ }),
    {
        Size { call: Call::GetFrameStrideInBytes { frame: self.handle } }
    }

    /// Asks for the number of bits one pixel takes.
    pub fn bits_per_pixel(&self) -> (query: Size)
        ensures
            query.call == (Call::GetFrameBitsPerPixel { frame: self@ }),
    {
        Size { call: Call::GetFrameBitsPerPixel { frame: self.handle } }
    }
}

/// Reading a resolution asks for the width and for the height, in that
/// order, and reports both as answered.
pub proof fn lemma_resolution_reads_both(
    query: ResolutionWidth,
    width: Reply<i32>,
    height: Reply<i32>,
)
    requires
        width.error is None,
        height.error is None,
    ensures
        query.outcome(width) is Ok,
        query.outcome(width)->Ok_0.call == query.follow_up,
        query.outcome(width)->Ok_0.outcome(height) == Ok::<Resolution, Error>(
            Resolution { width: width.value as usize, height: height.value as usize },
        ),
{
}

} // verus!
