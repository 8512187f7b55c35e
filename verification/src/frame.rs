//! Frames: one owned native handle each, tagged with what it is known to hold.

pub mod composite;
pub mod depth;
pub mod embedded;
pub mod extend;
pub mod iter;
pub mod marker;
pub mod motion;
pub mod points;
pub mod pose;
pub mod video;

use crate::call::Call;
use crate::kind::{Float64, FrameMetaDataValue};
use crate::native::Handle;
use crate::ownership::Owned;
use crate::error::Error;
use crate::native::Reply;
use crate::query::{handle_in, read_handle, Borrowed, Checked, Domain, Metadata, Size, SpanLen};
use crate::sensor::{Sensor, SensorFetch};
use marker::FrameKind;
use std::marker::PhantomData;
use vstd::prelude::*;

verus! {

/// The owner of one native frame.
///
/// A frame is made from a handle and from then on is the only owner of it.
/// The handle leaves the frame in exactly two ways, both of which use the
/// frame up: [`take`](Frame::take) hands it on, and
/// [`release`](Frame::release) names the call that frees it.
#[derive(Debug, PartialEq, Eq)]
pub struct Frame<Kind: FrameKind> {
    handle: Handle,
    kind: PhantomData<Kind>,
}

impl<Kind: FrameKind> View for Frame<Kind> {
    type V = Handle;

    closed spec fn view(&self) -> Handle {
        self.handle
    }
}

impl<Kind: FrameKind> Frame<Kind> {
    /// The frame that owns `handle`.
    pub closed spec fn owning(handle: Handle) -> Self {
        Frame { handle, kind: PhantomData }
    }

    /// A frame is its handle and its tag.
    pub broadcast proof fn lemma_owning(handle: Handle)
        ensures
            (#[trigger] Self::owning(handle))@ == handle,
    {
    }

    /// Frames of one kind that own the same handle are the same frame.
    pub broadcast proof fn lemma_owning_view(frame: Self)
        ensures
            Self::owning(#[trigger] frame@) == frame,
    {
    }

    /// Takes ownership of `handle`. Never fails.
    pub fn from_ptr(handle: Handle) -> (frame: Self)
        ensures
            frame == Self::owning(handle),
    {
        Frame { handle, kind: PhantomData }
    }

    /// The handle this frame owns.
    pub fn handle(&self) -> (handle: Handle)
        ensures
            handle == self@,
    {
        self.handle
    }

    /// Gives the handle up without freeing it: whoever gets it owns it.
    pub fn take(self) -> (handle: Handle)
        ensures
            handle == self@,
    {
        self.handle
    }

    /// Asks for one field of the frame's metadata.
    pub fn metadata(&self, kind: FrameMetaDataValue) -> (query: Metadata)
        ensures
            query.call == (Call::GetFrameMetadata { frame: self@, kind }),
    {
        Metadata { call: Call::GetFrameMetadata { frame: self.handle, kind } }
    }

    /// Asks for the frame's number in its stream.
    pub fn number(&self) -> (query: Checked<u64>)
        ensures
            query.call == (Call::GetFrameNumber { frame: self@ }),
    {
        Checked::new(Call::GetFrameNumber { frame: self.handle })
    }

    /// Asks for the size of the frame's buffer in bytes.
    pub fn data_size(&self) -> (query: Size)
        ensures
            query.call == (Call::GetFrameDataSize { frame: self@ }),
    {
        Size { call: Call::GetFrameDataSize { frame: self.handle } }
    }

    /// Asks for the time the frame was taken at.
    pub fn timestamp(&self) -> (query: Checked<Float64>)
        ensures
            query.call == (Call::GetFrameTimestamp { frame: self@ }),
    {
        Checked::new(Call::GetFrameTimestamp { frame: self.handle })
    }

    /// Asks for the clock the frame's timestamp is from.
    pub fn timestamp_domain(&self) -> (query: Domain)
        ensures
            query.call == (Call::GetFrameTimestampDomain { frame: self@ }),
    {
        Domain { call: Call::GetFrameTimestampDomain { frame: self.handle } }
    }

    /// Asks for the frame's buffer: for its size first, for its address
    /// second. The buffer lives no longer than the frame.
    pub fn data(&self) -> (query: SpanLen)
        ensures
            query.call == (Call::GetFrameDataSize { frame: self@ }),
            query.follow_up == (Call::GetFrameData { frame: self@ }),
    {
        SpanLen {
            call: Call::GetFrameDataSize { frame: self.handle },
            follow_up: Call::GetFrameData { frame: self.handle },
        }
    }

    /// Asks for the sensor the frame came from, in order to wrap it. The
    /// wrapper will own the sensor: it is freed apart from the frame.
    pub fn sensor(&self) -> (query: FrameSensor)
        ensures
            query.call == (Call::GetFrameSensor { frame: self@ }),
    {
        FrameSensor { call: Call::GetFrameSensor { frame: self.handle } }
    }

    /// Asks for the profile of the stream the frame belongs to. The profile
    /// stays the SDK's own.
    pub fn stream_profile(&self) -> (query: Borrowed)
        ensures
            query.call == (Call::GetFrameStreamProfile { frame: self@ }),
    {
        Borrowed { call: Call::GetFrameStreamProfile { frame: self.handle } }
    }
}

/// The call that returns the sensor a frame came from.
#[derive(Debug, PartialEq, Eq)]
pub struct FrameSensor {
    pub call: Call,
}

impl FrameSensor {
    /// What follows from `reply`: the fetch of the sensor's stream
    /// profiles, which completes an owning wrapper for it, or the failure.
    pub open spec fn outcome(reply: Reply<usize>) -> Result<SensorFetch, Error> {
        match handle_in(reply) {
            Ok(sensor) => Ok(Sensor::fetch(sensor, true)),
            Err(error) => Err(error),
        }
    }

    /// Takes the sensor and asks for its stream profiles, unless the call
    /// failed or returned null.
    pub fn resume(self, reply: Reply<usize>) -> (result: Result<SensorFetch, Error>)
        ensures
            result == Self::outcome(reply),
    {
        match read_handle(reply) {
            Ok(sensor) => Ok(Sensor::owning(sensor)),
            Err(error) => Err(error),
        }
    }
}

impl<Kind: FrameKind> Owned for Frame<Kind> {
    /// A frame owes the one call that releases its handle.
    open spec fn owes(&self) -> Seq<Call> {
        seq![Call::ReleaseFrame { frame: self@ }]
    }

    fn release(self) -> (calls: Vec<Call>) {
        let mut calls = Vec::new();
        calls.push(Call::ReleaseFrame { frame: self.handle });
        assert(calls@ =~= self.owes());
        calls
    }
}

} // verus!
