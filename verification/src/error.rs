//! Failures of the frame interface.

use vstd::prelude::*;

verus! {

/// Why a frame operation failed.
#[derive(Debug, PartialEq, Eq)]
pub enum Error {
    /// The SDK reported a failure; this is its message.
    Native(String),
    /// The SDK returned a null pointer without reporting a failure.
    NullHandle,
    /// The SDK named a timestamp domain this layer does not know.
    UnknownTimestampDomain(u32),
    /// A motion frame's buffer is too short to hold a motion sample.
    ShortMotionData(usize),
}

} // verus!
