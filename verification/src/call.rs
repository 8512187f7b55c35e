//! The native calls this layer asks for.

use crate::kind::{Float32, FrameMetaDataValue, Rs2CameraInfo, Rs2Extension, Rs2Option};
use crate::native::Handle;
use vstd::prelude::*;

verus! {

/// One call into the SDK, with the arguments to pass.
///
/// Each variant stands for the SDK function of the same name. Besides the
/// arguments listed, every function but the releasing ones takes an error
/// slot; what it returns and what it leaves in the slot come back as a
/// [`Reply`](crate::native::Reply).
#[derive(Clone, Copy, Debug, PartialEq, Eq, Structural)]
pub enum Call {
    GetFrameMetadata { frame: Handle, kind: FrameMetaDataValue },
    GetFrameNumber { frame: Handle },
    GetFrameDataSize { frame: Handle },
    GetFrameTimestamp { frame: Handle },
    GetFrameTimestampDomain { frame: Handle },
    GetFrameData { frame: Handle },
    GetFrameSensor { frame: Handle },
    GetFrameStreamProfile { frame: Handle },
    IsFrameExtendableTo { frame: Handle, extension: Rs2Extension },
    EmbeddedFramesCount { frame: Handle },
    ExtractFrame { frame: Handle, index: i32 },
    DepthFrameGetDistance { frame: Handle, x: i32, y: i32 },
    GetFrameWidth { frame: Handle },
    GetFrameHeight { frame: Handle },
    GetFrameStrideInBytes { frame: Handle },
    GetFrameBitsPerPixel { frame: Handle },
    PoseFrameGetPoseData { frame: Handle },
    DepthStereoFrameGetBaseline { frame: Handle },
    GetFrameVertices { frame: Handle },
    GetFrameTextureCoordinates { frame: Handle },
    GetFramePointsCount { frame: Handle },
    ReleaseFrame { frame: Handle },
    GetStreamProfiles { sensor: Handle },
    CreateSensor { list: Handle, index: i32 },
    CreateDeviceFromSensor { sensor: Handle },
    IsSensorExtendableTo { sensor: Handle, extension: Rs2Extension },
    SupportsOption { sensor: Handle, option: Rs2Option },
    IsOptionReadOnly { sensor: Handle, option: Rs2Option },
    GetOption { sensor: Handle, option: Rs2Option },
    SetOption { sensor: Handle, option: Rs2Option, value: Float32 },
    GetOptionRange { sensor: Handle, option: Rs2Option },
    GetStreamProfilesCount { list: Handle },
    GetStreamProfile { list: Handle, index: i32 },
    SupportsSensorInfo { sensor: Handle, info: Rs2CameraInfo },
    GetSensorInfo { sensor: Handle, info: Rs2CameraInfo },
    DeleteStreamProfilesList { list: Handle },
    DeleteSensor { sensor: Handle },
}

/// What an operation does after an answer: ask again, or finish.
#[derive(Debug, PartialEq, Eq)]
pub enum Step<P, T> {
    /// Another call is needed; `P` names it and takes its answer.
    Next(P),
    /// The operation is over, with this result. No further call is made.
    Done(T),
}

} // verus!
