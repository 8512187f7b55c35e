//! The SDK's enumerations, as far as this layer reads or produces them.

use crate::native::Handle;
use vstd::prelude::*;

verus! {

/// The clock a frame's timestamp was taken from.
#[derive(Clone, Copy, Debug, PartialEq, Eq, Hash, Structural)]
pub enum TimestampDomain {
    /// The device's own clock.
    HardwareClock,
    /// The host's clock at arrival.
    SystemTime,
    /// The host's clock, corrected for the device's drift.
    GlobalTime,
}

impl TimestampDomain {
    /// The number the SDK uses for this domain.
    pub open spec fn code_of(self) -> u32 {
        match self {
            TimestampDomain::HardwareClock => 0,
            TimestampDomain::SystemTime => 1,
            TimestampDomain::GlobalTime => 2,
        }
    }

    /// The domain the SDK means by `code`, if it is one this layer knows.
    pub open spec fn decoded(code: u32) -> Option<TimestampDomain> {
        if code == 0 {
            Some(TimestampDomain::HardwareClock)
        } else if code == 1 {
            Some(TimestampDomain::SystemTime)
        } else if code == 2 {
            Some(TimestampDomain::GlobalTime)
        } else {
            None
        }
    }

    /// The number the SDK uses for this domain.
    pub fn code(self) -> (code: u32)
        ensures
            code == self.code_of(),
    {
        match self {
            TimestampDomain::HardwareClock => 0,
            TimestampDomain::SystemTime => 1,
            TimestampDomain::GlobalTime => 2,
        }
    }

    /// Reads a domain number; `None` for a number that names no known domain.
    pub fn from_code(code: u32) -> (domain: Option<TimestampDomain>)
        ensures
            domain == Self::decoded(code),
    {
        if code == 0 {
            Some(TimestampDomain::HardwareClock)
        } else if code == 1 {
            Some(TimestampDomain::SystemTime)
        } else if code == 2 {
            Some(TimestampDomain::GlobalTime)
        } else {
            None
        }
    }

    /// Every domain is read back from its own number, and a number is read
    /// as a domain only if it is that domain's number.
    pub proof fn lemma_code_round_trip(domain: TimestampDomain, code: u32)
        ensures
            Self::decoded(domain.code_of()) == Some(domain),
            Self::decoded(code) == Some(domain) ==> code == domain.code_of(),
    {
    }
}

/// What the SDK can be asked whether a frame or a sensor extends to.
#[derive(Clone, Copy, Debug, PartialEq, Eq, Hash, Structural)]
pub enum Rs2Extension {
    DepthSensor,
    VideoFrame,
    MotionFrame,
    CompositeFrame,
    Points,
    DepthFrame,
    DepthStereoSensor,
    DisparityFrame,
    PoseFrame,
    SoftwareSensor,
    PoseSensor,
    L500DepthSensor,
    Tm2Sensor,
    ColorSensor,
    MotionSensor,
    FishEyeSensor,
}

impl Rs2Extension {
    /// The number the SDK uses for this extension.
    pub open spec fn code_of(self) -> u32 {
        match self {
            Rs2Extension::DepthSensor => 7,
            Rs2Extension::VideoFrame => 8,
            Rs2Extension::MotionFrame => 9,
            Rs2Extension::CompositeFrame => 10,
            Rs2Extension::Points => 11,
            Rs2Extension::DepthFrame => 12,
            Rs2Extension::DepthStereoSensor => 17,
            Rs2Extension::DisparityFrame => 18,
            Rs2Extension::PoseFrame => 20,
            Rs2Extension::SoftwareSensor => 24,
            Rs2Extension::PoseSensor => 34,
            Rs2Extension::L500DepthSensor => 39,
            Rs2Extension::Tm2Sensor => 40,
            Rs2Extension::ColorSensor => 42,
            Rs2Extension::MotionSensor => 43,
            Rs2Extension::FishEyeSensor => 44,
        }
    }

    /// The number the SDK uses for this extension.
    pub fn code(self) -> (code: u32)
        ensures
            code == self.code_of(),
    {
        match self {
            Rs2Extension::DepthSensor => 7,
            Rs2Extension::VideoFrame => 8,
            Rs2Extension::MotionFrame => 9,
            Rs2Extension::CompositeFrame => 10,
            Rs2Extension::Points => 11,
            Rs2Extension::DepthFrame => 12,
            Rs2Extension::DepthStereoSensor => 17,
            Rs2Extension::DisparityFrame => 18,
            Rs2Extension::PoseFrame => 20,
            Rs2Extension::SoftwareSensor => 24,
            Rs2Extension::PoseSensor => 34,
            Rs2Extension::L500DepthSensor => 39,
            Rs2Extension::Tm2Sensor => 40,
            Rs2Extension::ColorSensor => 42,
            Rs2Extension::MotionSensor => 43,
            Rs2Extension::FishEyeSensor => 44,
        }
    }

    /// No two extensions share a number.
    pub proof fn lemma_codes_distinct(a: Rs2Extension, b: Rs2Extension)
        ensures
            a.code_of() == b.code_of() ==> a == b,
    {
    }
}

/// The sensor capabilities that a sensor is probed for, in probing order.
pub open spec fn sensor_extensions() -> Seq<Rs2Extension> {
    seq![
        Rs2Extension::ColorSensor,
        Rs2Extension::MotionSensor,
        Rs2Extension::FishEyeSensor,
        Rs2Extension::DepthSensor,
        Rs2Extension::DepthStereoSensor,
        Rs2Extension::SoftwareSensor,
        Rs2Extension::PoseSensor,
        Rs2Extension::L500DepthSensor,
        Rs2Extension::Tm2Sensor,
    ]
}

/// How many capabilities a sensor is probed for.
pub const SENSOR_EXTENSION_COUNT: usize = 9;

/// The capability probed at `index`; `None` past the end of the registry.
pub fn sensor_extension(index: usize) -> (extension: Option<Rs2Extension>)
    ensures
        sensor_extensions().len() == SENSOR_EXTENSION_COUNT,
        index < SENSOR_EXTENSION_COUNT ==> extension == Some(sensor_extensions()[index as int]),
        index >= SENSOR_EXTENSION_COUNT ==> extension is None,
{
    match index {
        0 => Some(Rs2Extension::ColorSensor),
        1 => Some(Rs2Extension::MotionSensor),
        2 => Some(Rs2Extension::FishEyeSensor),
        3 => Some(Rs2Extension::DepthSensor),
        4 => Some(Rs2Extension::DepthStereoSensor),
        5 => Some(Rs2Extension::SoftwareSensor),
        6 => Some(Rs2Extension::PoseSensor),
        7 => Some(Rs2Extension::L500DepthSensor),
        8 => Some(Rs2Extension::Tm2Sensor),
        _ => None,
    }
}

/// A sensor option, by the number the SDK knows it under.
#[derive(Clone, Copy, Debug, PartialEq, Eq, Hash, Structural)]
pub struct Rs2Option {
    pub code: u32,
}

/// A field of a sensor's descriptive information, by its SDK number.
#[derive(Clone, Copy, Debug, PartialEq, Eq, Hash, Structural)]
pub struct Rs2CameraInfo {
    pub code: u32,
}

/// A field of a frame's metadata, by its SDK number.
#[derive(Clone, Copy, Debug, PartialEq, Eq, Hash, Structural)]
pub struct FrameMetaDataValue {
    pub code: u32,
}

/// A 32-bit float as its IEEE-754 bit pattern, carried but never read.
#[derive(Clone, Copy, Debug, PartialEq, Eq, Hash, Structural)]
pub struct Float32 {
    pub bits: u32,
}

/// A 64-bit float as its IEEE-754 bit pattern, carried but never read.
#[derive(Clone, Copy, Debug, PartialEq, Eq, Hash, Structural)]
pub struct Float64 {
    pub bits: u64,
}

/// The values an option can take.
#[derive(Clone, Copy, Debug, PartialEq, Eq, Hash, Structural)]
pub struct Rs2OptionRange {
    pub min: Float32,
    pub max: Float32,
    pub step: Float32,
    pub default: Float32,
}

/// The size of a video frame in pixels.
#[derive(Clone, Copy, Debug, PartialEq, Eq, Hash, Structural)]
pub struct Resolution {
    pub width: usize,
    pub height: usize,
}

/// A run of native memory: where it starts and how many elements it holds.
///
/// It is only as long-lived as the frame it was read from.
#[derive(Clone, Copy, Debug, PartialEq, Eq, Hash, Structural)]
pub struct Span {
    pub start: Handle,
    pub len: usize,
}

} // verus!
