//! The kinds a frame can be tagged with.

use crate::kind::Rs2Extension;
use vstd::prelude::*;

verus! {

/// A tag for what a frame is known to hold.
pub trait FrameKind {

}

/// A tag for a frame known to hold one specific kind of data, and the
/// extension by which the SDK recognises such a frame.
pub trait NonAnyFrameKind: FrameKind {
    /// The extension a frame must be extendable to for this tag to fit.
    spec fn extension_of() -> Rs2Extension;

    /// The extension a frame must be extendable to for this tag to fit.
    fn extension() -> (extension: Rs2Extension)
        ensures
            extension == Self::extension_of(),
    ;
}

/// Tags a frame that bundles other frames.
#[derive(Debug, PartialEq, Eq)]
pub struct Composite;

impl FrameKind for Composite {

}

impl NonAnyFrameKind for Composite {
    open spec fn extension_of() -> Rs2Extension {
        Rs2Extension::CompositeFrame
    }

    fn extension() -> Rs2Extension {
        Rs2Extension::CompositeFrame
    }
}

/// Tags a frame of which nothing is known.
#[derive(Debug, PartialEq, Eq)]
pub struct Any;

impl FrameKind for Any {

}

/// Tags a frame that holds an image.
#[derive(Debug, PartialEq, Eq)]
pub struct Video;

impl FrameKind for Video {

}

impl NonAnyFrameKind for Video {
    open spec fn extension_of() -> Rs2Extension {
        Rs2Extension::VideoFrame
    }

    fn extension() -> Rs2Extension {
        Rs2Extension::VideoFrame
    }
}

/// Tags a frame that holds a motion sample.
#[derive(Debug, PartialEq, Eq)]
pub struct Motion;

impl FrameKind for Motion {

}

impl NonAnyFrameKind for Motion {
    open spec fn extension_of() -> Rs2Extension {
        Rs2Extension::MotionFrame
    }

    fn extension() -> Rs2Extension {
        Rs2Extension::MotionFrame
    }
}

/// Tags a frame that holds a depth image.
#[derive(Debug, PartialEq, Eq)]
pub struct Depth;

impl FrameKind for Depth {

}

impl NonAnyFrameKind for Depth {
    open spec fn extension_of() -> Rs2Extension {
        Rs2Extension::DepthFrame
    }

    fn extension() -> Rs2Extension {
        Rs2Extension::DepthFrame
    }
}

/// Tags a frame that holds a disparity image.
#[derive(Debug, PartialEq, Eq)]
pub struct Disparity;

impl FrameKind for Disparity {

}

impl NonAnyFrameKind for Disparity {
    open spec fn extension_of() -> Rs2Extension {
        Rs2Extension::DisparityFrame
    }

    fn extension() -> Rs2Extension {
        Rs2Extension::DisparityFrame
    }
}

/// Tags a frame that holds a pose sample.
#[derive(Debug, PartialEq, Eq)]
pub struct Pose;

impl FrameKind for Pose {

}

impl NonAnyFrameKind for Pose {
    open spec fn extension_of() -> Rs2Extension {
        Rs2Extension::PoseFrame
    }

    fn extension() -> Rs2Extension {
        Rs2Extension::PoseFrame
    }
}

/// Tags a frame that holds a point cloud.
#[derive(Debug, PartialEq, Eq)]
pub struct Points;

impl FrameKind for Points {

}

impl NonAnyFrameKind for Points {
    open spec fn extension_of() -> Rs2Extension {
        Rs2Extension::Points
    }

    fn extension() -> Rs2Extension {
        Rs2Extension::Points
    }
}

} // verus!
