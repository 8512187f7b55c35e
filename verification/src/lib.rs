//! An ownership layer over a camera SDK's C interface, written without the SDK.
//!
//! Nothing here touches a native handle. Every operation of the layer is
//! split at the foreign calls it needs: a wrapper hands out a small token that
//! names the call to make ([`Call`]), and the token turns the SDK's answer
//! ([`Reply`]) into the operation's result or into the next token. Whoever
//! links the SDK performs the calls; which calls are made, in what order, with
//! which handles, and what becomes of every handle is decided here.

pub mod call;
pub mod error;
pub mod frame;
pub mod kind;
pub mod native;
pub mod ownership;
pub mod query;
pub mod sensor;

pub use call::{Call, Step};
pub use error::Error;
pub use frame::composite::CompositeFrame;
pub use frame::iter::CompositeFrameIntoIter;
pub use frame::marker::{
    Any, Composite, Depth, Disparity, FrameKind, Motion, NonAnyFrameKind, Points, Pose, Video,
};
pub use frame::Frame;
pub use native::{Handle, Reply};
pub use ownership::{Dropped, Owned, Slot};
pub use sensor::options::OptionSetError;
pub use sensor::{DeviceConstructionError, Sensor, SensorConstructionError};
