//! Sensors: a native sensor handle together with the list of its stream
//! profiles.

pub mod extensions;
pub mod options;
pub mod profiles;

use crate::call::Call;
use crate::error::Error;
use crate::native::{Handle, Reply};
use crate::ownership::{Dropped, Owned};
use crate::query::{handle_in, read_handle};
use vstd::prelude::*;

verus! {

/// Why a sensor could not be made.
#[derive(Debug, PartialEq, Eq)]
pub enum SensorConstructionError {
    /// The SDK could not produce the sensor's stream profiles; its message.
    CouldNotGenerateStreamProfileList(String),
    /// The SDK could not produce the sensor from a sensor list; its
    /// message.
    CouldNotGetSensorFromList(String),
    /// The SDK returned a null pointer without reporting a failure.
    NullHandle,
}

/// Why a device could not be made from a sensor.
#[derive(Debug, PartialEq, Eq)]
pub enum DeviceConstructionError {
    /// The SDK could not produce the device; its message.
    CouldNotCreateDeviceFromSensor(String),
    /// The SDK returned a null pointer without reporting a failure.
    NullHandle,
}

/// What a sensor wrapper holds.
pub struct SensorState {
    /// The native sensor.
    pub sensor: Handle,
    /// The list of the sensor's stream profiles, fetched when the wrapper
    /// was made and owned by it in any case.
    pub profiles: Handle,
    /// Whether the wrapper owns the native sensor, and so has to delete it,
    /// or was lent it.
    pub owns_sensor: bool,
}

/// A sensor and the list of its stream profiles.
///
/// The list always belongs to the wrapper. The sensor belongs to it only
/// if the wrapper was made by an owning constructor.
#[derive(Debug, PartialEq, Eq)]
pub struct Sensor {
    sensor: Handle,
    profiles: Handle,
    owns_sensor: bool,
}

impl View for Sensor {
    type V = SensorState;

    closed spec fn view(&self) -> SensorState {
        SensorState { sensor: self.sensor, profiles: self.profiles, owns_sensor: self.owns_sensor }
    }
}

/// What a sensor that is not to be kept costs: the call that deletes it if
/// it is owned, nothing if it was lent.
pub open spec fn sensor_owes(sensor: Handle, owned: bool) -> Seq<Call> {
    if owned {
        seq![Call::DeleteSensor { sensor }]
    } else {
        Seq::empty()
    }
}

/// The call that fetches a sensor's stream profiles, which completes the
/// making of its wrapper.
#[derive(Debug, PartialEq, Eq)]
pub struct SensorFetch {
    pub call: Call,
    /// The native sensor the wrapper is for.
    pub sensor: Handle,
    /// Whether the wrapper is to own the native sensor.
    pub owns_sensor: bool,
}

impl SensorFetch {
    /// Whether `result` is what comes of `reply`.
    ///
    /// With a list, the wrapper is made around exactly this sensor and this
    /// list. Without one there is no wrapper, and if the sensor was to be
    /// owned the call that deletes it is owed.
    pub open spec fn yields(
        self,
        reply: Reply<usize>,
        result: Result<Sensor, Dropped<SensorConstructionError>>,
    ) -> bool {
        match reply.error {
            Some(message) => result is Err && result->Err_0.error
                == SensorConstructionError::CouldNotGenerateStreamProfileList(message)
                && result->Err_0.release@ == sensor_owes(self.sensor, self.owns_sensor),
            None => if reply.value == 0 {
                result is Err && result->Err_0.error == SensorConstructionError::NullHandle
                    && result->Err_0.release@ == sensor_owes(self.sensor, self.owns_sensor)
            } else {
                result is Ok && result->Ok_0@ == (SensorState {
                    sensor: self.sensor,
                    profiles: Handle::at(reply.value),
                    owns_sensor: self.owns_sensor,
                })
            },
        }
    }

    /// Takes the list and makes the wrapper, or fails the making as a
    /// whole.
    pub fn resume(self, reply: Reply<usize>) -> (result: Result<
        Sensor,
        Dropped<SensorConstructionError>,
    >)
        ensures
            self.yields(reply, result),
    {
        match read_handle(reply) {
            Ok(profiles) => Ok(
                Sensor { sensor: self.sensor, profiles, owns_sensor: self.owns_sensor },
            ),
            Err(error) => {
                let mut release = Vec::new();
                if self.owns_sensor {
                    release.push(Call::DeleteSensor { sensor: self.sensor });
                }
                assert(release@ =~= sensor_owes(self.sensor, self.owns_sensor));
                let error = match error {
                    Error::Native(message) => {
                        SensorConstructionError::CouldNotGenerateStreamProfileList(message)
                    },
                    _ => SensorConstructionError::NullHandle,
                };
                Err(Dropped { error, release })
            },
        }
    }
}

/// The call that makes a native sensor from a sensor list.
#[derive(Debug, PartialEq, Eq)]
pub struct SensorCreate {
    pub call: Call,
}

impl SensorCreate {
    /// What follows from `reply`: the fetch of the profiles of the sensor
    /// just made, which the wrapper will own, or the failure.
    pub open spec fn outcome(reply: Reply<usize>) -> Result<SensorFetch, SensorConstructionError> {
        match reply.error {
            Some(message) => Err(SensorConstructionError::CouldNotGetSensorFromList(message)),
            None => if reply.value == 0 {
                Err(SensorConstructionError::NullHandle)
            } else {
                Ok(Sensor::fetch(Handle::at(reply.value), true))
            },
        }
    }

    /// Takes the new sensor and asks for its stream profiles.
    pub fn resume(self, reply: Reply<usize>) -> (result: Result<
        SensorFetch,
        SensorConstructionError,
    >)
        ensures
            result == Self::outcome(reply),
    {
        match read_handle(reply) {
            Ok(sensor) => Ok(Sensor::owning(sensor)),
            Err(Error::Native(message)) => Err(
                SensorConstructionError::CouldNotGetSensorFromList(message),
            ),
            Err(_) => Err(SensorConstructionError::NullHandle),
        }
    }
}

/// The call that makes a device from a sensor.
#[derive(Debug, PartialEq, Eq)]
pub struct DeviceCreate {
    pub call: Call,
}

impl DeviceCreate {
    /// What `reply` says the device is.
    pub open spec fn outcome(reply: Reply<usize>) -> Result<Handle, DeviceConstructionError> {
        match reply.error {
            Some(message) => Err(DeviceConstructionError::CouldNotCreateDeviceFromSensor(message)),
            None => if reply.value == 0 {
                Err(DeviceConstructionError::NullHandle)
            } else {
                Ok(Handle::at(reply.value))
            },
        }
    }

    /// The new device's handle, which the caller owns and has to free
    /// whatever becomes of the sensor.
    pub fn resume(self, reply: Reply<usize>) -> (result: Result<Handle, DeviceConstructionError>)
        ensures
            result == Self::outcome(reply),
    {
        match read_handle(reply) {
            Ok(device) => Ok(device),
            Err(Error::Native(message)) => Err(
                DeviceConstructionError::CouldNotCreateDeviceFromSensor(message),
            ),
            Err(_) => Err(DeviceConstructionError::NullHandle),
        }
    }
}

impl Sensor {
    /// The fetch that completes a wrapper for `sensor`.
    pub open spec fn fetch(sensor: Handle, owns_sensor: bool) -> SensorFetch {
        SensorFetch { call: Call::GetStreamProfiles { sensor }, sensor, owns_sensor }
    }

    /// Begins a wrapper for a sensor that belongs to someone else: the
    /// wrapper will never delete it.
    pub fn try_from(sensor: Handle) -> (query: SensorFetch)
        ensures
            query == Self::fetch(sensor, false),
    {
        SensorFetch { call: Call::GetStreamProfiles { sensor }, sensor, owns_sensor: false }
    }

    /// Begins a wrapper for a sensor that is the caller's to give: the
    /// wrapper will delete it.
    pub fn owning(sensor: Handle) -> (query: SensorFetch)
        ensures
            query == Self::fetch(sensor, true),
    {
        SensorFetch { call: Call::GetStreamProfiles { sensor }, sensor, owns_sensor: true }
    }

    /// Begins a wrapper for the sensor at `index` of a sensor list: first
    /// the sensor is made, and the wrapper will own it.
    pub fn try_create(list: Handle, index: i32) -> (query: SensorCreate)
        ensures
            query.call == (Call::CreateSensor { list, index }),
    {
        SensorCreate { call: Call::CreateSensor { list, index } }
    }

    /// The native sensor.
    pub fn handle(&self) -> (handle: Handle)
        ensures
            handle == self@.sensor,
    {
        self.sensor
    }

    /// The list of the sensor's stream profiles.
    pub fn profile_list(&self) -> (handle: Handle)
        ensures
            handle == self@.profiles,
    {
        self.profiles
    }

    /// Whether the wrapper owns the native sensor.
    pub fn owns_sensor(&self) -> (owns: bool)
        ensures
            owns == self@.owns_sensor,
    {
        self.owns_sensor
    }

    /// Asks for a device made from this sensor.
    pub fn device(&self) -> (query: DeviceCreate)
        ensures
            query.call == (Call::CreateDeviceFromSensor { sensor: self@.sensor }),
    {
        DeviceCreate { call: Call::CreateDeviceFromSensor { sensor: self.sensor } }
    }
}

impl Owned for Sensor {
    /// A sensor owes the call that deletes its profile list and, only if it
    /// owns the native sensor, after that the call that deletes the sensor.
    open spec fn owes(&self) -> Seq<Call> {
        seq![Call::DeleteStreamProfilesList { list: self@.profiles }] + sensor_owes(
            self@.sensor,
            self@.owns_sensor,
        )
    }

    fn release(self) -> (calls: Vec<Call>) {
        let mut calls = Vec::new();
        calls.push(Call::DeleteStreamProfilesList { list: self.profiles });
        if self.owns_sensor {
            calls.push(Call::DeleteSensor { sensor: self.sensor });
        }
        assert(calls@ =~= self.owes());
        calls
    }
}

} // verus!
