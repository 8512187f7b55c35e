//! A sensor's options and descriptive information.

use crate::call::{Call, Step};
use crate::kind::{Float32, Rs2CameraInfo, Rs2Option, Rs2OptionRange};
use crate::native::{Handle, Reply};
use crate::query::{affirmed, affirms, Flag};
use crate::sensor::Sensor;
use std::marker::PhantomData;
use vstd::prelude::*;

verus! {

/// Why an option could not be set.
#[derive(Debug, PartialEq, Eq)]
pub enum OptionSetError {
    /// The sensor does not have the option.
    OptionNotSupported,
    /// The sensor has the option but does not let it be written.
    OptionIsReadOnly,
    /// The SDK refused the write; its message.
    CouldNotSetOption(String),
}

/// The question that guards a query: whether the sensor supports what the
/// query is about.
#[derive(Debug, PartialEq, Eq)]
pub struct Guarded<T> {
    pub call: Call,
    /// The query to make if the answer is yes.
    pub follow_up: Call,
    /// Marks the type of value the query returns.
    pub value: PhantomData<T>,
}

/// A query whose failure counts as absence.
#[derive(Debug, PartialEq, Eq)]
pub struct Lenient<T> {
    pub call: Call,
    /// Marks the type of value the query returns.
    pub value: PhantomData<T>,
}

impl<T> Guarded<T> {
    /// What follows from `reply`: the query if the sensor supports it,
    /// else nothing.
    pub open spec fn outcome(self, reply: Reply<i32>) -> Step<Lenient<T>, Option<T>> {
        if affirmed(reply) {
            Step::Next(Lenient { call: self.follow_up, value: PhantomData })
        } else {
            Step::Done(None)
        }
    }

    /// Takes the answer. An unsupported query is not made; neither is one
    /// whose support could not be found out.
    pub fn resume(self, reply: Reply<i32>) -> (step: Step<Lenient<T>, Option<T>>)
        ensures
            step == self.outcome(reply),
    {
        if affirms(&reply) {
            Step::Next(Lenient { call: self.follow_up, value: PhantomData })
        } else {
            Step::Done(None)
        }
    }
}

impl<T> Lenient<T> {
    /// What `reply` holds: its value, or nothing if the query failed.
    pub open spec fn outcome(reply: Reply<T>) -> Option<T> {
        if reply.error is None {
            Some(reply.value)
        } else {
            None
        }
    }

    /// The value, or `None` if the query failed. Why it failed is not
    /// told.
    pub fn resume(self, reply: Reply<T>) -> (value: Option<T>)
        ensures
            value == Self::outcome(reply),
    {
        match reply.error {
            None => Some(reply.value),
            Some(_) => None,
        }
    }
}

/// The question that guards a sensor's descriptive text: whether the
/// sensor has the field.
#[derive(Debug, PartialEq, Eq)]
pub struct InfoSupport {
    pub call: Call,
    /// The query to make if the answer is yes.
    pub follow_up: Call,
}

/// The query for a sensor's descriptive text.
#[derive(Debug, PartialEq, Eq)]
pub struct InfoText {
    pub call: Call,
}

impl InfoSupport {
    /// What follows from `reply`: the query if the sensor has the field,
    /// else nothing.
    pub open spec fn outcome(self, reply: Reply<i32>) -> Step<InfoText, Option<Handle>> {
        if affirmed(reply) {
            Step::Next(InfoText { call: self.follow_up })
        } else {
            Step::Done(None)
        }
    }

    /// Takes the answer. A field the sensor lacks is not asked for.
    pub fn resume(self, reply: Reply<i32>) -> (step: Step<InfoText, Option<Handle>>)
        ensures
            step == self.outcome(reply),
    {
        if affirms(&reply) {
            Step::Next(InfoText { call: self.follow_up })
        } else {
            Step::Done(None)
        }
    }
}

impl InfoText {
    /// What `reply` holds: where the text is, or nothing if the query
    /// failed or returned null.
    pub open spec fn outcome(reply: Reply<usize>) -> Option<Handle> {
        if reply.error is None && reply.value != 0 {
            Some(Handle::at(reply.value))
        } else {
            None
        }
    }

    /// Where the text is: a string of the SDK's own that lives as long as
    /// the sensor does. `None` if the query failed or returned null.
    pub fn resume(self, reply: Reply<usize>) -> (text: Option<Handle>)
        ensures
            text == Self::outcome(reply),
    {
        match reply.error {
            None => Handle::new(reply.value),
            Some(_) => None,
        }
    }
}

/// The first call of setting an option: whether the sensor supports it.
#[derive(Debug, PartialEq, Eq)]
pub struct SetOptionSupport {
    pub call: Call,
    /// The question whether the option is read-only.
    pub read_only: Call,
    /// The write.
    pub write: Call,
}

/// The second call of setting an option: whether it is read-only.
#[derive(Debug, PartialEq, Eq)]
pub struct SetOptionReadOnly {
    pub call: Call,
    /// The write.
    pub write: Call,
}

/// The third call of setting an option: the write.
#[derive(Debug, PartialEq, Eq)]
pub struct SetOptionWrite {
    pub call: Call,
}

impl SetOptionSupport {
    /// What follows from `reply`: the next question if the sensor supports
    /// the option, else the end.
    pub open spec fn outcome(self, reply: Reply<i32>) -> Step<
        SetOptionReadOnly,
        Result<(), OptionSetError>,
    > {
        if affirmed(reply) {
            Step::Next(SetOptionReadOnly { call: self.read_only, write: self.write })
        } else {
            Step::Done(Err(OptionSetError::OptionNotSupported))
        }
    }

    /// Takes the answer. For an option the sensor does not support the
    /// operation ends here, before anything is written.
    pub fn resume(self, reply: Reply<i32>) -> (step: Step<
        SetOptionReadOnly,
        Result<(), OptionSetError>,
    >)
        ensures
            step == self.outcome(reply),
    {
        if affirms(&reply) {
            Step::Next(SetOptionReadOnly { call: self.read_only, write: self.write })
        } else {
            Step::Done(Err(OptionSetError::OptionNotSupported))
        }
    }
}

impl SetOptionReadOnly {
    /// What follows from `reply`: the write if the option can be written,
    /// else the end.
    pub open spec fn outcome(self, reply: Reply<i32>) -> Step<
        SetOptionWrite,
        Result<(), OptionSetError>,
    > {
        if affirmed(reply) {
            Step::Done(Err(OptionSetError::OptionIsReadOnly))
        } else {
            Step::Next(SetOptionWrite { call: self.write })
        }
    }

    /// Takes the answer. For a read-only option the operation ends here,
    /// before anything is written.
    pub fn resume(self, reply: Reply<i32>) -> (step: Step<
        SetOptionWrite,
        Result<(), OptionSetError>,
    >)
        ensures
            step == self.outcome(reply),
    {
        if affirms(&reply) {
            Step::Done(Err(OptionSetError::OptionIsReadOnly))
        } else {
            Step::Next(SetOptionWrite { call: self.write })
        }
    }
}

impl SetOptionWrite {
    /// What `reply` says of the write.
    pub open spec fn outcome(reply: Reply<()>) -> Result<(), OptionSetError> {
        match reply.error {
            Some(message) => Err(OptionSetError::CouldNotSetOption(message)),
            None => Ok(()),
        }
    }

    /// Success, unless the SDK refused the value.
    pub fn resume(self, reply: Reply<()>) -> (result: Result<(), OptionSetError>)
        ensures
            result == Self::outcome(reply),
    {
        match reply.error {
            Some(message) => Err(OptionSetError::CouldNotSetOption(message)),
            None => Ok(()),
        }
    }
}

impl Sensor {
    /// Asks for the value of `option`: whether the sensor supports it
    /// first, for the value second.
    pub fn get_option(&self, option: Rs2Option) -> (query: Guarded<Float32>)
        ensures
            query.call == (Call::SupportsOption { sensor: self@.sensor, option }),
            query.follow_up == (Call::GetOption { sensor: self@.sensor, option }),
    {
        Guarded {
            call: Call::SupportsOption { sensor: self.handle(), option },
            follow_up: Call::GetOption { sensor: self.handle(), option },
            value: PhantomData,
        }
    }

    /// Sets `option` to `value`, in three calls at most: whether the
    /// sensor supports the option, whether the option is read-only, and
    /// the write.
    pub fn set_option(&mut self, option: Rs2Option, value: Float32) -> (query: SetOptionSupport)
        ensures
            *final(self) == *old(self),
            query == (SetOptionSupport {
                call: Call::SupportsOption { sensor: old(self)@.sensor, option },
                read_only: Call::IsOptionReadOnly { sensor: old(self)@.sensor, option },
                write: Call::SetOption { sensor: old(self)@.sensor, option, value },
            }),
    {
        SetOptionSupport {
            call: Call::SupportsOption { sensor: self.handle(), option },
            read_only: Call::IsOptionReadOnly { sensor: self.handle(), option },
            write: Call::SetOption { sensor: self.handle(), option, value },
        }
    }

    /// Asks for the values `option` can take: whether the sensor supports
    /// the option first, for the range second.
    pub fn get_option_range(&self, option: Rs2Option) -> (query: Guarded<Rs2OptionRange>)
        ensures
            query.call == (Call::SupportsOption { sensor: self@.sensor, option }),
            query.follow_up == (Call::GetOptionRange { sensor: self@.sensor, option }),
    {
        Guarded {
            call: Call::SupportsOption { sensor: self.handle(), option },
            follow_up: Call::GetOptionRange { sensor: self.handle(), option },
            value: PhantomData,
        }
    }

    /// Asks whether the sensor supports `option`.
    pub fn supports_option(&self, option: Rs2Option) -> (query: Flag)
        ensures
            query.call == (Call::SupportsOption { sensor: self@.sensor, option }),
    {
        Flag { call: Call::SupportsOption { sensor: self.handle(), option } }
    }

    /// Asks whether `option` is read-only.
    pub fn is_option_read_only(&self, option: Rs2Option) -> (query: Flag)
        ensures
            query.call == (Call::IsOptionReadOnly { sensor: self@.sensor, option }),
    {
        Flag { call: Call::IsOptionReadOnly { sensor: self.handle(), option } }
    }

    /// Asks for a field of the sensor's descriptive information: whether
    /// the sensor has it first, for its text second.
    pub fn info(&self, camera_info: Rs2CameraInfo) -> (query: InfoSupport)
        ensures
            query.call == (Call::SupportsSensorInfo { sensor: self@.sensor, info: camera_info }),
            query.follow_up == (Call::GetSensorInfo { sensor: self@.sensor, info: camera_info }),
    {
        InfoSupport {
            call: Call::SupportsSensorInfo { sensor: self.handle(), info: camera_info },
            follow_up: Call::GetSensorInfo { sensor: self.handle(), info: camera_info },
        }
    }

    /// Asks whether the sensor has a field of descriptive information.
    pub fn supports_info(&self, camera_info: Rs2CameraInfo) -> (query: Flag)
        ensures
            query.call == (Call::SupportsSensorInfo { sensor: self@.sensor, info: camera_info }),
    {
        Flag { call: Call::SupportsSensorInfo { sensor: self.handle(), info: camera_info } }
    }
}

/// Setting an option asks three things in a fixed order and stops at the
/// first that forbids the write: an unsupported option is refused as such
/// and a read-only one as such, both with nothing written; only for an
/// option that is supported and writable the write is made, and its
/// failure, if it fails, is the result.
pub proof fn lemma_set_option_order(
    query: SetOptionSupport,
    support: Reply<i32>,
    read_only: Reply<i32>,
    write: Reply<()>,
)
    ensures
        !affirmed(support) ==> query.outcome(support) == Step::<
            SetOptionReadOnly,
            Result<(), OptionSetError>,
        >::Done(Err(OptionSetError::OptionNotSupported)),
        affirmed(support) ==> query.outcome(support) is Next && query.outcome(
            support,
        )->Next_0.call == query.read_only,
        affirmed(support) && affirmed(read_only) ==> query.outcome(support)->Next_0.outcome(
            read_only,
        ) == Step::<SetOptionWrite, Result<(), OptionSetError>>::Done(
            Err(OptionSetError::OptionIsReadOnly),
        ),
        affirmed(support) && !affirmed(read_only) ==> query.outcome(support)->Next_0.outcome(
            read_only,
        ) == Step::<SetOptionWrite, Result<(), OptionSetError>>::Next(
            SetOptionWrite { call: query.write },
        ),
        write.error is Some ==> SetOptionWrite::outcome(write) == Err::<(), OptionSetError>(
            OptionSetError::CouldNotSetOption(write.error->0),
        ),
        write.error is None ==> SetOptionWrite::outcome(write) == Ok::<(), OptionSetError>(()),
{
}

} // verus!
