//! Single calls and how their answers are read.
//!
//! Each type here names one call to make and takes its answer. The answers
//! are read by the error-checking protocol first: a filled error slot is the
//! operation's failure, and the returned value is then never looked at.

use crate::call::Call;
use crate::error::Error;
use crate::kind::{Span, TimestampDomain};
use crate::native::{Handle, Reply};
use std::marker::PhantomData;
use vstd::prelude::*;

verus! {

/// Whether an answer to a yes-or-no question says yes. A question that
/// failed counts as answered with no.
pub open spec fn affirmed(reply: Reply<i32>) -> bool {
    reply.error is None && reply.value != 0
}

/// Reads an answer to a yes-or-no question: yes only if the call succeeded
/// and returned non-zero.
pub fn affirms(reply: &Reply<i32>) -> (yes: bool)
    ensures
        yes == affirmed(*reply),
{
    reply.error.is_none() && reply.value != 0
}

/// What an answer that carries a pointer holds: the call's failure, else the
/// handle, else, for a null pointer, [`Error::NullHandle`].
pub open spec fn handle_in(reply: Reply<usize>) -> Result<Handle, Error> {
    match reply.error {
        Some(message) => Err(Error::Native(message)),
        None => if reply.value == 0 {
            Err(Error::NullHandle)
        } else {
            Ok(Handle::at(reply.value))
        },
    }
}

/// Reads an answer that carries a pointer.
pub fn read_handle(reply: Reply<usize>) -> (handle: Result<Handle, Error>)
    ensures
        handle == handle_in(reply),
{
    match reply.error {
        Some(message) => Err(Error::Native(message)),
        None => match Handle::new(reply.value) {
            Some(handle) => Ok(handle),
            None => Err(Error::NullHandle),
        },
    }
}

/// A call whose value is the result as it stands.
#[derive(Debug, PartialEq, Eq)]
pub struct Checked<T> {
    pub call: Call,
    /// Marks the type of value the call returns.
    pub value: PhantomData<T>,
}

impl<T> Checked<T> {
    /// The query that makes `call`.
    pub fn new(call: Call) -> (query: Self)
        ensures
            query.call == call,
    {
        Checked { call, value: PhantomData }
    }

    /// The value, unless the call failed.
    pub fn resume(self, reply: Reply<T>) -> (result: Result<T, Error>)
        ensures
            result == reply.checked(),
    {
        reply.check()
    }
}

/// A call that returns a count or a length as the SDK's `int`.
#[derive(Debug, PartialEq, Eq)]
pub struct Size {
    pub call: Call,
}

impl Size {
    /// What `reply` says the size is. A negative `int` is read as the cast
    /// to `usize` reads it.
    pub open spec fn outcome(reply: Reply<i32>) -> Result<usize, Error> {
        match reply.error {
            Some(message) => Err(Error::Native(message)),
            None => Ok(reply.value as usize),
        }
    }

    /// The size, unless the call failed.
    pub fn resume(self, reply: Reply<i32>) -> (result: Result<usize, Error>)
        ensures
            result == Self::outcome(reply),
            reply.error is None && reply.value >= 0 ==> result == Ok::<usize, Error>(
                reply.value as usize,
            ) && result->Ok_0 == reply.value,
    {
        match reply.error {
            Some(message) => Err(Error::Native(message)),
            None => Ok(#[verifier::truncate] (reply.value as usize)),
        }
    }
}

/// The call that reads one field of a frame's metadata.
#[derive(Debug, PartialEq, Eq)]
pub struct Metadata {
    pub call: Call,
}

impl Metadata {
    /// What `reply` says the field holds: the SDK's signed value, read as
    /// unsigned the way a cast reads it.
    pub open spec fn outcome(reply: Reply<i64>) -> Result<u64, Error> {
        match reply.error {
            Some(message) => Err(Error::Native(message)),
            None => Ok(reply.value as u64),
        }
    }

    /// The field's value, unless the call failed, as it does for a frame
    /// that lacks the field.
    pub fn resume(self, reply: Reply<i64>) -> (result: Result<u64, Error>)
        ensures
            result == Self::outcome(reply),
            reply.error is None && reply.value >= 0 ==> result->Ok_0 == reply.value,
    {
        match reply.error {
            Some(message) => Err(Error::Native(message)),
            None => Ok(#[verifier::truncate] (reply.value as u64)),
        }
    }
}

/// The call that reads which clock a frame's timestamp is from.
#[derive(Debug, PartialEq, Eq)]
pub struct Domain {
    pub call: Call,
}

impl Domain {
    /// What `reply` says the domain is.
    pub open spec fn outcome(reply: Reply<u32>) -> Result<TimestampDomain, Error> {
        match reply.error {
            Some(message) => Err(Error::Native(message)),
            None => match TimestampDomain::decoded(reply.value) {
                Some(domain) => Ok(domain),
                None => Err(Error::UnknownTimestampDomain(reply.value)),
            },
        }
    }

    /// The domain, unless the call failed or returned a number that names
    /// no domain this layer knows.
    pub fn resume(self, reply: Reply<u32>) -> (result: Result<TimestampDomain, Error>)
        ensures
            result == Self::outcome(reply),
    {
        match reply.error {
            Some(message) => Err(Error::Native(message)),
            None => match TimestampDomain::from_code(reply.value) {
                Some(domain) => Ok(domain),
                None => Err(Error::UnknownTimestampDomain(reply.value)),
            },
        }
    }
}

/// A call that returns a pointer to something the caller does not own.
#[derive(Debug, PartialEq, Eq)]
pub struct Borrowed {
    pub call: Call,
}

impl Borrowed {
    /// The handle, unless the call failed or returned null. The handle is
    /// lent: it must not be freed.
    pub fn resume(self, reply: Reply<usize>) -> (result: Result<Handle, Error>)
        ensures
            result == handle_in(reply),
    {
        read_handle(reply)
    }
}

/// A yes-or-no question to the SDK.
#[derive(Debug, PartialEq, Eq)]
pub struct Flag {
    pub call: Call,
}

impl Flag {
    /// The answer; no if the question itself failed.
    pub fn resume(self, reply: Reply<i32>) -> (yes: bool)
        ensures
            yes == affirmed(reply),
    {
        affirms(&reply)
    }
}

/// The first of the two calls that locate a run of native memory: the one
/// that returns how many elements it holds.
#[derive(Debug, PartialEq, Eq)]
pub struct SpanLen {
    pub call: Call,
    /// The call that returns where the run starts.
    pub follow_up: Call,
}

/// The second of the two calls that locate a run of native memory: the one
/// that returns where it starts.
#[derive(Debug, PartialEq, Eq)]
pub struct SpanStart {
    pub call: Call,
    /// How many elements the run holds.
    pub len: usize,
}

impl SpanLen {
    /// What follows from `reply`: the second call, or the first call's
    /// failure.
    pub open spec fn outcome(self, reply: Reply<i32>) -> Result<SpanStart, Error> {
        match reply.error {
            Some(message) => Err(Error::Native(message)),
            None => Ok(SpanStart { call: self.follow_up, len: reply.value as usize }),
        }
    }

    /// Takes the length and asks for the start, unless the call failed.
    pub fn resume(self, reply: Reply<i32>) -> (result: Result<SpanStart, Error>)
        ensures
            result == self.outcome(reply),
            reply.error is None && reply.value >= 0 ==> result->Ok_0.len == reply.value,
    {
        match reply.error {
            Some(message) => Err(Error::Native(message)),
            None => Ok(
                SpanStart { call: self.follow_up, len: #[verifier::truncate] (reply.value as usize) },
            ),
        }
    }
}

impl SpanStart {
    /// What `reply` says the run is.
    pub open spec fn outcome(self, reply: Reply<usize>) -> Result<Span, Error> {
        match handle_in(reply) {
            Ok(start) => Ok(Span { start, len: self.len }),
            Err(error) => Err(error),
        }
    }

    /// The run: exactly as long as the first call said, starting where the
    /// second call says, unless that call failed or returned null.
    pub fn resume(self, reply: Reply<usize>) -> (result: Result<Span, Error>)
        ensures
            result == self.outcome(reply),
    {
        match read_handle(reply) {
            Ok(start) => Ok(Span { start, len: self.len }),
            Err(error) => Err(error),
        }
    }
}

} // verus!
