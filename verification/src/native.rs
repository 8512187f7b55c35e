//! What crosses the boundary to the SDK: handles going out, answers coming back.

use vstd::prelude::*;

verus! {

/// The address of a native object. Never null.
#[derive(Clone, Copy, Debug, PartialEq, Eq, Hash, Structural)]
pub struct Handle {
    addr: usize,
}

impl View for Handle {
    type V = usize;

    closed spec fn view(&self) -> usize {
        self.addr
    }
}

impl Handle {
    #[verifier::type_invariant]
    spec fn non_null(self) -> bool {
        self.addr != 0
    }

    /// The handle that stands for `addr`.
    pub closed spec fn at(addr: usize) -> Handle {
        Handle { addr }
    }

    /// A handle is its address and nothing more.
    pub broadcast proof fn lemma_at(addr: usize)
        ensures
            (#[trigger] Handle::at(addr))@ == addr,
    {
    }

    /// Handles at the same address are the same handle.
    pub broadcast proof fn lemma_at_view(handle: Handle)
        ensures
            Handle::at(#[trigger] handle@) == handle,
    {
    }

    /// Wraps an address, refusing null.
    pub fn new(addr: usize) -> (handle: Option<Handle>)
        ensures
            addr == 0 ==> handle is None,
            addr != 0 ==> handle == Some(Handle::at(addr)),
    {
        if addr == 0 {
            None
        } else {
            Some(Handle { addr })
        }
    }

    /// The address, for handing back to the SDK.
    pub fn addr(&self) -> (addr: usize)
        ensures
            addr == self@,
            addr != 0,
    {
        proof {
            use_type_invariant(self);
        }
        self.addr
    }
}

/// What a native call left behind: its return value and its error slot.
///
/// The slot holds the SDK's message when the call failed. The value of a
/// failed call is whatever the SDK happened to return and means nothing.
#[derive(Debug, PartialEq, Eq)]
pub struct Reply<T> {
    pub value: T,
    pub error: Option<String>,
}

impl<T> Reply<T> {
    /// The answer of a call that succeeded with `value`.
    pub fn ok(value: T) -> (reply: Reply<T>)
        ensures
            reply.value == value,
            reply.error is None,
    {
        Reply { value, error: None }
    }

    /// The answer of a call that failed with `message`, having returned `value`.
    pub fn failed(value: T, message: String) -> (reply: Reply<T>)
        ensures
            reply.value == value,
            reply.error == Some(message),
    {
        Reply { value, error: Some(message) }
    }

    /// What the error-checking protocol makes of this answer.
    pub open spec fn checked(self) -> Result<T, crate::error::Error> {
        match self.error {
            Some(message) => Err(crate::error::Error::Native(message)),
            None => Ok(self.value),
        }
    }

    /// Applies the error-checking protocol: a filled slot is a failure with
    /// the slot's message, whatever was returned; an empty slot vouches for
    /// the value.
    pub fn check(self) -> (checked: Result<T, crate::error::Error>)
        ensures
            checked == self.checked(),
    {
        match self.error {
            Some(message) => Err(crate::error::Error::Native(message)),
            None => Ok(self.value),
        }
    }
}

} // verus!
