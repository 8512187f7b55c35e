//! The frames a composite frame bundles: counting them and getting at one.

use crate::call::{Call, Step};
use crate::error::Error;
use crate::frame::iter::{CompositeFrameIntoIter, IterState};
use crate::frame::marker::{Any, Composite};
use crate::frame::Frame;
use crate::native::{Handle, Reply};
use crate::ownership::{Dropped, Owned};
use crate::query::{handle_in, read_handle, Size};
use vstd::prelude::*;

verus! {

/// The first call of getting at an embedded frame: the one that counts the
/// embedded frames.
#[derive(Debug, PartialEq, Eq)]
pub struct GetLen {
    pub call: Call,
    /// The composite frame asked.
    pub frame: Handle,
    /// The position asked for.
    pub index: usize,
}

/// The second call of getting at an embedded frame: the one that extracts
/// it.
#[derive(Debug, PartialEq, Eq)]
pub struct GetFrame {
    pub call: Call,
}

impl GetLen {
    /// What follows from `reply`: nothing more for a failed count or for a
    /// position at or past the count, else the extraction at that position.
    pub open spec fn outcome(self, reply: Reply<i32>) -> Step<
        GetFrame,
        Result<Option<Frame<Any>>, Error>,
    > {
        match reply.error {
            Some(message) => Step::Done(Err(Error::Native(message))),
            None => if self.index >= reply.value as usize {
                Step::Done(Ok(None))
            } else {
                Step::Next(
                    GetFrame {
                        call: Call::ExtractFrame { frame: self.frame, index: self.index as i32 },
                    },
                )
            },
        }
    }

    /// Takes the count. A position the composite does not have ends the
    /// operation with `None`, and no extraction is attempted.
    pub fn resume(self, reply: Reply<i32>) -> (step: Step<
        GetFrame,
        Result<Option<Frame<Any>>, Error>,
    >)
        ensures
            step == self.outcome(reply),
    {
        match reply.error {
            Some(message) => Step::Done(Err(Error::Native(message))),
            None => {
                let len: usize = #[verifier::truncate] (reply.value as usize);
                if self.index >= len {
                    Step::Done(Ok(None))
                } else {
                    Step::Next(
                        GetFrame {
                            call: Call::ExtractFrame {
                                frame: self.frame,
                                index: #[verifier::truncate] (self.index as i32),
                            },
                        },
                    )
                }
            },
        }
    }
}

impl GetFrame {
    /// What `reply` says the embedded frame is.
    pub open spec fn outcome(reply: Reply<usize>) -> Result<Option<Frame<Any>>, Error> {
        match handle_in(reply) {
            Ok(handle) => Ok(Some(Frame::<Any>::owning(handle))),
            Err(error) => Err(error),
        }
    }

    /// The extracted frame, owned by the caller and of no known kind,
    /// unless the extraction failed or returned null.
    pub fn resume(self, reply: Reply<usize>) -> (result: Result<Option<Frame<Any>>, Error>)
        ensures
            result == Self::outcome(reply),
    {
        match read_handle(reply) {
            Ok(handle) => Ok(Some(Frame::from_ptr(handle))),
            Err(error) => Err(error),
        }
    }
}

/// The call that counts the embedded frames before they are iterated, and
/// the composite frame that is given up for the iteration.
#[derive(Debug, PartialEq, Eq)]
pub struct IntoIterLen {
    pub call: Call,
    /// The composite frame. It is owned by this question until the answer
    /// is in.
    pub frame: Frame<Composite>,
}

impl IntoIterLen {
    /// Whether `result` is what becomes of the composite frame on `reply`.
    ///
    /// With a count, its handle passes to an iterator that starts at the
    /// first embedded frame and is already finished if there is none.
    /// Without one, the frame is dropped and the call that releases it is
    /// owed.
    pub open spec fn yields(
        self,
        reply: Reply<i32>,
        result: Result<CompositeFrameIntoIter, Dropped<Error>>,
    ) -> bool {
        match reply.error {
            Some(message) => result is Err && result->Err_0.error == Error::Native(message)
                && result->Err_0.release@ == self.frame.owes(),
            None => result is Ok && result->Ok_0@ == IterState::start(
                self.frame@,
                reply.value as usize,
            ),
        }
    }

    /// Takes the count and starts the iteration.
    pub fn resume(self, reply: Reply<i32>) -> (result: Result<
        CompositeFrameIntoIter,
        Dropped<Error>,
    >)
        ensures
            self.yields(reply, result),
    {
        match reply.error {
            Some(message) => Err(
                Dropped { error: Error::Native(message), release: self.frame.release() },
            ),
            None => Ok(
                CompositeFrameIntoIter::start(
                    self.frame.take(),
                    #[verifier::truncate] (reply.value as usize),
                ),
            ),
        }
    }
}

impl Frame<Composite> {
    /// Asks how many frames the composite bundles.
    pub fn len(&self) -> (query: Size)
        ensures
            query.call == (Call::EmbeddedFramesCount { frame: self@ }),
    {
        Size { call: Call::EmbeddedFramesCount { frame: self.handle } }
    }

    /// Asks for the embedded frame at `index`: for the count first, and
    /// only if `index` is below it for the frame. The composite keeps its
    /// frames; what is extracted is a frame of its own.
    pub fn get(&self, index: usize) -> (query: GetLen)
        ensures
            query == (GetLen {
                call: Call::EmbeddedFramesCount { frame: self@ },
                frame: self@,
                index,
            }),
    {
        GetLen {
            call: Call::EmbeddedFramesCount { frame: self.handle },
            frame: self.handle,
            index,
        }
    }

    /// Gives the composite up to be iterated: asks for the count, then
    /// passes the handle on to the iterator.
    pub fn try_into_iter(self) -> (query: IntoIterLen)
        ensures
            query.call == (Call::EmbeddedFramesCount { frame: self@ }),
            query.frame == self,
    {
        IntoIterLen { call: Call::EmbeddedFramesCount { frame: self.handle }, frame: self }
    }
}

/// Getting at an embedded frame finds none at or past the count, and below
/// the count finds the frame the SDK extracts at that very position.
pub proof fn lemma_get_within_count(
    query: GetLen,
    count: Reply<i32>,
    extracted: Reply<usize>,
)
    requires
        count.error is None,
        count.value >= 0,
    ensures
        query.index >= count.value ==> query.outcome(count) == Step::<
            GetFrame,
            Result<Option<Frame<Any>>, Error>,
        >::Done(Ok(None)),
        query.index < count.value ==> query.outcome(count) is Next && query.outcome(
            count,
        )->Next_0.call == (Call::ExtractFrame { frame: query.frame, index: query.index as i32 })
            && query.index as i32 == query.index,
        extracted.error is None && extracted.value != 0 ==> GetFrame::outcome(extracted) == Ok::<
            Option<Frame<Any>>,
            Error,
        >(Some(Frame::<Any>::owning(Handle::at(extracted.value)))),
{
}

} // verus!
