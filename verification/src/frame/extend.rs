//! Finding out what an untagged frame holds.

use crate::call::Call;
use crate::error::Error;
use crate::frame::marker::{Any, NonAnyFrameKind};
use crate::frame::Frame;
use crate::native::Reply;
use crate::ownership::{Dropped, Owned};
use std::marker::PhantomData;
use vstd::prelude::*;

verus! {

/// The question whether a frame extends to `Kind`, and the frame it is
/// asked about.
#[derive(Debug, PartialEq, Eq)]
pub struct Extend<Kind: NonAnyFrameKind> {
    pub call: Call,
    /// The frame in question. It is owned by this question until the answer
    /// is in.
    pub frame: Frame<Any>,
    /// Marks the kind asked for.
    pub kind: PhantomData<Kind>,
}

impl Frame<Any> {
    /// Asks whether the frame holds what `Kind` tags, in order to tag it so.
    pub fn try_extend_to<Kind: NonAnyFrameKind>(self) -> (query: Extend<Kind>)
        ensures
            query.call == (Call::IsFrameExtendableTo {
                frame: self@,
                extension: Kind::extension_of(),
            }),
            query.frame == self,
    {
        Extend {
            call: Call::IsFrameExtendableTo { frame: self.handle, extension: Kind::extension() },
            frame: self,
            kind: PhantomData,
        }
    }
}

impl<Kind: NonAnyFrameKind> Extend<Kind> {
    /// Whether `result` is what becomes of the frame on `reply`.
    ///
    /// If the SDK says yes, the frame is the same handle under the new tag.
    /// If it says no, the frame comes back as it was. If the question
    /// failed, the frame is dropped and the call that releases it is owed.
    pub open spec fn yields(
        self,
        reply: Reply<i32>,
        result: Result<Result<Frame<Kind>, Frame<Any>>, Dropped<Error>>,
    ) -> bool {
        match reply.error {
            Some(message) => result is Err && result->Err_0.error == Error::Native(message)
                && result->Err_0.release@ == self.frame.owes(),
            None => if reply.value != 0 {
                result == Ok::<Result<Frame<Kind>, Frame<Any>>, Dropped<Error>>(
                    Ok(Frame::<Kind>::owning(self.frame@)),
                )
            } else {
                result == Ok::<Result<Frame<Kind>, Frame<Any>>, Dropped<Error>>(
                    Err(self.frame),
                )
            },
        }
    }

    /// Takes the answer. No call is made for a yes or a no: a yes re-tags
    /// the handle the frame already owns, a no hands the frame back.
    pub fn resume(self, reply: Reply<i32>) -> (result: Result<
        Result<Frame<Kind>, Frame<Any>>,
        Dropped<Error>,
    >)
        ensures
            self.yields(reply, result),
            result matches Ok(Ok(extended)) ==> extended@ == self.frame@,
            result matches Ok(Err(unchanged)) ==> unchanged == self.frame,
    {
        broadcast use Frame::lemma_owning;

        match reply.error {
            Some(message) => Err(
                Dropped { error: Error::Native(message), release: self.frame.release() },
            ),
            None => if reply.value != 0 {
                Ok(Ok(Frame::from_ptr(self.frame.take())))
            } else {
                Ok(Err(self.frame))
            },
        }
    }
}

} // verus!
