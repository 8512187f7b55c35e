//! Taking a composite frame apart, one embedded frame after the other.

use crate::call::Call;
use crate::error::Error;
use crate::frame::marker::Any;
use crate::frame::Frame;
use crate::native::{Handle, Reply};
use crate::ownership::Owned;
use crate::query::{handle_in, read_handle};
use vstd::prelude::*;

verus! {

/// Where an iteration over a composite frame stands.
pub struct IterState {
    /// The composite frame's handle, which the iteration owns.
    pub handle: Handle,
    /// How many frames the composite bundled when the iteration began.
    pub len: usize,
    /// The position of the next frame to extract.
    pub index: usize,
    /// Whether the iteration is over.
    pub fused: bool,
}

/// What an iteration yields: a frame, or the failure that ends it.
pub type Item = Result<Frame<Any>, Error>;

impl IterState {
    /// The state an iteration over `len` frames begins in: over at once if
    /// there is nothing to iterate.
    pub open spec fn start(handle: Handle, len: usize) -> IterState {
        IterState { handle, len, index: 0, fused: len == 0 }
    }

    /// An iteration that is not over has a frame left to extract.
    pub open spec fn wf(self) -> bool {
        self.fused || self.index < self.len
    }

    /// The call the iteration needs made next, if it is not over.
    pub open spec fn asks(self) -> Option<Call> {
        if self.fused {
            None
        } else {
            Some(Call::ExtractFrame { frame: self.handle, index: self.index as i32 })
        }
    }

    /// The state after `reply` has come in.
    pub open spec fn after(self, reply: Reply<usize>) -> IterState {
        if self.fused {
            self
        } else if handle_in(reply) is Err {
            IterState { fused: true, ..self }
        } else {
            IterState {
                index: (self.index + 1) as usize,
                fused: self.index + 1 >= self.len,
                ..self
            }
        }
    }

    /// What the iteration yields for `reply`: nothing once it is over, else
    /// the extracted frame or the failure.
    pub open spec fn yields(self, reply: Reply<usize>) -> Option<Item> {
        if self.fused {
            None
        } else {
            Some(
                match handle_in(reply) {
                    Ok(handle) => Ok(Frame::<Any>::owning(handle)),
                    Err(error) => Err(error),
                },
            )
        }
    }

    /// The calls made and the items yielded when the answers in `replies`
    /// come in one after the other, for as long as the iteration asks.
    pub open spec fn trace(self, replies: Seq<Reply<usize>>) -> Seq<(Call, Item)>
        decreases replies.len(),
    {
        if self.fused || replies.len() == 0 {
            Seq::empty()
        } else {
            seq![(self.asks()->0, self.yields(replies[0])->0)] + self.after(replies[0]).trace(
                replies.skip(1),
            )
        }
    }
}

/// An iteration over the frames of a composite frame, which it has taken
/// the place of: it owns the composite's handle.
///
/// While it is not over, it names the extraction to make; given the answer
/// to that it yields a frame or, once and last, a failure.
#[derive(Debug, PartialEq, Eq)]
pub struct CompositeFrameIntoIter {
    len: usize,
    index: usize,
    handle: Handle,
    fused: bool,
}

impl View for CompositeFrameIntoIter {
    type V = IterState;

    closed spec fn view(&self) -> IterState {
        IterState { handle: self.handle, len: self.len, index: self.index, fused: self.fused }
    }
}

impl CompositeFrameIntoIter {
    #[verifier::type_invariant]
    spec fn inv(self) -> bool {
        self.fused || self.index < self.len
    }

    /// Begins an iteration over the `len` frames of the composite behind
    /// `handle`, which it owns from now on.
    pub fn start(handle: Handle, len: usize) -> (iter: Self)
        ensures
            iter@ == IterState::start(handle, len),
    {
        CompositeFrameIntoIter { len, index: 0, handle, fused: len == 0 }
    }

    /// The extraction to make next; `None` when the iteration is over.
    pub fn call(&self) -> (call: Option<Call>)
        ensures
            call == self@.asks(),
            self@.wf(),
    {
        proof {
            use_type_invariant(self);
        }
        if self.fused {
            None
        } else {
            Some(
                Call::ExtractFrame {
                    frame: self.handle,
                    index: #[verifier::truncate] (self.index as i32),
                },
            )
        }
    }

    /// Takes the answer to the extraction and yields the next item.
    ///
    /// Once the iteration is over this yields `None` and reads nothing. A
    /// failed extraction is yielded and ends the iteration; so does the
    /// last frame.
    pub fn next(&mut self, reply: Reply<usize>) -> (item: Option<Item>)
        ensures
            item == old(self)@.yields(reply),
            final(self)@ == old(self)@.after(reply),
            final(self)@.wf(),
    {
        proof {
            use_type_invariant(&*self);
        }
        if self.fused {
            return None;
        }
        match read_handle(reply) {
            Ok(handle) => {
                if self.index + 1 >= self.len {
                    self.fused = true;
                }
                self.index = self.index + 1;
                Some(Ok(Frame::from_ptr(handle)))
            },
            Err(error) => {
                self.fused = true;
                Some(Err(error))
            },
        }
    }
}

impl Owned for CompositeFrameIntoIter {
    /// An iteration owes the one call that releases the composite's handle.
    open spec fn owes(&self) -> Seq<Call> {
        seq![Call::ReleaseFrame { frame: self@.handle }]
    }

    fn release(self) -> (calls: Vec<Call>) {
        let mut calls = Vec::new();
        calls.push(Call::ReleaseFrame { frame: self.handle });
        assert(calls@ =~= self.owes());
        calls
    }
}

/// An iteration over a composite that bundles nothing is over before it
/// begins: it asks for no extraction and yields nothing, whatever it is
/// told.
pub proof fn lemma_empty_is_over(handle: Handle, replies: Seq<Reply<usize>>, reply: Reply<usize>)
    ensures
        IterState::start(handle, 0).asks() is None,
        IterState::start(handle, 0).yields(reply) is None,
        IterState::start(handle, 0).after(reply) == IterState::start(handle, 0),
        IterState::start(handle, 0).trace(replies) == Seq::<(Call, Item)>::empty(),
{
}

/// While every extraction succeeds, the iteration extracts position after
/// position, yields each frame the SDK returns, and is over exactly when it
/// has yielded as many frames as the composite bundled.
pub proof fn lemma_yields_every_frame(state: IterState, replies: Seq<Reply<usize>>)
    requires
        state.wf(),
        !state.fused,
        replies.len() >= state.len - state.index,
        forall|i: int| 0 <= i < state.len - state.index ==> handle_in(#[trigger] replies[i]) is Ok,
    ensures
        state.trace(replies).len() == state.len - state.index,
        forall|i: int|
            0 <= i < state.len - state.index ==> #[trigger] state.trace(replies)[i] == (
                Call::ExtractFrame { frame: state.handle, index: (state.index + i) as i32 },
                Ok::<Frame<Any>, Error>(Frame::<Any>::owning(handle_in(replies[i])->Ok_0)),
            ),
    decreases state.len - state.index,
{
    let next = state.after(replies[0]);
    let rest = replies.skip(1);
    assert(handle_in(replies[0]) is Ok);
    if next.fused {
        assert(next.trace(rest) =~= Seq::<(Call, Item)>::empty());
    } else {
        assert forall|i: int| 0 <= i < next.len - next.index implies handle_in(
            #[trigger] rest[i],
        ) is Ok by {
            assert(rest[i] == replies[i + 1]);
        }
        lemma_yields_every_frame(next, rest);
        assert forall|i: int| 0 <= i < state.len - state.index implies #[trigger] state.trace(
            replies,
        )[i] == (
            Call::ExtractFrame { frame: state.handle, index: (state.index + i) as i32 },
            Ok::<Frame<Any>, Error>(Frame::<Any>::owning(handle_in(replies[i])->Ok_0)),
        ) by {
            if i > 0 {
                assert(state.trace(replies)[i] == next.trace(rest)[i - 1]);
                assert(rest[i - 1] == replies[i]);
            }
        }
    }
}

/// The first extraction that fails is the last one made: the frames before
/// it are yielded, the failure is yielded after them, and with that the
/// iteration is over, whatever answers are still at hand.
pub proof fn lemma_stops_at_first_failure(
    state: IterState,
    replies: Seq<Reply<usize>>,
    failed: int,
)
    requires
        state.wf(),
        !state.fused,
        0 <= failed < state.len - state.index,
        failed < replies.len(),
        forall|i: int| 0 <= i < failed ==> handle_in(#[trigger] replies[i]) is Ok,
        handle_in(replies[failed]) is Err,
    ensures
        state.trace(replies).len() == failed + 1,
        forall|i: int|
            0 <= i < failed ==> #[trigger] state.trace(replies)[i] == (
                Call::ExtractFrame { frame: state.handle, index: (state.index + i) as i32 },
                Ok::<Frame<Any>, Error>(Frame::<Any>::owning(handle_in(replies[i])->Ok_0)),
            ),
        state.trace(replies)[failed] == (
            Call::ExtractFrame { frame: state.handle, index: (state.index + failed) as i32 },
            Err::<Frame<Any>, Error>(handle_in(replies[failed])->Err_0),
        ),
    decreases failed,
{
    let next = state.after(replies[0]);
    let rest = replies.skip(1);
    if failed == 0 {
        assert(next.trace(rest) =~= Seq::<(Call, Item)>::empty());
    } else {
        assert(handle_in(replies[0]) is Ok);
        assert forall|i: int| 0 <= i < failed - 1 implies handle_in(#[trigger] rest[i]) is Ok by {
            assert(rest[i] == replies[i + 1]);
        }
        assert(rest[failed - 1] == replies[failed]);
        lemma_stops_at_first_failure(next, rest, failed - 1);
        assert forall|i: int| 0 <= i < failed implies #[trigger] state.trace(replies)[i] == (
            Call::ExtractFrame { frame: state.handle, index: (state.index + i) as i32 },
            Ok::<Frame<Any>, Error>(Frame::<Any>::owning(handle_in(replies[i])->Ok_0)),
        ) by {
            if i > 0 {
                assert(state.trace(replies)[i] == next.trace(rest)[i - 1]);
                assert(rest[i - 1] == replies[i]);
            }
        }
        assert(state.trace(replies)[failed] == next.trace(rest)[failed - 1]);
    }
}

} // verus!
