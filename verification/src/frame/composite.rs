//! A composite frame, as the pipeline delivers it: a bundle of the frames
//! that were taken together.
//!
//! Looking through the bundle for frames of one extension extracts every
//! embedded frame in turn. Each extracted frame is a frame of its own: it is
//! either kept, and then belongs to what it was converted to, or released.

use crate::call::Call;
use crate::kind::Rs2Extension;
use crate::native::{Handle, Reply};
use crate::ownership::Owned;
use crate::query::{affirmed, affirms, handle_in, read_handle};
use std::marker::PhantomData;
use vstd::prelude::*;

verus! {

/// The owner of one native composite frame.
#[derive(Debug, PartialEq, Eq)]
pub struct CompositeFrame {
    handle: Handle,
}

impl View for CompositeFrame {
    type V = Handle;

    closed spec fn view(&self) -> Handle {
        self.handle
    }
}

/// How many frames an answer to the count says a composite bundles: none
/// if the count failed.
pub open spec fn count_in(reply: Reply<i32>) -> usize {
    if reply.error is None {
        reply.value as usize
    } else {
        0
    }
}

/// Reads an answer to the count of embedded frames.
fn read_count(reply: &Reply<i32>) -> (count: usize)
    ensures
        count == count_in(*reply),
{
    if reply.error.is_none() {
        #[verifier::truncate]
        (reply.value as usize)
    } else {
        0
    }
}

/// The call that counts the frames a composite bundles.
#[derive(Debug, PartialEq, Eq)]
pub struct Count {
    pub call: Call,
}

impl Count {
    /// The count. A count that failed is a count of zero: it bounds loops
    /// and must not stop them with an error.
    pub fn resume(self, reply: Reply<i32>) -> (count: usize)
        ensures
            count == count_in(reply),
            reply.error is None && reply.value >= 0 ==> count == reply.value,
    {
        read_count(&reply)
    }
}

/// The call that tells whether a composite bundles anything.
#[derive(Debug, PartialEq, Eq)]
pub struct IsEmpty {
    pub call: Call,
}

impl IsEmpty {
    /// Whether the composite bundles nothing, as it does if its frames
    /// cannot be counted.
    pub fn resume(self, reply: Reply<i32>) -> (empty: bool)
        ensures
            empty == (count_in(reply) == 0),
    {
        read_count(&reply) == 0
    }
}

/// Where the search of a bundle stands.
pub struct BundleState<E> {
    /// The composite frame searched.
    pub frame: Handle,
    /// How many frames it bundles.
    pub len: usize,
    /// The position of the embedded frame in hand.
    pub index: usize,
    /// The extension searched for.
    pub extension: Rs2Extension,
    /// The frames kept so far, in bundle order.
    pub found: Seq<E>,
}

/// What the search of a bundle does next.
pub enum BundleNext<E> {
    /// Extract the embedded frame in hand.
    Extract(BundleState<E>),
    /// Ask whether the frame just extracted, which is behind this handle,
    /// extends to what is searched for.
    Check(Handle, BundleState<E>),
    /// Convert the frame behind this handle.
    Convert(Handle, BundleState<E>),
    /// Release the frame behind this handle: it is not kept.
    Discard(Handle, BundleState<E>),
    /// Nothing: this is what was found, `None` if nothing was.
    Done(Option<Seq<E>>),
}

impl<E> BundleState<E> {
    /// The state the search of a bundle of `len` frames begins in.
    pub open spec fn start(frame: Handle, len: usize, extension: Rs2Extension) -> BundleState<E> {
        BundleState { frame, len, index: 0, extension, found: Seq::empty() }
    }

    /// The frame in hand is one of the bundle's.
    pub open spec fn wf(self) -> bool {
        self.index < self.len
    }

    /// What the search ends with, given what it has kept: `None` rather
    /// than an empty collection.
    pub open spec fn result(found: Seq<E>) -> Option<Seq<E>> {
        if found.len() == 0 {
            None
        } else {
            Some(found)
        }
    }

    /// What follows when the frame in hand is done with: the next frame,
    /// or the end.
    pub open spec fn advance(self) -> BundleNext<E> {
        if self.index + 1 >= self.len {
            BundleNext::Done(Self::result(self.found))
        } else {
            BundleNext::Extract(BundleState { index: (self.index + 1) as usize, ..self })
        }
    }

    /// What follows from the answer to the extraction: the check of the
    /// extracted frame, or, if nothing was extracted, whatever follows the
    /// frame in hand.
    pub open spec fn extracted(self, reply: Reply<usize>) -> BundleNext<E> {
        match handle_in(reply) {
            Ok(frame) => BundleNext::Check(frame, self),
            Err(_) => self.advance(),
        }
    }

    /// What follows from the answer to the check: the conversion of a
    /// frame that extends to what is searched for, the release of one that
    /// does not or cannot be asked.
    pub open spec fn checked(self, frame: Handle, reply: Reply<i32>) -> BundleNext<E> {
        if affirmed(reply) {
            BundleNext::Convert(frame, self)
        } else {
            BundleNext::Discard(frame, self)
        }
    }

    /// What follows from the conversion: a converted frame is kept and the
    /// frame in hand is done with, one that would not convert is released.
    pub open spec fn converted(self, frame: Handle, converted: Option<E>) -> BundleNext<E> {
        match converted {
            Some(kept) => BundleState { found: self.found.push(kept), ..self }.advance(),
            None => BundleNext::Discard(frame, self),
        }
    }

    /// Whether the embedded frame at a position is kept, given the answers
    /// it meets.
    pub open spec fn keeps(extract: Reply<usize>, check: Reply<i32>, conversion: Option<E>) -> bool {
        handle_in(extract) is Ok && affirmed(check) && conversion is Some
    }

    /// What follows once the frame in hand is done with, when its
    /// extraction is answered by `extract`, its check by `check`, and its
    /// conversion gives `conversion`, as far as it comes to each of these.
    pub open spec fn entry(
        self,
        extract: Reply<usize>,
        check: Reply<i32>,
        conversion: Option<E>,
    ) -> BundleNext<E> {
        match self.extracted(extract) {
            BundleNext::Check(frame, state) => match state.checked(frame, check) {
                BundleNext::Convert(frame, state) => match state.converted(frame, conversion) {
                    BundleNext::Discard(_, state) => state.advance(),
                    other => other,
                },
                BundleNext::Discard(_, state) => state.advance(),
                other => other,
            },
            other => other,
        }
    }

    /// The frame that is released while the frame in hand is dealt with,
    /// if one is.
    pub open spec fn releases(
        self,
        extract: Reply<usize>,
        check: Reply<i32>,
        conversion: Option<E>,
    ) -> Option<Handle> {
        match self.extracted(extract) {
            BundleNext::Check(frame, state) => match state.checked(frame, check) {
                BundleNext::Convert(frame, state) => match state.converted(frame, conversion) {
                    BundleNext::Discard(released, _) => Some(released),
                    _ => None,
                },
                BundleNext::Discard(released, _) => Some(released),
                _ => None,
            },
            _ => None,
        }
    }

    /// What the search ends with when the frame at position `i` meets the
    /// answers `extracts[i]`, `checks[i]` and `conversions[i]`.
    pub open spec fn run(
        self,
        extracts: Seq<Reply<usize>>,
        checks: Seq<Reply<i32>>,
        conversions: Seq<Option<E>>,
    ) -> Option<Seq<E>>
        decreases self.len - self.index,
    {
        let i = self.index as int;
        match self.entry(extracts[i], checks[i], conversions[i]) {
            BundleNext::Extract(next) => if next.len - next.index < self.len - self.index {
                next.run(extracts, checks, conversions)
            } else {
                None
            },
            BundleNext::Done(result) => result,
            _ => None,
        }
    }
}

/// What follows from the answer to the count: the first extraction, or the
/// end for a bundle that is empty or could not be counted.
pub open spec fn counted<E>(
    frame: Handle,
    extension: Rs2Extension,
    reply: Reply<i32>,
) -> BundleNext<E> {
    if count_in(reply) == 0 {
        BundleNext::Done(None)
    } else {
        BundleNext::Extract(BundleState::start(frame, count_in(reply), extension))
    }
}

/// The frames among the first `upto` of a bundle that are kept, in bundle
/// order.
pub open spec fn kept_frames<E>(
    extracts: Seq<Reply<usize>>,
    checks: Seq<Reply<i32>>,
    conversions: Seq<Option<E>>,
    upto: int,
) -> Seq<E>
    decreases upto,
{
    if upto <= 0 {
        Seq::empty()
    } else if BundleState::<E>::keeps(extracts[upto - 1], checks[upto - 1], conversions[upto - 1]) {
        kept_frames(extracts, checks, conversions, upto - 1).push(conversions[upto - 1]->0)
    } else {
        kept_frames(extracts, checks, conversions, upto - 1)
    }
}

/// The call that counts the frames of the bundle to search.
#[derive(Debug, PartialEq, Eq)]
pub struct FramesCount<E> {
    pub call: Call,
    /// The composite frame searched.
    pub frame: Handle,
    /// The extension searched for.
    pub extension: Rs2Extension,
    /// Marks the type kept frames are converted to.
    pub kept: PhantomData<E>,
}

/// The extraction of one embedded frame.
#[derive(Debug, PartialEq, Eq)]
pub struct FrameExtract<E> {
    frame: Handle,
    len: usize,
    index: usize,
    extension: Rs2Extension,
    found: Vec<E>,
}

/// An extracted frame and where the search stands: the question whether
/// the frame extends to what is searched for, its conversion, or its
/// release.
#[derive(Debug, PartialEq, Eq)]
pub struct FrameInHand<E> {
    extracted: Handle,
    search: FrameExtract<E>,
}

/// What the search of a bundle does next.
#[derive(Debug, PartialEq, Eq)]
pub enum FramesStep<E> {
    /// Make the extraction this names and hand it the answer.
    Extract(FrameExtract<E>),
    /// Make the call [`FrameInHand::check_call`] names and hand the answer to
    /// [`FrameInHand::checked`].
    Check(FrameInHand<E>),
    /// Convert the frame [`FrameInHand::extracted`] names, which passes to
    /// the conversion, and hand the outcome to [`FrameInHand::converted`].
    Convert(FrameInHand<E>),
    /// Make the call [`FrameInHand::release_call`] names, then go on with
    /// [`FrameInHand::released`].
    Discard(FrameInHand<E>),
    /// Nothing: this is what was found, `None` if nothing was.
    Done(Option<Vec<E>>),
}

impl<E> View for FrameExtract<E> {
    type V = BundleState<E>;

    closed spec fn view(&self) -> BundleState<E> {
        BundleState {
            frame: self.frame,
            len: self.len,
            index: self.index,
            extension: self.extension,
            found: self.found@,
        }
    }
}

impl<E> View for FrameInHand<E> {
    type V = (Handle, BundleState<E>);

    closed spec fn view(&self) -> (Handle, BundleState<E>) {
        (self.extracted, self.search@)
    }
}

/// What is found, as a sequence.
pub open spec fn found_view<E>(found: Option<Vec<E>>) -> Option<Seq<E>> {
    match found {
        Some(frames) => Some(frames@),
        None => None,
    }
}

impl<E> View for FramesStep<E> {
    type V = BundleNext<E>;

    open spec fn view(&self) -> BundleNext<E> {
        match self {
            FramesStep::Extract(extract) => BundleNext::Extract(extract@),
            FramesStep::Check(hand) => BundleNext::Check(hand@.0, hand@.1),
            FramesStep::Convert(hand) => BundleNext::Convert(hand@.0, hand@.1),
            FramesStep::Discard(hand) => BundleNext::Discard(hand@.0, hand@.1),
            FramesStep::Done(found) => BundleNext::Done(found_view(*found)),
        }
    }
}

impl<E> FramesCount<E> {
    /// Takes the count. A bundle that is empty or cannot be counted holds
    /// nothing to find, and nothing is extracted.
    pub fn resume(self, reply: Reply<i32>) -> (step: FramesStep<E>)
        ensures
            step@ == counted::<E>(self.frame, self.extension, reply),
    {
        let len = read_count(&reply);
        if len == 0 {
            FramesStep::Done(None)
        } else {
            FramesStep::Extract(
                FrameExtract {
                    frame: self.frame,
                    len,
                    index: 0,
                    extension: self.extension,
                    found: Vec::new(),
                },
            )
        }
    }
}

impl<E> FrameExtract<E> {
    #[verifier::type_invariant]
    spec fn inv(self) -> bool {
        self.index < self.len
    }

    /// Goes on to the frame after the one in hand, or ends.
    fn advance(self) -> (step: FramesStep<E>)
        ensures
            step@ == self@.advance(),
    {
        proof {
            use_type_invariant(&self);
        }
        let FrameExtract { frame, len, index, extension, found } = self;
        if index + 1 >= len {
            if found.len() == 0 {
                FramesStep::Done(None)
            } else {
                FramesStep::Done(Some(found))
            }
        } else {
            FramesStep::Extract(FrameExtract { frame, len, index: index + 1, extension, found })
        }
    }

    /// The call to make: the extraction of the frame in hand. Its position
    /// is passed as the SDK's `int`, cut to its width as a cast cuts it.
    pub fn call(&self) -> (call: Call)
        ensures
            call == (Call::ExtractFrame { frame: self@.frame, index: self@.index as i32 }),
            self@.wf(),
    {
        proof {
            use_type_invariant(self);
        }
        Call::ExtractFrame { frame: self.frame, index: #[verifier::truncate] (self.index as i32) }
    }

    /// Takes the answer to the extraction. A frame that could not be
    /// extracted is passed over.
    pub fn resume(self, reply: Reply<usize>) -> (step: FramesStep<E>)
        ensures
            step@ == self@.extracted(reply),
    {
        match read_handle(reply) {
            Ok(extracted) => FramesStep::Check(FrameInHand { extracted, search: self }),
            Err(_) => self.advance(),
        }
    }
}

impl<E> FrameInHand<E> {
    /// The extracted frame.
    pub fn extracted(&self) -> (frame: Handle)
        ensures
            frame == self@.0,
    {
        self.extracted
    }

    /// The question whether the extracted frame extends to what is
    /// searched for.
    pub fn check_call(&self) -> (call: Call)
        ensures
            call == (Call::IsFrameExtendableTo { frame: self@.0, extension: self@.1.extension }),
    {
        Call::IsFrameExtendableTo { frame: self.extracted, extension: self.search.extension }
    }

    /// The call that releases the extracted frame.
    pub fn release_call(&self) -> (call: Call)
        ensures
            call == (Call::ReleaseFrame { frame: self@.0 }),
    {
        Call::ReleaseFrame { frame: self.extracted }
    }

    /// Takes the answer to the check. A frame that does not extend to what
    /// is searched for, or of which that cannot be found out, is not kept.
    pub fn checked(self, reply: Reply<i32>) -> (step: FramesStep<E>)
        ensures
            step@ == self@.1.checked(self@.0, reply),
    {
        if affirms(&reply) {
            FramesStep::Convert(self)
        } else {
            FramesStep::Discard(self)
        }
    }

    /// Takes the outcome of the conversion. A frame that would not convert
    /// is not kept.
    pub fn converted(self, converted: Option<E>) -> (step: FramesStep<E>)
        ensures
            step@ == self@.1.converted(self@.0, converted),
    {
        match converted {
            Some(kept) => {
                let FrameInHand { extracted: _, search } = self;
                proof {
                    use_type_invariant(&search);
                }
                let FrameExtract { frame, len, index, extension, mut found } = search;
                found.push(kept);
                FrameExtract { frame, len, index, extension, found }.advance()
            },
            None => FramesStep::Discard(self),
        }
    }

    /// Goes on after the extracted frame has been released.
    pub fn released(self) -> (step: FramesStep<E>)
        ensures
            step@ == self@.1.advance(),
    {
        self.search.advance()
    }
}

impl CompositeFrame {
    /// Takes ownership of `handle`.
    pub fn from_ptr(handle: Handle) -> (frame: Self)
        ensures
            frame@ == handle,
    {
        CompositeFrame { handle }
    }

    /// The handle this composite frame owns.
    pub fn handle(&self) -> (handle: Handle)
        ensures
            handle == self@,
    {
        self.handle
    }

    /// Asks how many frames the composite bundles.
    pub fn count(&self) -> (query: Count)
        ensures
            query.call == (Call::EmbeddedFramesCount { frame: self@ }),
    {
        Count { call: Call::EmbeddedFramesCount { frame: self.handle } }
    }

    /// Asks whether the composite bundles nothing.
    pub fn is_empty(&self) -> (query: IsEmpty)
        ensures
            query.call == (Call::EmbeddedFramesCount { frame: self@ }),
    {
        IsEmpty { call: Call::EmbeddedFramesCount { frame: self.handle } }
    }

    /// Begins a search of the bundle for the frames that extend to
    /// `extension` and convert to `E`. The composite keeps its frames and
    /// can be searched again.
    pub fn frames_of_extension<E>(&self, extension: Rs2Extension) -> (query: FramesCount<E>)
        ensures
            query.call == (Call::EmbeddedFramesCount { frame: self@ }),
            query.frame == self@,
            query.extension == extension,
    {
        FramesCount {
            call: Call::EmbeddedFramesCount { frame: self.handle },
            frame: self.handle,
            extension,
            kept: PhantomData,
        }
    }

    /// Begins a search of the bundle for the frames of the kind that
    /// `extension` names: [`frames_of_extension`](Self::frames_of_extension)
    /// by another name.
    pub fn frames_of_kind<K>(&self, extension: Rs2Extension) -> (query: FramesCount<K>)
        ensures
            query.call == (Call::EmbeddedFramesCount { frame: self@ }),
            query.frame == self@,
            query.extension == extension,
    {
        self.frames_of_extension(extension)
    }
}

impl Owned for CompositeFrame {
    /// A composite frame owes the one call that releases its handle.
    open spec fn owes(&self) -> Seq<Call> {
        seq![Call::ReleaseFrame { frame: self@ }]
    }

    fn release(self) -> (calls: Vec<Call>) {
        let mut calls = Vec::new();
        calls.push(Call::ReleaseFrame { frame: self.handle });
        assert(calls@ =~= self.owes());
        calls
    }
}

/// The search ends with exactly the embedded frames that were extracted,
/// extend to what is searched for and converted, in bundle order, and with
/// `None` if there is no such frame. A frame that fails any of the three is
/// left out and the search goes on.
pub proof fn lemma_search_keeps_matching<E>(
    state: BundleState<E>,
    extracts: Seq<Reply<usize>>,
    checks: Seq<Reply<i32>>,
    conversions: Seq<Option<E>>,
)
    requires
        state.wf(),
        state.found == kept_frames(extracts, checks, conversions, state.index as int),
    ensures
        state.run(extracts, checks, conversions) == BundleState::<E>::result(
            kept_frames(extracts, checks, conversions, state.len as int),
        ),
    decreases state.len - state.index,
{
    let kept = kept_frames(extracts, checks, conversions, state.index + 1);
    if state.index + 1 < state.len {
        let next = BundleState { index: (state.index + 1) as usize, found: kept, ..state };
        lemma_search_keeps_matching(next, extracts, checks, conversions);
    }
}

/// Every frame the search extracts is accounted for: it is kept, and then
/// nothing is released, or it is released, and then it is not kept. A
/// position at which nothing is extracted releases nothing.
pub proof fn lemma_extracted_is_kept_or_released<E>(
    state: BundleState<E>,
    extract: Reply<usize>,
    check: Reply<i32>,
    conversion: Option<E>,
)
    ensures
        handle_in(extract) is Err ==> state.releases(extract, check, conversion) is None,
        handle_in(extract) is Ok && BundleState::<E>::keeps(extract, check, conversion)
            ==> state.releases(extract, check, conversion) is None,
        handle_in(extract) is Ok && !BundleState::<E>::keeps(extract, check, conversion)
            ==> state.releases(extract, check, conversion) == Some(handle_in(extract)->Ok_0),
{
}

} // verus!
