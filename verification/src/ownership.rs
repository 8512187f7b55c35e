//! Who frees what: the one discipline every wrapper in this crate follows.
//!
//! A wrapper owns its handles until it is used up. Using it up either hands
//! the handles to a new owner or names the calls that free them; there is no
//! third way out, and no way to use a wrapper twice.

use crate::call::Call;
use vstd::prelude::*;

verus! {

/// A wrapper that owns native resources.
pub trait Owned: Sized {
    /// The calls that free what the wrapper owns, in the order to make them.
    spec fn owes(&self) -> Seq<Call>;

    /// Uses the wrapper up and names the calls that free what it owned.
    fn release(self) -> (calls: Vec<Call>)
        ensures
            calls@ == self.owes(),
    ;
}

/// A failure that used a wrapper up.
///
/// The wrapper is gone, so its resources have to go too: `release` names the
/// calls that free them.
#[derive(Debug, PartialEq, Eq)]
pub struct Dropped<E> {
    pub error: E,
    pub release: Vec<Call>,
}

/// The place a wrapper lives in while something with a destructor holds it.
///
/// A slot starts full. Taking the wrapper out or releasing it empties the
/// slot for good, so a destructor that releases its slot frees the
/// wrapper's resources if they are still its own, and does nothing if they
/// have been handed on or freed before.
#[derive(Debug, PartialEq, Eq)]
pub struct Slot<W> {
    inner: Option<W>,
}

impl<W> View for Slot<W> {
    type V = Option<W>;

    closed spec fn view(&self) -> Option<W> {
        self.inner
    }
}

/// What releasing a slot with this content asks for.
pub open spec fn release_of<W: Owned>(content: Option<W>) -> Seq<Call> {
    match content {
        Some(wrapper) => wrapper.owes(),
        None => Seq::empty(),
    }
}

impl<W: Owned> Slot<W> {
    /// A full slot.
    pub fn new(wrapper: W) -> (slot: Self)
        ensures
            slot@ == Some(wrapper),
    {
        Slot { inner: Some(wrapper) }
    }

    /// The wrapper, while the slot is full.
    pub fn get(&self) -> (wrapper: Option<&W>)
        ensures
            wrapper is Some <==> self@ is Some,
            wrapper is Some ==> *wrapper->0 == self@->0,
    {
        self.inner.as_ref()
    }

    /// Takes the wrapper out, with everything it owns. The slot stays empty.
    pub fn take(&mut self) -> (wrapper: Option<W>)
        ensures
            wrapper == old(self)@,
            final(self)@ is None,
    {
        self.inner.take()
    }

    /// Empties the slot and names the calls that free what its wrapper
    /// owned. An empty slot asks for nothing.
    pub fn release(&mut self) -> (calls: Vec<Call>)
        ensures
            calls@ == release_of(old(self)@),
            final(self)@ is None,
    {
        match self.inner.take() {
            Some(wrapper) => wrapper.release(),
            None => Vec::new(),
        }
    }
}

/// What a destructor or an owner can do to a slot.
pub enum SlotUse {
    /// Take the wrapper out.
    Take,
    /// Release the slot.
    Release,
}

/// The calls that a series of uses asks for, one after the other, of a
/// slot with this content.
pub open spec fn asked_by<W: Owned>(content: Option<W>, uses: Seq<SlotUse>) -> Seq<Call>
    decreases uses.len(),
{
    if uses.len() == 0 {
        Seq::empty()
    } else {
        let first = match uses[0] {
            SlotUse::Take => Seq::empty(),
            SlotUse::Release => release_of(content),
        };
        first + asked_by(None::<W>, uses.skip(1))
    }
}

/// An empty slot asks for nothing, whatever is done to it.
pub proof fn lemma_empty_asks_nothing<W: Owned>(uses: Seq<SlotUse>)
    ensures
        asked_by(None::<W>, uses) == Seq::<Call>::empty(),
    decreases uses.len(),
{
    if uses.len() > 0 {
        lemma_empty_asks_nothing::<W>(uses.skip(1));
    }
}

/// A wrapper's resources are freed exactly once or handed on, never both
/// and never twice: of all that is done to a full slot, only a release that
/// comes first asks for anything, and it asks for just the calls the
/// wrapper owes. Once the wrapper was taken out, no release frees it.
pub proof fn lemma_released_exactly_once<W: Owned>(wrapper: W, uses: Seq<SlotUse>)
    requires
        uses.len() > 0,
    ensures
        uses[0] is Release ==> asked_by(Some(wrapper), uses) == wrapper.owes(),
        uses[0] is Take ==> asked_by(Some(wrapper), uses) == Seq::<Call>::empty(),
{
    lemma_empty_asks_nothing::<W>(uses.skip(1));
}

} // verus!
