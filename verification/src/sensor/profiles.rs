//! Reading a sensor's stream profiles.
//!
//! The profiles are read from the list the sensor fetched when it was made:
//! the list is counted, then each entry is fetched and handed out to be
//! converted. An entry that cannot be fetched or converted is left out; the
//! others are kept, in list order.

use crate::call::Call;
use crate::native::{Handle, Reply};
use crate::query::{handle_in, read_handle};
use crate::sensor::Sensor;
use std::marker::PhantomData;
use vstd::prelude::*;

verus! {

/// Where the reading of a profile list stands.
pub struct ScanState<P> {
    /// The list read.
    pub list: Handle,
    /// How many entries the list has.
    pub len: i32,
    /// The position of the entry in hand.
    pub index: i32,
    /// The profiles kept so far, in list order.
    pub found: Seq<P>,
}

/// What the reading of a profile list does next.
pub enum ScanNext<P> {
    /// Fetch the entry in hand.
    Fetch(ScanState<P>),
    /// Convert the entry just fetched, which is behind this handle.
    Convert(Handle, ScanState<P>),
    /// Nothing: these are the profiles.
    Done(Seq<P>),
}

impl<P> ScanState<P> {
    /// The state the reading of a list of `len` entries begins in.
    pub open spec fn start(list: Handle, len: i32) -> ScanState<P> {
        ScanState { list, len, index: 0, found: Seq::empty() }
    }

    /// The entry in hand is one of the list's.
    pub open spec fn wf(self) -> bool {
        0 <= self.index < self.len
    }

    /// The call that fetches the entry in hand.
    pub open spec fn asks(self) -> Call {
        Call::GetStreamProfile { list: self.list, index: self.index }
    }

    /// What follows when the entry in hand is done with: the next entry,
    /// or the end.
    pub open spec fn advance(self) -> ScanNext<P> {
        if self.index + 1 >= self.len {
            ScanNext::Done(self.found)
        } else {
            ScanNext::Fetch(ScanState { index: (self.index + 1) as i32, ..self })
        }
    }

    /// What follows from the answer to the fetch: the conversion of what
    /// was fetched, or, if nothing was, whatever follows the entry.
    pub open spec fn fetched(self, reply: Reply<usize>) -> ScanNext<P> {
        match handle_in(reply) {
            Ok(profile) => ScanNext::Convert(profile, self),
            Err(_) => self.advance(),
        }
    }

    /// What follows from the conversion: the profile is kept if there is
    /// one, and the entry is done with.
    pub open spec fn converted(self, profile: Option<P>) -> ScanNext<P> {
        match profile {
            Some(profile) => ScanState { found: self.found.push(profile), ..self }.advance(),
            None => self.advance(),
        }
    }

    /// What the reading ends with when the fetch of the entry at position
    /// `i` is answered by `fetches[i]` and its conversion, if it comes to
    /// that, gives `conversions[i]`.
    pub open spec fn run(self, fetches: Seq<Reply<usize>>, conversions: Seq<Option<P>>) -> Seq<P>
        decreases self.len - self.index,
    {
        let after_fetch = self.fetched(fetches[self.index as int]);
        let after_entry = match after_fetch {
            ScanNext::Convert(_, state) => state.converted(conversions[self.index as int]),
            other => other,
        };
        match after_entry {
            ScanNext::Fetch(next) => if next.len - next.index < self.len - self.index {
                next.run(fetches, conversions)
            } else {
                next.found
            },
            ScanNext::Convert(_, state) => state.found,
            ScanNext::Done(found) => found,
        }
    }
}

/// What follows from the answer to the count: the first fetch, or the end
/// for a list that is empty or could not be counted.
pub open spec fn counted<P>(list: Handle, reply: Reply<i32>) -> ScanNext<P> {
    if reply.error is None && reply.value > 0 {
        ScanNext::Fetch(ScanState::start(list, reply.value))
    } else {
        ScanNext::Done(Seq::empty())
    }
}

/// The profiles among the first `upto` entries that were both fetched and
/// converted, in list order.
pub open spec fn kept_profiles<P>(
    fetches: Seq<Reply<usize>>,
    conversions: Seq<Option<P>>,
    upto: int,
) -> Seq<P>
    decreases upto,
{
    if upto <= 0 {
        Seq::empty()
    } else if handle_in(fetches[upto - 1]) is Ok && conversions[upto - 1] is Some {
        kept_profiles(fetches, conversions, upto - 1).push(conversions[upto - 1]->0)
    } else {
        kept_profiles(fetches, conversions, upto - 1)
    }
}

/// The call that counts the entries of a sensor's profile list.
#[derive(Debug, PartialEq, Eq)]
pub struct ProfileCount<P> {
    pub call: Call,
    /// The list counted.
    pub list: Handle,
    /// Marks the type profiles are converted to.
    pub profile: PhantomData<P>,
}

/// The fetch of one entry of a profile list.
#[derive(Debug, PartialEq, Eq)]
pub struct ProfileFetch<P> {
    list: Handle,
    len: i32,
    index: i32,
    found: Vec<P>,
}

/// The conversion of one entry of a profile list, which is up to the
/// caller.
#[derive(Debug, PartialEq, Eq)]
pub struct ProfileConvert<P> {
    profile: Handle,
    list: Handle,
    len: i32,
    index: i32,
    found: Vec<P>,
}

/// What the reading of a profile list does next.
#[derive(Debug, PartialEq, Eq)]
pub enum ProfileStep<P> {
    /// Make the call this names and hand it the answer.
    Fetch(ProfileFetch<P>),
    /// Convert the entry this names and hand it the outcome.
    Convert(ProfileConvert<P>),
    /// Nothing: these are the profiles.
    Done(Vec<P>),
}

impl<P> View for ProfileFetch<P> {
    type V = ScanState<P>;

    closed spec fn view(&self) -> ScanState<P> {
        ScanState { list: self.list, len: self.len, index: self.index, found: self.found@ }
    }
}

impl<P> View for ProfileConvert<P> {
    type V = (Handle, ScanState<P>);

    closed spec fn view(&self) -> (Handle, ScanState<P>) {
        (
            self.profile,
            ScanState { list: self.list, len: self.len, index: self.index, found: self.found@ },
        )
    }
}

impl<P> View for ProfileStep<P> {
    type V = ScanNext<P>;

    open spec fn view(&self) -> ScanNext<P> {
        match self {
            ProfileStep::Fetch(fetch) => ScanNext::Fetch(fetch@),
            ProfileStep::Convert(convert) => ScanNext::Convert(convert@.0, convert@.1),
            ProfileStep::Done(found) => ScanNext::Done(found@),
        }
    }
}

/// Goes on to the entry after the one at `index`, or ends.
fn advance<P>(list: Handle, len: i32, index: i32, found: Vec<P>) -> (step: ProfileStep<P>)
    requires
        0 <= index < len,
    ensures
        step@ == (ScanState { list, len, index, found: found@ }).advance(),
{
    if index + 1 >= len {
        ProfileStep::Done(found)
    } else {
        ProfileStep::Fetch(ProfileFetch { list, len, index: index + 1, found })
    }
}

impl<P> ProfileCount<P> {
    /// Takes the count. A list that is empty or cannot be counted has no
    /// profiles, and nothing is fetched.
    pub fn resume(self, reply: Reply<i32>) -> (step: ProfileStep<P>)
        ensures
            step@ == counted::<P>(self.list, reply),
    {
        if reply.error.is_none() && reply.value > 0 {
            ProfileStep::Fetch(
                ProfileFetch { list: self.list, len: reply.value, index: 0, found: Vec::new() },
            )
        } else {
            ProfileStep::Done(Vec::new())
        }
    }
}

impl<P> ProfileFetch<P> {
    #[verifier::type_invariant]
    spec fn inv(self) -> bool {
        0 <= self.index < self.len
    }

    /// The call to make: the fetch of the entry in hand.
    pub fn call(&self) -> (call: Call)
        ensures
            call == self@.asks(),
            self@.wf(),
    {
        proof {
            use_type_invariant(self);
        }
        Call::GetStreamProfile { list: self.list, index: self.index }
    }

    /// Takes the answer to the fetch. An entry that could not be fetched
    /// is passed over.
    pub fn resume(self, reply: Reply<usize>) -> (step: ProfileStep<P>)
        ensures
            step@ == self@.fetched(reply),
    {
        proof {
            use_type_invariant(&self);
        }
        let ProfileFetch { list, len, index, found } = self;
        match read_handle(reply) {
            Ok(profile) => ProfileStep::Convert(
                ProfileConvert { profile, list, len, index, found },
            ),
            Err(_) => advance(list, len, index, found),
        }
    }
}

impl<P> ProfileConvert<P> {
    #[verifier::type_invariant]
    spec fn inv(self) -> bool {
        0 <= self.index < self.len
    }

    /// The entry to convert. It stays the list's own.
    pub fn profile(&self) -> (profile: Handle)
        ensures
            profile == self@.0,
            self@.1.wf(),
    {
        proof {
            use_type_invariant(self);
        }
        self.profile
    }

    /// Takes the outcome of the conversion. An entry that could not be
    /// converted is passed over.
    pub fn resume(self, converted: Option<P>) -> (step: ProfileStep<P>)
        ensures
            step@ == self@.1.converted(converted),
    {
        proof {
            use_type_invariant(&self);
        }
        let ProfileConvert { profile: _, list, len, index, mut found } = self;
        match converted {
            Some(profile) => found.push(profile),
            None => {},
        }
        advance(list, len, index, found)
    }
}

impl Sensor {
    /// Begins reading the sensor's stream profiles into values of type `P`.
    pub fn stream_profiles<P>(&self) -> (query: ProfileCount<P>)
        ensures
            query.call == (Call::GetStreamProfilesCount { list: self@.profiles }),
            query.list == self@.profiles,
    {
        ProfileCount {
            call: Call::GetStreamProfilesCount { list: self.profile_list() },
            list: self.profile_list(),
            profile: PhantomData,
        }
    }
}

/// The reading ends with exactly the entries that were both fetched and
/// converted, in list order: an entry that fails is left out and the
/// reading goes on.
pub proof fn lemma_scan_keeps_converted<P>(
    state: ScanState<P>,
    fetches: Seq<Reply<usize>>,
    conversions: Seq<Option<P>>,
)
    requires
        state.wf(),
        state.found == kept_profiles(fetches, conversions, state.index as int),
    ensures
        state.run(fetches, conversions) == kept_profiles(fetches, conversions, state.len as int),
    decreases state.len - state.index,
{
    let i = state.index as int;
    let kept = kept_profiles(fetches, conversions, i + 1);
    if state.index + 1 < state.len {
        let next = ScanState { index: (state.index + 1) as i32, found: kept, ..state };
        lemma_scan_keeps_converted(next, fetches, conversions);
    }
}

/// Read from the start, a list of `len` entries gives the entries that
/// were both fetched and converted.
pub proof fn lemma_profiles_are_converted<P>(
    list: Handle,
    len: i32,
    fetches: Seq<Reply<usize>>,
    conversions: Seq<Option<P>>,
)
    requires
        len > 0,
    ensures
        ScanState::<P>::start(list, len).run(fetches, conversions) == kept_profiles(
            fetches,
            conversions,
            len as int,
        ),
{
    lemma_scan_keeps_converted(ScanState::<P>::start(list, len), fetches, conversions);
}

} // verus!
