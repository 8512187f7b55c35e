//! Finding out what a sensor can do.

use crate::call::{Call, Step};
use crate::kind::{sensor_extension, sensor_extensions, Rs2Extension, SENSOR_EXTENSION_COUNT};
use crate::native::{Handle, Reply};
use crate::query::{affirmed, affirms};
use crate::sensor::Sensor;
use vstd::pervasive::unreached;
use vstd::prelude::*;

verus! {

/// Where the probing of a sensor's capabilities stands.
pub struct ProbeState {
    /// The sensor probed.
    pub sensor: Handle,
    /// The position in the registry of the capability to ask about next.
    pub index: usize,
    /// The capabilities found so far, in registry order.
    pub found: Seq<Rs2Extension>,
}

impl ProbeState {
    /// The state probing begins in.
    pub open spec fn start(sensor: Handle) -> ProbeState {
        ProbeState { sensor, index: 0, found: Seq::empty() }
    }

    /// There is a capability left to ask about.
    pub open spec fn wf(self) -> bool {
        self.index < SENSOR_EXTENSION_COUNT
    }

    /// The capability asked about next.
    pub open spec fn extension(self) -> Rs2Extension {
        sensor_extensions()[self.index as int]
    }

    /// The call to make next.
    pub open spec fn asks(self) -> Call {
        Call::IsSensorExtendableTo { sensor: self.sensor, extension: self.extension() }
    }

    /// The capabilities found once `reply` is in: one more if the SDK says
    /// yes. A probe that failed counts as a no.
    pub open spec fn found_after(self, reply: Reply<i32>) -> Seq<Rs2Extension> {
        if affirmed(reply) {
            self.found.push(self.extension())
        } else {
            self.found
        }
    }

    /// Whether the capability asked about next is the last of the
    /// registry.
    pub open spec fn last(self) -> bool {
        self.index + 1 == SENSOR_EXTENSION_COUNT
    }

    /// The state after `reply` has come in.
    pub open spec fn after(self, reply: Reply<i32>) -> ProbeState {
        ProbeState {
            sensor: self.sensor,
            index: (self.index + 1) as usize,
            found: self.found_after(reply),
        }
    }

    /// What probing ends with when the probe of the capability at position
    /// `i` of the registry is answered by `answers[i]`.
    pub open spec fn run(self, answers: Seq<Reply<i32>>) -> Seq<Rs2Extension>
        decreases SENSOR_EXTENSION_COUNT - self.index,
    {
        if self.index + 1 >= SENSOR_EXTENSION_COUNT {
            self.found_after(answers[self.index as int])
        } else {
            self.after(answers[self.index as int]).run(answers)
        }
    }
}

/// The capabilities among the first `upto` of the registry that the SDK said
/// yes to, when `answers[i]` answers for the capability at position `i`.
pub open spec fn affirmed_extensions(answers: Seq<Reply<i32>>, upto: int) -> Seq<Rs2Extension>
    decreases upto,
{
    if upto <= 0 {
        Seq::empty()
    } else if affirmed(answers[upto - 1]) {
        affirmed_extensions(answers, upto - 1).push(sensor_extensions()[upto - 1])
    } else {
        affirmed_extensions(answers, upto - 1)
    }
}

/// The probing of a sensor for the capabilities of the registry, one call
/// for each.
#[derive(Debug, PartialEq, Eq)]
pub struct ExtensionProbe {
    sensor: Handle,
    index: usize,
    found: Vec<Rs2Extension>,
}

impl View for ExtensionProbe {
    type V = ProbeState;

    closed spec fn view(&self) -> ProbeState {
        ProbeState { sensor: self.sensor, index: self.index, found: self.found@ }
    }
}

impl ExtensionProbe {
    #[verifier::type_invariant]
    spec fn inv(self) -> bool {
        self.index < SENSOR_EXTENSION_COUNT
    }

    /// Whether `step` is what follows from `reply`: after the last
    /// capability what was found, before it the next probe.
    pub open spec fn yields(
        self,
        reply: Reply<i32>,
        step: Step<ExtensionProbe, Vec<Rs2Extension>>,
    ) -> bool {
        if self@.last() {
            step is Done && step->Done_0@ == self@.found_after(reply)
        } else {
            step is Next && step->Next_0@ == self@.after(reply)
        }
    }

    /// The call to make next.
    pub fn call(&self) -> (call: Call)
        ensures
            call == self@.asks(),
            self@.wf(),
    {
        proof {
            use_type_invariant(self);
        }
        match sensor_extension(self.index) {
            Some(extension) => Call::IsSensorExtendableTo { sensor: self.sensor, extension },
            None => unreached(),
        }
    }

    /// Takes the answer to the probe: keeps the capability if the SDK said
    /// yes, passes over it if the SDK said no or the probe failed, and goes
    /// on to the next capability or, after the last, ends with what was
    /// found.
    pub fn resume(self, reply: Reply<i32>) -> (step: Step<ExtensionProbe, Vec<Rs2Extension>>)
        ensures
            self.yields(reply, step),
    {
        proof {
            use_type_invariant(&self);
        }
        let ExtensionProbe { sensor, index, mut found } = self;
        if affirms(&reply) {
            match sensor_extension(index) {
                Some(extension) => found.push(extension),
                None => unreached(),
            }
        }
        if index + 1 == SENSOR_EXTENSION_COUNT {
            Step::Done(found)
        } else {
            Step::Next(ExtensionProbe { sensor, index: index + 1, found })
        }
    }
}

impl Sensor {
    /// Begins probing the sensor for every capability of the registry.
    pub fn extensions(&self) -> (probe: ExtensionProbe)
        ensures
            probe@ == ProbeState::start(self@.sensor),
    {
        ExtensionProbe { sensor: self.handle(), index: 0, found: Vec::new() }
    }
}

/// Probing ends with exactly the capabilities the SDK said yes to, in
/// registry order. A probe that failed keeps its capability out and stops
/// nothing.
pub proof fn lemma_probe_finds_affirmed(state: ProbeState, answers: Seq<Reply<i32>>)
    requires
        state.wf(),
        state.found == affirmed_extensions(answers, state.index as int),
    ensures
        state.run(answers) == affirmed_extensions(answers, SENSOR_EXTENSION_COUNT as int),
    decreases SENSOR_EXTENSION_COUNT - state.index,
{
    if state.index + 1 < SENSOR_EXTENSION_COUNT {
        lemma_probe_finds_affirmed(state.after(answers[state.index as int]), answers);
    }
}

/// From the start, probing ends with the capabilities the SDK said yes to.
pub proof fn lemma_extensions_are_affirmed(sensor: Handle, answers: Seq<Reply<i32>>)
    ensures
        ProbeState::start(sensor).run(answers) == affirmed_extensions(
            answers,
            SENSOR_EXTENSION_COUNT as int,
        ),
{
    lemma_probe_finds_affirmed(ProbeState::start(sensor), answers);
}

} // verus!
