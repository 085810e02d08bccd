//! A stretch of an encounter.

use super::evtc::Time;
use vstd::prelude::*;

verus! {

/// A stretch of time within an encounter, with a name if it has one. It
/// never ends before it starts.
#[derive(Debug)]
pub struct Phase {
    start: Time,
    end: Time,
    name: Option<String>,
}

/// A `Phase` as plain values.
pub struct PhaseView {
    pub start: Time,
    pub end: Time,
    pub name: Option<Seq<char>>,
}

/// The nameless phase from `start` to `end`. Where `end` lies before
/// `start`, the phase is the empty one at `start`.
pub open spec fn spec_phase(start: Time, end: Time) -> PhaseView {
    PhaseView {
        start,
        end: if end >= start {
            end
        } else {
            start
        },
        name: None,
    }
}

/// The phases of a list as plain values.
pub open spec fn phase_views(phases: Seq<Phase>) -> Seq<PhaseView> {
    Seq::new(phases.len(), |i: int| phases[i]@)
}

impl View for Phase {
    type V = PhaseView;

    closed spec fn view(&self) -> PhaseView {
        PhaseView {
            start: self.start,
            end: self.end,
            name: match self.name {
                Some(name) => Some(name@),
                None => None,
            },
        }
    }
}

impl Phase {
    #[verifier::type_invariant]
    spec fn ordered(self) -> bool {
        self.start <= self.end
    }

    pub fn new(start: Time, end: Time) -> (phase: Phase)
        ensures
            phase@ == spec_phase(start, end),
    {
        Phase {
            start,
            end: if end >= start {
                end
            } else {
                start
            },
            name: None,
        }
    }

    /// The phase from `start` to `end` under the name `name`.
    pub fn named(start: Time, end: Time, name: String) -> (phase: Phase)
        ensures
            phase@ == (PhaseView { name: Some(name@), ..spec_phase(start, end) }),
    {
        Phase {
            start,
            end: if end >= start {
                end
            } else {
                start
            },
            name: Some(name),
        }
    }

    /// How long the phase lasts, in milliseconds.
    pub fn duration(&self) -> (d: u64)
        ensures
            self@.start <= self@.end,
            d == self@.end - self@.start,
    {
        proof {
            use_type_invariant(self);
        }
        self.end - self.start
    }

    pub fn start(&self) -> (t: Time)
        ensures
            t == self@.start,
    {
        self.start
    }

    pub fn end(&self) -> (t: Time)
        ensures
            t == self@.end,
    {
        self.end
    }

    pub fn name(&self) -> (name: &Option<String>)
        ensures
            match *name {
                Some(n) => self@.name == Some(n@),
                None => self@.name is None,
            },
    {
        &self.name
    }
}

impl Clone for Phase {
    fn clone(&self) -> (phase: Phase)
        ensures
            phase@ == self@,
    {
        proof {
            use_type_invariant(self);
        }
        Phase {
            start: self.start,
            end: self.end,
            name: match &self.name {
                Some(name) => Some(name.clone()),
                None => None,
            },
        }
    }
}

/// Appends the nameless phase from `start` to `end`.
pub fn push_phase(phases: &mut Vec<Phase>, start: Time, end: Time)
    ensures
        phase_views(final(phases)@) == phase_views(old(phases)@).push(spec_phase(start, end)),
{
    phases.push(Phase::new(start, end));
    assert(phase_views(phases@) =~= phase_views(old(phases)@).push(spec_phase(start, end)));
}

} // verus!
