//! Which encounters are worth telling about.

use crate::parse::Encounter;
use vstd::prelude::*;

verus! {

pub trait Filter {
    /// Whether `log` passes.
    fn filter(&self, log: &Encounter) -> bool;
}

/// An encounter shorter than this that never left its first phase is not
/// worth telling about.
pub const SHORT_ATTEMPT: u64 = 5000;

/// Passes the encounters that got anywhere.
pub struct Length {}

impl Length {
    /// Whether the encounter got past its first phase (of the listed
    /// phases the first is the whole encounter and the second its first
    /// phase), or lasted longer than `SHORT_ATTEMPT`.
    pub open spec fn passes(log: &Encounter) -> bool {
        log@.phases.len() > 2 || (log@.phases.len() > 0 && log@.phases[0].end
            - log@.phases[0].start > SHORT_ATTEMPT)
    }
}

impl Filter for Length {
    fn filter(&self, log: &Encounter) -> (r: bool)
        ensures
            r == Length::passes(log),
    {
        log.phases.len() > 2 || (log.phases.len() > 0 && log.phases[0].duration() > SHORT_ATTEMPT)
    }
}

/// Passes the encounters that the group lost.
pub struct Unsuccessful {}

impl Filter for Unsuccessful {
    fn filter(&self, log: &Encounter) -> (r: bool)
        ensures
            r == !log.success,
    {
        !log.success
    }
}

} // verus!
