//! Casts, and how long a rotation of them takes.

use super::skill::Skill;
use crate::parse::Time;
use vstd::prelude::*;

verus! {

#[derive(Debug, Copy, Clone, PartialEq, Eq, Structural)]
pub enum Status {
    Normal,
    Cancel,
}

/// What is cast: a skill of the build, or one of the actions a log records
/// like a skill.
#[derive(Debug, Copy, Clone, PartialEq, Eq, Structural)]
pub enum Kind {
    Skill(Skill),
    OneWolfPack,
    Dodge,
    WeaponSwap,
}

pub const ONE_WOLF_PACK_ID: i32 = 45717;

pub const DODGE_ID: i32 = 65001;

impl Kind {
    /// The id under which a log records a cast of this kind. A weapon
    /// swap is no cast in a log and has none.
    pub open spec fn spec_id(self) -> Option<i32> {
        match self {
            Kind::Skill(s) => Some(s.spec_id()),
            Kind::OneWolfPack => Some(ONE_WOLF_PACK_ID),
            Kind::Dodge => Some(DODGE_ID),
            Kind::WeaponSwap => None,
        }
    }

    /// The kind of cast that a log records under `id`, if it is a known
    /// one.
    pub fn from_id(id: i32) -> (kind: Option<Kind>)
        ensures
            match kind {
                Some(k) => k.spec_id() == Some(id),
                None => forall|k: Kind| k.spec_id() != Some(id),
            },
    {
        if id == ONE_WOLF_PACK_ID {
            Some(Kind::OneWolfPack)
        } else if id == DODGE_ID {
            Some(Kind::Dodge)
        } else {
            match Skill::from_id(id) {
                Some(s) => Some(Kind::Skill(s)),
                None => {
                    assert forall|k: Kind| k.spec_id() != Some(id) by {
                        if let Kind::Skill(s) = k {
                            assert(s.spec_id() != id);
                        }
                    }
                    None
                },
            }
        }
    }
}

impl Kind {
    /// Whether a cast of this kind has a place in a rotation, that is,
    /// whether a time is known for it.
    pub fn has_time(self) -> (r: bool)
        ensures
            r == cast_time(self, None) is Some,
            forall|next: Option<Kind>| r == (#[trigger] cast_time(self, next)) is Some,
    {
        match self {
            Kind::Skill(Skill::FrostBurst) | Kind::Skill(Skill::OneWolfPack) | Kind::Skill(
                Skill::LightningStrike,
            ) | Kind::Dodge => false,
            _ => true,
        }
    }
}

#[derive(Debug, Copy, Clone, PartialEq, Eq, Structural)]
pub struct Cast {
    pub kind: Kind,
    pub status: Status,
    pub duration: Time,
}

impl Cast {
    pub fn new(kind: Kind, status: Status, duration: Time) -> (cast: Cast)
        ensures
            cast == (Cast { kind, status, duration }),
    {
        Cast { kind, status, duration }
    }

    pub fn duration(&self) -> (d: Time)
        ensures
            d == self.duration,
    {
        self.duration
    }
}

/// The longest that any cast of a rotation takes.
pub const LONGEST_CAST: Time = 2600;

/// After a Frost Trap, whether the cast that follows lets the trap's
/// aftercast be cut short.
pub open spec fn cuts_frost_trap(next: Option<Kind>) -> bool {
    next == Some(Kind::Skill(Skill::WorldlyImpact)) || next == Some(
        Kind::Skill(Skill::PointBlankShot),
    ) || next == Some(Kind::Skill(Skill::HuntersShot)) || next == Some(Kind::WeaponSwap)
}

/// How long a cast of `kind` takes in a rotation when `next` follows it,
/// in milliseconds. There is none for the kinds that no rotation holds.
pub open spec fn cast_time(kind: Kind, next: Option<Kind>) -> Option<Time> {
    match kind {
        Kind::Skill(Skill::WorldlyImpact) => Some(680u64),
        Kind::Skill(Skill::Barrage) => Some(1800u64),
        Kind::Skill(Skill::WhirlingDefense) => Some(2600u64),
        Kind::Skill(Skill::HuntersShot) => Some(350u64),
        Kind::Skill(Skill::PathOfScars) => Some(430u64),
        Kind::Skill(Skill::FrenziedAttack) => Some(750u64),
        Kind::Skill(Skill::RapidFire) => Some(1800u64),
        Kind::Skill(Skill::DoubleArc) => Some(570u64),
        Kind::Skill(Skill::PointBlankShot) => Some(325u64),
        Kind::Skill(Skill::FrostTrap) => if cuts_frost_trap(next) {
            Some(400u64)
        } else {
            Some(600u64)
        },
        Kind::Skill(Skill::LongRangeShot) => Some(680u64),
        Kind::Skill(Skill::Ricochet) => Some(600u64),
        Kind::Skill(Skill::WintersBite) => Some(500u64),
        Kind::Skill(Skill::GroundworkGouge) => Some(275u64),
        Kind::Skill(Skill::LeadingSwipe) => Some(325u64),
        Kind::Skill(Skill::SerpentStab) => Some(275u64),
        Kind::Skill(Skill::DeadlyDelivery) => Some(650u64),
        Kind::Skill(Skill::Slash) => Some(480u64),
        Kind::Skill(Skill::CripplingThrust) => Some(333u64),
        Kind::Skill(Skill::PrecisionSwipe) => Some(600u64),
        Kind::OneWolfPack => Some(400u64),
        Kind::WeaponSwap => Some(0u64),
        Kind::Skill(Skill::FrostBurst) | Kind::Skill(Skill::OneWolfPack) | Kind::Skill(
            Skill::LightningStrike,
        ) | Kind::Dodge => None,
    }
}

/// The casts of a fight in the order in which they are made.
#[derive(Debug, Clone)]
pub struct Rotation {
    pub order: Vec<Kind>,
}

impl Rotation {
    /// The cast that follows the `i`-th, if any.
    pub open spec fn next_after(self, i: int) -> Option<Kind> {
        if 0 <= i + 1 < self.order@.len() {
            Some(self.order@[i + 1])
        } else {
            None
        }
    }

    /// How long the `i`-th cast takes.
    pub open spec fn spec_time_for(self, i: int) -> Option<Time> {
        if 0 <= i < self.order@.len() {
            cast_time(self.order@[i], self.next_after(i))
        } else {
            None
        }
    }

    /// Whether every cast of the rotation is one that a time is known for.
    pub open spec fn timed(self) -> bool {
        forall|i: int| 0 <= i < self.order@.len() ==> (#[trigger] self.spec_time_for(i)) is Some
    }

    /// How long the first `n` casts take together.
    pub open spec fn time_of_first(self, n: int) -> int
        decreases n,
    {
        if n <= 0 {
            0
        } else {
            self.time_of_first(n - 1) + match self.spec_time_for(n - 1) {
                Some(t) => t as int,
                None => 0,
            }
        }
    }

    /// How long the `i`-th cast takes; `None` past the end of the rotation.
    pub fn time_for(&self, i: usize) -> (time: Option<Time>)
        requires
            i < self.order@.len() ==> self.spec_time_for(i as int) is Some,
        ensures
            time == self.spec_time_for(i as int),
            time matches Some(t) ==> t <= LONGEST_CAST,
    {
        if i >= self.order.len() {
            return None;
        }
        let kind: Kind = self.order[i];
        match kind {
            Kind::Skill(Skill::WorldlyImpact) => Some(680),
            Kind::Skill(Skill::Barrage) => Some(1800),
            Kind::Skill(Skill::WhirlingDefense) => Some(2600),
            Kind::Skill(Skill::HuntersShot) => Some(350),
            Kind::Skill(Skill::PathOfScars) => Some(430),
            Kind::Skill(Skill::FrenziedAttack) => Some(750),
            Kind::Skill(Skill::RapidFire) => Some(1800),
            Kind::Skill(Skill::DoubleArc) => Some(570),
            Kind::Skill(Skill::PointBlankShot) => Some(325),
            Kind::Skill(Skill::FrostTrap) => {
                let cut: bool = if i + 1 < self.order.len() {
                    match self.order[i + 1] {
                        Kind::Skill(Skill::WorldlyImpact) | Kind::Skill(Skill::PointBlankShot)
                        | Kind::Skill(Skill::HuntersShot) | Kind::WeaponSwap => true,
                        _ => false,
                    }
                } else {
                    false
                };
                if cut {
                    Some(400)
                } else {
                    Some(600)
                }
            },
            Kind::Skill(Skill::LongRangeShot) => Some(680),
            Kind::Skill(Skill::Ricochet) => Some(600),
            Kind::Skill(Skill::WintersBite) => Some(500),
            Kind::Skill(Skill::GroundworkGouge) => Some(275),
            Kind::Skill(Skill::LeadingSwipe) => Some(325),
            Kind::Skill(Skill::SerpentStab) => Some(275),
            Kind::Skill(Skill::DeadlyDelivery) => Some(650),
            Kind::Skill(Skill::Slash) => Some(480),
            Kind::Skill(Skill::CripplingThrust) => Some(333),
            Kind::Skill(Skill::PrecisionSwipe) => Some(600),
            Kind::OneWolfPack => Some(400),
            Kind::WeaponSwap => Some(0),
            _ => None,
        }
    }

    /// How long the whole rotation takes.
    pub fn total_time(&self) -> (time: Time)
        requires
            self.timed(),
            self.order@.len() * LONGEST_CAST <= u64::MAX,
        ensures
            time == self.time_of_first(self.order@.len() as int),
    {
        let mut time: Time = 0;
        let mut i: usize = 0;
        while i < self.order.len()
            invariant
                i <= self.order@.len(),
                self.timed(),
                self.order@.len() * LONGEST_CAST <= u64::MAX,
                time == self.time_of_first(i as int),
                time <= i * LONGEST_CAST,
            decreases self.order@.len() - i,
        {
            assert(self.spec_time_for(i as int) is Some);
            if let Some(t) = self.time_for(i) {
                assert(i * LONGEST_CAST + LONGEST_CAST <= self.order@.len() * LONGEST_CAST)
                    by (nonlinear_arith)
                    requires
                        i < self.order@.len(),
                ;
                time += t;
            }
            i += 1;
        }
        time
    }
}

} // verus!
