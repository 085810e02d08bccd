//! What a character wears and wields, and the stats that each piece gives.

use super::character::Weapon;
use vstd::prelude::*;

verus! {

/// Power, precision and ferocity.
#[derive(Debug, Copy, Clone, PartialEq, Eq, Structural)]
pub struct Stats {
    pub power: u32,
    pub precision: u32,
    pub ferocity: u32,
}

/// Power, precision and ferocity as plain numbers, which add up without
/// bound.
pub struct Sum {
    pub power: int,
    pub precision: int,
    pub ferocity: int,
}

/// No piece of gear gives as much as this of any stat.
pub const STAT_LIMIT: u32 = 1_000_000;

pub open spec fn sum_of(power: int, precision: int, ferocity: int) -> Sum {
    Sum { power, precision, ferocity }
}

impl Sum {
    pub open spec fn plus(self, other: Sum) -> Sum {
        Sum {
            power: self.power + other.power,
            precision: self.precision + other.precision,
            ferocity: self.ferocity + other.ferocity,
        }
    }

    /// Whether none of the three is above `limit`, or below zero.
    pub open spec fn within(self, limit: int) -> bool {
        &&& 0 <= self.power <= limit
        &&& 0 <= self.precision <= limit
        &&& 0 <= self.ferocity <= limit
    }
}

impl Stats {
    pub open spec fn sum(self) -> Sum {
        Sum {
            power: self.power as int,
            precision: self.precision as int,
            ferocity: self.ferocity as int,
        }
    }

    /// Whether the stats are such as a piece of gear may give.
    pub open spec fn modest(self) -> bool {
        self.sum().within(STAT_LIMIT as int)
    }

    pub fn new(power: u32, precision: u32, ferocity: u32) -> (stats: Stats)
        ensures
            stats == (Stats { power, precision, ferocity }),
    {
        Stats { power, precision, ferocity }
    }

    pub fn power(&self) -> (r: u32)
        ensures
            r == self.power,
    {
        self.power
    }

    pub fn precision(&self) -> (r: u32)
        ensures
            r == self.precision,
    {
        self.precision
    }

    pub fn ferocity(&self) -> (r: u32)
        ensures
            r == self.ferocity,
    {
        self.ferocity
    }

    /// Whether the stats are such as a piece of gear may give.
    pub fn is_modest(&self) -> (r: bool)
        ensures
            r == self.modest(),
    {
        self.power <= STAT_LIMIT && self.precision <= STAT_LIMIT && self.ferocity <= STAT_LIMIT
    }

    /// The stats of both together.
    pub fn plus(self, other: Stats) -> (stats: Stats)
        requires
            self.sum().plus(other.sum()).within(u32::MAX as int),
        ensures
            stats.sum() == self.sum().plus(other.sum()),
    {
        Stats {
            power: self.power + other.power,
            precision: self.precision + other.precision,
            ferocity: self.ferocity + other.ferocity,
        }
    }
}

#[derive(Debug, Copy, Clone, PartialEq, Eq, Structural)]
pub enum Infusion {
    Empty,
    NineAgonyFivePower,
}

impl Infusion {
    pub open spec fn spec_stats(self) -> Sum {
        match self {
            Infusion::Empty => sum_of(0, 0, 0),
            Infusion::NineAgonyFivePower => sum_of(5, 0, 0),
        }
    }

    pub fn stats(&self) -> (stats: Stats)
        ensures
            stats.sum() == self.spec_stats(),
            stats.sum().within(5),
    {
        match self {
            Infusion::Empty => Stats::new(0, 0, 0),
            Infusion::NineAgonyFivePower => Stats::new(5, 0, 0),
        }
    }
}

#[derive(Debug, Copy, Clone, PartialEq, Eq, Hash, Structural)]
pub enum Rune {
    Scholar,
}

#[derive(Debug, Copy, Clone, PartialEq, Eq, Structural)]
pub enum Sigil {
    Force,
    Impact,
    Air,
    Hydro,
}

#[derive(Debug, Copy, Clone, PartialEq, Eq, Structural)]
pub enum Food {
    SweetAndSpicyButternutSquashSoup,
}

impl Food {
    pub open spec fn spec_stats(self) -> Sum {
        sum_of(100, 0, 70)
    }

    pub fn stats(&self) -> (stats: Stats)
        ensures
            stats.sum() == self.spec_stats(),
    {
        Stats::new(100, 0, 70)
    }
}

/// What is consumed for a lasting effect. What it gives depends on the
/// stats that the character has without it.
#[derive(Debug, Copy, Clone, PartialEq, Eq, Structural)]
pub enum Utility {
    SuperiorSharpeningStone,
}

/// A piece of armor, with the rune and the infusion in it.
#[derive(Debug, Copy, Clone, PartialEq, Eq, Structural)]
pub struct Armor {
    pub infusion: Infusion,
    pub rune: Rune,
    pub stats: Stats,
}

impl Armor {
    pub fn new(infusion: Infusion, rune: Rune, stats: Stats) -> (armor: Armor)
        ensures
            armor == (Armor { infusion, rune, stats }),
    {
        Armor { infusion, rune, stats }
    }

    pub open spec fn spec_stats(self) -> Sum {
        self.stats.sum().plus(self.infusion.spec_stats())
    }

    pub fn stats(&self) -> (stats: Stats)
        requires
            self.stats.modest(),
        ensures
            stats.sum() == self.spec_stats(),
            stats.sum().within(STAT_LIMIT + 5),
    {
        self.stats.plus(self.infusion.stats())
    }
}

#[derive(Debug, Copy, Clone, PartialEq, Eq, Structural)]
pub struct Accessory {
    pub infusion: Infusion,
    pub stats: Stats,
}

impl Accessory {
    pub open spec fn spec_stats(self) -> Sum {
        self.stats.sum().plus(self.infusion.spec_stats())
    }

    pub fn stats(&self) -> (stats: Stats)
        requires
            self.stats.modest(),
        ensures
            stats.sum() == self.spec_stats(),
            stats.sum().within(STAT_LIMIT + 5),
    {
        self.stats.plus(self.infusion.stats())
    }
}

#[derive(Debug, Copy, Clone, PartialEq, Eq)]
pub struct Ring {
    pub infusions: (Infusion, Infusion, Infusion),
    pub stats: Stats,
}

impl Ring {
    pub open spec fn spec_stats(self) -> Sum {
        self.stats.sum().plus(self.infusions.0.spec_stats()).plus(
            self.infusions.1.spec_stats(),
        ).plus(self.infusions.2.spec_stats())
    }

    pub fn stats(&self) -> (stats: Stats)
        requires
            self.stats.modest(),
        ensures
            stats.sum() == self.spec_stats(),
            stats.sum().within(STAT_LIMIT + 15),
    {
        self.stats.plus(self.infusions.0.stats()).plus(self.infusions.1.stats()).plus(
            self.infusions.2.stats(),
        )
    }
}

#[derive(Debug, Copy, Clone, PartialEq, Eq, Structural)]
pub struct Amulet {
    pub stats: Stats,
}

#[derive(Debug, Copy, Clone, PartialEq, Eq)]
pub struct Back {
    pub infusions: (Infusion, Infusion),
    pub stats: Stats,
}

impl Back {
    pub open spec fn spec_stats(self) -> Sum {
        self.stats.sum().plus(self.infusions.0.spec_stats()).plus(self.infusions.1.spec_stats())
    }

    pub fn stats(&self) -> (stats: Stats)
        requires
            self.stats.modest(),
        ensures
            stats.sum() == self.spec_stats(),
            stats.sum().within(STAT_LIMIT + 10),
    {
        self.stats.plus(self.infusions.0.stats()).plus(self.infusions.1.stats())
    }
}

/// The stats that an ascended weapon of a kind gives.
pub open spec fn spec_weapon_stats(weapon: Weapon) -> Sum {
    match weapon {
        Weapon::Unequipped => sum_of(0, 0, 0),
        Weapon::Longbow => sum_of(251, 179, 179),
        Weapon::Dagger => sum_of(125, 90, 90),
        Weapon::Sword => sum_of(125, 90, 90),
        Weapon::Axe => sum_of(125, 90, 90),
    }
}

pub fn weapon_stats(weapon: Weapon) -> (stats: Stats)
    ensures
        stats.sum() == spec_weapon_stats(weapon),
        stats.sum().within(251),
{
    match weapon {
        Weapon::Unequipped => Stats::new(0, 0, 0),
        Weapon::Longbow => Stats::new(251, 179, 179),
        Weapon::Dagger => Stats::new(125, 90, 90),
        Weapon::Sword => Stats::new(125, 90, 90),
        Weapon::Axe => Stats::new(125, 90, 90),
    }
}

#[derive(Debug, Copy, Clone, PartialEq, Eq, Structural)]
pub enum MainhandKind {
    Dagger,
    Sword,
    Axe,
}

#[derive(Debug, Copy, Clone, PartialEq, Eq, Structural)]
pub enum OffhandKind {
    Axe,
}

#[derive(Debug, Copy, Clone, PartialEq, Eq, Structural)]
pub enum TwohandKind {
    Longbow,
}

impl MainhandKind {
    pub open spec fn spec_weapon(self) -> Weapon {
        match self {
            MainhandKind::Dagger => Weapon::Dagger,
            MainhandKind::Sword => Weapon::Sword,
            MainhandKind::Axe => Weapon::Axe,
        }
    }

    pub fn weapon(&self) -> (weapon: Weapon)
        ensures
            weapon == self.spec_weapon(),
    {
        match self {
            MainhandKind::Dagger => Weapon::Dagger,
            MainhandKind::Sword => Weapon::Sword,
            MainhandKind::Axe => Weapon::Axe,
        }
    }

    /// The kind of main hand that `weapon` is, if it can be held in the
    /// main hand.
    pub fn specific(weapon: Weapon) -> (kind: Option<MainhandKind>)
        ensures
            match kind {
                Some(k) => k.spec_weapon() == weapon,
                None => forall|k: MainhandKind| k.spec_weapon() != weapon,
            },
    {
        match weapon {
            Weapon::Dagger => Some(MainhandKind::Dagger),
            Weapon::Sword => Some(MainhandKind::Sword),
            Weapon::Axe => Some(MainhandKind::Axe),
            _ => None,
        }
    }
}

impl OffhandKind {
    pub open spec fn spec_weapon(self) -> Weapon {
        Weapon::Axe
    }

    pub fn weapon(&self) -> (weapon: Weapon)
        ensures
            weapon == self.spec_weapon(),
    {
        Weapon::Axe
    }

    /// The kind of off hand that `weapon` is, if it can be held in the off
    /// hand.
    pub fn specific(weapon: Weapon) -> (kind: Option<OffhandKind>)
        ensures
            match kind {
                Some(k) => k.spec_weapon() == weapon,
                None => forall|k: OffhandKind| k.spec_weapon() != weapon,
            },
    {
        match weapon {
            Weapon::Axe => Some(OffhandKind::Axe),
            _ => None,
        }
    }
}

impl TwohandKind {
    pub open spec fn spec_weapon(self) -> Weapon {
        Weapon::Longbow
    }

    pub fn weapon(&self) -> (weapon: Weapon)
        ensures
            weapon == self.spec_weapon(),
    {
        Weapon::Longbow
    }

    /// The kind of two-handed weapon that `weapon` is, if it is one.
    pub fn specific(weapon: Weapon) -> (kind: Option<TwohandKind>)
        ensures
            match kind {
                Some(k) => k.spec_weapon() == weapon,
                None => forall|k: TwohandKind| k.spec_weapon() != weapon,
            },
    {
        match weapon {
            Weapon::Longbow => Some(TwohandKind::Longbow),
            _ => None,
        }
    }
}

#[derive(Debug, Copy, Clone, PartialEq, Eq, Structural)]
pub struct Mainhand {
    pub kind: MainhandKind,
    pub infusion: Infusion,
    pub sigil: Sigil,
}

#[derive(Debug, Copy, Clone, PartialEq, Eq, Structural)]
pub struct Offhand {
    pub kind: OffhandKind,
    pub infusion: Infusion,
    pub sigil: Sigil,
}

#[derive(Debug, Copy, Clone, PartialEq, Eq)]
pub struct Twohand {
    pub kind: TwohandKind,
    pub infusions: (Infusion, Infusion),
    pub sigils: (Sigil, Sigil),
}

/// The weapons that are wielded together.
#[derive(Debug, Copy, Clone, PartialEq, Eq)]
pub enum Weaponset {
    Dual(Mainhand, Offhand),
    Twohand(Twohand),
}

impl Weaponset {
    pub open spec fn spec_sigils(self) -> (Sigil, Sigil) {
        match self {
            Weaponset::Dual(one, two) => (one.sigil, two.sigil),
            Weaponset::Twohand(one) => one.sigils,
        }
    }

    pub fn sigils(&self) -> (sigils: (Sigil, Sigil))
        ensures
            sigils == self.spec_sigils(),
    {
        match self {
            Weaponset::Dual(one, two) => (one.sigil, two.sigil),
            Weaponset::Twohand(one) => one.sigils,
        }
    }

    /// The weapon in the main hand, or in both hands.
    pub open spec fn spec_mainhand(self) -> Weapon {
        match self {
            Weaponset::Dual(main, _) => main.kind.spec_weapon(),
            Weaponset::Twohand(two) => two.kind.spec_weapon(),
        }
    }

    pub fn mainhand(&self) -> (weapon: Weapon)
        ensures
            weapon == self.spec_mainhand(),
    {
        match self {
            Weaponset::Dual(main, _) => main.kind.weapon(),
            Weaponset::Twohand(two) => two.kind.weapon(),
        }
    }

    pub open spec fn spec_stats(self) -> Sum {
        match self {
            Weaponset::Dual(main, off) => spec_weapon_stats(main.kind.spec_weapon()).plus(
                main.infusion.spec_stats(),
            ).plus(spec_weapon_stats(off.kind.spec_weapon())).plus(off.infusion.spec_stats()),
            Weaponset::Twohand(two) => spec_weapon_stats(two.kind.spec_weapon()).plus(
                two.infusions.0.spec_stats(),
            ).plus(two.infusions.1.spec_stats()),
        }
    }

    pub fn stats(&self) -> (stats: Stats)
        ensures
            stats.sum() == self.spec_stats(),
            stats.sum().within(512),
    {
        match self {
            Weaponset::Dual(main, off) => weapon_stats(main.kind.weapon()).plus(
                main.infusion.stats(),
            ).plus(weapon_stats(off.kind.weapon())).plus(off.infusion.stats()),
            Weaponset::Twohand(two) => weapon_stats(two.kind.weapon()).plus(
                two.infusions.0.stats(),
            ).plus(two.infusions.1.stats()),
        }
    }
}

/// One of the two weapon sets of a character.
#[derive(Debug, Copy, Clone, PartialEq, Eq, Structural)]
pub enum Weapons {
    First,
    Second,
}

/// The weapons of a weapon set.
#[derive(Debug, Copy, Clone, PartialEq, Eq, Structural)]
pub enum QueriedWeapons {
    Single(Weapon),
    Double(Weapon, Weapon),
}

impl QueriedWeapons {
    pub open spec fn spec_mainhand(self) -> Weapon {
        match self {
            QueriedWeapons::Single(weapon) => weapon,
            QueriedWeapons::Double(weapon, _) => weapon,
        }
    }

    pub fn mainhand(&self) -> (weapon: Weapon)
        ensures
            weapon == self.spec_mainhand(),
    {
        match self {
            QueriedWeapons::Single(weapon) => *weapon,
            QueriedWeapons::Double(weapon, _) => *weapon,
        }
    }
}

} // verus!
