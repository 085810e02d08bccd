//! The skills of the build that is played on the training golem.

use super::character::Weapon;
use vstd::prelude::*;

verus! {

/// The weapon whose strength a skill strikes with.
#[derive(Debug, Copy, Clone, PartialEq, Eq, Structural)]
pub enum WeaponKind {
    /// Whatever is in the main hand at the time.
    Current,
    Fixed(Weapon),
}

#[derive(Debug, Copy, Clone, PartialEq, Eq, Hash, Structural)]
pub enum Skill {
    WorldlyImpact,
    Barrage,
    WhirlingDefense,
    HuntersShot,
    FrostBurst,
    PathOfScars,
    OneWolfPack,
    FrenziedAttack,
    LightningStrike,
    RapidFire,
    DoubleArc,
    GroundworkGouge,
    LeadingSwipe,
    SerpentStab,
    DeadlyDelivery,
    PointBlankShot,
    FrostTrap,
    LongRangeShot,
    WintersBite,
    Ricochet,
    Slash,
    CripplingThrust,
    PrecisionSwipe,
}

impl Skill {
    /// The id under which a log records the skill.
    pub open spec fn spec_id(self) -> i32 {
        match self {
            Skill::WorldlyImpact => 40729,
            Skill::Barrage => 12469,
            Skill::WhirlingDefense => 12639,
            Skill::HuntersShot => 12573,
            Skill::FrostBurst => 9428,
            Skill::PathOfScars => 12638,
            Skill::OneWolfPack => 42145,
            Skill::FrenziedAttack => 43548,
            Skill::LightningStrike => 9292,
            Skill::RapidFire => 12509,
            Skill::DoubleArc => 43536,
            Skill::GroundworkGouge => 45426,
            Skill::LeadingSwipe => 40301,
            Skill::SerpentStab => 41800,
            Skill::DeadlyDelivery => 44278,
            Skill::PointBlankShot => 12511,
            Skill::FrostTrap => 12492,
            Skill::LongRangeShot => 12510,
            Skill::WintersBite => 12490,
            Skill::Ricochet => 12466,
            Skill::Slash => 12471,
            Skill::CripplingThrust => 12472,
            Skill::PrecisionSwipe => 12473,
        }
    }

    pub open spec fn spec_weapon(self) -> WeaponKind {
        match self {
            Skill::WorldlyImpact | Skill::FrenziedAttack => WeaponKind::Current,
            Skill::Barrage | Skill::HuntersShot | Skill::RapidFire | Skill::PointBlankShot
            | Skill::LongRangeShot => WeaponKind::Fixed(Weapon::Longbow),
            Skill::WhirlingDefense | Skill::PathOfScars | Skill::WintersBite
            | Skill::Ricochet => WeaponKind::Fixed(Weapon::Axe),
            Skill::DoubleArc | Skill::GroundworkGouge | Skill::LeadingSwipe | Skill::SerpentStab
            | Skill::DeadlyDelivery => WeaponKind::Fixed(Weapon::Dagger),
            Skill::Slash | Skill::CripplingThrust | Skill::PrecisionSwipe => WeaponKind::Fixed(
                Weapon::Sword,
            ),
            Skill::FrostBurst | Skill::OneWolfPack | Skill::LightningStrike
            | Skill::FrostTrap => WeaponKind::Fixed(Weapon::Unequipped),
        }
    }

    pub open spec fn spec_name(self) -> Seq<char> {
        match self {
            Skill::WorldlyImpact => "Worldly Impact"@,
            Skill::Barrage => "Barrage"@,
            Skill::WhirlingDefense => "Whirling Defense"@,
            Skill::HuntersShot => "Hunter's Shot"@,
            Skill::FrostBurst => "Frost Burst"@,
            Skill::PathOfScars => "Path of Scars"@,
            Skill::OneWolfPack => "One Wolf Pack"@,
            Skill::FrenziedAttack => "Frenzied Attack"@,
            Skill::LightningStrike => "Lightning Strike"@,
            Skill::RapidFire => "Rapid Fire"@,
            Skill::DoubleArc => "Double Arc"@,
            Skill::GroundworkGouge => "Groundwork Gouge"@,
            Skill::LeadingSwipe => "Leading Swipe"@,
            Skill::SerpentStab => "Serpent Stab"@,
            Skill::DeadlyDelivery => "Deadly Delivery"@,
            Skill::PointBlankShot => "Point-Blank Shot"@,
            Skill::FrostTrap => "Frost Trap"@,
            Skill::LongRangeShot => "Long Range Shot"@,
            Skill::WintersBite => "Winter's Bite"@,
            Skill::Ricochet => "Ricochet"@,
            Skill::Slash => "Slash"@,
            Skill::CripplingThrust => "Crippling Thrust"@,
            Skill::PrecisionSwipe => "Precision Swipe"@,
        }
    }

    pub fn id(&self) -> (id: i32)
        ensures
            id == self.spec_id(),
    {
        match self {
            Skill::WorldlyImpact => 40729,
            Skill::Barrage => 12469,
            Skill::WhirlingDefense => 12639,
            Skill::HuntersShot => 12573,
            Skill::FrostBurst => 9428,
            Skill::PathOfScars => 12638,
            Skill::OneWolfPack => 42145,
            Skill::FrenziedAttack => 43548,
            Skill::LightningStrike => 9292,
            Skill::RapidFire => 12509,
            Skill::DoubleArc => 43536,
            Skill::GroundworkGouge => 45426,
            Skill::LeadingSwipe => 40301,
            Skill::SerpentStab => 41800,
            Skill::DeadlyDelivery => 44278,
            Skill::PointBlankShot => 12511,
            Skill::FrostTrap => 12492,
            Skill::LongRangeShot => 12510,
            Skill::WintersBite => 12490,
            Skill::Ricochet => 12466,
            Skill::Slash => 12471,
            Skill::CripplingThrust => 12472,
            Skill::PrecisionSwipe => 12473,
        }
    }

    /// Whether the skill can never strike critically: true of Lightning
    /// Strike alone.
    pub fn uncrittable(&self) -> (r: bool)
        ensures
            r == (*self == Skill::LightningStrike),
    {
        match self {
            Skill::LightningStrike => true,
            _ => false,
        }
    }

    pub fn weapon(&self) -> (kind: WeaponKind)
        ensures
            kind == self.spec_weapon(),
    {
        match self {
            Skill::WorldlyImpact | Skill::FrenziedAttack => WeaponKind::Current,
            Skill::Barrage | Skill::HuntersShot | Skill::RapidFire | Skill::PointBlankShot
            | Skill::LongRangeShot => WeaponKind::Fixed(Weapon::Longbow),
            Skill::WhirlingDefense | Skill::PathOfScars | Skill::WintersBite
            | Skill::Ricochet => WeaponKind::Fixed(Weapon::Axe),
            Skill::DoubleArc | Skill::GroundworkGouge | Skill::LeadingSwipe | Skill::SerpentStab
            | Skill::DeadlyDelivery => WeaponKind::Fixed(Weapon::Dagger),
            Skill::Slash | Skill::CripplingThrust | Skill::PrecisionSwipe => WeaponKind::Fixed(
                Weapon::Sword,
            ),
            Skill::FrostBurst | Skill::OneWolfPack | Skill::LightningStrike
            | Skill::FrostTrap => WeaponKind::Fixed(Weapon::Unequipped),
        }
    }

    pub fn name(&self) -> (name: &'static str)
        ensures
            name@ == self.spec_name(),
    {
        match self {
            Skill::WorldlyImpact => "Worldly Impact",
            Skill::Barrage => "Barrage",
            Skill::WhirlingDefense => "Whirling Defense",
            Skill::HuntersShot => "Hunter's Shot",
            Skill::FrostBurst => "Frost Burst",
            Skill::PathOfScars => "Path of Scars",
            Skill::OneWolfPack => "One Wolf Pack",
            Skill::FrenziedAttack => "Frenzied Attack",
            Skill::LightningStrike => "Lightning Strike",
            Skill::RapidFire => "Rapid Fire",
            Skill::DoubleArc => "Double Arc",
            Skill::GroundworkGouge => "Groundwork Gouge",
            Skill::LeadingSwipe => "Leading Swipe",
            Skill::SerpentStab => "Serpent Stab",
            Skill::DeadlyDelivery => "Deadly Delivery",
            Skill::PointBlankShot => "Point-Blank Shot",
            Skill::FrostTrap => "Frost Trap",
            Skill::LongRangeShot => "Long Range Shot",
            Skill::WintersBite => "Winter's Bite",
            Skill::Ricochet => "Ricochet",
            Skill::Slash => "Slash",
            Skill::CripplingThrust => "Crippling Thrust",
            Skill::PrecisionSwipe => "Precision Swipe",
        }
    }

    /// The skill that a log records under `id`, if it is one of the build.
    pub fn from_id(id: i32) -> (skill: Option<Skill>)
        ensures
            match skill {
                Some(s) => s.spec_id() == id,
                None => forall|s: Skill| s.spec_id() != id,
            },
    {
        match id {
            40729 => Some(Skill::WorldlyImpact),
            12469 => Some(Skill::Barrage),
            12639 => Some(Skill::WhirlingDefense),
            12573 => Some(Skill::HuntersShot),
            9428 => Some(Skill::FrostBurst),
            12638 => Some(Skill::PathOfScars),
            42145 => Some(Skill::OneWolfPack),
            43548 => Some(Skill::FrenziedAttack),
            9292 => Some(Skill::LightningStrike),
            12509 => Some(Skill::RapidFire),
            43536 => Some(Skill::DoubleArc),
            45426 => Some(Skill::GroundworkGouge),
            40301 => Some(Skill::LeadingSwipe),
            41800 => Some(Skill::SerpentStab),
            44278 => Some(Skill::DeadlyDelivery),
            12511 => Some(Skill::PointBlankShot),
            12492 => Some(Skill::FrostTrap),
            12510 => Some(Skill::LongRangeShot),
            12490 => Some(Skill::WintersBite),
            12466 => Some(Skill::Ricochet),
            12471 => Some(Skill::Slash),
            12472 => Some(Skill::CripplingThrust),
            12473 => Some(Skill::PrecisionSwipe),
            _ => None,
        }
    }
}

/// No two skills share an id, so a skill is found again by its id.
pub proof fn lemma_skill_ids_differ(a: Skill, b: Skill)
    requires
        a.spec_id() == b.spec_id(),
    ensures
        a == b,
{
}

} // verus!
