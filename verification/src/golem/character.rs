//! The character on the training golem: what it wears and wields, what it
//! is under the effect of, and what that comes to.

pub use super::gear::{
    sum_of, Accessory, Amulet, Armor, Back, Food, Infusion, Mainhand, MainhandKind, Offhand,
    OffhandKind, QueriedWeapons, Ring, Rune, Sigil, Stats, Sum, Twohand, TwohandKind, Utility,
    Weapons, Weaponset, STAT_LIMIT,
};
use crate::parse::{AgentId, Event, EventKind};
use vstd::prelude::*;

verus! {

#[derive(Debug, Copy, Clone, PartialEq, Eq, Hash, Structural)]
pub enum Weapon {
    Unequipped,
    Longbow,
    Dagger,
    Sword,
    Axe,
}

/// The range within which a weapon's strength is rolled for each strike.
#[derive(Debug, Copy, Clone, PartialEq, Eq, Structural)]
pub struct WeaponStrength {
    pub min: u32,
    pub max: u32,
}

impl Weapon {
    pub open spec fn spec_strn(self) -> WeaponStrength {
        match self {
            Weapon::Unequipped => WeaponStrength { min: 656, max: 725 },
            Weapon::Longbow => WeaponStrength { min: 966, max: 1134 },
            Weapon::Dagger => WeaponStrength { min: 970, max: 1030 },
            Weapon::Sword => WeaponStrength { min: 950, max: 1050 },
            Weapon::Axe => WeaponStrength { min: 900, max: 1100 },
        }
    }

    /// The strength of an ascended weapon of this kind; for no weapon, the
    /// strength that skills without one strike with.
    pub fn strn(&self) -> (strength: WeaponStrength)
        ensures
            strength == self.spec_strn(),
            strength.min <= strength.max,
    {
        match self {
            Weapon::Unequipped => WeaponStrength { min: 656, max: 725 },
            Weapon::Longbow => WeaponStrength { min: 966, max: 1134 },
            Weapon::Dagger => WeaponStrength { min: 970, max: 1030 },
            Weapon::Sword => WeaponStrength { min: 950, max: 1050 },
            Weapon::Axe => WeaponStrength { min: 900, max: 1100 },
        }
    }
}

#[derive(Debug, Copy, Clone, PartialEq, Eq, Hash, Structural)]
pub enum Buff {
    Spotter,
    FrostSpirit,
    EmpowerAllies,
    BannerOfStrength,
    BannerOfDiscipline,
    Ferocious,
    SignetOfTheWild,
    TwiceAsVicious,
    SicEm,
    OneWolfPack,
    OneWolfPackIcd,
}

impl Buff {
    /// The id under which a log records the buff. Only the buffs that the
    /// character gains and loses during the fight have one.
    pub open spec fn spec_id(self) -> Option<i32> {
        match self {
            Buff::SicEm => Some(33902i32),
            Buff::TwiceAsVicious => Some(45600i32),
            Buff::OneWolfPack => Some(44139i32),
            Buff::OneWolfPackIcd => Some(40642i32),
            _ => None,
        }
    }

    /// The buff that a log records under `id`, if it is a known one.
    pub open spec fn spec_from_id(id: i32) -> Option<Buff> {
        if id == 33902 {
            Some(Buff::SicEm)
        } else if id == 45600 {
            Some(Buff::TwiceAsVicious)
        } else if id == 44139 {
            Some(Buff::OneWolfPack)
        } else if id == 40642 {
            Some(Buff::OneWolfPackIcd)
        } else {
            None
        }
    }

    pub fn from_id(id: i32) -> (buff: Option<Buff>)
        ensures
            buff == Self::spec_from_id(id),
            match buff {
                Some(b) => b.spec_id() == Some(id),
                None => forall|b: Buff| b.spec_id() != Some(id),
            },
    {
        match id {
            33902 => Some(Buff::SicEm),
            45600 => Some(Buff::TwiceAsVicious),
            44139 => Some(Buff::OneWolfPack),
            40642 => Some(Buff::OneWolfPackIcd),
            _ => None,
        }
    }

    pub fn id(&self) -> (id: Option<i32>)
        ensures
            id == self.spec_id(),
    {
        match self {
            Buff::SicEm => Some(33902),
            Buff::TwiceAsVicious => Some(45600),
            Buff::OneWolfPack => Some(44139),
            Buff::OneWolfPackIcd => Some(40642),
            _ => None,
        }
    }
}

/// No two buffs share an id, so a buff that has one is found again by it.
pub proof fn lemma_buff_ids_differ(a: Buff, b: Buff)
    requires
        a.spec_id() is Some,
        a.spec_id() == b.spec_id(),
    ensures
        a == b,
{
}


#[derive(Debug, Copy, Clone, PartialEq, Eq, Structural)]
pub enum Trait {
    HuntersTactics,
    ViciousQuarry,
    PackAlpha,
    PetsProwess,
    HonedAxes,
    LoudWhistle,
    OppressiveSuperiority,
    FuriousStrength,
}

#[derive(Debug, Copy, Clone, PartialEq, Eq, Structural)]
pub enum Boon {
    Might,
    Fury,
}

/// What modifies the damage of a strike by a fixed share.
#[derive(Debug, Copy, Clone, PartialEq, Eq, Structural)]
pub enum Fixed {
    HuntersTactics,
    LoudWhistle,
    OppressiveSuperiority,
    FuriousStrength,
    TwiceAsVicious,
    SicEm,
    FrostSpirit,
    Force,
    Impact,
    Scholar,
}

/// What a number of runes of a kind gives.
#[derive(Debug, Copy, Clone, PartialEq, Eq, Structural)]
pub enum Bonus {
    Power(u32),
    Precision(u32),
    Ferocity(u32),
    Multiplier(Fixed),
    CritChance(u32),
}

/// As many runes as a character wears: one in each piece of armor.
pub const RUNES: usize = 6;

/// What the first `count` runes of the scholar give, one bonus for each
/// rune and a second one for the sixth.
pub open spec fn scholar_bonuses(count: int) -> Seq<Bonus>
    decreases count,
{
    if count <= 0 {
        Seq::empty()
    } else if count == 1 {
        seq![Bonus::Power(25)]
    } else if count == 2 {
        scholar_bonuses(1).push(Bonus::Ferocity(35))
    } else if count == 3 {
        scholar_bonuses(2).push(Bonus::Power(50))
    } else if count == 4 {
        scholar_bonuses(3).push(Bonus::Ferocity(65))
    } else if count == 5 {
        scholar_bonuses(4).push(Bonus::Power(100))
    } else {
        scholar_bonuses(5).push(Bonus::Ferocity(125)).push(Bonus::Multiplier(Fixed::Scholar))
    }
}

impl Rune {
    pub open spec fn spec_bonuses(self, count: int) -> Seq<Bonus> {
        scholar_bonuses(count)
    }

    /// What `count` runes of this kind give together.
    pub fn bonuses(&self, count: usize) -> (bonuses: Vec<Bonus>)
        requires
            count <= RUNES,
        ensures
            bonuses@ == self.spec_bonuses(count as int),
    {
        let mut bonuses: Vec<Bonus> = Vec::new();
        if count >= 1 {
            bonuses.push(Bonus::Power(25));
        }
        if count >= 2 {
            bonuses.push(Bonus::Ferocity(35));
        }
        if count >= 3 {
            bonuses.push(Bonus::Power(50));
        }
        if count >= 4 {
            bonuses.push(Bonus::Ferocity(65));
        }
        if count >= 5 {
            bonuses.push(Bonus::Power(100));
        }
        if count >= 6 {
            bonuses.push(Bonus::Ferocity(125));
            bonuses.push(Bonus::Multiplier(Fixed::Scholar));
        }
        reveal_with_fuel(scholar_bonuses, 7);
        assert(bonuses@ =~= scholar_bonuses(count as int));
        bonuses
    }
}

/// The stats that a bonus gives.
pub open spec fn bonus_stats(bonus: Bonus) -> Sum {
    match bonus {
        Bonus::Power(n) => sum_of(n as int, 0, 0),
        Bonus::Precision(n) => sum_of(0, n as int, 0),
        Bonus::Ferocity(n) => sum_of(0, 0, n as int),
        _ => sum_of(0, 0, 0),
    }
}

/// The stats that the first `n` of the bonuses give together.
pub open spec fn bonuses_sum(bonuses: Seq<Bonus>, n: int) -> Sum
    decreases n,
{
    if n <= 0 {
        sum_of(0, 0, 0)
    } else {
        bonuses_sum(bonuses, n - 1).plus(bonus_stats(bonuses[n - 1]))
    }
}

/// The modifier that a bonus is, if it is one.
pub open spec fn bonus_mod(bonus: Bonus) -> Option<Fixed> {
    match bonus {
        Bonus::Multiplier(m) => Some(m),
        _ => None,
    }
}

/// The modifiers among the first `n` of the bonuses, in order.
pub open spec fn bonuses_mods(bonuses: Seq<Bonus>, n: int) -> Seq<Fixed>
    decreases n,
{
    if n <= 0 {
        Seq::empty()
    } else {
        with_mod(bonuses_mods(bonuses, n - 1), bonus_mod(bonuses[n - 1]))
    }
}

/// What the runes that a character wears give: stats, and modifiers.
pub fn rune_bonuses(runes: &[Rune]) -> (r: (Stats, Vec<Fixed>))
    requires
        runes@.len() <= RUNES,
    ensures
        r.0.sum() == bonuses_sum(
            scholar_bonuses(runes@.len() as int),
            scholar_bonuses(runes@.len() as int).len() as int,
        ),
        r.1@ == bonuses_mods(
            scholar_bonuses(runes@.len() as int),
            scholar_bonuses(runes@.len() as int).len() as int,
        ),
        r.0.sum().within(400),
{
    let bonuses = Rune::Scholar.bonuses(runes.len());
    let mut stats = Stats::new(0, 0, 0);
    let mut mods: Vec<Fixed> = Vec::new();
    let mut i: usize = 0;
    proof {
        reveal_with_fuel(scholar_bonuses, 7);
    }
    while i < bonuses.len()
        invariant
            i <= bonuses@.len() <= 7,
            forall|k: int|
                0 <= k < bonuses@.len() ==> bonus_stats(#[trigger] bonuses@[k]).within(125),
            stats.sum() == bonuses_sum(bonuses@, i as int),
            stats.sum().within(125 * i),
            mods@ == bonuses_mods(bonuses@, i as int),
        decreases bonuses@.len() - i,
    {
        assert(bonus_stats(bonuses@[i as int]).within(125));
        match bonuses[i] {
            Bonus::Power(n) => {
                stats = stats.plus(Stats::new(n, 0, 0));
            },
            Bonus::Precision(n) => {
                stats = stats.plus(Stats::new(0, n, 0));
            },
            Bonus::Ferocity(n) => {
                stats = stats.plus(Stats::new(0, 0, n));
            },
            Bonus::Multiplier(m) => {
                mods.push(m);
            },
            Bonus::CritChance(_) => {},
        }
        i += 1;
    }
    assert(stats.sum().within(400)) by {
        reveal_with_fuel(bonuses_sum, 8);
    }
    (stats, mods)
}

#[derive(Debug)]
pub struct Character {
    pub head: Armor,
    pub shoulders: Armor,
    pub chest: Armor,
    pub hands: Armor,
    pub leggings: Armor,
    pub feet: Armor,
    pub accessories: (Accessory, Accessory),
    pub amulet: Amulet,
    pub rings: (Ring, Ring),
    pub back: Back,
    pub current_set: Weapons,
    pub weapons: (Weaponset, Weaponset),
    pub traits: Vec<Trait>,
    /// The buffs that are on, each once.
    pub buffs: Vec<Buff>,
    pub boons: Vec<Boon>,
    pub food: Food,
    pub utility: Utility,
}

impl Clone for Character {
    fn clone(&self) -> (c: Character)
        ensures
            c.same_but_buffs(
                Character { traits: c.traits, boons: c.boons, buffs: c.buffs, ..*self },
            ),
            c.traits@ == self.traits@,
            c.buffs@ == self.buffs@,
            c.boons@ == self.boons@,
    {
        Character {
            head: self.head,
            shoulders: self.shoulders,
            chest: self.chest,
            hands: self.hands,
            leggings: self.leggings,
            feet: self.feet,
            accessories: self.accessories,
            amulet: self.amulet,
            rings: self.rings,
            back: self.back,
            current_set: self.current_set,
            weapons: self.weapons,
            traits: self.traits.clone(),
            buffs: self.buffs.clone(),
            boons: self.boons.clone(),
            food: self.food,
            utility: self.utility,
        }
    }
}

/// No character has more traits, buffs or boons than this.
pub const EFFECT_LIMIT: usize = 1000;

/// The stats that a trait gives.
pub open spec fn trait_stats(t: Trait) -> Sum {
    match t {
        Trait::ViciousQuarry => sum_of(0, 0, 250),
        Trait::PackAlpha => sum_of(150, 150, 0),
        Trait::PetsProwess => sum_of(0, 0, 300),
        Trait::HonedAxes => sum_of(0, 0, 240),
        _ => sum_of(0, 0, 0),
    }
}

/// The stats that a boon gives: might, as 25 stacks of 30 power.
pub open spec fn boon_stats(boon: Boon) -> Sum {
    match boon {
        Boon::Might => sum_of(750, 0, 0),
        Boon::Fury => sum_of(0, 0, 0),
    }
}

/// The stats that a buff gives.
pub open spec fn buff_stats(buff: Buff) -> Sum {
    match buff {
        Buff::Spotter => sum_of(0, 100, 0),
        Buff::EmpowerAllies => sum_of(100, 0, 0),
        Buff::BannerOfStrength => sum_of(100, 0, 0),
        Buff::BannerOfDiscipline => sum_of(0, 100, 100),
        Buff::Ferocious => sum_of(150, 0, 100),
        Buff::SignetOfTheWild => sum_of(0, 0, 180),
        _ => sum_of(0, 0, 0),
    }
}

/// The stats that the first `n` traits give together.
pub open spec fn traits_sum(traits: Seq<Trait>, n: int) -> Sum
    decreases n,
{
    if n <= 0 {
        sum_of(0, 0, 0)
    } else {
        traits_sum(traits, n - 1).plus(trait_stats(traits[n - 1]))
    }
}

/// The stats that the first `n` boons give together.
pub open spec fn boons_sum(boons: Seq<Boon>, n: int) -> Sum
    decreases n,
{
    if n <= 0 {
        sum_of(0, 0, 0)
    } else {
        boons_sum(boons, n - 1).plus(boon_stats(boons[n - 1]))
    }
}

/// The stats that the first `n` buffs give together.
pub open spec fn buffs_sum(buffs: Seq<Buff>, n: int) -> Sum
    decreases n,
{
    if n <= 0 {
        sum_of(0, 0, 0)
    } else {
        buffs_sum(buffs, n - 1).plus(buff_stats(buffs[n - 1]))
    }
}

/// The modifier that a trait gives, if it gives one.
pub open spec fn trait_mod(t: Trait) -> Option<Fixed> {
    match t {
        Trait::HuntersTactics => Some(Fixed::HuntersTactics),
        Trait::LoudWhistle => Some(Fixed::LoudWhistle),
        Trait::OppressiveSuperiority => Some(Fixed::OppressiveSuperiority),
        Trait::FuriousStrength => Some(Fixed::FuriousStrength),
        _ => None,
    }
}

/// The modifier that a buff gives, if it gives one.
pub open spec fn buff_mod(buff: Buff) -> Option<Fixed> {
    match buff {
        Buff::TwiceAsVicious => Some(Fixed::TwiceAsVicious),
        Buff::SicEm => Some(Fixed::SicEm),
        Buff::FrostSpirit => Some(Fixed::FrostSpirit),
        _ => None,
    }
}

/// The modifier that a sigil gives, if it gives one.
pub open spec fn sigil_mod(sigil: Sigil) -> Option<Fixed> {
    match sigil {
        Sigil::Force => Some(Fixed::Force),
        Sigil::Impact => Some(Fixed::Impact),
        _ => None,
    }
}

/// `mods` with the modifier `m` after it, if there is one.
pub open spec fn with_mod(mods: Seq<Fixed>, m: Option<Fixed>) -> Seq<Fixed> {
    match m {
        Some(m) => mods.push(m),
        None => mods,
    }
}

/// The modifiers that the first `n` traits give, in order.
pub open spec fn traits_mods(traits: Seq<Trait>, n: int) -> Seq<Fixed>
    decreases n,
{
    if n <= 0 {
        Seq::empty()
    } else {
        with_mod(traits_mods(traits, n - 1), trait_mod(traits[n - 1]))
    }
}

/// The modifiers that the first `n` buffs give, in order.
pub open spec fn buffs_mods(buffs: Seq<Buff>, n: int) -> Seq<Fixed>
    decreases n,
{
    if n <= 0 {
        Seq::empty()
    } else {
        with_mod(buffs_mods(buffs, n - 1), buff_mod(buffs[n - 1]))
    }
}

/// `buffs` without `buff`.
pub open spec fn without_buff(buffs: Seq<Buff>, buff: Buff) -> Seq<Buff>
    decreases buffs.len(),
{
    if buffs.len() == 0 {
        Seq::empty()
    } else if buffs.last() == buff {
        without_buff(buffs.drop_last(), buff)
    } else {
        without_buff(buffs.drop_last(), buff).push(buffs.last())
    }
}

/// The kind of main hand that `weapon` is; an axe for a weapon that cannot
/// be held in the main hand.
pub open spec fn mainhand_kind(weapon: Weapon) -> MainhandKind {
    match weapon {
        Weapon::Dagger => MainhandKind::Dagger,
        Weapon::Sword => MainhandKind::Sword,
        _ => MainhandKind::Axe,
    }
}

/// A weapon set with `weapon` in the main hand; a set without a main hand
/// as it is.
pub open spec fn with_mainhand(set: Weaponset, weapon: Weapon) -> Weaponset {
    match set {
        Weaponset::Dual(main, off) => Weaponset::Dual(
            Mainhand { kind: mainhand_kind(weapon), infusion: main.infusion, sigil: main.sigil },
            off,
        ),
        Weaponset::Twohand(two) => Weaponset::Twohand(two),
    }
}

fn push_mod(mods: &mut Vec<Fixed>, m: Option<Fixed>)
    ensures
        final(mods)@ == with_mod(old(mods)@, m),
{
    if let Some(m) = m {
        mods.push(m);
    }
}

impl Character {
    /// Whether the character is one that can be: no piece of its gear
    /// gives more than a piece of gear may, and it has no more traits,
    /// buffs and boons than a character may have.
    pub open spec fn wf(&self) -> bool {
        &&& self.head.stats.modest()
        &&& self.shoulders.stats.modest()
        &&& self.chest.stats.modest()
        &&& self.hands.stats.modest()
        &&& self.leggings.stats.modest()
        &&& self.feet.stats.modest()
        &&& self.accessories.0.stats.modest()
        &&& self.accessories.1.stats.modest()
        &&& self.amulet.stats.modest()
        &&& self.rings.0.stats.modest()
        &&& self.rings.1.stats.modest()
        &&& self.back.stats.modest()
        &&& self.traits@.len() <= EFFECT_LIMIT
        &&& self.buffs@.len() <= EFFECT_LIMIT
        &&& self.boons@.len() <= EFFECT_LIMIT
    }

    pub fn is_wf(&self) -> (r: bool)
        ensures
            r == self.wf(),
    {
        self.head.stats.is_modest() && self.shoulders.stats.is_modest()
            && self.chest.stats.is_modest() && self.hands.stats.is_modest()
            && self.leggings.stats.is_modest() && self.feet.stats.is_modest()
            && self.accessories.0.stats.is_modest() && self.accessories.1.stats.is_modest()
            && self.amulet.stats.is_modest() && self.rings.0.stats.is_modest()
            && self.rings.1.stats.is_modest() && self.back.stats.is_modest() && self.traits.len()
            <= EFFECT_LIMIT && self.buffs.len() <= EFFECT_LIMIT && self.boons.len()
            <= EFFECT_LIMIT
    }

    pub open spec fn spec_has_buff(&self, buff: Buff) -> bool {
        self.buffs@.contains(buff)
    }

    pub fn has_buff(&self, buff: Buff) -> (r: bool)
        ensures
            r == self.spec_has_buff(buff),
    {
        let mut i: usize = 0;
        while i < self.buffs.len()
            invariant
                i <= self.buffs@.len(),
                forall|k: int| 0 <= k < i ==> self.buffs@[k] != buff,
            decreases self.buffs@.len() - i,
        {
            if self.buffs[i] == buff {
                return true;
            }
            i += 1;
        }
        false
    }

    /// Puts `buff` on, unless it is on already.
    pub fn add_buff(&mut self, buff: Buff)
        ensures
            final(self).buffs@ == if old(self).spec_has_buff(buff) {
                old(self).buffs@
            } else {
                old(self).buffs@.push(buff)
            },
            final(self).same_but_buffs(*old(self)),
    {
        if !self.has_buff(buff) {
            self.buffs.push(buff);
        }
    }

    /// Takes `buff` off.
    pub fn remove_buff(&mut self, buff: Buff)
        ensures
            final(self).buffs@ == without_buff(old(self).buffs@, buff),
            final(self).same_but_buffs(*old(self)),
    {
        let mut kept: Vec<Buff> = Vec::new();
        let mut i: usize = 0;
        assert(self.buffs@.take(0) =~= Seq::empty());
        while i < self.buffs.len()
            invariant
                i <= self.buffs@.len(),
                *self == *old(self),
                kept@ == without_buff(self.buffs@.take(i as int), buff),
            decreases self.buffs@.len() - i,
        {
            assert(self.buffs@.take(i + 1).drop_last() =~= self.buffs@.take(i as int));
            if self.buffs[i] != buff {
                kept.push(self.buffs[i]);
            }
            i += 1;
        }
        assert(self.buffs@.take(self.buffs@.len() as int) =~= self.buffs@);
        self.buffs = kept;
    }

    /// Whether two characters are the same in all but their buffs.
    pub open spec fn same_but_buffs(&self, other: Character) -> bool {
        &&& self.head == other.head
        &&& self.shoulders == other.shoulders
        &&& self.chest == other.chest
        &&& self.hands == other.hands
        &&& self.leggings == other.leggings
        &&& self.feet == other.feet
        &&& self.accessories == other.accessories
        &&& self.amulet == other.amulet
        &&& self.rings == other.rings
        &&& self.back == other.back
        &&& self.current_set == other.current_set
        &&& self.weapons == other.weapons
        &&& self.traits == other.traits
        &&& self.boons == other.boons
        &&& self.food == other.food
        &&& self.utility == other.utility
    }

    /// The weapon set that is wielded.
    pub open spec fn current(&self) -> Weaponset {
        match self.current_set {
            Weapons::First => self.weapons.0,
            Weapons::Second => self.weapons.1,
        }
    }

    /// The weapon set that is not wielded.
    pub open spec fn alternate(&self) -> Weaponset {
        match self.current_set {
            Weapons::First => self.weapons.1,
            Weapons::Second => self.weapons.0,
        }
    }

    /// Puts `weapon` into the main hand of the weapon set `set`, which is
    /// one with a main hand; `weapon` is one that can be held there.
    pub fn set_mainhand(&mut self, set: Weapons, weapon: Weapon)
        requires
            (match set {
                Weapons::First => old(self).weapons.0,
                Weapons::Second => old(self).weapons.1,
            }) is Dual,
            weapon == Weapon::Dagger || weapon == Weapon::Sword || weapon == Weapon::Axe,
        ensures
            final(self).weapons == match set {
                Weapons::First => (with_mainhand(old(self).weapons.0, weapon), old(self).weapons.1),
                Weapons::Second => (
                    old(self).weapons.0,
                    with_mainhand(old(self).weapons.1, weapon),
                ),
            },
            final(self).same_but_weapons(*old(self)),
    {
        let kind = match weapon {
            Weapon::Dagger => MainhandKind::Dagger,
            Weapon::Sword => MainhandKind::Sword,
            _ => MainhandKind::Axe,
        };
        match set {
            Weapons::First => {
                if let Weaponset::Dual(main, off) = self.weapons.0 {
                    self.weapons.0 = Weaponset::Dual(
                        Mainhand { kind, infusion: main.infusion, sigil: main.sigil },
                        off,
                    );
                }
            },
            Weapons::Second => {
                if let Weaponset::Dual(main, off) = self.weapons.1 {
                    self.weapons.1 = Weaponset::Dual(
                        Mainhand { kind, infusion: main.infusion, sigil: main.sigil },
                        off,
                    );
                }
            },
        }
    }

    /// Whether two characters are the same in all but their weapons.
    pub open spec fn same_but_weapons(&self, other: Character) -> bool {
        &&& self.head == other.head
        &&& self.shoulders == other.shoulders
        &&& self.chest == other.chest
        &&& self.hands == other.hands
        &&& self.leggings == other.leggings
        &&& self.feet == other.feet
        &&& self.accessories == other.accessories
        &&& self.amulet == other.amulet
        &&& self.rings == other.rings
        &&& self.back == other.back
        &&& self.current_set == other.current_set
        &&& self.traits == other.traits
        &&& self.buffs == other.buffs
        &&& self.boons == other.boons
        &&& self.food == other.food
        &&& self.utility == other.utility
    }

    /// Whether two characters are the same in all but the weapon set that
    /// they wield.
    pub open spec fn same_but_set(&self, other: Character) -> bool {
        &&& self.same_but_weapons(Character { current_set: self.current_set, ..other })
        &&& self.weapons == other.weapons
    }

    /// Takes the other weapon set to hand.
    pub fn swap_weapons(&mut self)
        ensures
            final(self).current_set == match old(self).current_set {
                Weapons::First => Weapons::Second,
                Weapons::Second => Weapons::First,
            },
            final(self).weapons == old(self).weapons,
            final(self).same_but_set(*old(self)),
            final(self).current() == old(self).alternate(),
            final(self).alternate() == old(self).current(),
    {
        self.current_set = match self.current_set {
            Weapons::First => Weapons::Second,
            Weapons::Second => Weapons::First,
        };
    }

    /// The weapon set that is wielded.
    pub fn current_weaponset(&self) -> (set: Weaponset)
        ensures
            set == self.current(),
    {
        match self.current_set {
            Weapons::First => self.weapons.0,
            Weapons::Second => self.weapons.1,
        }
    }

    /// The weapons that are wielded.
    pub fn current_weapons(&self) -> (weapons: QueriedWeapons)
        ensures
            weapons == match self.current() {
                Weaponset::Dual(main, off) => QueriedWeapons::Double(
                    main.kind.spec_weapon(),
                    off.kind.spec_weapon(),
                ),
                Weaponset::Twohand(two) => QueriedWeapons::Single(two.kind.spec_weapon()),
            },
            weapons.spec_mainhand() == self.current().spec_mainhand(),
    {
        match self.current_weaponset() {
            Weaponset::Dual(main, off) => QueriedWeapons::Double(
                main.kind.weapon(),
                off.kind.weapon(),
            ),
            Weaponset::Twohand(two) => QueriedWeapons::Single(two.kind.weapon()),
        }
    }

    /// The weapon in the main hand.
    pub fn current_mainhand(&self) -> (weapon: Weapon)
        ensures
            weapon == self.current().spec_mainhand(),
    {
        self.current_weaponset().mainhand()
    }

    /// The weapon that a swap brings into the main hand.
    pub fn alternate_mainhand(&self) -> (weapon: Weapon)
        ensures
            weapon == self.alternate().spec_mainhand(),
    {
        match self.current_set {
            Weapons::First => self.weapons.1.mainhand(),
            Weapons::Second => self.weapons.0.mainhand(),
        }
    }

    /// The sigils in the weapons of a weapon set.
    pub fn sigils(&self, weapons: Weapons) -> (sigils: (Sigil, Sigil))
        ensures
            sigils == match weapons {
                Weapons::First => self.weapons.0.spec_sigils(),
                Weapons::Second => self.weapons.1.spec_sigils(),
            },
    {
        match weapons {
            Weapons::First => self.weapons.0.sigils(),
            Weapons::Second => self.weapons.1.sigils(),
        }
    }

    /// The runes in the armor, from head to feet.
    pub fn runes(&self) -> (runes: Vec<Rune>)
        ensures
            runes@ == seq![
                self.head.rune,
                self.shoulders.rune,
                self.chest.rune,
                self.hands.rune,
                self.leggings.rune,
                self.feet.rune,
            ],
    {
        let mut runes: Vec<Rune> = Vec::new();
        runes.push(self.head.rune);
        runes.push(self.shoulders.rune);
        runes.push(self.chest.rune);
        runes.push(self.hands.rune);
        runes.push(self.leggings.rune);
        runes.push(self.feet.rune);
        runes
    }

    /// The modifiers of damage that the character has: those of its
    /// traits, of its buffs, of the sigils in the weapons that it wields,
    /// and of its runes, in this order.
    pub open spec fn spec_modifiers(&self) -> Seq<Fixed> {
        let sigils = self.current().spec_sigils();
        with_mod(
            with_mod(
                traits_mods(self.traits@, self.traits@.len() as int) + buffs_mods(
                    self.buffs@,
                    self.buffs@.len() as int,
                ),
                sigil_mod(sigils.0),
            ),
            sigil_mod(sigils.1),
        ) + bonuses_mods(scholar_bonuses(RUNES as int), scholar_bonuses(RUNES as int).len() as int)
    }

    pub fn modifiers(&self) -> (mods: Vec<Fixed>)
        ensures
            mods@ == self.spec_modifiers(),
    {
        let mut mods: Vec<Fixed> = Vec::new();
        let mut i: usize = 0;
        while i < self.traits.len()
            invariant
                i <= self.traits@.len(),
                mods@ == traits_mods(self.traits@, i as int),
            decreases self.traits@.len() - i,
        {
            let m = match self.traits[i] {
                Trait::HuntersTactics => Some(Fixed::HuntersTactics),
                Trait::LoudWhistle => Some(Fixed::LoudWhistle),
                Trait::OppressiveSuperiority => Some(Fixed::OppressiveSuperiority),
                Trait::FuriousStrength => Some(Fixed::FuriousStrength),
                _ => None,
            };
            push_mod(&mut mods, m);
            i += 1;
        }
        let ghost from_traits = mods@;
        let mut j: usize = 0;
        while j < self.buffs.len()
            invariant
                j <= self.buffs@.len(),
                mods@ == from_traits + buffs_mods(self.buffs@, j as int),
            decreases self.buffs@.len() - j,
        {
            let ghost before = buffs_mods(self.buffs@, j as int);
            let m = match self.buffs[j] {
                Buff::TwiceAsVicious => Some(Fixed::TwiceAsVicious),
                Buff::SicEm => Some(Fixed::SicEm),
                Buff::FrostSpirit => Some(Fixed::FrostSpirit),
                _ => None,
            };
            push_mod(&mut mods, m);
            assert(mods@ =~= from_traits + with_mod(before, m));
            j += 1;
        }
        let sigils = self.sigils(self.current_set);
        push_mod(
            &mut mods,
            match sigils.0 {
                Sigil::Force => Some(Fixed::Force),
                Sigil::Impact => Some(Fixed::Impact),
                _ => None,
            },
        );
        push_mod(
            &mut mods,
            match sigils.1 {
                Sigil::Force => Some(Fixed::Force),
                Sigil::Impact => Some(Fixed::Impact),
                _ => None,
            },
        );
        let runes = self.runes();
        let (_, mut rune_mods) = rune_bonuses(runes.as_slice());
        mods.append(&mut rune_mods);
        mods
    }
}


/// What the runes of a character give in stats.
pub open spec fn rune_stats() -> Sum {
    bonuses_sum(scholar_bonuses(RUNES as int), scholar_bonuses(RUNES as int).len() as int)
}

/// The ferocity that honed axes give while an axe is wielded.
pub const HONED_AXES: u32 = 120;

/// The most that the stats of a character may come to before its traits,
/// boons and buffs are counted in.
pub const STATS_LIMIT: u32 = 1_000_000_000;

impl Character {
    pub open spec fn spec_has_trait(&self, t: Trait) -> bool {
        self.traits@.contains(t)
    }

    pub fn has_trait(&self, t: Trait) -> (r: bool)
        ensures
            r == self.spec_has_trait(t),
    {
        let mut i: usize = 0;
        while i < self.traits.len()
            invariant
                i <= self.traits@.len(),
                forall|k: int| 0 <= k < i ==> self.traits@[k] != t,
            decreases self.traits@.len() - i,
        {
            if self.traits[i] == t {
                return true;
            }
            i += 1;
        }
        false
    }

    /// Whether honed axes count: the character has the trait and wields
    /// its second weapon set.
    pub open spec fn honed(&self) -> bool {
        self.spec_has_trait(Trait::HonedAxes) && self.current_set == Weapons::Second
    }

    /// What the six pieces of armor give together.
    pub open spec fn spec_armor_stats(&self) -> Sum {
        self.head.spec_stats().plus(self.shoulders.spec_stats()).plus(
            self.chest.spec_stats(),
        ).plus(self.hands.spec_stats()).plus(self.leggings.spec_stats()).plus(
            self.feet.spec_stats(),
        )
    }

    pub fn armor_stats(&self) -> (stats: Stats)
        requires
            self.wf(),
        ensures
            stats.sum() == self.spec_armor_stats(),
            stats.sum().within(6 * (STAT_LIMIT + 5)),
    {
        let mut stats = self.head.stats();
        stats = stats.plus(self.shoulders.stats());
        stats = stats.plus(self.chest.stats());
        stats = stats.plus(self.hands.stats());
        stats = stats.plus(self.leggings.stats());
        stats = stats.plus(self.feet.stats());
        stats
    }

    /// What accessories, amulet, rings and back piece give together.
    pub open spec fn spec_trinket_stats(&self) -> Sum {
        self.accessories.0.spec_stats().plus(self.accessories.1.spec_stats()).plus(
            self.amulet.stats.sum(),
        ).plus(self.rings.0.spec_stats()).plus(self.rings.1.spec_stats()).plus(
            self.back.spec_stats(),
        )
    }

    pub fn trinket_stats(&self) -> (stats: Stats)
        requires
            self.wf(),
        ensures
            stats.sum() == self.spec_trinket_stats(),
            stats.sum().within(6 * (STAT_LIMIT + 15)),
    {
        let mut stats = self.accessories.0.stats();
        stats = stats.plus(self.accessories.1.stats());
        stats = stats.plus(self.amulet.stats);
        stats = stats.plus(self.rings.0.stats());
        stats = stats.plus(self.rings.1.stats());
        stats = stats.plus(self.back.stats());
        stats
    }

    /// What the character has of itself and of what it wears, wields and
    /// eats: a thousand each of power and precision; its armor; its
    /// accessories, amulet, rings and back piece; the weapons that it
    /// wields; its food; its runes; and its honed axes where they count.
    pub open spec fn spec_stats_before_utility(&self) -> Sum {
        sum_of(1000, 1000, 0).plus(self.spec_armor_stats()).plus(self.spec_trinket_stats()).plus(
            self.current().spec_stats(),
        ).plus(self.food.spec_stats()).plus(rune_stats()).plus(
            if self.honed() {
                sum_of(0, 0, HONED_AXES as int)
            } else {
                sum_of(0, 0, 0)
            },
        )
    }

    pub fn stats_before_utility(&self) -> (stats: Stats)
        requires
            self.wf(),
        ensures
            stats.sum() == self.spec_stats_before_utility(),
            stats.sum().within(STATS_LIMIT as int),
    {
        let runes = self.runes();
        let (from_runes, _) = rune_bonuses(runes.as_slice());
        let mut stats = Stats::new(1000, 1000, 0);
        stats = stats.plus(self.armor_stats());
        stats = stats.plus(self.trinket_stats());
        stats = stats.plus(self.current_weaponset().stats());
        stats = stats.plus(self.food.stats());
        stats = stats.plus(from_runes);
        let second: bool = match self.current_set {
            Weapons::First => false,
            Weapons::Second => true,
        };
        if self.has_trait(Trait::HonedAxes) && second {
            stats = stats.plus(Stats::new(0, 0, HONED_AXES));
        } else {
            stats = stats.plus(Stats::new(0, 0, 0));
        }
        stats
    }

    /// What `stats` come to with the traits, the boons and the buffs of
    /// the character counted in.
    pub open spec fn spec_stats_after_utility(&self, stats: Stats) -> Sum {
        stats.sum().plus(traits_sum(self.traits@, self.traits@.len() as int)).plus(
            boons_sum(self.boons@, self.boons@.len() as int),
        ).plus(buffs_sum(self.buffs@, self.buffs@.len() as int))
    }

    pub fn stats_after_utility(&self, stats: Stats) -> (total: Stats)
        requires
            self.wf(),
            stats.sum().within(2 * STATS_LIMIT),
        ensures
            total.sum() == self.spec_stats_after_utility(stats),
    {
        let mut total = stats;
        let mut i: usize = 0;
        while i < self.traits.len()
            invariant
                i <= self.traits@.len() <= EFFECT_LIMIT,
                stats.sum().within(2 * STATS_LIMIT),
                total.sum() == stats.sum().plus(traits_sum(self.traits@, i as int)),
                traits_sum(self.traits@, i as int).within(300 * i),
            decreases self.traits@.len() - i,
        {
            let more = match self.traits[i] {
                Trait::ViciousQuarry => Stats::new(0, 0, 250),
                Trait::PackAlpha => Stats::new(150, 150, 0),
                Trait::PetsProwess => Stats::new(0, 0, 300),
                Trait::HonedAxes => Stats::new(0, 0, 240),
                _ => Stats::new(0, 0, 0),
            };
            total = total.plus(more);
            i += 1;
        }
        let ghost with_traits = total.sum();
        let mut j: usize = 0;
        while j < self.boons.len()
            invariant
                j <= self.boons@.len() <= EFFECT_LIMIT,
                with_traits.within(2 * STATS_LIMIT + 300 * EFFECT_LIMIT),
                total.sum() == with_traits.plus(boons_sum(self.boons@, j as int)),
                boons_sum(self.boons@, j as int).within(750 * j),
            decreases self.boons@.len() - j,
        {
            let more = match self.boons[j] {
                Boon::Might => Stats::new(750, 0, 0),
                Boon::Fury => Stats::new(0, 0, 0),
            };
            total = total.plus(more);
            j += 1;
        }
        let ghost with_boons = total.sum();
        let mut k: usize = 0;
        while k < self.buffs.len()
            invariant
                k <= self.buffs@.len() <= EFFECT_LIMIT,
                with_boons.within(2 * STATS_LIMIT + 1050 * EFFECT_LIMIT),
                total.sum() == with_boons.plus(buffs_sum(self.buffs@, k as int)),
                buffs_sum(self.buffs@, k as int).within(180 * k),
            decreases self.buffs@.len() - k,
        {
            let more = match self.buffs[k] {
                Buff::Spotter => Stats::new(0, 100, 0),
                Buff::EmpowerAllies => Stats::new(100, 0, 0),
                Buff::BannerOfStrength => Stats::new(100, 0, 0),
                Buff::BannerOfDiscipline => Stats::new(0, 100, 100),
                Buff::Ferocious => Stats::new(150, 0, 100),
                Buff::SignetOfTheWild => Stats::new(0, 0, 180),
                _ => Stats::new(0, 0, 0),
            };
            total = total.plus(more);
            k += 1;
        }
        total
    }
}

/// The traits of the build.
pub fn base_traits() -> (traits: Vec<Trait>)
    ensures
        traits@ == seq![
            Trait::HuntersTactics,
            Trait::ViciousQuarry,
            Trait::PackAlpha,
            Trait::PetsProwess,
            Trait::HonedAxes,
            Trait::LoudWhistle,
            Trait::OppressiveSuperiority,
            Trait::FuriousStrength,
        ],
{
    let mut traits: Vec<Trait> = Vec::new();
    traits.push(Trait::HuntersTactics);
    traits.push(Trait::ViciousQuarry);
    traits.push(Trait::PackAlpha);
    traits.push(Trait::PetsProwess);
    traits.push(Trait::HonedAxes);
    traits.push(Trait::LoudWhistle);
    traits.push(Trait::OppressiveSuperiority);
    traits.push(Trait::FuriousStrength);
    traits
}

/// The buffs that are on the character throughout a fight.
pub fn base_buffs() -> (buffs: Vec<Buff>)
    ensures
        buffs@ == seq![
            Buff::Spotter,
            Buff::FrostSpirit,
            Buff::EmpowerAllies,
            Buff::BannerOfStrength,
            Buff::BannerOfDiscipline,
            Buff::Ferocious,
            Buff::SignetOfTheWild,
        ],
{
    let mut buffs: Vec<Buff> = Vec::new();
    buffs.push(Buff::Spotter);
    buffs.push(Buff::FrostSpirit);
    buffs.push(Buff::EmpowerAllies);
    buffs.push(Buff::BannerOfStrength);
    buffs.push(Buff::BannerOfDiscipline);
    buffs.push(Buff::Ferocious);
    buffs.push(Buff::SignetOfTheWild);
    buffs
}

/// The boons that are on the character throughout a fight.
pub fn base_boons() -> (boons: Vec<Boon>)
    ensures
        boons@ == seq![Boon::Might, Boon::Fury],
{
    let mut boons: Vec<Boon> = Vec::new();
    boons.push(Boon::Might);
    boons.push(Boon::Fury);
    boons
}

/// A piece of the armor of the build, which gives `stats`.
pub open spec fn build_armor(stats: Stats) -> Armor {
    Armor { infusion: Infusion::NineAgonyFivePower, rune: Rune::Scholar, stats }
}

/// The build: berserker gear with scholar runes and infusions of power
/// throughout, a longbow with sigils of force and air, and dagger and axe
/// with sigils of force and hydromancy; the longbow in hand.
pub fn my_char() -> (c: Character)
    ensures
        c.wf(),
        c.head == build_armor(Stats { power: 63, precision: 45, ferocity: 45 }),
        c.shoulders == build_armor(Stats { power: 47, precision: 34, ferocity: 34 }),
        c.chest == build_armor(Stats { power: 141, precision: 101, ferocity: 101 }),
        c.hands == build_armor(Stats { power: 47, precision: 34, ferocity: 34 }),
        c.leggings == build_armor(Stats { power: 94, precision: 67, ferocity: 67 }),
        c.feet == build_armor(Stats { power: 47, precision: 34, ferocity: 34 }),
        c.accessories.0 == c.accessories.1,
        c.accessories.0 == (Accessory {
            infusion: Infusion::NineAgonyFivePower,
            stats: Stats { power: 110, precision: 74, ferocity: 74 },
        }),
        c.amulet == (Amulet { stats: Stats { power: 157, precision: 108, ferocity: 108 } }),
        c.rings.0 == c.rings.1,
        c.rings.0 == (Ring {
            infusions: (
                Infusion::NineAgonyFivePower,
                Infusion::NineAgonyFivePower,
                Infusion::NineAgonyFivePower,
            ),
            stats: Stats { power: 126, precision: 85, ferocity: 85 },
        }),
        c.back == (Back {
            infusions: (Infusion::NineAgonyFivePower, Infusion::NineAgonyFivePower),
            stats: Stats { power: 63, precision: 40, ferocity: 40 },
        }),
        c.current_set == Weapons::First,
        c.weapons.0 == Weaponset::Twohand(
            Twohand {
                kind: TwohandKind::Longbow,
                infusions: (Infusion::NineAgonyFivePower, Infusion::NineAgonyFivePower),
                sigils: (Sigil::Force, Sigil::Air),
            },
        ),
        c.weapons.1 == Weaponset::Dual(
            Mainhand {
                kind: MainhandKind::Dagger,
                infusion: Infusion::NineAgonyFivePower,
                sigil: Sigil::Force,
            },
            Offhand {
                kind: OffhandKind::Axe,
                infusion: Infusion::NineAgonyFivePower,
                sigil: Sigil::Hydro,
            },
        ),
        c.traits@ == seq![
            Trait::HuntersTactics,
            Trait::ViciousQuarry,
            Trait::PackAlpha,
            Trait::PetsProwess,
            Trait::HonedAxes,
            Trait::LoudWhistle,
            Trait::OppressiveSuperiority,
            Trait::FuriousStrength,
        ],
        c.buffs@ == seq![
            Buff::Spotter,
            Buff::FrostSpirit,
            Buff::EmpowerAllies,
            Buff::BannerOfStrength,
            Buff::BannerOfDiscipline,
            Buff::Ferocious,
            Buff::SignetOfTheWild,
        ],
        c.boons@ == seq![Boon::Might, Boon::Fury],
        c.food == Food::SweetAndSpicyButternutSquashSoup,
        c.utility == Utility::SuperiorSharpeningStone,
{
    let infusion = Infusion::NineAgonyFivePower;
    let rune = Rune::Scholar;
    let accessory = Accessory { infusion, stats: Stats::new(110, 74, 74) };
    let ring = Ring { infusions: (infusion, infusion, infusion), stats: Stats::new(126, 85, 85) };
    Character {
        head: Armor::new(infusion, rune, Stats::new(63, 45, 45)),
        shoulders: Armor::new(infusion, rune, Stats::new(47, 34, 34)),
        chest: Armor::new(infusion, rune, Stats::new(141, 101, 101)),
        hands: Armor::new(infusion, rune, Stats::new(47, 34, 34)),
        leggings: Armor::new(infusion, rune, Stats::new(94, 67, 67)),
        feet: Armor::new(infusion, rune, Stats::new(47, 34, 34)),
        accessories: (accessory, accessory),
        amulet: Amulet { stats: Stats::new(157, 108, 108) },
        rings: (ring, ring),
        back: Back { infusions: (infusion, infusion), stats: Stats::new(63, 40, 40) },
        current_set: Weapons::First,
        weapons: (
            Weaponset::Twohand(
                Twohand {
                    kind: TwohandKind::Longbow,
                    infusions: (infusion, infusion),
                    sigils: (Sigil::Force, Sigil::Air),
                },
            ),
            Weaponset::Dual(
                Mainhand { kind: MainhandKind::Dagger, infusion, sigil: Sigil::Force },
                Offhand { kind: OffhandKind::Axe, infusion, sigil: Sigil::Hydro },
            ),
        ),
        traits: base_traits(),
        buffs: base_buffs(),
        boons: base_boons(),
        food: Food::SweetAndSpicyButternutSquashSoup,
        utility: Utility::SuperiorSharpeningStone,
    }
}

/// What an event does to the buffs of the character `id`: a buff that is
/// applied to it goes on, and one that is removed from it goes off, if it
/// is a known one.
pub open spec fn buffs_after(buffs: Seq<Buff>, event: Event, id: AgentId) -> Seq<Buff> {
    match event.kind {
        EventKind::BuffApply(e) => match Buff::spec_from_id(e.id) {
            Some(buff) if e.target == id && !buffs.contains(buff) => buffs.push(buff),
            _ => buffs,
        },
        EventKind::BuffRemove(e) => match Buff::spec_from_id(e.id) {
            Some(buff) if e.target == id => without_buff(buffs, buff),
            _ => buffs,
        },
        _ => buffs,
    }
}

/// Which weapon set the character `id` wields after an event: the other
/// one after it swapped weapons.
pub open spec fn set_after(set: Weapons, event: Event, id: AgentId) -> Weapons {
    match event.kind {
        EventKind::WeaponSwap(e) if e.target == id => match set {
            Weapons::First => Weapons::Second,
            Weapons::Second => Weapons::First,
        },
        _ => set,
    }
}

/// The character `char_id` after an event.
pub fn apply_event(event: &Event, character: Character, char_id: AgentId) -> (after: Character)
    ensures
        after.buffs@ == buffs_after(character.buffs@, *event, char_id),
        after.current_set == set_after(character.current_set, *event, char_id),
        after.weapons == character.weapons,
        after.same_but_buffs(Character { current_set: after.current_set, ..character }),
{
    let mut character = character;
    match event.kind {
        EventKind::BuffApply(e) => {
            if e.target == char_id {
                if let Some(buff) = Buff::from_id(e.id) {
                    character.add_buff(buff);
                }
            }
        },
        EventKind::BuffRemove(e) => {
            if e.target == char_id {
                if let Some(buff) = Buff::from_id(e.id) {
                    character.remove_buff(buff);
                }
            }
        },
        EventKind::WeaponSwap(e) => {
            if e.target == char_id {
                character.swap_weapons();
            }
        },
        _ => {},
    }
    character
}

} // verus!
