use snek::golem::character::{
    apply_event, base_boons, base_buffs, base_traits, my_char, rune_bonuses, Bonus, Boon, Buff,
    Fixed, Trait, Weapon,
};
use snek::golem::gear::{
    weapon_stats, Accessory, Armor, Back, Food, Infusion, MainhandKind, OffhandKind,
    QueriedWeapons, Ring, Rune, Sigil, Stats, TwohandKind, Weapons, Weaponset,
};
use snek::parse::{AgentId, BuffApply, BuffRemove, Event, EventKind, PhysDamage, WeaponSwap};

#[test]
fn stats_add_up() {
    let a = Stats::new(1, 2, 3);
    assert_eq!((a.power(), a.precision(), a.ferocity()), (1, 2, 3));
    assert_eq!(a.plus(Stats::new(10, 20, 30)), Stats::new(11, 22, 33));
    assert_eq!(Stats::new(u32::MAX, 0, 0).plus(Stats::new(0, u32::MAX, 7)), Stats::new(u32::MAX, u32::MAX, 7));
    assert!(Stats::new(1_000_000, 0, 1_000_000).is_modest());
    assert!(!Stats::new(1_000_001, 0, 0).is_modest());
    assert!(!Stats::new(0, 0, u32::MAX).is_modest());
}

#[test]
fn each_piece_gives_its_stats_and_those_of_its_infusions() {
    let five = Infusion::NineAgonyFivePower;
    assert_eq!(five.stats(), Stats::new(5, 0, 0));
    assert_eq!(Infusion::Empty.stats(), Stats::new(0, 0, 0));
    let stats = Stats::new(100, 50, 25);
    assert_eq!(Armor::new(five, Rune::Scholar, stats).stats(), Stats::new(105, 50, 25));
    assert_eq!(Armor::new(Infusion::Empty, Rune::Scholar, stats).stats(), stats);
    assert_eq!(Accessory { infusion: five, stats }.stats(), Stats::new(105, 50, 25));
    assert_eq!(Ring { infusions: (five, Infusion::Empty, five), stats }.stats(), Stats::new(110, 50, 25));
    assert_eq!(Back { infusions: (five, five), stats }.stats(), Stats::new(110, 50, 25));
    assert_eq!(Food::SweetAndSpicyButternutSquashSoup.stats(), Stats::new(100, 0, 70));
    assert_eq!(weapon_stats(Weapon::Unequipped), Stats::new(0, 0, 0));
    assert_eq!(weapon_stats(Weapon::Longbow), Stats::new(251, 179, 179));
    for weapon in [Weapon::Dagger, Weapon::Sword, Weapon::Axe] {
        assert_eq!(weapon_stats(weapon), Stats::new(125, 90, 90));
    }
}

#[test]
fn weapons_are_of_their_kinds() {
    for (weapon, main, off, two) in [
        (Weapon::Dagger, Some(MainhandKind::Dagger), None, None),
        (Weapon::Sword, Some(MainhandKind::Sword), None, None),
        (Weapon::Axe, Some(MainhandKind::Axe), Some(OffhandKind::Axe), None),
        (Weapon::Longbow, None, None, Some(TwohandKind::Longbow)),
        (Weapon::Unequipped, None, None, None),
    ] {
        assert_eq!(MainhandKind::specific(weapon), main);
        assert_eq!(OffhandKind::specific(weapon), off);
        assert_eq!(TwohandKind::specific(weapon), two);
        if let Some(kind) = main {
            assert_eq!(kind.weapon(), weapon);
        }
    }
    assert_eq!(OffhandKind::Axe.weapon(), Weapon::Axe);
    assert_eq!(TwohandKind::Longbow.weapon(), Weapon::Longbow);
    assert_eq!(QueriedWeapons::Single(Weapon::Longbow).mainhand(), Weapon::Longbow);
    assert_eq!(QueriedWeapons::Double(Weapon::Dagger, Weapon::Axe).mainhand(), Weapon::Dagger);
}

#[test]
fn runes_give_more_the_more_there_are() {
    let expected = [
        (Stats::new(0, 0, 0), 0),
        (Stats::new(25, 0, 0), 0),
        (Stats::new(25, 0, 35), 0),
        (Stats::new(75, 0, 35), 0),
        (Stats::new(75, 0, 100), 0),
        (Stats::new(175, 0, 100), 0),
        (Stats::new(175, 0, 225), 1),
    ];
    for count in 0..=6 {
        let runes = vec![Rune::Scholar; count];
        let (stats, mods) = rune_bonuses(&runes);
        assert_eq!(stats, expected[count].0, "{} runes", count);
        assert_eq!(mods.len(), expected[count].1);
        assert_eq!(Rune::Scholar.bonuses(count).len(), if count == 6 { 7 } else { count });
    }
    assert_eq!(rune_bonuses(&[Rune::Scholar; 6]).1, vec![Fixed::Scholar]);
    assert_eq!(
        Rune::Scholar.bonuses(6),
        vec![
            Bonus::Power(25),
            Bonus::Ferocity(35),
            Bonus::Power(50),
            Bonus::Ferocity(65),
            Bonus::Power(100),
            Bonus::Ferocity(125),
            Bonus::Multiplier(Fixed::Scholar),
        ]
    );
}

#[test]
fn the_build_is_as_it_is_played() {
    let c = my_char();
    assert!(c.is_wf());
    assert_eq!(c.traits, base_traits());
    assert_eq!(c.buffs, base_buffs());
    assert_eq!(c.boons, base_boons());
    assert_eq!(c.boons, vec![Boon::Might, Boon::Fury]);
    assert_eq!(c.traits.len(), 8);
    assert_eq!(c.buffs.len(), 7);
    assert_eq!(c.current_set, Weapons::First);
    assert_eq!(c.current_mainhand(), Weapon::Longbow);
    assert_eq!(c.alternate_mainhand(), Weapon::Dagger);
    assert_eq!(c.current_weapons(), QueriedWeapons::Single(Weapon::Longbow));
    assert_eq!(c.sigils(Weapons::First), (Sigil::Force, Sigil::Air));
    assert_eq!(c.sigils(Weapons::Second), (Sigil::Force, Sigil::Hydro));
    assert_eq!(c.runes(), vec![Rune::Scholar; 6]);
    assert_eq!(c.head.stats, Stats::new(63, 45, 45));
    assert_eq!(c.chest.stats, Stats::new(141, 101, 101));
    assert_eq!(c.armor_stats(), Stats::new(469, 315, 315));
    assert_eq!(c.trinket_stats(), Stats::new(742, 466, 466));
}

#[test]
fn the_stats_of_the_build_add_up() {
    let mut c = my_char();
    let with_bow = c.stats_before_utility();
    assert_eq!(with_bow, Stats::new(2747, 1960, 1255));
    assert_eq!(c.stats_after_utility(with_bow), Stats::new(3997, 2310, 2425));
    assert_eq!(c.stats_after_utility(Stats::new(0, 0, 0)), Stats::new(1250, 350, 1170));
    c.swap_weapons();
    assert_eq!(c.current_set, Weapons::Second);
    assert_eq!(c.current_weapons(), QueriedWeapons::Double(Weapon::Dagger, Weapon::Axe));
    assert_eq!(c.stats_before_utility(), Stats::new(2746, 1961, 1376));
    c.traits.retain(|t| *t != Trait::HonedAxes);
    assert_eq!(c.stats_before_utility(), Stats::new(2746, 1961, 1256));
    assert_eq!(c.stats_after_utility(Stats::new(0, 0, 0)), Stats::new(1250, 350, 930));
    c.boons.push(Boon::Might);
    c.remove_buff(Buff::Ferocious);
    assert_eq!(c.stats_after_utility(Stats::new(1, 2, 3)), Stats::new(1851, 352, 833));
    c.swap_weapons();
    assert_eq!(c.stats_before_utility(), Stats::new(2747, 1960, 1255));
}

#[test]
fn the_modifiers_of_the_build_come_in_order() {
    let mut c = my_char();
    assert_eq!(
        c.modifiers(),
        vec![
            Fixed::HuntersTactics,
            Fixed::LoudWhistle,
            Fixed::OppressiveSuperiority,
            Fixed::FuriousStrength,
            Fixed::FrostSpirit,
            Fixed::Force,
            Fixed::Scholar,
        ]
    );
    c.add_buff(Buff::SicEm);
    c.add_buff(Buff::TwiceAsVicious);
    c.add_buff(Buff::OneWolfPack);
    c.traits = vec![Trait::PackAlpha, Trait::FuriousStrength];
    c.weapons.0 = Weaponset::Dual(
        snek::golem::gear::Mainhand {
            kind: MainhandKind::Sword,
            infusion: Infusion::Empty,
            sigil: Sigil::Impact,
        },
        snek::golem::gear::Offhand {
            kind: OffhandKind::Axe,
            infusion: Infusion::Empty,
            sigil: Sigil::Force,
        },
    );
    assert_eq!(
        c.modifiers(),
        vec![
            Fixed::FuriousStrength,
            Fixed::FrostSpirit,
            Fixed::SicEm,
            Fixed::TwiceAsVicious,
            Fixed::Impact,
            Fixed::Force,
            Fixed::Scholar,
        ]
    );
}

#[test]
fn buffs_go_on_once_and_come_off() {
    let mut c = my_char();
    assert!(c.has_buff(Buff::Spotter));
    assert!(!c.has_buff(Buff::SicEm));
    c.add_buff(Buff::SicEm);
    c.add_buff(Buff::SicEm);
    c.add_buff(Buff::Spotter);
    assert!(c.has_buff(Buff::SicEm));
    assert_eq!(c.buffs.len(), 8);
    assert_eq!(c.buffs[7], Buff::SicEm);
    c.remove_buff(Buff::Spotter);
    assert!(!c.has_buff(Buff::Spotter));
    assert_eq!(c.buffs.len(), 7);
    assert_eq!(c.buffs[0], Buff::FrostSpirit);
    c.remove_buff(Buff::Spotter);
    assert_eq!(c.buffs.len(), 7);
    assert!(c.has_trait(Trait::PackAlpha));
    c.traits.clear();
    assert!(!c.has_trait(Trait::PackAlpha));
}

#[test]
fn a_weapon_is_put_into_the_main_hand() {
    let mut c = my_char();
    c.set_mainhand(Weapons::Second, Weapon::Sword);
    assert_eq!(c.alternate_mainhand(), Weapon::Sword);
    assert_eq!(c.current_mainhand(), Weapon::Longbow);
    assert_eq!(c.sigils(Weapons::Second), (Sigil::Force, Sigil::Hydro));
    c.set_mainhand(Weapons::Second, Weapon::Axe);
    c.swap_weapons();
    assert_eq!(c.current_weapons(), QueriedWeapons::Double(Weapon::Axe, Weapon::Axe));
    c.weapons.0 = c.weapons.1;
    c.set_mainhand(Weapons::First, Weapon::Dagger);
    assert_eq!(c.alternate_mainhand(), Weapon::Dagger);
    assert_eq!(c.current_mainhand(), Weapon::Axe);
}

fn at(time: u64, kind: EventKind) -> Event {
    Event { time, kind }
}

#[test]
fn events_act_on_the_character_they_are_about() {
    let me = AgentId::new(7);
    let other = AgentId::new(8);
    let apply = |target: AgentId, id: i32| {
        at(0, EventKind::BuffApply(BuffApply { target, src: other, id, duration: 1 }))
    };
    let remove = |target: AgentId, id: i32| {
        at(0, EventKind::BuffRemove(BuffRemove { target, dst: other, id, stacks: 1 }))
    };
    let swap = |target: AgentId| at(0, EventKind::WeaponSwap(WeaponSwap { target, set: 4 }));
    let c = my_char();
    let c = apply_event(&apply(me, 33902), c, me);
    assert!(c.has_buff(Buff::SicEm));
    let c = apply_event(&apply(other, 45600), c, me);
    assert!(!c.has_buff(Buff::TwiceAsVicious));
    let c = apply_event(&apply(me, 762), c, me);
    assert_eq!(c.buffs.len(), 8);
    let c = apply_event(&remove(other, 33902), c, me);
    assert!(c.has_buff(Buff::SicEm));
    let c = apply_event(&remove(me, 33902), c, me);
    assert!(!c.has_buff(Buff::SicEm));
    assert_eq!(c.buffs, base_buffs());
    let c = apply_event(&swap(other), c, me);
    assert_eq!(c.current_set, Weapons::First);
    let c = apply_event(&swap(me), c, me);
    assert_eq!(c.current_set, Weapons::Second);
    let c = apply_event(&swap(me), c, me);
    assert_eq!(c.current_set, Weapons::First);
    let hit = at(
        5,
        EventKind::PhysDamage(PhysDamage { target: me, src: other, dmg: 1, skill: 1 }),
    );
    let c = apply_event(&hit, c, me);
    assert_eq!(c.buffs, base_buffs());
    assert_eq!(c.traits, base_traits());
    let d = c.clone();
    assert_eq!((d.buffs, d.traits, d.boons, d.head), (c.buffs, c.traits, c.boons, c.head));
}
