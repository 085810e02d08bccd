use snek::parse::evtc::AgentMap;
use snek::parse::{
    check_success, check_success_ai, check_success_by_combat_exit, check_success_by_invuln_count,
    gather_context, parse_phases, parse_phases_ai_dark, parse_phases_ai_elemental,
    parse_phases_by_invulns, Agent, AgentId, BuffApply, BuffRemove, CastStart, CombatEnter,
    CombatExit, CondDamage, Data, Death, Event, EventKind, LogContext, Phase, PhysDamage, Reward,
    Spawn,
};
use snek::parse::{analyse, parse_ai};
use snek::target::Target;
use std::collections::HashMap;

const BOSS: u16 = 1;

fn id(n: u16) -> AgentId {
    AgentId::new(n)
}

fn agent(name: &str, health: u64, first_aware: u64, last_aware: u64) -> Agent {
    Agent { name: name.to_string(), health, first_aware, last_aware }
}

fn data(events: Vec<Event>) -> Data {
    let mut agents = AgentMap::new();
    agents.insert(BOSS, agent("Boss", 10_000_000, 0, 0));
    agents.insert(2, agent("Two", 0, 0, 0));
    agents.insert(3, agent("Three", 0, 0, 0));
    let mut players = AgentMap::new();
    players.insert(3, agent("three.3333", 0, 0, 0));
    players.insert(2, agent("two.2222", 0, 0, 0));
    Data { boss: id(BOSS), agents, players, skills: HashMap::new(), events }
}

fn at(time: u64, kind: EventKind) -> Event {
    Event { time, kind }
}

fn hit(time: u64, src: u16, target: u16, dmg: i32) -> Event {
    at(time, EventKind::PhysDamage(PhysDamage { target: id(target), src: id(src), dmg, skill: 5 }))
}

fn tick(time: u64, src: u16, target: u16, dmg: i32) -> Event {
    at(time, EventKind::CondDamage(CondDamage { target: id(target), src: id(src), dmg, skill: 5 }))
}

fn apply(time: u64, target: u16, buff: i32) -> Event {
    at(time, EventKind::BuffApply(BuffApply { target: id(target), src: id(2), id: buff, duration: 1 }))
}

fn remove(time: u64, target: u16, buff: i32) -> Event {
    at(time, EventKind::BuffRemove(BuffRemove { target: id(target), dst: id(2), id: buff, stacks: 1 }))
}

fn cast(time: u64, skill: i32) -> Event {
    at(time, EventKind::CastStart(CastStart { target: id(BOSS), skill, effect: 0, duration: 0 }))
}

fn enter(time: u64, target: u16) -> Event {
    at(time, EventKind::CombatEnter(CombatEnter { target: id(target) }))
}

fn exit(time: u64, target: u16) -> Event {
    at(time, EventKind::CombatExit(CombatExit { target: id(target) }))
}

fn death(time: u64, target: u16) -> Event {
    at(time, EventKind::Death(Death { target: id(target) }))
}

fn reward(time: u64) -> Event {
    at(time, EventKind::Reward(Reward { target: id(2), kind: 1, id: 1 }))
}

fn durations(phases: &[Phase]) -> Vec<u64> {
    phases.iter().map(|p| p.duration()).collect()
}

fn spans(phases: &[Phase]) -> Vec<(u64, u64)> {
    phases.iter().map(|p| (p.start(), p.end())).collect()
}

fn context() -> LogContext {
    LogContext::new(id(BOSS))
}

#[test]
fn a_phase_never_ends_before_it_starts() {
    let p = Phase::new(10, 25);
    assert_eq!((p.start(), p.end(), p.duration()), (10, 25, 15));
    assert!(p.name().is_none());
    let q = Phase::new(25, 10);
    assert_eq!((q.start(), q.end(), q.duration()), (25, 25, 0));
    let r = Phase::named(0, u64::MAX, "all".to_string());
    assert_eq!(r.duration(), u64::MAX);
    assert_eq!(r.name().as_deref(), Some("all"));
    assert_eq!(Phase::named(9, 3, "x".to_string()).end(), 9);
    let c = r.clone();
    assert_eq!((c.start(), c.end(), c.name().clone()), (0, u64::MAX, Some("all".to_string())));
}

#[test]
fn the_context_starts_blank() {
    let ctx = context();
    assert_eq!(ctx.target, id(BOSS));
    assert_eq!((ctx.start, ctx.last_event, ctx.last_aware), (0, 0, 0));
    assert_eq!((ctx.success, ctx.first_reward, ctx.last_dmg), (None, None, None));
    assert!(ctx.players.is_empty() && ctx.invuln_changes.is_empty());
    assert!(ctx.other_invuln_changes.is_empty() && ctx.casts.is_empty());
    assert!(ctx.combat_enters.is_empty() && ctx.combat_exits.is_empty());
    assert!(ctx.spawns.is_empty() && ctx.deaths.is_empty());
}

#[test]
fn only_damage_above_zero_by_others_to_the_boss_counts() {
    let ctx = gather_context(
        &data(vec![
            hit(10, 2, BOSS, 5),
            hit(20, 2, BOSS, 0),
            hit(30, 2, BOSS, -4),
            hit(40, BOSS, BOSS, 9),
            hit(50, 2, 3, 9),
            hit(60, BOSS, 2, 9),
        ]),
        Target::Siax,
    );
    assert_eq!(ctx.last_dmg, Some(10));
    let ticks = gather_context(&data(vec![hit(10, 2, BOSS, 5), tick(70, 3, BOSS, 1)]), Target::Siax);
    assert_eq!(ticks.last_dmg, Some(70));
    let none = gather_context(&data(vec![hit(10, 2, 3, 5)]), Target::Siax);
    assert_eq!(none.last_dmg, None);
}

#[test]
fn last_damage_is_the_latest_and_first_reward_the_earliest() {
    let ctx = gather_context(
        &data(vec![
            hit(50, 2, BOSS, 5),
            reward(40),
            hit(30, 2, BOSS, 5),
            reward(20),
            reward(90),
            hit(45, 2, BOSS, 5),
        ]),
        Target::Siax,
    );
    assert_eq!(ctx.last_dmg, Some(50));
    assert_eq!(ctx.first_reward, Some(20));
    assert_eq!(ctx.last_event, 45);
}

#[test]
fn toggles_in_one_direction_collapse() {
    let ctx = gather_context(
        &data(vec![
            apply(10, BOSS, 762),
            apply(11, BOSS, 762),
            apply(12, 2, 762),
            remove(13, 2, 762),
            apply(14, BOSS, 5),
            remove(20, BOSS, 762),
            remove(21, BOSS, 762),
            remove(22, BOSS, 895),
            remove(23, BOSS, 895),
            apply(30, BOSS, 762),
            apply(31, BOSS, 895),
            apply(32, BOSS, 895),
            remove(33, BOSS, 895),
        ]),
        Target::Siax,
    );
    assert_eq!(ctx.invuln_changes, vec![(10, false), (20, true), (30, false)]);
    assert_eq!(ctx.other_invuln_changes, vec![(22, true), (31, false), (33, true)]);
}

#[test]
fn states_are_kept_by_agent_and_casts_by_skill() {
    let ctx = gather_context(
        &data(vec![
            enter(1, BOSS),
            enter(2, 2),
            at(3, EventKind::Spawn(Spawn { target: id(9) })),
            cast(4, 50000),
            cast(5, 50001),
            cast(6, 61385),
            exit(7, 2),
            cast(8, 50001),
            cast(9, 12469),
            cast(10, -5),
            enter(11, 2),
            death(12, 3),
            exit(13, 2),
            death(14, 3),
        ]),
        Target::Siax,
    );
    assert_eq!(ctx.combat_enters.len(), 2);
    assert_eq!(ctx.combat_enters[&BOSS], 1);
    assert_eq!(ctx.combat_enters[&2], 11);
    assert_eq!(ctx.combat_exits.len(), 1);
    assert_eq!(ctx.combat_exits[&2], 13);
    assert_eq!(ctx.spawns[&9], 3);
    assert_eq!(ctx.deaths[&3], 14);
    assert_eq!(ctx.casts.len(), 2);
    assert_eq!(ctx.casts[&50001], vec![5, 8]);
    assert_eq!(ctx.casts[&61385], vec![6]);
    assert_eq!(ctx.last_event, 14);
}

#[test]
fn the_context_knows_boss_and_players() {
    let mut d = data(vec![hit(10, 2, BOSS, 5), hit(99, 2, BOSS, 5)]);
    d.agents.insert(BOSS, agent("Boss", 1, 7, 77));
    d.players.insert(65535, agent("last.9999", 0, 0, 0));
    d.players.insert(0, agent("zero.0000", 0, 0, 0));
    let ctx = gather_context(&d, Target::Siax);
    assert_eq!(ctx.target, id(BOSS));
    assert_eq!(ctx.players, vec![id(0), id(2), id(3), id(65535)]);
    assert_eq!(ctx.last_aware, 77);
    assert_eq!(ctx.last_event, 99);
    assert_eq!(ctx.start, 0);
    let mut lost = data(vec![]);
    lost.boss = id(500);
    let ctx = gather_context(&lost, Target::Siax);
    assert_eq!((ctx.last_aware, ctx.last_event, ctx.target), (0, 0, id(500)));
}

#[test]
fn ensolyss_and_mama_start_after_an_opening_toggle() {
    let opening_removal = vec![enter(100, BOSS), remove(200, BOSS, 762), apply(5000, BOSS, 762)];
    for target in [Target::Enso, Target::Mama] {
        let ctx = gather_context(&data(opening_removal.clone()), target);
        assert_eq!(ctx.start, 201);
        assert_eq!(ctx.invuln_changes, vec![(5000, false)]);
    }
    let other = gather_context(&data(opening_removal), Target::Siax);
    assert_eq!(other.start, 0);
    assert_eq!(other.invuln_changes.len(), 2);

    let early = vec![
        apply(1499, BOSS, 762),
        enter(1600, BOSS),
        remove(1700, BOSS, 762),
        apply(9000, BOSS, 762),
    ];
    let ctx = gather_context(&data(early), Target::Mama);
    assert_eq!(ctx.start, 1601);
    assert_eq!(ctx.invuln_changes, vec![(9000, false)]);

    let alone = gather_context(&data(vec![apply(3, BOSS, 762)]), Target::Enso);
    assert_eq!(alone.start, 0);
    assert!(alone.invuln_changes.is_empty());

    let late = vec![enter(5, BOSS), apply(1500, BOSS, 762), remove(1700, BOSS, 762)];
    let ctx = gather_context(&data(late), Target::Enso);
    assert_eq!(ctx.start, 0);
    assert_eq!(ctx.invuln_changes, vec![(1500, false), (1700, true)]);

    let edge = gather_context(&data(vec![remove(u64::MAX, BOSS, 762)]), Target::Mama);
    assert_eq!(edge.start, u64::MAX);
}

#[test]
fn damage_within_a_tenth_of_a_second_of_the_reward_is_a_win() {
    let mut ctx = context();
    assert_eq!(check_success(&ctx), None);
    ctx.first_reward = Some(1000);
    assert_eq!(check_success(&ctx), None);
    for (dmg, expected) in [
        (900, None),
        (901, Some(901)),
        (1000, Some(1000)),
        (1099, Some(1000)),
        (1100, None),
    ] {
        ctx.last_dmg = Some(dmg);
        assert_eq!(check_success(&ctx), expected, "damage at {}", dmg);
    }
    ctx.last_dmg = Some(u64::MAX);
    ctx.first_reward = Some(0);
    assert_eq!(check_success(&ctx), None);
    ctx.first_reward = Some(u64::MAX - 99);
    assert_eq!(check_success(&ctx), Some(u64::MAX - 99));
}

#[test]
fn a_boss_that_died_no_later_than_it_was_last_hit_is_beaten() {
    let mut ctx = context();
    ctx.last_dmg = Some(500);
    ctx.deaths.insert(2, 400);
    assert_eq!(check_success(&ctx), None);
    ctx.deaths.insert(BOSS, 400);
    assert_eq!(check_success(&ctx), Some(400));
    ctx.deaths.insert(BOSS, 500);
    assert_eq!(check_success(&ctx), Some(500));
    ctx.deaths.insert(BOSS, 501);
    assert_eq!(check_success(&ctx), None);
    ctx.first_reward = Some(450);
    assert_eq!(check_success(&ctx), Some(450));
    ctx.first_reward = Some(100);
    ctx.deaths.insert(BOSS, 300);
    assert_eq!(check_success(&ctx), Some(300));
    ctx.last_dmg = None;
    assert_eq!(check_success(&ctx), None);
}

#[test]
fn a_stage_is_won_when_the_second_invulnerability_comes() {
    let mut ctx = context();
    assert_eq!(check_success_ai(&ctx, 0), None);
    ctx.other_invuln_changes = vec![(10, true), (20, false), (30, true), (40, false)];
    assert_eq!(check_success_ai(&ctx, 0), Some(20));
    assert_eq!(check_success_ai(&ctx, 20), Some(20));
    assert_eq!(check_success_ai(&ctx, 21), Some(40));
    assert_eq!(check_success_ai(&ctx, 41), None);
    ctx.invuln_changes = vec![(50, false)];
    assert_eq!(check_success_ai(&ctx, 41), None);
}

fn left_combat() -> LogContext {
    let mut ctx = context();
    ctx.players = vec![id(2), id(3), id(4)];
    ctx.last_dmg = Some(9000);
    ctx.combat_enters.insert(BOSS, 100);
    ctx.combat_exits.insert(BOSS, 10_000);
    ctx
}

#[test]
fn the_last_player_must_outlive_the_boss() {
    let mut ctx = left_combat();
    ctx.combat_exits.insert(2, 11_001);
    assert_eq!(check_success_by_combat_exit(&ctx), Some(9000));
    ctx.combat_exits.insert(2, 11_000);
    assert_eq!(check_success_by_combat_exit(&ctx), None);
    ctx.combat_exits.insert(3, 12_000);
    assert_eq!(check_success_by_combat_exit(&ctx), Some(9000));
    ctx.combat_exits.insert(4, 500);
    assert_eq!(check_success_by_combat_exit(&ctx), Some(9000));
    // one who is no player does not count
    let mut ctx = left_combat();
    ctx.combat_exits.insert(7, 20_000);
    ctx.last_aware = 10_000;
    ctx.last_event = 12_000;
    assert_eq!(check_success_by_combat_exit(&ctx), None);
    // the boss must have left combat after entering it
    let mut ctx = left_combat();
    ctx.combat_exits.insert(2, 20_000);
    ctx.combat_enters.insert(BOSS, 10_000);
    assert_eq!(check_success_by_combat_exit(&ctx), None);
    ctx.combat_enters.insert(BOSS, 9_999);
    assert_eq!(check_success_by_combat_exit(&ctx), Some(9000));
}

#[test]
fn with_no_player_left_the_log_must_outlast_the_boss() {
    let mut ctx = left_combat();
    ctx.combat_exits.insert(2, 10_000);
    ctx.combat_exits.insert(3, 5);
    ctx.last_aware = 10_000;
    ctx.last_event = 12_000;
    assert_eq!(check_success_by_combat_exit(&ctx), None);
    ctx.last_event = 12_001;
    assert_eq!(check_success_by_combat_exit(&ctx), Some(9000));
    ctx.last_aware = u64::MAX;
    assert_eq!(check_success_by_combat_exit(&ctx), None);
    ctx.last_aware = 0;
    ctx.last_event = u64::MAX;
    assert_eq!(check_success_by_combat_exit(&ctx), Some(9000));
}

#[test]
fn without_damage_or_combat_of_the_boss_there_is_no_win() {
    let won = || {
        let mut ctx = left_combat();
        ctx.combat_exits.insert(2, 20_000);
        ctx
    };
    assert_eq!(check_success_by_combat_exit(&won()), Some(9000));
    let mut ctx = won();
    ctx.last_dmg = None;
    assert_eq!(check_success_by_combat_exit(&ctx), None);
    let mut ctx = won();
    ctx.combat_enters.remove(&BOSS);
    assert_eq!(check_success_by_combat_exit(&ctx), None);
    let mut ctx = won();
    ctx.combat_exits.remove(&BOSS);
    assert_eq!(check_success_by_combat_exit(&ctx), None);
}

#[test]
fn the_toggles_must_number_as_expected_and_end_on_a_removal() {
    let mut ctx = left_combat();
    ctx.combat_exits.insert(2, 20_000);
    assert_eq!(check_success_by_invuln_count(&ctx, 0), None);
    ctx.invuln_changes = vec![(1, false), (2, true), (3, false), (4, true)];
    assert_eq!(check_success_by_invuln_count(&ctx, 4), Some(9000));
    assert_eq!(check_success_by_invuln_count(&ctx, 3), None);
    assert_eq!(check_success_by_invuln_count(&ctx, 5), None);
    assert_eq!(check_success_by_invuln_count(&ctx, 10), None);
    ctx.invuln_changes = vec![(1, true), (2, false), (3, true), (4, false)];
    assert_eq!(check_success_by_invuln_count(&ctx, 4), None);
    ctx.combat_exits.remove(&2);
    ctx.invuln_changes = vec![(1, false), (2, true), (3, false), (4, true)];
    assert_eq!(check_success_by_invuln_count(&ctx, 4), None);
}

#[test]
fn each_target_is_judged_by_its_own_rule() {
    let fight = |toggles: u64| {
        let mut events = vec![enter(100, BOSS), hit(150, 2, BOSS, 5)];
        for k in 0..toggles {
            let time = 1000 * (k + 1);
            events.push(if k % 2 == 0 { apply(time, BOSS, 762) } else { remove(time, BOSS, 762) });
        }
        events.extend([hit(50_000, 2, BOSS, 5), exit(50_500, BOSS), exit(52_000, 2)]);
        data(events)
    };
    assert_eq!(gather_context(&fight(4), Target::Arts).success, Some(50_000));
    assert_eq!(gather_context(&fight(10), Target::Arts).success, None);
    assert_eq!(gather_context(&fight(10), Target::Arkk).success, Some(50_000));
    assert_eq!(gather_context(&fight(4), Target::Arkk).success, None);
    assert_eq!(gather_context(&fight(4), Target::Siax).success, None);
    let mut rewarded = fight(4);
    rewarded.events.push(reward(50_050));
    for target in [Target::Mama, Target::Siax, Target::Enso, Target::Skor, Target::Golem] {
        assert_eq!(gather_context(&rewarded, target).success, Some(50_000), "{:?}", target);
    }
    assert_eq!(gather_context(&rewarded, Target::Ai).success, None);
    let ai = data(vec![hit(1, 2, BOSS, 5), remove(5, BOSS, 895), apply(70, BOSS, 895)]);
    assert_eq!(gather_context(&ai, Target::Ai).success, Some(70));
    assert_eq!(gather_context(&ai, Target::Mama).success, None);
}

#[test]
fn without_toggles_there_are_the_encounter_and_its_one_phase() {
    let mut ctx = context();
    ctx.start = 100;
    ctx.last_event = 7000;
    let phases = parse_phases_by_invulns(&ctx, Target::Mama);
    assert_eq!(spans(&phases), vec![(100, 7000), (100, 7000)]);
    ctx.success = Some(6500);
    let phases = parse_phases(&ctx, Target::Siax);
    assert_eq!(spans(&phases), vec![(100, 6500), (100, 6500)]);
    assert!(phases.iter().all(|p| p.name().is_none()));
}

#[test]
fn toggles_carve_out_the_phases() {
    let mut ctx = context();
    ctx.start = 100;
    ctx.last_event = 90_000;
    let toggles = [
        (1000, false),
        (2000, true),
        (3000, false),
        (4000, true),
        (5000, false),
        (6000, true),
    ];
    let expected: [&[(u64, u64)]; 7] = [
        &[(100, 90_000), (100, 90_000)],
        &[(100, 90_000), (100, 1000), (1000, 90_000)],
        &[(100, 90_000), (100, 1000), (2000, 90_000)],
        &[(100, 90_000), (100, 1000), (2000, 3000), (3000, 90_000)],
        &[(100, 90_000), (100, 1000), (2000, 3000), (4000, 90_000)],
        &[(100, 90_000), (100, 1000), (2000, 3000), (4000, 5000), (5000, 90_000)],
        &[(100, 90_000), (100, 1000), (2000, 3000), (4000, 5000), (6000, 90_000)],
    ];
    for n in 0..=6 {
        ctx.invuln_changes = toggles[..n].to_vec();
        for target in [Target::Mama, Target::Enso, Target::Skor, Target::Arts, Target::Arkk, Target::Golem] {
            assert_eq!(spans(&parse_phases_by_invulns(&ctx, target)), expected[n], "{} toggles", n);
            assert_eq!(spans(&parse_phases(&ctx, target)), expected[n]);
        }
    }
    ctx.success = Some(80_000);
    ctx.invuln_changes = toggles[..4].to_vec();
    assert_eq!(
        durations(&parse_phases_by_invulns(&ctx, Target::Arts)),
        vec![79_900, 900, 1000, 76_000]
    );
}

#[test]
fn siax_has_its_splits_after_its_phases() {
    let mut ctx = context();
    ctx.last_event = 90_000;
    let toggles = [
        (1000, false),
        (2000, true),
        (3000, false),
        (4000, true),
        (5000, false),
        (6000, true),
    ];
    let splits: [&[(u64, u64)]; 7] = [
        &[],
        &[],
        &[(1000, 2000)],
        &[(1000, 2000)],
        &[(1000, 2000), (3000, 4000)],
        &[(1000, 2000), (3000, 4000)],
        &[(1000, 2000), (3000, 4000), (5000, 6000)],
    ];
    for n in 0..=6 {
        ctx.invuln_changes = toggles[..n].to_vec();
        let plain = spans(&parse_phases_by_invulns(&ctx, Target::Mama));
        let siax = spans(&parse_phases_by_invulns(&ctx, Target::Siax));
        assert_eq!(siax[..plain.len()], plain[..], "{} toggles", n);
        assert_eq!(&siax[plain.len()..], splits[n], "{} toggles", n);
    }
    // a last toggle that is no removal opens a phase but is no split
    ctx.invuln_changes = vec![(1000, true), (2000, false)];
    assert_eq!(
        spans(&parse_phases_by_invulns(&ctx, Target::Siax)),
        vec![(0, 90_000), (0, 1000), (2000, 90_000)]
    );
}

#[test]
fn phases_out_of_order_are_empty() {
    let mut ctx = context();
    ctx.start = 500;
    ctx.success = Some(400);
    ctx.last_event = 9000;
    ctx.invuln_changes = vec![(300, false), (800, true), (700, false), (900, true)];
    assert_eq!(
        spans(&parse_phases_by_invulns(&ctx, Target::Siax)),
        vec![(500, 500), (500, 500), (800, 800), (900, 900), (500, 800), (800, 900)]
    );
}

#[test]
fn the_first_stage_ends_a_phase_with_each_invulnerability() {
    let mut ctx = context();
    ctx.start = 50;
    ctx.last_event = 99_000;
    assert_eq!(spans(&parse_phases_ai_elemental(&ctx)), vec![(50, 99_000)]);
    ctx.success = Some(90_000);
    ctx.invuln_changes = vec![
        (10_000, false),
        (11_000, true),
        (30_000, false),
        (31_000, true),
        (60_000, false),
    ];
    // without the resuming cast the phases end with the first
    assert_eq!(spans(&parse_phases_ai_elemental(&ctx)), vec![(50, 90_000), (50, 10_000)]);
    ctx.casts.insert(61385, vec![500, 11_500, 12_000, 31_000]);
    assert_eq!(
        spans(&parse_phases_ai_elemental(&ctx)),
        vec![(50, 90_000), (50, 10_000), (11_500, 30_000), (31_000, 60_000)]
    );
    ctx.casts.insert(61385, vec![11_500]);
    assert_eq!(
        spans(&parse_phases_ai_elemental(&ctx)),
        vec![(50, 90_000), (50, 10_000), (11_500, 30_000)]
    );
    // an invulnerability that is never removed leaves the start where it was
    ctx.invuln_changes = vec![(10_000, false), (11_000, true), (30_000, false)];
    assert_eq!(
        spans(&parse_phases_ai_elemental(&ctx)),
        vec![(50, 90_000), (50, 10_000), (11_500, 30_000)]
    );
    ctx.invuln_changes = vec![(10_000, false)];
    assert_eq!(spans(&parse_phases_ai_elemental(&ctx)), vec![(50, 90_000), (50, 10_000)]);
    ctx.invuln_changes = vec![(10_000, true), (12_000, false), (13_000, true), (20_000, false)];
    ctx.casts.insert(61385, vec![11_500, 13_500]);
    assert_eq!(
        spans(&parse_phases_ai_elemental(&ctx)),
        vec![(50, 90_000), (50, 12_000), (11_500, 20_000)]
    );
}

#[test]
fn the_second_stage_counts_from_its_start() {
    let mut ctx = context();
    ctx.last_event = 500_000;
    assert_eq!(spans(&parse_phases_ai_dark(&ctx, 100_000)), vec![(0, 400_000)]);
    ctx.success = Some(450_000);
    assert_eq!(spans(&parse_phases_ai_dark(&ctx, 100_000)), vec![(0, 350_000)]);
    ctx.casts.insert(61602, vec![300_000]);
    assert_eq!(spans(&parse_phases_ai_dark(&ctx, 100_000)), vec![(0, 350_000)]);
    ctx.casts.insert(61606, vec![50_000, 200_000, 250_000]);
    assert_eq!(
        spans(&parse_phases_ai_dark(&ctx, 100_000)),
        vec![(0, 350_000), (1, 100_000), (100_001, 200_000), (200_001, 350_000)]
    );
    assert_eq!(
        durations(&parse_phases_ai_dark(&ctx, 100_000)),
        vec![350_000, 99_999, 99_999, 149_999]
    );
    ctx.casts.remove(&61602);
    assert_eq!(
        spans(&parse_phases_ai_dark(&ctx, 100_000)),
        vec![(0, 350_000), (1, 100_000), (100_001, 350_000)]
    );
    assert_eq!(spans(&parse_phases_ai_dark(&ctx, 250_001)), vec![(0, 199_999)]);
    assert_eq!(spans(&parse_phases_ai_dark(&ctx, 450_001)), vec![(0, 0)]);
}

fn ai(events: Vec<Event>, first_aware: u64) -> (Data, LogContext) {
    let mut d = data(events);
    d.agents.insert(BOSS, agent("Ai", 1, first_aware, 0));
    let ctx = gather_context(&d, Target::Ai);
    (d, ctx)
}

#[test]
fn a_log_without_the_second_stage_is_the_first_alone() {
    let (d, ctx) = ai(vec![hit(100, 2, BOSS, 5), apply(5000, BOSS, 762), hit(9000, 2, BOSS, 5)], 40);
    let encounters = parse_ai(&d, ctx);
    assert_eq!(encounters.len(), 1);
    assert_eq!(encounters[0].target, Target::AiElemental);
    assert!(!encounters[0].success);
    assert_eq!(spans(&encounters[0].phases), vec![(40, 9000), (40, 5000)]);
    let (d, ctx) = ai(vec![hit(100, 2, BOSS, 5), cast(200, 53569), apply(7000, BOSS, 895)], 40);
    let encounters = parse_ai(&d, ctx);
    assert_eq!(encounters.len(), 1);
    assert!(encounters[0].success);
    assert_eq!(spans(&encounters[0].phases), vec![(40, 7000)]);
}

#[test]
fn a_log_with_the_second_stage_alone_is_that_stage() {
    let (d, ctx) = ai(
        vec![
            cast(1000, 61356),
            cast(2000, 61277),
            remove(2500, BOSS, 895),
            cast(30_000, 61606),
            cast(60_000, 61602),
            apply(90_000, BOSS, 895),
            hit(95_000, 2, BOSS, 1),
        ],
        500,
    );
    let encounters = parse_ai(&d, ctx);
    assert_eq!(encounters.len(), 1);
    assert_eq!(encounters[0].target, Target::AiDark);
    assert!(encounters[0].success);
    assert_eq!(
        spans(&encounters[0].phases),
        vec![(0, 89_500), (1, 29_500), (29_501, 59_500), (59_501, 89_500)]
    );
    let (d, ctx) = ai(vec![cast(1000, 61356), hit(95_000, 2, BOSS, 1)], 500);
    let encounters = parse_ai(&d, ctx);
    assert_eq!(encounters.len(), 1);
    assert!(!encounters[0].success);
    assert_eq!(spans(&encounters[0].phases), vec![(0, 94_500)]);
}

fn both_stages(removal: u64) -> Vec<Event> {
    let mut events = vec![
        hit(100, 2, BOSS, 5),
        remove(150, BOSS, 895),
        apply(20_000, BOSS, 762),
        remove(21_000, BOSS, 762),
        cast(21_500, 61385),
        cast(30_000, 61277),
        apply(100_000, BOSS, 895),
        cast(101_000, 53569),
        cast(102_000, 61356),
        cast(110_000, 61277),
        cast(111_000, 61277),
        cast(150_000, 61606),
        cast(180_000, 61602),
        apply(200_000, BOSS, 895),
        hit(205_000, 2, BOSS, 1),
    ];
    events.push(remove(removal, BOSS, 895));
    events.sort_by_key(|e| e.time);
    events
}

#[test]
fn a_log_with_both_stages_is_two_encounters() {
    let (d, ctx) = ai(both_stages(105_000), 50);
    let encounters = parse_ai(&d, ctx);
    assert_eq!(encounters.len(), 2);
    assert_eq!(encounters[0].target, Target::AiElemental);
    assert!(encounters[0].success);
    assert_eq!(spans(&encounters[0].phases), vec![(50, 100_000), (50, 20_000)]);
    assert_eq!(encounters[1].target, Target::AiDark);
    assert!(encounters[1].success);
    // the stage starts the millisecond after the starting cast at 110 s
    assert_eq!(
        spans(&encounters[1].phases),
        vec![(0, 89_999), (1, 39_999), (40_000, 69_999), (70_000, 89_999)]
    );
}

#[test]
fn the_second_stage_starts_after_a_later_removal_of_the_second_invulnerability() {
    let (d, ctx) = ai(both_stages(120_000), 50);
    let encounters = parse_ai(&d, ctx);
    assert_eq!(encounters.len(), 2);
    assert_eq!(
        spans(&encounters[1].phases),
        vec![(0, 79_999), (1, 29_999), (30_000, 59_999), (60_000, 79_999)]
    );
    assert!(encounters[1].success);
    // a removal before the starting cast moves nothing
    let (d, ctx) = ai(both_stages(109_999), 50);
    let encounters = parse_ai(&d, ctx);
    assert_eq!(encounters[1].phases[0].duration(), 89_999);
    let (d, ctx) = ai(both_stages(110_001), 50);
    let encounters = parse_ai(&d, ctx);
    assert_eq!(encounters[1].phases[0].duration(), 89_998);
    // the stage never starts before the boss was first referred to
    let (d, ctx) = ai(both_stages(105_000), 130_000);
    let encounters = parse_ai(&d, ctx);
    assert_eq!(
        spans(&encounters[1].phases),
        vec![(0, 70_000), (1, 20_000), (20_001, 50_000), (50_001, 70_000)]
    );
    // the second stage is lost where the invulnerability never comes again
    let mut lost = both_stages(105_000);
    lost.retain(|e| e.time != 200_000);
    let (d, ctx) = ai(lost, 50);
    let encounters = parse_ai(&d, ctx);
    assert!(encounters[0].success);
    assert!(!encounters[1].success);
    assert_eq!(encounters[1].phases[0].duration(), 205_000 - 110_001);
}

#[test]
fn skorvald_counts_in_challenge_mode_only() {
    let mut d = data(vec![hit(100, 2, BOSS, 5)]);
    d.agents.insert(BOSS, agent("Skorvald", 5_526_979, 0, 0));
    assert!(analyse(&d, Target::Skor).is_none());
    assert!(analyse(&d, Target::Mama).is_some());
    d.agents.insert(BOSS, agent("Skorvald", 5_526_980, 0, 0));
    assert_eq!(analyse(&d, Target::Skor).unwrap().len(), 1);
    d.boss = id(99);
    assert!(analyse(&d, Target::Skor).is_none());
}

#[test]
fn a_stage_is_no_target_of_a_log() {
    let d = data(vec![hit(100, 2, BOSS, 5)]);
    assert!(analyse(&d, Target::AiElemental).is_none());
    assert!(analyse(&d, Target::AiDark).is_none());
    assert_eq!(analyse(&d, Target::Ai).unwrap().len(), 1);
}

#[test]
fn an_encounter_without_events_still_has_its_phases() {
    let d = data(vec![]);
    let encounters = analyse(&d, Target::Golem).unwrap();
    assert_eq!(encounters.len(), 1);
    assert!(!encounters[0].success);
    assert_eq!(spans(&encounters[0].phases), vec![(0, 0), (0, 0)]);
    let ai = analyse(&d, Target::Ai).unwrap();
    assert_eq!(ai.len(), 1);
    assert_eq!(spans(&ai[0].phases), vec![(0, 0)]);
}

#[test]
fn a_kill_without_toggles_has_two_phases() {
    let d = data(vec![
        enter(10, BOSS),
        hit(100, 2, BOSS, 5),
        hit(61_000, 3, BOSS, 7),
        reward(61_099),
        hit(70_000, BOSS, 2, 7),
    ]);
    let encounters = analyse(&d, Target::Mama).unwrap();
    assert_eq!(encounters.len(), 1);
    let e = &encounters[0];
    assert_eq!(e.target, Target::Mama);
    assert!(e.success);
    assert_eq!(e.phases.len(), 2);
    assert_eq!(durations(&e.phases), vec![61_000, 61_000]);
    assert_eq!(e.phases[1].duration(), 61_000 - 0);
}

#[test]
fn a_kill_with_one_toggle_has_a_phase_after_it() {
    let d = data(vec![
        hit(100, 2, BOSS, 5),
        apply(30_000, BOSS, 762),
        hit(61_050, 3, BOSS, 7),
        reward(61_000),
    ]);
    let encounters = analyse(&d, Target::Arkk).unwrap();
    assert!(!encounters[0].success);
    let encounters = analyse(&d, Target::Skor).unwrap();
    let e = &encounters[0];
    assert!(e.success);
    assert_eq!(spans(&e.phases), vec![(0, 61_000), (0, 30_000), (30_000, 61_000)]);
    assert_eq!(e.phases[1].duration(), 30_000 - 0);
}

#[test]
fn a_wipe_after_the_first_phase_has_three_phases() {
    let d = data(vec![
        hit(100, 2, BOSS, 5),
        apply(7101, BOSS, 762),
        death(15_000, 2),
        death(18_798, 3),
    ]);
    let encounters = analyse(&d, Target::Siax).unwrap();
    assert_eq!(encounters.len(), 1);
    assert!(!encounters[0].success);
    assert_eq!(durations(&encounters[0].phases), vec![18_798, 7101, 11_697]);
}

#[test]
fn a_wipe_ends_with_the_last_event() {
    let d = data(vec![
        hit(100, 2, BOSS, 5),
        apply(7101, BOSS, 762),
        remove(9000, BOSS, 762),
        death(15_000, 2),
        death(18_798, 3),
    ]);
    let encounters = analyse(&d, Target::Siax).unwrap();
    let e = &encounters[0];
    assert!(!e.success);
    assert_eq!(durations(&e.phases), vec![18_798, 7101, 9798, 1899]);
}

#[test]
fn a_long_fight_through_both_stages() {
    let events = vec![
        hit(1000, 2, BOSS, 5),
        apply(90_833, BOSS, 762),
        remove(95_000, BOSS, 762),
        cast(96_000, 61385),
        apply(202_499, BOSS, 762),
        remove(205_000, BOSS, 762),
        cast(206_000, 61385),
        apply(309_849, BOSS, 762),
        apply(378_403, BOSS, 895),
        cast(380_000, 53569),
        cast(381_000, 61356),
        cast(385_000, 61277),
        remove(390_000, BOSS, 895),
        cast(463_284, 61606),
        cast(535_604, 61602),
        apply(660_330, BOSS, 895),
        hit(661_000, 2, BOSS, 1),
    ];
    let (d, ctx) = ai(events, 1000);
    let encounters = parse_ai(&d, ctx);
    assert_eq!(encounters.len(), 2);
    assert_eq!(encounters[0].target, Target::AiElemental);
    assert!(encounters[0].success);
    assert_eq!(durations(&encounters[0].phases), vec![377_403, 89_833, 106_499, 103_849]);
    assert_eq!(encounters[1].target, Target::AiDark);
    assert!(encounters[1].success);
    assert_eq!(durations(&encounters[1].phases), vec![270_329, 73_282, 72_319, 124_725]);
}
