//! What one pass over the events of a log tells about the fight with the
//! boss.

use super::event::{Event, EventKind};
use super::evtc::{AgentId, Data, DataView, Time};
use super::strategy::{spec_strategy, strategy, SuccessRule};
use super::success::{
    check_success, check_success_ai, check_success_by_invuln_count, spec_check_success,
    spec_check_success_ai, spec_check_success_by_invuln_count,
};
use crate::target::Target;
use std::collections::HashMap;
use vstd::prelude::*;

verus! {

broadcast use vstd::std_specs::hash::group_hash_axioms;

/// The buff whose coming and going on the boss bounds the phases.
pub const PRIMARY_INVULN: i32 = 762;

/// A second buff of the same kind, kept apart from the first.
pub const SECONDARY_INVULN: i32 = 895;

/// Casts of skills with an id above this are mechanics of the fight, not
/// weapon skills.
pub const MECHANIC_THRESHOLD: i32 = 50000;

/// The signals gathered from a log. A toggle is a time and whether the
/// buff was removed (`true`) or applied (`false`) then.
#[derive(Debug)]
pub struct LogContext {
    /// The boss.
    pub target: AgentId,
    /// When the group won, if it did.
    pub success: Option<Time>,
    pub players: Vec<AgentId>,
    /// When the fight started.
    pub start: Time,
    /// The time of the last event.
    pub last_event: Time,
    /// When a record last referred to the boss.
    pub last_aware: Time,
    pub first_reward: Option<Time>,
    pub last_dmg: Option<Time>,
    pub invuln_changes: Vec<(Time, bool)>,
    pub other_invuln_changes: Vec<(Time, bool)>,
    pub combat_enters: HashMap<u16, Time>,
    pub combat_exits: HashMap<u16, Time>,
    pub spawns: HashMap<u16, Time>,
    pub deaths: HashMap<u16, Time>,
    pub casts: HashMap<i32, Vec<Time>>,
}

/// A `LogContext` as plain values.
pub struct ContextView {
    pub target: AgentId,
    pub success: Option<Time>,
    pub players: Seq<AgentId>,
    pub start: Time,
    pub last_event: Time,
    pub last_aware: Time,
    pub first_reward: Option<Time>,
    pub last_dmg: Option<Time>,
    pub invuln_changes: Seq<(Time, bool)>,
    pub other_invuln_changes: Seq<(Time, bool)>,
    pub combat_enters: Map<u16, Time>,
    pub combat_exits: Map<u16, Time>,
    pub spawns: Map<u16, Time>,
    pub deaths: Map<u16, Time>,
    pub casts: Map<i32, Seq<Time>>,
}

/// The cast times by skill as plain values.
pub open spec fn casts_view(m: Map<i32, Vec<Time>>) -> Map<i32, Seq<Time>> {
    Map::new(|k: i32| m.contains_key(k), |k: i32| m[k]@)
}

impl View for LogContext {
    type V = ContextView;

    open spec fn view(&self) -> ContextView {
        ContextView {
            target: self.target,
            success: self.success,
            players: self.players@,
            start: self.start,
            last_event: self.last_event,
            last_aware: self.last_aware,
            first_reward: self.first_reward,
            last_dmg: self.last_dmg,
            invuln_changes: self.invuln_changes@,
            other_invuln_changes: self.other_invuln_changes@,
            combat_enters: self.combat_enters@,
            combat_exits: self.combat_exits@,
            spawns: self.spawns@,
            deaths: self.deaths@,
            casts: casts_view(self.casts@),
        }
    }
}

/// The context of a fight with `target` of which nothing is known yet.
pub open spec fn blank_context(target: AgentId) -> ContextView {
    ContextView {
        target,
        success: None,
        players: Seq::empty(),
        start: 0,
        last_event: 0,
        last_aware: 0,
        first_reward: None,
        last_dmg: None,
        invuln_changes: Seq::empty(),
        other_invuln_changes: Seq::empty(),
        combat_enters: Map::empty(),
        combat_exits: Map::empty(),
        spawns: Map::empty(),
        deaths: Map::empty(),
        casts: Map::empty(),
    }
}

/// The later of a time known so far, if any, and `time`.
pub open spec fn later_of(known: Option<Time>, time: Time) -> Option<Time> {
    match known {
        Some(t) if t >= time => Some(t),
        _ => Some(time),
    }
}

/// The earlier of a time known so far, if any, and `time`.
pub open spec fn earlier_of(known: Option<Time>, time: Time) -> Option<Time> {
    match known {
        Some(t) if t <= time => Some(t),
        _ => Some(time),
    }
}

/// A list of toggles with one more: a toggle in the direction of the last
/// one is dropped, so that the directions alternate.
pub open spec fn toggled(changes: Seq<(Time, bool)>, time: Time, removal: bool) -> Seq<
    (Time, bool),
> {
    if changes.len() > 0 && changes.last().1 == removal {
        changes
    } else {
        changes.push((time, removal))
    }
}

/// The context with a toggle of buff `id` on `on`. Only the two
/// invulnerability buffs on the boss count.
pub open spec fn toggle_noted(
    ctx: ContextView,
    on: AgentId,
    id: i32,
    time: Time,
    removal: bool,
) -> ContextView {
    if on != ctx.target {
        ctx
    } else if id == PRIMARY_INVULN {
        ContextView { invuln_changes: toggled(ctx.invuln_changes, time, removal), ..ctx }
    } else if id == SECONDARY_INVULN {
        ContextView {
            other_invuln_changes: toggled(ctx.other_invuln_changes, time, removal),
            ..ctx
        }
    } else {
        ctx
    }
}

/// The context with damage `dmg` done by `src` to `on`. Only damage above
/// zero that another agent does to the boss counts.
pub open spec fn damage_noted(
    ctx: ContextView,
    on: AgentId,
    src: AgentId,
    dmg: i32,
    time: Time,
) -> ContextView {
    if on != src && on == ctx.target && dmg > 0 {
        ContextView { last_dmg: later_of(ctx.last_dmg, time), ..ctx }
    } else {
        ctx
    }
}

/// The cast times by skill with one more cast of `skill`.
pub open spec fn cast_noted(casts: Map<i32, Seq<Time>>, skill: i32, time: Time) -> Map<
    i32,
    Seq<Time>,
> {
    if casts.contains_key(skill) {
        casts.insert(skill, casts[skill].push(time))
    } else {
        casts.insert(skill, seq![time])
    }
}

/// The context after one more event. Each field has its own rule:
/// damage to the boss moves `last_dmg` to the latest such time; the first
/// reward in time gives `first_reward`; toggles of the two invulnerability
/// buffs on the boss are listed, each buff for itself; entering and
/// leaving combat, spawning and dying are noted by agent, the last time
/// each; and the start of a cast of a mechanic is listed under its skill.
pub open spec fn observed(ctx: ContextView, event: Event) -> ContextView {
    match event.kind {
        EventKind::PhysDamage(e) => damage_noted(ctx, e.target, e.src, e.dmg, event.time),
        EventKind::CondDamage(e) => damage_noted(ctx, e.target, e.src, e.dmg, event.time),
        EventKind::BuffApply(e) => toggle_noted(ctx, e.target, e.id, event.time, false),
        EventKind::BuffRemove(e) => toggle_noted(ctx, e.target, e.id, event.time, true),
        EventKind::CombatEnter(e) => ContextView {
            combat_enters: ctx.combat_enters.insert(e.target.0, event.time),
            ..ctx
        },
        EventKind::CombatExit(e) => ContextView {
            combat_exits: ctx.combat_exits.insert(e.target.0, event.time),
            ..ctx
        },
        EventKind::CastStart(e) => if e.skill > MECHANIC_THRESHOLD {
            ContextView { casts: cast_noted(ctx.casts, e.skill, event.time), ..ctx }
        } else {
            ctx
        },
        EventKind::Death(e) => ContextView {
            deaths: ctx.deaths.insert(e.target.0, event.time),
            ..ctx
        },
        EventKind::Reward(_) => ContextView {
            first_reward: earlier_of(ctx.first_reward, event.time),
            ..ctx
        },
        EventKind::Spawn(e) => ContextView {
            spawns: ctx.spawns.insert(e.target.0, event.time),
            ..ctx
        },
        _ => ctx,
    }
}

/// The context after all of `events`, taken in order.
pub open spec fn observed_all(ctx: ContextView, events: Seq<Event>) -> ContextView
    decreases events.len(),
{
    if events.len() == 0 {
        ctx
    } else {
        observed(observed_all(ctx, events.drop_last()), events.last())
    }
}

/// The instance ids below `n` that are in `ids`, in rising order.
pub open spec fn ids_below(ids: Set<u16>, n: int) -> Seq<AgentId>
    decreases n,
{
    if n <= 0 {
        Seq::empty()
    } else if ids.contains((n - 1) as u16) {
        ids_below(ids, n - 1).push(AgentId((n - 1) as u16))
    } else {
        ids_below(ids, n - 1)
    }
}

/// The millisecond after `time`, or `time` itself where there is none.
pub open spec fn spec_next_ms(time: Time) -> Time {
    if time < u64::MAX {
        (time + 1) as u64
    } else {
        time
    }
}

pub fn next_ms(time: Time) -> (r: Time)
    ensures
        r == spec_next_ms(time),
{
    if time < u64::MAX {
        time + 1
    } else {
        time
    }
}

impl LogContext {
    pub fn new(target: AgentId) -> (ctx: LogContext)
        ensures
            ctx@ == blank_context(target),
    {
        let ctx = LogContext {
            target,
            success: None,
            players: Vec::new(),
            start: 0,
            last_event: 0,
            last_aware: 0,
            first_reward: None,
            last_dmg: None,
            invuln_changes: Vec::new(),
            other_invuln_changes: Vec::new(),
            combat_enters: HashMap::new(),
            combat_exits: HashMap::new(),
            spawns: HashMap::new(),
            deaths: HashMap::new(),
            casts: HashMap::new(),
        };
        assert(ctx@.casts =~= Map::empty());
        ctx
    }

    fn note_damage(&mut self, on: AgentId, src: AgentId, dmg: i32, time: Time)
        ensures
            final(self)@ == damage_noted(old(self)@, on, src, dmg, time),
    {
        if on != src && on == self.target && dmg > 0 {
            self.last_dmg = match self.last_dmg {
                Some(t) if t >= time => Some(t),
                _ => Some(time),
            };
        }
    }

    fn note_toggle(&mut self, on: AgentId, id: i32, time: Time, removal: bool)
        ensures
            final(self)@ == toggle_noted(old(self)@, on, id, time, removal),
    {
        if on == self.target {
            if id == PRIMARY_INVULN {
                let n: usize = self.invuln_changes.len();
                if !(n > 0 && self.invuln_changes[n - 1].1 == removal) {
                    self.invuln_changes.push((time, removal));
                }
            } else if id == SECONDARY_INVULN {
                let n: usize = self.other_invuln_changes.len();
                if !(n > 0 && self.other_invuln_changes[n - 1].1 == removal) {
                    self.other_invuln_changes.push((time, removal));
                }
            }
        }
    }

    fn note_cast(&mut self, skill: i32, time: Time)
        ensures
            final(self)@ == (ContextView {
                casts: cast_noted(old(self)@.casts, skill, time),
                ..old(self)@
            }),
    {
        let mut times: Vec<Time> = match self.casts.remove(&skill) {
            Some(times) => times,
            None => Vec::new(),
        };
        times.push(time);
        self.casts.insert(skill, times);
        assert(self@.casts =~= cast_noted(old(self)@.casts, skill, time));
    }

    /// Takes note of one event.
    pub fn observe(&mut self, event: &Event)
        ensures
            final(self)@ == observed(old(self)@, *event),
    {
        let time: Time = event.time;
        match event.kind {
            EventKind::PhysDamage(e) => self.note_damage(e.target, e.src, e.dmg, time),
            EventKind::CondDamage(e) => self.note_damage(e.target, e.src, e.dmg, time),
            EventKind::BuffApply(e) => self.note_toggle(e.target, e.id, time, false),
            EventKind::BuffRemove(e) => self.note_toggle(e.target, e.id, time, true),
            EventKind::CombatEnter(e) => {
                self.combat_enters.insert(e.target.to_inner(), time);
            },
            EventKind::CombatExit(e) => {
                self.combat_exits.insert(e.target.to_inner(), time);
            },
            EventKind::CastStart(e) => {
                if e.skill > MECHANIC_THRESHOLD {
                    self.note_cast(e.skill, time);
                }
            },
            EventKind::Death(e) => {
                self.deaths.insert(e.target.to_inner(), time);
            },
            EventKind::Reward(_) => {
                self.first_reward = match self.first_reward {
                    Some(t) if t <= time => Some(t),
                    _ => Some(time),
                };
            },
            EventKind::Spawn(e) => {
                self.spawns.insert(e.target.to_inner(), time);
            },
            _ => {},
        }
    }
}

/// The context before the first event: the boss and the players of `data`,
/// the time of the last event, and when the boss was last referred to.
/// Both times are 0 where there is no event, or no agent for the boss.
pub open spec fn initial_context(data: DataView) -> ContextView {
    ContextView {
        players: ids_below(data.players.dom(), 0x1_0000),
        last_event: if data.events.len() > 0 {
            data.events.last().time
        } else {
            0
        },
        last_aware: if data.agents.contains_key(data.boss.0) {
            data.agents[data.boss.0].last_aware
        } else {
            0
        },
        ..blank_context(data.boss)
    }
}

/// The players of `data`, by rising instance id.
pub fn player_ids(data: &Data) -> (ids: Vec<AgentId>)
    ensures
        ids@ == ids_below(data@.players.dom(), 0x1_0000),
{
    let mut ids: Vec<AgentId> = Vec::new();
    let mut id: u16 = 0;
    loop
        invariant
            ids@ == ids_below(data@.players.dom(), id as int),
        decreases u16::MAX - id,
    {
        if data.players.contains_key(&id) {
            ids.push(AgentId(id));
        }
        if id == u16::MAX {
            return ids;
        }
        id += 1;
    }
}


/// An application of the invulnerability earlier than this, at the start
/// of a log, stems from before the fight.
pub const EARLY_TOGGLE: Time = 1500;

/// The context with the start of the fight put right. Only the logs of a
/// target whose strategy says so are touched, and only those that open
/// with a toggle:
/// - a removal is dropped, and the fight starts the millisecond after it;
/// - an application before `EARLY_TOGGLE` is dropped together with the
///   toggle that follows it, and the fight starts the millisecond after
///   the boss entered combat, if it did.
pub open spec fn start_adjusted(ctx: ContextView, target: Target) -> ContextView {
    let changes = ctx.invuln_changes;
    if !spec_strategy(target).opening_toggle || changes.len() == 0 {
        ctx
    } else if changes[0].1 {
        ContextView { invuln_changes: changes.remove(0), start: spec_next_ms(changes[0].0), ..ctx }
    } else if changes[0].0 < EARLY_TOGGLE {
        ContextView {
            invuln_changes: if changes.len() >= 2 {
                changes.remove(0).remove(0)
            } else {
                changes.remove(0)
            },
            start: if ctx.combat_enters.contains_key(ctx.target.0) {
                spec_next_ms(ctx.combat_enters[ctx.target.0])
            } else {
                ctx.start
            },
            ..ctx
        }
    } else {
        ctx
    }
}

/// When the group won, by the rule of the target.
pub open spec fn spec_success(ctx: ContextView, target: Target) -> Option<Time> {
    match spec_strategy(target).success {
        SuccessRule::Default => spec_check_success(ctx),
        SuccessRule::ToggleCount(count) => spec_check_success_by_invuln_count(ctx, count as nat),
        SuccessRule::SecondInvuln => spec_check_success_ai(ctx, 0),
    }
}

/// The context of a log of `target`: what its events tell, taken in
/// order, with the start put right and the win decided.
pub open spec fn spec_gather_context(data: DataView, target: Target) -> ContextView {
    let seen = start_adjusted(observed_all(initial_context(data), data.events), target);
    ContextView { success: spec_success(seen, target), ..seen }
}

pub fn gather_context(data: &Data, target: Target) -> (ctx: LogContext)
    ensures
        ctx@ == spec_gather_context(data@, target),
{
    let mut ctx = LogContext::new(data.boss);
    ctx.players = player_ids(data);
    let n: usize = data.events.len();
    if n > 0 {
        ctx.last_event = data.events[n - 1].time;
    }
    let key: u16 = data.boss.to_inner();
    if let Some(boss) = data.agents.get(&key) {
        ctx.last_aware = boss.last_aware;
    }
    assert(ctx@ == initial_context(data@));
    assert(data.events@.take(0) =~= Seq::empty());
    let mut i: usize = 0;
    while i < n
        invariant
            i <= n,
            n == data.events@.len(),
            ctx@ == observed_all(initial_context(data@), data.events@.take(i as int)),
        decreases n - i,
    {
        assert(data.events@.take(i + 1).drop_last() =~= data.events@.take(i as int));
        ctx.observe(&data.events[i]);
        i += 1;
    }
    assert(data.events@.take(n as int) =~= data.events@);
    let ghost seen = ctx@;

    let strategy = strategy(target);
    if strategy.opening_toggle && ctx.invuln_changes.len() > 0 {
        let first: (Time, bool) = ctx.invuln_changes[0];
        if first.1 {
            ctx.invuln_changes.remove(0);
            ctx.start = next_ms(first.0);
        } else if first.0 < EARLY_TOGGLE {
            ctx.invuln_changes.remove(0);
            if ctx.invuln_changes.len() > 0 {
                ctx.invuln_changes.remove(0);
            }
            let boss: u16 = ctx.target.to_inner();
            if let Some(entered) = ctx.combat_enters.get(&boss) {
                ctx.start = next_ms(*entered);
            }
        }
    }
    assert(ctx@.invuln_changes =~= start_adjusted(seen, target).invuln_changes);
    ctx.success = match strategy.success {
        SuccessRule::Default => check_success(&ctx),
        SuccessRule::ToggleCount(count) => check_success_by_invuln_count(&ctx, count),
        SuccessRule::SecondInvuln => check_success_ai(&ctx, 0),
    };
    ctx
}


/// Whether `event` is damage above zero that another agent does to `boss`.
pub open spec fn is_boss_damage(boss: AgentId, event: Event) -> bool {
    match event.kind {
        EventKind::PhysDamage(e) => e.target != e.src && e.target == boss && e.dmg > 0,
        EventKind::CondDamage(e) => e.target != e.src && e.target == boss && e.dmg > 0,
        _ => false,
    }
}

/// Whether the toggles of a list alternate in direction.
pub open spec fn alternating(changes: Seq<(Time, bool)>) -> bool {
    forall|i: int| 0 <= i < changes.len() - 1 ==> (#[trigger] changes[i]).1 != changes[i + 1].1
}

/// The events change nothing about who the boss is, who the players are,
/// or when the fight started.
pub proof fn lemma_observing_keeps_the_frame(ctx: ContextView, events: Seq<Event>)
    ensures
        observed_all(ctx, events).target == ctx.target,
        observed_all(ctx, events).players == ctx.players,
        observed_all(ctx, events).start == ctx.start,
        observed_all(ctx, events).success == ctx.success,
        observed_all(ctx, events).last_event == ctx.last_event,
        observed_all(ctx, events).last_aware == ctx.last_aware,
    decreases events.len(),
{
    if events.len() > 0 {
        lemma_observing_keeps_the_frame(ctx, events.drop_last());
    }
}

/// `last_dmg` is the latest time at which the boss took damage: the time
/// of some such event, and no such event is later. It is `None` exactly
/// where the boss took none.
pub proof fn lemma_last_dmg_is_latest(ctx: ContextView, events: Seq<Event>)
    requires
        ctx.last_dmg is None,
    ensures
        match observed_all(ctx, events).last_dmg {
            Some(t) => {
                &&& exists|i: int|
                    0 <= i < events.len() && is_boss_damage(ctx.target, #[trigger] events[i])
                        && events[i].time == t
                &&& forall|i: int|
                    0 <= i < events.len() && is_boss_damage(ctx.target, #[trigger] events[i])
                        ==> events[i].time <= t
            },
            None => forall|i: int|
                0 <= i < events.len() ==> !is_boss_damage(ctx.target, #[trigger] events[i]),
        },
    decreases events.len(),
{
    if events.len() > 0 {
        let rest = events.drop_last();
        let last = events.len() - 1;
        lemma_last_dmg_is_latest(ctx, rest);
        lemma_observing_keeps_the_frame(ctx, rest);
        assert forall|i: int| 0 <= i < rest.len() implies rest[i] == events[i] by {}
        match observed_all(ctx, events).last_dmg {
            Some(t) => {
                if !(is_boss_damage(ctx.target, events[last]) && events[last].time == t) {
                    let i = choose|i: int|
                        0 <= i < rest.len() && is_boss_damage(ctx.target, #[trigger] rest[i])
                            && rest[i].time == t;
                    assert(is_boss_damage(ctx.target, events[i]) && events[i].time == t);
                }
                assert forall|i: int|
                    0 <= i < events.len() && is_boss_damage(
                        ctx.target,
                        #[trigger] events[i],
                    ) implies events[i].time <= t by {
                    if i < last {
                        assert(is_boss_damage(ctx.target, rest[i]));
                    }
                }
            },
            None => {
                assert forall|i: int| 0 <= i < events.len() implies !is_boss_damage(
                    ctx.target,
                    #[trigger] events[i],
                ) by {
                    if i < last {
                        assert(!is_boss_damage(ctx.target, rest[i]));
                    }
                }
            },
        }
    }
}

/// `first_reward` is the earliest time of a reward: the time of some
/// reward, and no reward is earlier. It is `None` exactly where there was
/// no reward.
pub proof fn lemma_first_reward_is_earliest(ctx: ContextView, events: Seq<Event>)
    requires
        ctx.first_reward is None,
    ensures
        match observed_all(ctx, events).first_reward {
            Some(t) => {
                &&& exists|i: int|
                    0 <= i < events.len() && (#[trigger] events[i]).kind is Reward && events[i].time
                        == t
                &&& forall|i: int|
                    0 <= i < events.len() && (#[trigger] events[i]).kind is Reward ==> t
                        <= events[i].time
            },
            None => forall|i: int|
                0 <= i < events.len() ==> !((#[trigger] events[i]).kind is Reward),
        },
    decreases events.len(),
{
    if events.len() > 0 {
        let rest = events.drop_last();
        let last = events.len() - 1;
        lemma_first_reward_is_earliest(ctx, rest);
        assert forall|i: int| 0 <= i < rest.len() implies rest[i] == events[i] by {}
        match observed_all(ctx, events).first_reward {
            Some(t) => {
                if !(events[last].kind is Reward && events[last].time == t) {
                    let i = choose|i: int|
                        0 <= i < rest.len() && (#[trigger] rest[i]).kind is Reward && rest[i].time
                            == t;
                    assert(events[i].kind is Reward && events[i].time == t);
                }
                assert forall|i: int|
                    0 <= i < events.len() && (#[trigger] events[i]).kind is Reward implies t
                    <= events[i].time by {
                    if i < last {
                        assert(rest[i].kind is Reward);
                    }
                }
            },
            None => {
                assert forall|i: int| 0 <= i < events.len() implies !((
                #[trigger] events[i]).kind is Reward) by {
                    if i < last {
                        assert(!(rest[i].kind is Reward));
                    }
                }
            },
        }
    }
}

/// Toggles in one direction collapse: whatever the events, the toggles of
/// each list go on alternating.
pub proof fn lemma_toggles_alternate(ctx: ContextView, events: Seq<Event>)
    requires
        alternating(ctx.invuln_changes),
        alternating(ctx.other_invuln_changes),
    ensures
        alternating(observed_all(ctx, events).invuln_changes),
        alternating(observed_all(ctx, events).other_invuln_changes),
    decreases events.len(),
{
    if events.len() > 0 {
        lemma_toggles_alternate(ctx, events.drop_last());
    }
}

/// The context of a log is that of its boss, and its toggles alternate.
pub proof fn lemma_gathered_context(data: DataView, target: Target)
    ensures
        spec_gather_context(data, target).target == data.boss,
        alternating(spec_gather_context(data, target).invuln_changes),
        alternating(spec_gather_context(data, target).other_invuln_changes),
{
    let initial = initial_context(data);
    lemma_observing_keeps_the_frame(initial, data.events);
    lemma_toggles_alternate(initial, data.events);
    let seen = observed_all(initial, data.events);
    let adjusted = start_adjusted(seen, target);
    assert(alternating(adjusted.invuln_changes)) by {
        let before = seen.invuln_changes;
        let after = adjusted.invuln_changes;
        if after != before {
            let dropped = before.len() - after.len();
            assert forall|i: int| 0 <= i < after.len() - 1 implies (#[trigger] after[i]).1
                != after[i + 1].1 by {
                assert(after[i] == before[i + dropped]);
                assert(after[i + 1] == before[i + dropped + 1]);
            }
        }
    }
}


/// The times at which casts of `skill` start, in the order of the events.
pub open spec fn cast_starts(events: Seq<Event>, skill: i32) -> Seq<Time>
    decreases events.len(),
{
    if events.len() == 0 {
        Seq::empty()
    } else if events.last().kind matches EventKind::CastStart(e) && e.skill == skill {
        cast_starts(events.drop_last(), skill).push(events.last().time)
    } else {
        cast_starts(events.drop_last(), skill)
    }
}

/// The casts of the context are the starts of the casts of mechanics:
/// under each skill above the threshold that was cast at all stand the
/// times at which its casts started, in order, and no other skill is
/// listed.
pub proof fn lemma_casts_are_cast_starts(ctx: ContextView, events: Seq<Event>, skill: i32)
    requires
        ctx.casts == Map::<i32, Seq<Time>>::empty(),
    ensures
        observed_all(ctx, events).casts.contains_key(skill) <==> skill > MECHANIC_THRESHOLD
            && cast_starts(events, skill).len() > 0,
        observed_all(ctx, events).casts.contains_key(skill) ==> observed_all(
            ctx,
            events,
        ).casts[skill] == cast_starts(events, skill),
    decreases events.len(),
{
    if events.len() > 0 {
        lemma_casts_are_cast_starts(ctx, events.drop_last(), skill);
    }
}

/// The time of the last of the events in which `id` left combat, if it
/// did.
pub open spec fn last_exit(events: Seq<Event>, id: u16) -> Option<Time>
    decreases events.len(),
{
    if events.len() == 0 {
        None
    } else if events.last().kind matches EventKind::CombatExit(e) && e.target.0 == id {
        Some(events.last().time)
    } else {
        last_exit(events.drop_last(), id)
    }
}

/// The time of the last of the events in which `id` entered combat, if it
/// did.
pub open spec fn last_enter(events: Seq<Event>, id: u16) -> Option<Time>
    decreases events.len(),
{
    if events.len() == 0 {
        None
    } else if events.last().kind matches EventKind::CombatEnter(e) && e.target.0 == id {
        Some(events.last().time)
    } else {
        last_enter(events.drop_last(), id)
    }
}

/// The time of the last of the events in which `id` died, if it did.
pub open spec fn last_death(events: Seq<Event>, id: u16) -> Option<Time>
    decreases events.len(),
{
    if events.len() == 0 {
        None
    } else if events.last().kind matches EventKind::Death(e) && e.target.0 == id {
        Some(events.last().time)
    } else {
        last_death(events.drop_last(), id)
    }
}

/// What the context holds of an agent's entering and leaving combat and
/// of its death is when each last happened.
pub proof fn lemma_states_are_the_last(ctx: ContextView, events: Seq<Event>, id: u16)
    requires
        ctx.combat_enters == Map::<u16, Time>::empty(),
        ctx.combat_exits == Map::<u16, Time>::empty(),
        ctx.deaths == Map::<u16, Time>::empty(),
    ensures
        observed_all(ctx, events).combat_enters.contains_key(id) <==> last_enter(events, id)
            is Some,
        observed_all(ctx, events).combat_enters.contains_key(id) ==> Some(
            observed_all(ctx, events).combat_enters[id],
        ) == last_enter(events, id),
        observed_all(ctx, events).combat_exits.contains_key(id) <==> last_exit(events, id)
            is Some,
        observed_all(ctx, events).combat_exits.contains_key(id) ==> Some(
            observed_all(ctx, events).combat_exits[id],
        ) == last_exit(events, id),
        observed_all(ctx, events).deaths.contains_key(id) <==> last_death(events, id) is Some,
        observed_all(ctx, events).deaths.contains_key(id) ==> Some(
            observed_all(ctx, events).deaths[id],
        ) == last_death(events, id),
    decreases events.len(),
{
    if events.len() > 0 {
        lemma_states_are_the_last(ctx, events.drop_last(), id);
    }
}

} // verus!
