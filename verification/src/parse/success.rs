//! Whether the group won, and when.

use super::context::{casts_view, ContextView, LogContext};
use super::evtc::{AgentId, Time};
use std::collections::HashMap;
use vstd::prelude::*;

verus! {

broadcast use vstd::std_specs::hash::group_hash_axioms;

/// Damage and reward no further apart than this many milliseconds belong
/// to the same kill.
pub const REWARD_WINDOW: u64 = 100;

/// A player who leaves combat more than this many milliseconds after the
/// boss did has outlived it.
pub const EXIT_MARGIN: u64 = 1000;

/// A log that goes on for more than this many milliseconds after the boss
/// was last referred to has seen the boss go.
pub const IDLE_MARGIN: u64 = 2000;

/// The time of the first toggle from place `from` on that is in the
/// direction `removal` and not before `not_before`.
pub open spec fn first_toggle_at(
    changes: Seq<(Time, bool)>,
    from: int,
    not_before: Time,
    removal: bool,
) -> Option<Time>
    decreases changes.len() - from,
{
    if from < 0 || from >= changes.len() {
        None
    } else if changes[from].0 >= not_before && changes[from].1 == removal {
        Some(changes[from].0)
    } else {
        first_toggle_at(changes, from + 1, not_before, removal)
    }
}

/// The first of `times` from place `from` on that is not before
/// `not_before`.
pub open spec fn first_time_at(times: Seq<Time>, from: int, not_before: Time) -> Option<Time>
    decreases times.len() - from,
{
    if from < 0 || from >= times.len() {
        None
    } else if times[from] >= not_before {
        Some(times[from])
    } else {
        first_time_at(times, from + 1, not_before)
    }
}

/// The first cast of `skill` that is not before `not_before`.
pub open spec fn first_cast(casts: Map<i32, Seq<Time>>, skill: i32, not_before: Time) -> Option<
    Time,
> {
    if casts.contains_key(skill) {
        first_time_at(casts[skill], 0, not_before)
    } else {
        None
    }
}

pub fn find_toggle(changes: &Vec<(Time, bool)>, not_before: Time, removal: bool) -> (r: Option<
    Time,
>)
    ensures
        r == first_toggle_at(changes@, 0, not_before, removal),
{
    let mut i: usize = 0;
    while i < changes.len()
        invariant
            i <= changes.len(),
            first_toggle_at(changes@, 0, not_before, removal) == first_toggle_at(
                changes@,
                i as int,
                not_before,
                removal,
            ),
        decreases changes.len() - i,
    {
        if changes[i].0 >= not_before && changes[i].1 == removal {
            return Some(changes[i].0);
        }
        i += 1;
    }
    None
}

pub fn find_cast(casts: &HashMap<i32, Vec<Time>>, skill: i32, not_before: Time) -> (r: Option<
    Time,
>)
    ensures
        r == first_cast(casts_view(casts@), skill, not_before),
{
    match casts.get(&skill) {
        None => None,
        Some(times) => {
            let mut i: usize = 0;
            while i < times.len()
                invariant
                    i <= times.len(),
                    casts_view(casts@).contains_key(skill),
                    casts_view(casts@)[skill] == times@,
                    first_time_at(times@, 0, not_before) == first_time_at(
                        times@,
                        i as int,
                        not_before,
                    ),
                decreases times.len() - i,
            {
                if times[i] >= not_before {
                    return Some(times[i]);
                }
                i += 1;
            }
            None
        },
    }
}

/// The stage of the two-stage boss that starts at `start` is won when the
/// boss next gains the second invulnerability.
pub open spec fn spec_check_success_ai(ctx: ContextView, start: Time) -> Option<Time> {
    first_toggle_at(ctx.other_invuln_changes, 0, start, false)
}

pub fn check_success_ai(ctx: &LogContext, start: Time) -> (r: Option<Time>)
    ensures
        r == spec_check_success_ai(ctx@, start),
{
    find_toggle(&ctx.other_invuln_changes, start, false)
}

/// The rule for most bosses. Without damage to the boss there is no win.
/// With it, the group won at the earlier of last damage and first reward
/// if the two lie less than `REWARD_WINDOW` apart; else at the boss's
/// death if the boss died no later than it was last damaged; else not at
/// all.
pub open spec fn spec_check_success(ctx: ContextView) -> Option<Time> {
    match ctx.last_dmg {
        None => None,
        Some(dmg) => {
            if ctx.first_reward matches Some(reward) && dmg - reward < REWARD_WINDOW && reward
                - dmg < REWARD_WINDOW {
                if dmg <= ctx.first_reward->0 {
                    Some(dmg)
                } else {
                    ctx.first_reward
                }
            } else if ctx.deaths.contains_key(ctx.target.0) && ctx.deaths[ctx.target.0] <= dmg {
                Some(ctx.deaths[ctx.target.0])
            } else {
                None
            }
        },
    }
}

pub fn check_success(ctx: &LogContext) -> (r: Option<Time>)
    ensures
        r == spec_check_success(ctx@),
{
    let dmg: Time = match ctx.last_dmg {
        Some(dmg) => dmg,
        None => {
            return None;
        },
    };
    if let Some(reward) = ctx.first_reward {
        let apart: u64 = if dmg >= reward {
            dmg - reward
        } else {
            reward - dmg
        };
        if apart < REWARD_WINDOW {
            return Some(if dmg <= reward {
                dmg
            } else {
                reward
            });
        }
    }
    let key: u16 = ctx.target.to_inner();
    if let Some(death) = ctx.deaths.get(&key) {
        if *death <= dmg {
            return Some(*death);
        }
    }
    None
}

/// The latest time at which one of `players` left combat for good, among
/// those who did so after `floor`.
pub open spec fn latest_exit_after(players: Seq<AgentId>, exits: Map<u16, Time>, floor: Time)
    -> Option<Time>
    decreases players.len(),
{
    if players.len() == 0 {
        None
    } else {
        let before = latest_exit_after(players.drop_last(), exits, floor);
        let id = players.last().0;
        if exits.contains_key(id) && exits[id] > floor {
            match before {
                Some(t) if t >= exits[id] => before,
                _ => Some(exits[id]),
            }
        } else {
            before
        }
    }
}

/// `latest_exit_after` is the greatest of the exits it chooses from, and
/// there is none exactly when no player left combat after `floor`.
pub proof fn lemma_latest_exit_after(players: Seq<AgentId>, exits: Map<u16, Time>, floor: Time)
    ensures
        match latest_exit_after(players, exits, floor) {
            Some(t) => {
                &&& t > floor
                &&& exists|i: int|
                    0 <= i < players.len() && exits.contains_key(#[trigger] players[i].0)
                        && exits[players[i].0] == t
                &&& forall|i: int|
                    0 <= i < players.len() && exits.contains_key(#[trigger] players[i].0)
                        && exits[players[i].0] > floor ==> exits[players[i].0] <= t
            },
            None => forall|i: int|
                0 <= i < players.len() && exits.contains_key(#[trigger] players[i].0)
                    ==> exits[players[i].0] <= floor,
        },
    decreases players.len(),
{
    if players.len() > 0 {
        let rest = players.drop_last();
        lemma_latest_exit_after(rest, exits, floor);
        assert forall|i: int| 0 <= i < rest.len() implies rest[i] == players[i] by {}
        let last = players.len() - 1;
        match latest_exit_after(players, exits, floor) {
            Some(t) => {
                let id = players.last().0;
                if exits.contains_key(id) && exits[id] == t {
                    assert(players[last].0 == id);
                } else {
                    let i = choose|i: int|
                        0 <= i < rest.len() && exits.contains_key(#[trigger] rest[i].0)
                            && exits[rest[i].0] == t;
                    assert(players[i].0 == rest[i].0);
                }
                assert forall|i: int|
                    0 <= i < players.len() && exits.contains_key(#[trigger] players[i].0)
                        && exits[players[i].0] > floor implies exits[players[i].0] <= t by {
                    if i < last {
                        assert(rest[i].0 == players[i].0);
                    }
                }
            },
            None => {
                assert forall|i: int|
                    0 <= i < players.len() && exits.contains_key(
                        #[trigger] players[i].0,
                    ) implies exits[players[i].0] <= floor by {
                    if i < last {
                        assert(rest[i].0 == players[i].0);
                    }
                }
            },
        }
    }
}

pub fn find_latest_exit(players: &Vec<AgentId>, exits: &HashMap<u16, Time>, floor: Time) -> (r:
    Option<Time>)
    ensures
        r == latest_exit_after(players@, exits@, floor),
{
    let mut latest: Option<Time> = None;
    let mut i: usize = 0;
    assert(players@.take(0) =~= Seq::empty());
    while i < players.len()
        invariant
            i <= players.len(),
            latest == latest_exit_after(players@.take(i as int), exits@, floor),
        decreases players.len() - i,
    {
        assert(players@.take(i + 1).drop_last() =~= players@.take(i as int));
        let key: u16 = players[i].to_inner();
        if let Some(exit) = exits.get(&key) {
            if *exit > floor {
                latest = match latest {
                    Some(t) if t >= *exit => Some(t),
                    _ => Some(*exit),
                };
            }
        }
        i += 1;
    }
    assert(players@.take(players.len() as int) =~= players@);
    latest
}

/// The rule of the bosses that leave combat when beaten. The time of the
/// last damage is the time of the win, but only where the boss was damaged
/// and entered and left combat, and
/// - a player left combat after the boss did, the last of them by more
///   than `EXIT_MARGIN`, and the boss left combat after entering it; or
/// - no player left combat after the boss did, and the log goes on for
///   more than `IDLE_MARGIN` after the boss was last referred to.
pub open spec fn spec_check_success_by_combat_exit(ctx: ContextView) -> Option<Time> {
    let boss = ctx.target.0;
    if ctx.last_dmg is None || !ctx.combat_enters.contains_key(boss)
        || !ctx.combat_exits.contains_key(boss) {
        None
    } else {
        let entered = ctx.combat_enters[boss];
        let left = ctx.combat_exits[boss];
        match latest_exit_after(ctx.players, ctx.combat_exits, left) {
            Some(player_left) => if player_left > left + EXIT_MARGIN && left > entered {
                ctx.last_dmg
            } else {
                None
            },
            None => if ctx.last_event > ctx.last_aware + IDLE_MARGIN {
                ctx.last_dmg
            } else {
                None
            },
        }
    }
}

pub fn check_success_by_combat_exit(ctx: &LogContext) -> (r: Option<Time>)
    ensures
        r == spec_check_success_by_combat_exit(ctx@),
{
    let key: u16 = ctx.target.to_inner();
    let last_dmg: Time = match ctx.last_dmg {
        Some(t) => t,
        None => {
            return None;
        },
    };
    let entered: Time = match ctx.combat_enters.get(&key) {
        Some(t) => *t,
        None => {
            return None;
        },
    };
    let left: Time = match ctx.combat_exits.get(&key) {
        Some(t) => *t,
        None => {
            return None;
        },
    };
    match find_latest_exit(&ctx.players, &ctx.combat_exits, left) {
        Some(player_left) => {
            proof {
                lemma_latest_exit_after(ctx.players@, ctx.combat_exits@, left);
            }
            if player_left - left > EXIT_MARGIN && left > entered {
                Some(last_dmg)
            } else {
                None
            }
        },
        None => {
            if ctx.last_event > ctx.last_aware && ctx.last_event - ctx.last_aware > IDLE_MARGIN {
                Some(last_dmg)
            } else {
                None
            }
        },
    }
}

/// The rule of a boss with a known number of phases: the group won only if
/// the invulnerability toggled exactly `count` times, the last time off,
/// and then by the rule of `spec_check_success_by_combat_exit`.
pub open spec fn spec_check_success_by_invuln_count(ctx: ContextView, count: nat) -> Option<Time> {
    if ctx.invuln_changes.len() == count && count > 0 && ctx.invuln_changes.last().1 {
        spec_check_success_by_combat_exit(ctx)
    } else {
        None
    }
}

pub fn check_success_by_invuln_count(ctx: &LogContext, count: usize) -> (r: Option<Time>)
    ensures
        r == spec_check_success_by_invuln_count(ctx@, count as nat),
{
    let n: usize = ctx.invuln_changes.len();
    if n > 0 && n == count && ctx.invuln_changes[n - 1].1 {
        check_success_by_combat_exit(ctx)
    } else {
        None
    }
}

} // verus!
