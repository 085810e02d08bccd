//! The events of a fight on the training golem, put in order and searched.

use super::character::Buff;
use super::skill::Skill;
use crate::parse::{Event, EventKind, Time};
use vstd::prelude::*;
use vstd::string::*;

verus! {

/// Where an event stands among the events of its millisecond: a weapon
/// swap before a hit, and a hit before anything else.
pub open spec fn spec_rank(kind: EventKind) -> u8 {
    match kind {
        EventKind::WeaponSwap(_) => 0,
        EventKind::PhysDamage(_) => 1,
        _ => 2,
    }
}

pub fn rank(kind: &EventKind) -> (r: u8)
    ensures
        r == spec_rank(*kind),
{
    match kind {
        EventKind::WeaponSwap(_) => 0,
        EventKind::PhysDamage(_) => 1,
        _ => 2,
    }
}

/// Whether `a` may stand before `b`: it is earlier, or of the same time
/// and of no higher rank.
pub open spec fn in_order(a: Event, b: Event) -> bool {
    a.time < b.time || (a.time == b.time && spec_rank(a.kind) <= spec_rank(b.kind))
}

/// `sort_by_key` of slices, the key being time and rank: afterwards the
/// events are the same as before, each as often as before, and none
/// stands before one that it may not stand before.
#[verifier::external_body]
fn sort_by_time_and_rank(events: &mut Vec<Event>)
    ensures
        final(events)@.to_multiset() == old(events)@.to_multiset(),
        forall|i: int, j: int|
            0 <= i <= j < final(events)@.len() ==> in_order(
                #[trigger] final(events)@[i],
                #[trigger] final(events)@[j],
            ),
{
    events.sort_by_key(|e| (e.time, rank(&e.kind)))
}

/// The events by time, and within a millisecond by rank.
pub fn sorted_events(events: Vec<Event>) -> (sorted: Vec<Event>)
    ensures
        sorted@.to_multiset() == events@.to_multiset(),
        sorted@.len() == events@.len(),
        forall|i: int, j: int|
            0 <= i <= j < sorted@.len() ==> in_order(#[trigger] sorted@[i], #[trigger] sorted@[j]),
{
    let mut sorted = events;
    sort_by_time_and_rank(&mut sorted);
    proof {
        sorted@.to_multiset_ensures();
        events@.to_multiset_ensures();
    }
    sorted
}

/// Whether `event` is a hit with `skill`.
pub open spec fn is_hit_with(event: Event, skill: i32) -> bool {
    event.kind matches EventKind::PhysDamage(hit) && hit.skill == skill
}

/// The time of the last of the first `n` events that is a hit with
/// `skill`; the end of time where there is none.
pub open spec fn last_hit_with(events: Seq<Event>, skill: i32, n: int) -> Time
    decreases n,
{
    if n <= 0 {
        u64::MAX
    } else if is_hit_with(events[n - 1], skill) {
        events[n - 1].time
    } else {
        last_hit_with(events, skill, n - 1)
    }
}

/// The time up to which the events of a fight matter: that of the last
/// hit of Whirling Defense, with which the rotation ends.
pub fn last_relevant_time(events: &[Event]) -> (time: Time)
    ensures
        time == last_hit_with(events@, Skill::WhirlingDefense.spec_id(), events@.len() as int),
{
    let skill: i32 = Skill::WhirlingDefense.id();
    let mut n: usize = events.len();
    while n > 0
        invariant
            n <= events@.len(),
            skill == Skill::WhirlingDefense.spec_id(),
            last_hit_with(events@, skill, events@.len() as int) == last_hit_with(
                events@,
                skill,
                n as int,
            ),
        decreases n,
    {
        if let EventKind::PhysDamage(hit) = events[n - 1].kind {
            if hit.skill == skill {
                return events[n - 1].time;
            }
        }
        n -= 1;
    }
    u64::MAX
}

/// Whether `event` applies or removes the buff `id`.
pub open spec fn touches_buff(event: Event, id: i32) -> bool {
    match event.kind {
        EventKind::BuffApply(e) => e.id == id,
        EventKind::BuffRemove(e) => e.id == id,
        _ => false,
    }
}

/// Whether, from place `from` on, the first event that applies or removes
/// the buff `id` removes it.
pub open spec fn removed_first(events: Seq<Event>, id: i32, from: int) -> bool
    decreases events.len() - from,
{
    if from < 0 || from >= events.len() {
        false
    } else if touches_buff(events[from], id) {
        events[from].kind is BuffRemove
    } else {
        removed_first(events, id, from + 1)
    }
}

/// Whether the first that the events tell of `buff` is its removal, so
/// that it was on from before the fight.
pub fn buff_expires_first(events: &[Event], buff: Buff) -> (r: bool)
    requires
        buff.spec_id() is Some,
    ensures
        r == removed_first(events@, buff.spec_id()->0, 0),
{
    let id: i32 = match buff.id() {
        Some(id) => id,
        None => 0,
    };
    let mut i: usize = 0;
    while i < events.len()
        invariant
            i <= events@.len(),
            buff.spec_id() == Some(id),
            removed_first(events@, id, 0) == removed_first(events@, id, i as int),
        decreases events@.len() - i,
    {
        match events[i].kind {
            EventKind::BuffRemove(e) => {
                if e.id == id {
                    return true;
                }
            },
            EventKind::BuffApply(e) => {
                if e.id == id {
                    return false;
                }
            },
            _ => {},
        }
        i += 1;
    }
    false
}

/// The names of the first `n` skills, with a dash between each two.
pub open spec fn spec_fmt_skills(skills: Seq<Skill>, n: int) -> Seq<char>
    decreases n,
{
    if n <= 0 {
        Seq::empty()
    } else if n == 1 {
        skills[0].spec_name()
    } else {
        spec_fmt_skills(skills, n - 1) + " - "@ + skills[n - 1].spec_name()
    }
}

pub fn fmt_skills(skills: &[Skill]) -> (out: String)
    ensures
        out@ == spec_fmt_skills(skills@, skills@.len() as int),
{
    let mut out = String::new();
    let mut i: usize = 0;
    while i < skills.len()
        invariant
            i <= skills@.len(),
            out@ == spec_fmt_skills(skills@, i as int),
        decreases skills@.len() - i,
    {
        if i > 0 {
            out.append(" - ");
        }
        out.append(skills[i].name());
        assert(out@ =~= spec_fmt_skills(skills@, i + 1));
        i += 1;
    }
    out
}

} // verus!
