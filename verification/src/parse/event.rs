//! The typed events a log is decoded into.

use super::evtc::{AgentId, RawEvent, Time};
use vstd::prelude::*;

verus! {

/// One thing that happened, at a time counted from the log's first record.
#[derive(Debug, Clone, Copy, PartialEq, Eq, Structural)]
pub struct Event {
    pub time: Time,
    pub kind: EventKind,
}

/// `target` swapped to weapon set `set` (0/1 under water, 4/5 on land).
#[derive(Debug, Clone, Copy, PartialEq, Eq, Structural)]
pub struct WeaponSwap {
    pub target: AgentId,
    pub set: u16,
}

/// `src` hit `target` for `dmg` with `skill`.
#[derive(Debug, Clone, Copy, PartialEq, Eq, Structural)]
pub struct PhysDamage {
    pub target: AgentId,
    pub src: AgentId,
    pub dmg: i32,
    pub skill: i32,
}

/// `src` applied buff `id` to `target`.
#[derive(Debug, Clone, Copy, PartialEq, Eq, Structural)]
pub struct BuffApply {
    pub target: AgentId,
    pub src: AgentId,
    pub id: i32,
    pub duration: i32,
}

/// `target` had buff `id` removed; `dst` removed it.
#[derive(Debug, Clone, Copy, PartialEq, Eq, Structural)]
pub struct BuffRemove {
    pub target: AgentId,
    pub dst: AgentId,
    pub id: i32,
    pub stacks: u8,
}

#[derive(Debug, Clone, Copy, PartialEq, Eq, Structural)]
pub struct CastStart {
    pub target: AgentId,
    pub skill: i32,
    pub effect: Time,
    pub duration: Time,
}

/// A cast whose effect fired at once.
#[derive(Debug, Clone, Copy, PartialEq, Eq, Structural)]
pub struct CastCFire {
    pub target: AgentId,
    pub skill: i32,
    pub animation: Time,
    pub scaled: Time,
}

#[derive(Debug, Clone, Copy, PartialEq, Eq, Structural)]
pub struct CastCancel {
    pub target: AgentId,
    pub skill: i32,
    pub animation: Time,
    pub scaled: Time,
}

#[derive(Debug, Clone, Copy, PartialEq, Eq, Structural)]
pub struct CastEnd {
    pub target: AgentId,
    pub skill: i32,
}

#[derive(Debug, Clone, Copy, PartialEq, Eq, Structural)]
pub struct CombatEnter {
    pub target: AgentId,
}

#[derive(Debug, Clone, Copy, PartialEq, Eq, Structural)]
pub struct CombatExit {
    pub target: AgentId,
}

/// A condition of `src` ticked on `target` for `dmg`.
#[derive(Debug, Clone, Copy, PartialEq, Eq, Structural)]
pub struct CondDamage {
    pub target: AgentId,
    pub src: AgentId,
    pub dmg: i32,
    pub skill: i32,
}

#[derive(Debug, Clone, Copy, PartialEq, Eq, Structural)]
pub struct Death {
    pub target: AgentId,
}

#[derive(Debug, Clone, Copy, PartialEq, Eq, Structural)]
pub struct Reward {
    pub target: AgentId,
    pub kind: i32,
    pub id: u16,
}

#[derive(Debug, Clone, Copy, PartialEq, Eq, Structural)]
pub struct Spawn {
    pub target: AgentId,
}

#[derive(Debug, Clone, Copy, PartialEq, Eq, Structural)]
pub struct Despawn {
    pub target: AgentId,
}

#[derive(Debug, Clone, Copy, PartialEq, Eq, Structural)]
pub enum EventKind {
    WeaponSwap(WeaponSwap),
    PhysDamage(PhysDamage),
    BuffApply(BuffApply),
    BuffRemove(BuffRemove),
    CastStart(CastStart),
    CastCFire(CastCFire),
    CastCancel(CastCancel),
    CastEnd(CastEnd),
    CombatEnter(CombatEnter),
    CombatExit(CombatExit),
    CondDamage(CondDamage),
    Death(Death),
    Reward(Reward),
    Spawn(Spawn),
    Despawn(Despawn),
}

/// The 32-bit pattern of `x` read as a signed number.
pub open spec fn signed32(x: u32) -> i32 {
    if x < 0x8000_0000 {
        x as i32
    } else {
        (x - 0x1_0000_0000) as i32
    }
}

/// `v` widened to 64 bits with its sign, then read as unsigned: a negative
/// `v` lands just below 2^64.
pub open spec fn widened(v: i32) -> Time {
    if v >= 0 {
        v as u64
    } else {
        (0x1_0000_0000_0000_0000 + v) as u64
    }
}

/// The low 16 bits of `x`.
pub open spec fn low16(x: u64) -> u16 {
    (x % 0x1_0000) as u16
}

pub fn to_signed32(x: u32) -> (r: i32)
    ensures
        r == signed32(x),
{
    if x < 0x8000_0000 {
        x as i32
    } else {
        let low: i32 = (x - 0x8000_0000) as i32;
        low + i32::MIN
    }
}

pub fn to_widened(v: i32) -> (r: Time)
    ensures
        r == widened(v),
{
    if v >= 0 {
        v as u64
    } else {
        let below: u64 = (-(v + 1)) as u64;
        u64::MAX - below
    }
}

pub fn to_low16(x: u64) -> (r: u16)
    ensures
        r == low16(x),
{
    (x % 0x1_0000) as u16
}

impl EventKind {
    pub open spec fn spec_buff_apply(event: RawEvent) -> EventKind {
        EventKind::BuffApply(
            BuffApply {
                target: event.dst_instid,
                src: event.src_instid,
                id: signed32(event.skill_id),
                duration: event.value,
            },
        )
    }

    pub open spec fn spec_buff_remove(event: RawEvent) -> EventKind {
        EventKind::BuffRemove(
            BuffRemove {
                target: event.src_instid,
                dst: event.dst_instid,
                id: signed32(event.skill_id),
                stacks: event.result,
            },
        )
    }

    pub open spec fn spec_cast_start(event: RawEvent) -> EventKind {
        EventKind::CastStart(
            CastStart {
                target: event.src_instid,
                skill: signed32(event.skill_id),
                effect: widened(event.value),
                duration: widened(event.buff_dmg),
            },
        )
    }

    pub open spec fn spec_cast_cfire(event: RawEvent) -> EventKind {
        EventKind::CastCFire(
            CastCFire {
                target: event.src_instid,
                skill: signed32(event.skill_id),
                animation: widened(event.value),
                scaled: widened(event.buff_dmg),
            },
        )
    }

    pub open spec fn spec_cast_cancel(event: RawEvent) -> EventKind {
        EventKind::CastCancel(
            CastCancel {
                target: event.src_instid,
                skill: signed32(event.skill_id),
                animation: widened(event.value),
                scaled: widened(event.buff_dmg),
            },
        )
    }

    pub open spec fn spec_cast_end(event: RawEvent) -> EventKind {
        EventKind::CastEnd(CastEnd { target: event.src_instid, skill: signed32(event.skill_id) })
    }

    pub open spec fn spec_combat_enter(event: RawEvent) -> EventKind {
        EventKind::CombatEnter(CombatEnter { target: event.src_instid })
    }

    pub open spec fn spec_combat_exit(event: RawEvent) -> EventKind {
        EventKind::CombatExit(CombatExit { target: event.src_instid })
    }

    pub open spec fn spec_cond_damage(event: RawEvent) -> EventKind {
        EventKind::CondDamage(
            CondDamage {
                target: event.dst_instid,
                src: event.src_instid,
                dmg: event.buff_dmg,
                skill: signed32(event.skill_id),
            },
        )
    }

    pub open spec fn spec_phys_damage(event: RawEvent) -> EventKind {
        EventKind::PhysDamage(
            PhysDamage {
                target: event.dst_instid,
                src: event.src_instid,
                dmg: event.value,
                skill: signed32(event.skill_id),
            },
        )
    }

    pub open spec fn spec_weapon_swap(event: RawEvent) -> EventKind {
        EventKind::WeaponSwap(WeaponSwap { target: event.src_instid, set: low16(event.dst_agent) })
    }

    pub open spec fn spec_death(event: RawEvent) -> EventKind {
        EventKind::Death(Death { target: event.src_instid })
    }

    pub open spec fn spec_reward(event: RawEvent) -> EventKind {
        EventKind::Reward(
            Reward { target: event.src_instid, kind: event.value, id: event.dst_instid.0 },
        )
    }

    pub open spec fn spec_spawn(event: RawEvent) -> EventKind {
        EventKind::Spawn(Spawn { target: event.src_instid })
    }

    pub open spec fn spec_despawn(event: RawEvent) -> EventKind {
        EventKind::Despawn(Despawn { target: event.src_instid })
    }

    /// The agent the event is about.
    pub open spec fn spec_target(self) -> AgentId {
        match self {
            EventKind::WeaponSwap(e) => e.target,
            EventKind::PhysDamage(e) => e.target,
            EventKind::BuffApply(e) => e.target,
            EventKind::BuffRemove(e) => e.target,
            EventKind::CastStart(e) => e.target,
            EventKind::CastCFire(e) => e.target,
            EventKind::CastCancel(e) => e.target,
            EventKind::CastEnd(e) => e.target,
            EventKind::CombatEnter(e) => e.target,
            EventKind::CombatExit(e) => e.target,
            EventKind::CondDamage(e) => e.target,
            EventKind::Death(e) => e.target,
            EventKind::Reward(e) => e.target,
            EventKind::Spawn(e) => e.target,
            EventKind::Despawn(e) => e.target,
        }
    }

    pub fn buff_apply(event: RawEvent) -> (kind: Self)
        ensures
            kind == Self::spec_buff_apply(event),
    {
        EventKind::BuffApply(
            BuffApply {
                target: event.dst_instid,
                src: event.src_instid,
                id: to_signed32(event.skill_id),
                duration: event.value,
            },
        )
    }

    pub fn buff_remove(event: RawEvent) -> (kind: Self)
        ensures
            kind == Self::spec_buff_remove(event),
    {
        EventKind::BuffRemove(
            BuffRemove {
                target: event.src_instid,
                dst: event.dst_instid,
                id: to_signed32(event.skill_id),
                stacks: event.result,
            },
        )
    }

    pub fn cast_start(event: RawEvent) -> (kind: Self)
        ensures
            kind == Self::spec_cast_start(event),
    {
        EventKind::CastStart(
            CastStart {
                target: event.src_instid,
                skill: to_signed32(event.skill_id),
                effect: to_widened(event.value),
                duration: to_widened(event.buff_dmg),
            },
        )
    }

    pub fn cast_cfire(event: RawEvent) -> (kind: Self)
        ensures
            kind == Self::spec_cast_cfire(event),
    {
        EventKind::CastCFire(
            CastCFire {
                target: event.src_instid,
                skill: to_signed32(event.skill_id),
                animation: to_widened(event.value),
                scaled: to_widened(event.buff_dmg),
            },
        )
    }

    pub fn cast_cancel(event: RawEvent) -> (kind: Self)
        ensures
            kind == Self::spec_cast_cancel(event),
    {
        EventKind::CastCancel(
            CastCancel {
                target: event.src_instid,
                skill: to_signed32(event.skill_id),
                animation: to_widened(event.value),
                scaled: to_widened(event.buff_dmg),
            },
        )
    }

    pub fn cast_end(event: RawEvent) -> (kind: Self)
        ensures
            kind == Self::spec_cast_end(event),
    {
        EventKind::CastEnd(
            CastEnd { target: event.src_instid, skill: to_signed32(event.skill_id) },
        )
    }

    pub fn combat_enter(event: RawEvent) -> (kind: Self)
        ensures
            kind == Self::spec_combat_enter(event),
    {
        EventKind::CombatEnter(CombatEnter { target: event.src_instid })
    }

    pub fn combat_exit(event: RawEvent) -> (kind: Self)
        ensures
            kind == Self::spec_combat_exit(event),
    {
        EventKind::CombatExit(CombatExit { target: event.src_instid })
    }

    pub fn cond_damage(event: RawEvent) -> (kind: Self)
        ensures
            kind == Self::spec_cond_damage(event),
    {
        EventKind::CondDamage(
            CondDamage {
                target: event.dst_instid,
                src: event.src_instid,
                dmg: event.buff_dmg,
                skill: to_signed32(event.skill_id),
            },
        )
    }

    pub fn phys_damage(event: RawEvent) -> (kind: Self)
        ensures
            kind == Self::spec_phys_damage(event),
    {
        EventKind::PhysDamage(
            PhysDamage {
                target: event.dst_instid,
                src: event.src_instid,
                dmg: event.value,
                skill: to_signed32(event.skill_id),
            },
        )
    }

    pub fn weapon_swap(event: RawEvent) -> (kind: Self)
        ensures
            kind == Self::spec_weapon_swap(event),
    {
        EventKind::WeaponSwap(
            WeaponSwap { target: event.src_instid, set: to_low16(event.dst_agent) },
        )
    }

    pub fn death(event: RawEvent) -> (kind: Self)
        ensures
            kind == Self::spec_death(event),
    {
        EventKind::Death(Death { target: event.src_instid })
    }

    pub fn reward(event: RawEvent) -> (kind: Self)
        ensures
            kind == Self::spec_reward(event),
    {
        EventKind::Reward(
            Reward {
                target: event.src_instid,
                kind: event.value,
                id: event.dst_instid.to_inner(),
            },
        )
    }

    pub fn spawn(event: RawEvent) -> (kind: Self)
        ensures
            kind == Self::spec_spawn(event),
    {
        EventKind::Spawn(Spawn { target: event.src_instid })
    }

    pub fn despawn(event: RawEvent) -> (kind: Self)
        ensures
            kind == Self::spec_despawn(event),
    {
        EventKind::Despawn(Despawn { target: event.src_instid })
    }
}

} // verus!
