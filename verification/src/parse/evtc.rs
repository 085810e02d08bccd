//! The binary layout of a log and the raw records in it.

use super::agents::{
    read_agent_entry, roster_after, spec_address_book, AddressBook, Roster,
};
use super::bytes::{
    i32_at, le_i32, le_u16, le_u32, le_u64, text_at, u16_at, u32_at, u64_at, u8_at, utf8_lossy,
};
use super::event::{Event, EventKind};
use crate::text::str_eq;
use std::collections::HashMap;
use vstd::prelude::*;

verus! {

broadcast use vstd::std_specs::hash::group_hash_axioms;

/// Milliseconds.
pub type Time = u64;

/// The id an agent goes by in the records of one log.
#[derive(Debug, Copy, Clone, PartialEq, Eq, Hash, Structural)]
pub struct AgentId(pub u16);

impl AgentId {
    pub fn new(id: u16) -> (r: Self)
        ensures
            r == AgentId(id),
    {
        AgentId(id)
    }

    pub fn to_inner(self) -> (r: u16)
        ensures
            r == self.0,
    {
        self.0
    }
}

impl Default for AgentId {
    fn default() -> (r: Self)
        ensures
            r == AgentId(0),
    {
        AgentId(0)
    }
}

/// One 64-byte record of the log, field by field.
#[derive(Debug, Clone, Copy, PartialEq, Eq, Structural)]
pub struct RawEvent {
    pub time: Time,
    pub src_agent: u64,
    pub dst_agent: u64,
    pub value: i32,
    pub buff_dmg: i32,
    pub overstack_value: u32,
    pub skill_id: u32,
    pub src_instid: AgentId,
    pub dst_instid: AgentId,
    pub src_master_instid: AgentId,
    pub dst_master_instid: AgentId,
    pub iff: u8,
    pub buff: u8,
    pub result: u8,
    pub is_activation: u8,
    pub is_buffremove: u8,
    pub is_ninety: u8,
    pub is_fifty: u8,
    pub is_moving: u8,
    pub is_statechange: u8,
    pub is_shields: u8,
    pub is_offcycle: u8,
}

/// State change codes that the analysis gives a meaning to.
pub const ENTER_COMBAT: u8 = 1;

pub const EXIT_COMBAT: u8 = 2;

pub const CHANGE_DEAD: u8 = 4;

pub const SPAWN: u8 = 6;

pub const DESPAWN: u8 = 7;

pub const WEAPON_SWAP: u8 = 11;

pub const MAX_HEALTH_UPDATE: u8 = 12;

pub const REWARD: u8 = 17;

pub const ATTACK_TARGET: u8 = 23;

impl RawEvent {
    /// The kind of event the record's flags stand for, if any: the table
    /// over `is_statechange`, `buff`, `is_buffremove` and `is_activation`.
    pub open spec fn spec_kind(self) -> Option<EventKind> {
        if self.is_statechange == 0 {
            if self.buff != 0 {
                if self.is_buffremove == 3 {
                    Some(EventKind::spec_buff_remove(self))
                } else if self.is_buffremove == 0 && self.value != 0 {
                    Some(EventKind::spec_buff_apply(self))
                } else if self.is_buffremove == 0 && self.result == 0 {
                    Some(EventKind::spec_cond_damage(self))
                } else {
                    None
                }
            } else if self.is_activation == 0 {
                Some(EventKind::spec_phys_damage(self))
            } else if self.is_activation == 1 {
                Some(EventKind::spec_cast_start(self))
            } else if self.is_activation == 3 {
                Some(EventKind::spec_cast_cfire(self))
            } else if self.is_activation == 4 {
                Some(EventKind::spec_cast_cancel(self))
            } else if self.is_activation == 5 {
                Some(EventKind::spec_cast_end(self))
            } else {
                None
            }
        } else if self.is_statechange == ENTER_COMBAT {
            Some(EventKind::spec_combat_enter(self))
        } else if self.is_statechange == EXIT_COMBAT {
            Some(EventKind::spec_combat_exit(self))
        } else if self.is_statechange == CHANGE_DEAD {
            Some(EventKind::spec_death(self))
        } else if self.is_statechange == SPAWN {
            Some(EventKind::spec_spawn(self))
        } else if self.is_statechange == DESPAWN {
            Some(EventKind::spec_despawn(self))
        } else if self.is_statechange == WEAPON_SWAP {
            Some(EventKind::spec_weapon_swap(self))
        } else if self.is_statechange == REWARD {
            Some(EventKind::spec_reward(self))
        } else {
            None
        }
    }

    /// The event the record stands for, at the record's own time; `None`
    /// for a record that the table has no row for.
    pub open spec fn spec_into_event(self) -> Option<Event> {
        match self.spec_kind() {
            Some(kind) => Some(Event { time: self.time, kind }),
            None => None,
        }
    }

    pub fn into_event(self) -> (event: Option<Event>)
        ensures
            event == self.spec_into_event(),
    {
        let time: Time = self.time;
        let kind = match self.is_statechange {
            0 => {
                if self.buff != 0 {
                    match self.is_buffremove {
                        3 => EventKind::buff_remove(self),
                        0 => {
                            if self.value != 0 {
                                EventKind::buff_apply(self)
                            } else if self.result == 0 {
                                EventKind::cond_damage(self)
                            } else {
                                return None;
                            }
                        },
                        _ => return None,
                    }
                } else {
                    match self.is_activation {
                        0 => EventKind::phys_damage(self),
                        1 => EventKind::cast_start(self),
                        3 => EventKind::cast_cfire(self),
                        4 => EventKind::cast_cancel(self),
                        5 => EventKind::cast_end(self),
                        _ => return None,
                    }
                }
            },
            1 => EventKind::combat_enter(self),
            2 => EventKind::combat_exit(self),
            4 => EventKind::death(self),
            6 => EventKind::spawn(self),
            7 => EventKind::despawn(self),
            11 => EventKind::weapon_swap(self),
            17 => EventKind::reward(self),
            _ => return None,
        };
        Some(Event { time, kind })
    }
}

/// Whether a record with this state change code names an agent in its
/// source fields.
pub open spec fn spec_src_is_agent(is_statechange: u8) -> bool {
    ||| is_statechange <= 8
    ||| 11 <= is_statechange <= 13
    ||| 18 <= is_statechange <= 24
    ||| is_statechange == 27
    ||| is_statechange == 28
    ||| is_statechange == 34
    ||| is_statechange == 35
}

/// Whether a record with this state change code names an agent in its
/// destination fields.
pub open spec fn spec_dst_is_agent(is_statechange: u8) -> bool {
    is_statechange == 0 || is_statechange == ATTACK_TARGET
}

/// The agent a record refers to, as address and instance id: the source
/// where the source fields name one, else the destination where those do.
pub open spec fn spec_event_agent(event: RawEvent) -> Option<(u64, AgentId)> {
    if spec_src_is_agent(event.is_statechange) {
        Some((event.src_agent, event.src_instid))
    } else if spec_dst_is_agent(event.is_statechange) {
        Some((event.dst_agent, event.dst_instid))
    } else {
        None
    }
}

pub fn src_is_agent(is_statechange: u8) -> (r: bool)
    ensures
        r == spec_src_is_agent(is_statechange),
{
    match is_statechange {
        0 | 1 | 2 | 3 | 4 | 5 | 6 | 7 | 8 => true,
        11 | 12 | 13 => true,
        18 | 19 | 20 | 21 | 22 | 23 | 24 => true,
        27 | 28 => true,
        34 | 35 => true,
        _ => false,
    }
}

pub fn dst_is_agent(is_statechange: u8) -> (r: bool)
    ensures
        r == spec_dst_is_agent(is_statechange),
{
    match is_statechange {
        0 => true,
        23 => true,
        _ => false,
    }
}

pub fn event_agent(event: &RawEvent) -> (r: Option<(u64, AgentId)>)
    ensures
        r == spec_event_agent(*event),
{
    if src_is_agent(event.is_statechange) {
        Some((event.src_agent, event.src_instid))
    } else if dst_is_agent(event.is_statechange) {
        Some((event.dst_agent, event.dst_instid))
    } else {
        None
    }
}


/// What is known of one agent: its name, the highest maximum health
/// reported for it, and the first and last time a record referred to it.
#[derive(Debug, Clone)]
pub struct Agent {
    pub name: String,
    pub health: u64,
    pub first_aware: Time,
    pub last_aware: Time,
}

/// An `Agent` as plain values.
pub struct AgentView {
    pub name: Seq<char>,
    pub health: u64,
    pub first_aware: Time,
    pub last_aware: Time,
}

impl View for Agent {
    type V = AgentView;

    open spec fn view(&self) -> AgentView {
        AgentView {
            name: self.name@,
            health: self.health,
            first_aware: self.first_aware,
            last_aware: self.last_aware,
        }
    }
}

impl Agent {
    pub fn duplicate(&self) -> (r: Agent)
        ensures
            r@ == self@,
    {
        Agent {
            name: self.name.clone(),
            health: self.health,
            first_aware: self.first_aware,
            last_aware: self.last_aware,
        }
    }
}

pub type AgentMap = HashMap<u16, Agent>;

pub type SkillMap = HashMap<i32, String>;

/// A map of agents as plain values.
pub open spec fn agents_view<K>(m: Map<K, Agent>) -> Map<K, AgentView> {
    Map::new(|k: K| m.contains_key(k), |k: K| m[k]@)
}

/// A map of names as plain values.
pub open spec fn names_view(m: Map<i32, String>) -> Map<i32, Seq<char>> {
    Map::new(|k: i32| m.contains_key(k), |k: i32| m[k]@)
}

/// Everything a log holds: the boss, the agents and the players among them
/// by instance id, the skill names by skill id, and the events in order.
pub struct Data {
    pub boss: AgentId,
    pub agents: AgentMap,
    pub players: AgentMap,
    pub skills: SkillMap,
    pub events: Vec<Event>,
}

/// `Data` as plain values.
pub struct DataView {
    pub boss: AgentId,
    pub agents: Map<u16, AgentView>,
    pub players: Map<u16, AgentView>,
    pub skills: Map<i32, Seq<char>>,
    pub events: Seq<Event>,
}

impl View for Data {
    type V = DataView;

    open spec fn view(&self) -> DataView {
        DataView {
            boss: self.boss,
            agents: agents_view(self.agents@),
            players: agents_view(self.players@),
            skills: names_view(self.skills@),
            events: self.events@,
        }
    }
}

impl Data {
    /// The player with the lowest instance id among those whose account
    /// name is `name`, if there is one.
    pub fn id_for(&self, name: &str) -> (r: Option<AgentId>)
        ensures
            match r {
                Some(id) => {
                    &&& self@.players.contains_key(id.0)
                    &&& self@.players[id.0].name == name@
                    &&& forall|k: u16|
                        k < id.0 && self@.players.contains_key(k) ==> self@.players[k].name
                            != name@
                },
                None => forall|k: u16|
                    self@.players.contains_key(k) ==> self@.players[k].name != name@,
            },
    {
        let mut id: u16 = 0;
        loop
            invariant
                forall|k: u16|
                    k < id && self@.players.contains_key(k) ==> self@.players[k].name != name@,
            decreases u16::MAX - id,
        {
            if let Some(agent) = self.players.get(&id) {
                if str_eq(agent.name.as_str(), name) {
                    return Some(AgentId(id));
                }
            }
            if id == u16::MAX {
                return None;
            }
            id += 1;
        }
    }
}

/// Why a buffer could not be decoded.
#[derive(Debug, Clone, Copy, PartialEq, Eq, Structural)]
pub enum ParseError {
    /// The header states a format revision other than 1.
    UnsupportedRevision,
    /// The buffer ends before the header, the agent table or the skill
    /// table does.
    Truncated,
}

pub const HEADER_LEN: usize = 16;

pub const AGENT_LEN: usize = 96;

pub const SKILL_LEN: usize = 68;

pub const RECORD_LEN: usize = 64;

/// Where in an agent record the name buffer starts, and its length.
pub const AGENT_NAME_AT: usize = 28;

pub const NAME_LEN: usize = 64;

/// The format revision that the header states, if the buffer reaches it.
pub open spec fn spec_revision(bytes: Seq<u8>) -> Option<u8> {
    if bytes.len() > 12 {
        Some(bytes[12])
    } else {
        None
    }
}

/// The boss id that the header states, if the buffer holds a whole header.
pub open spec fn spec_target_id(bytes: Seq<u8>) -> Option<u16> {
    if bytes.len() >= HEADER_LEN {
        Some(le_u16(bytes, 13) as u16)
    } else {
        None
    }
}

/// The boss id in the header of a log.
pub fn target_id(bytes: &[u8]) -> (id: Option<u16>)
    ensures
        id == spec_target_id(bytes@),
{
    if bytes.len() >= HEADER_LEN {
        Some(u16_at(bytes, 13))
    } else {
        None
    }
}

pub open spec fn spec_agent_count(bytes: Seq<u8>) -> int {
    le_u32(bytes, HEADER_LEN as int)
}

/// Where the agent table ends and the skill count stands.
pub open spec fn spec_agents_end(bytes: Seq<u8>) -> int {
    HEADER_LEN + 4 + AGENT_LEN * spec_agent_count(bytes)
}

pub open spec fn spec_skill_count(bytes: Seq<u8>) -> int {
    le_u32(bytes, spec_agents_end(bytes))
}

/// Where the skill table ends and the records start.
pub open spec fn spec_records_start(bytes: Seq<u8>) -> int {
    spec_agents_end(bytes) + 4 + SKILL_LEN * spec_skill_count(bytes)
}

/// Whether the buffer holds the header and both tables in full.
pub open spec fn well_framed(bytes: Seq<u8>) -> bool {
    &&& HEADER_LEN + 4 <= bytes.len()
    &&& spec_agents_end(bytes) + 4 <= bytes.len()
    &&& spec_records_start(bytes) <= bytes.len()
}

/// How many whole records follow the tables. Bytes after the last whole
/// record are no record.
pub open spec fn spec_record_count(bytes: Seq<u8>) -> int {
    (bytes.len() - spec_records_start(bytes)) / (RECORD_LEN as int)
}

/// The record whose 64 bytes start at `at`.
pub open spec fn spec_raw_event(bytes: Seq<u8>, at: int) -> RawEvent {
    RawEvent {
        time: le_u64(bytes, at) as u64,
        src_agent: le_u64(bytes, at + 8) as u64,
        dst_agent: le_u64(bytes, at + 16) as u64,
        value: le_i32(bytes, at + 24) as i32,
        buff_dmg: le_i32(bytes, at + 28) as i32,
        overstack_value: le_u32(bytes, at + 32) as u32,
        skill_id: le_u32(bytes, at + 36) as u32,
        src_instid: AgentId(le_u16(bytes, at + 40) as u16),
        dst_instid: AgentId(le_u16(bytes, at + 42) as u16),
        src_master_instid: AgentId(le_u16(bytes, at + 44) as u16),
        dst_master_instid: AgentId(le_u16(bytes, at + 46) as u16),
        iff: bytes[at + 48],
        buff: bytes[at + 49],
        result: bytes[at + 50],
        is_activation: bytes[at + 51],
        is_buffremove: bytes[at + 52],
        is_ninety: bytes[at + 53],
        is_fifty: bytes[at + 54],
        is_moving: bytes[at + 55],
        is_statechange: bytes[at + 56],
        is_shields: bytes[at + 58],
        is_offcycle: bytes[at + 59],
    }
}

/// Decodes the record that starts at `at`, each field at its own offset.
pub fn read_raw_event(bytes: &[u8], at: usize) -> (r: RawEvent)
    requires
        at + RECORD_LEN <= bytes@.len(),
    ensures
        r == spec_raw_event(bytes@, at as int),
{
    let len: usize = bytes.len();
    assert(at + RECORD_LEN <= len);
    RawEvent {
        time: u64_at(bytes, at),
        src_agent: u64_at(bytes, at + 8),
        dst_agent: u64_at(bytes, at + 16),
        value: i32_at(bytes, at + 24),
        buff_dmg: i32_at(bytes, at + 28),
        overstack_value: u32_at(bytes, at + 32),
        skill_id: u32_at(bytes, at + 36),
        src_instid: AgentId(u16_at(bytes, at + 40)),
        dst_instid: AgentId(u16_at(bytes, at + 42)),
        src_master_instid: AgentId(u16_at(bytes, at + 44)),
        dst_master_instid: AgentId(u16_at(bytes, at + 46)),
        iff: u8_at(bytes, at + 48),
        buff: u8_at(bytes, at + 49),
        result: u8_at(bytes, at + 50),
        is_activation: u8_at(bytes, at + 51),
        is_buffremove: u8_at(bytes, at + 52),
        is_ninety: u8_at(bytes, at + 53),
        is_fifty: u8_at(bytes, at + 54),
        is_moving: u8_at(bytes, at + 55),
        is_statechange: u8_at(bytes, at + 56),
        is_shields: u8_at(bytes, at + 58),
        is_offcycle: u8_at(bytes, at + 59),
    }
}


/// `record` with its time counted from `base`. A time before `base` counts
/// as `base`.
pub open spec fn rebased(record: RawEvent, base: Time) -> RawEvent {
    RawEvent {
        time: if record.time >= base {
            (record.time - base) as u64
        } else {
            0
        },
        ..record
    }
}

pub fn rebase(record: RawEvent, base: Time) -> (r: RawEvent)
    ensures
        r == rebased(record, base),
{
    let mut r = record;
    r.time = if record.time >= base {
        record.time - base
    } else {
        0
    };
    r
}

/// The `k`-th record after the tables, as it stands in the buffer.
pub open spec fn spec_record(bytes: Seq<u8>, k: int) -> RawEvent {
    spec_raw_event(bytes, spec_records_start(bytes) + RECORD_LEN * k)
}

/// The records of the log, in order, with their times counted from the
/// time of the first one.
pub open spec fn spec_records(bytes: Seq<u8>) -> Seq<RawEvent> {
    Seq::new(
        spec_record_count(bytes) as nat,
        |k: int| rebased(spec_record(bytes, k), spec_record(bytes, 0).time),
    )
}

/// The events that `records` stand for, in the order of the records. A
/// record that stands for none is passed over.
pub open spec fn events_of(records: Seq<RawEvent>) -> Seq<Event>
    decreases records.len(),
{
    if records.len() == 0 {
        Seq::empty()
    } else {
        let before = events_of(records.drop_last());
        match records.last().spec_into_event() {
            Some(event) => before.push(event),
            None => before,
        }
    }
}

/// The skill table's record at `at`: the skill's id and the 64 bytes of
/// its name buffer as text.
pub open spec fn spec_skill(bytes: Seq<u8>, at: int) -> (i32, Seq<char>) {
    (le_i32(bytes, at) as i32, utf8_lossy(bytes.subrange(at + 4, at + SKILL_LEN)))
}

/// The names in the first `n` records of the skill table, which starts at
/// `at`. A later record for an id replaces an earlier one.
pub open spec fn spec_skills(bytes: Seq<u8>, at: int, n: nat) -> Map<i32, Seq<char>>
    decreases n,
{
    if n == 0 {
        Map::empty()
    } else {
        let skill = spec_skill(bytes, at + SKILL_LEN * (n - 1));
        spec_skills(bytes, at, (n - 1) as nat).insert(skill.0, skill.1)
    }
}

/// What a buffer decodes to.
///
/// A buffer that ends before its revision byte, or inside the header or a
/// table, is `Truncated`; a revision other than 1 is `UnsupportedRevision`.
/// Otherwise the agent table gives the address book, the records are taken
/// in order, and the boss is the agent with instance id 0 as long as no
/// record has referred to the boss's address.
pub open spec fn spec_parse(bytes: Seq<u8>) -> Result<DataView, ParseError> {
    if spec_revision(bytes) is None {
        Err(ParseError::Truncated)
    } else if spec_revision(bytes) != Some(1u8) {
        Err(ParseError::UnsupportedRevision)
    } else if !well_framed(bytes) {
        Err(ParseError::Truncated)
    } else {
        let book = spec_address_book(
            bytes,
            HEADER_LEN + 4,
            spec_agent_count(bytes) as nat,
        );
        let records = spec_records(bytes);
        let roster = roster_after(book, records);
        Ok(
            DataView {
                boss: match roster.boss {
                    Some(id) => id,
                    None => AgentId(0),
                },
                agents: roster.agents,
                players: roster.players,
                skills: spec_skills(
                    bytes,
                    spec_agents_end(bytes) + 4,
                    spec_skill_count(bytes) as nat,
                ),
                events: events_of(records),
            },
        )
    }
}

/// Decodes a log: header, agent table, skill table, and records up to the
/// last whole one.
pub fn parse(bytes: &[u8]) -> (r: Result<Data, ParseError>)
    ensures
        match r {
            Ok(data) => spec_parse(bytes@) == Ok::<DataView, ParseError>(data@),
            Err(e) => spec_parse(bytes@) == Err::<DataView, ParseError>(e),
        },
        spec_revision(bytes@) matches Some(revision) && revision != 1 ==> r == Err::<
            Data,
            ParseError,
        >(ParseError::UnsupportedRevision),
{
    let len: usize = bytes.len();
    if len <= 12 {
        return Err(ParseError::Truncated);
    }
    if bytes[12] != 1 {
        return Err(ParseError::UnsupportedRevision);
    }
    if len < HEADER_LEN + 4 {
        return Err(ParseError::Truncated);
    }
    let agent_count: u32 = u32_at(bytes, HEADER_LEN);
    let agents_end: u64 = 20 + 96 * (agent_count as u64);
    if agents_end + 4 > len as u64 {
        return Err(ParseError::Truncated);
    }
    let agents_end: usize = agents_end as usize;
    let skill_count: u32 = u32_at(bytes, agents_end);
    let records_start: u64 = agents_end as u64 + 4 + 68 * (skill_count as u64);
    if records_start > len as u64 {
        return Err(ParseError::Truncated);
    }
    let records_start: usize = records_start as usize;

    let mut book = AddressBook::new();
    let mut i: usize = 0;
    while i < agent_count as usize
        invariant
            i <= agent_count,
            len == bytes@.len(),
            20 + 96 * agent_count + 4 <= bytes@.len(),
            book@ == spec_address_book(bytes@, HEADER_LEN + 4, i as nat),
        decreases agent_count - i,
    {
        let entry = read_agent_entry(bytes, 20 + 96 * i);
        book.add(entry);
        i += 1;
    }

    let skills_at: usize = agents_end + 4;
    let mut skills: SkillMap = HashMap::new();
    assert(names_view(skills@) =~= Map::empty());
    let mut j: usize = 0;
    while j < skill_count as usize
        invariant
            j <= skill_count,
            len == bytes@.len(),
            skills_at + 68 * skill_count <= bytes@.len(),
            names_view(skills@) == spec_skills(bytes@, skills_at as int, j as nat),
        decreases skill_count - j,
    {
        let at: usize = skills_at + 68 * j;
        let id: i32 = i32_at(bytes, at);
        let name = text_at(bytes, at + 4, at + SKILL_LEN);
        let ghost before = skills@;
        skills.insert(id, name);
        assert(names_view(skills@) =~= names_view(before).insert(id, name@));
        j += 1;
    }

    let record_count: usize = (len - records_start) / RECORD_LEN;
    let base: Time = if record_count > 0 {
        read_raw_event(bytes, records_start).time
    } else {
        0
    };
    let ghost records = spec_records(bytes@);
    let mut roster = Roster::new();
    let mut events: Vec<Event> = Vec::new();
    assert(records.take(0) =~= Seq::empty());
    let mut k: usize = 0;
    while k < record_count
        invariant
            k <= record_count,
            len == bytes@.len(),
            records_start + 64 * record_count <= bytes@.len(),
            records_start == spec_records_start(bytes@),
            records == spec_records(bytes@),
            records.len() == record_count,
            record_count > 0 ==> base == spec_record(bytes@, 0).time,
            roster@ == roster_after(book@, records.take(k as int)),
            events@ == events_of(records.take(k as int)),
        decreases record_count - k,
    {
        let record = rebase(read_raw_event(bytes, records_start + 64 * k), base);
        assert(record == records[k as int]);
        assert(records.take(k + 1).drop_last() =~= records.take(k as int));
        roster.observe(&book, &record);
        if let Some(event) = record.into_event() {
            events.push(event);
        }
        k += 1;
    }
    assert(records.take(record_count as int) =~= records);

    let boss = match roster.boss {
        Some(id) => id,
        None => AgentId(0),
    };
    Ok(Data { boss, agents: roster.agents, players: roster.players, skills, events })
}

/// The events of two runs of records, one after the other, are the events
/// of the first run followed by those of the second.
pub proof fn lemma_events_of_concat(a: Seq<RawEvent>, b: Seq<RawEvent>)
    ensures
        events_of(a + b) == events_of(a) + events_of(b),
    decreases b.len(),
{
    if b.len() == 0 {
        assert(a + b =~= a);
        assert(events_of(a) + events_of(b) =~= events_of(a));
    } else {
        lemma_events_of_concat(a, b.drop_last());
        assert((a + b).drop_last() =~= a + b.drop_last());
        assert((a + b).last() == b.last());
        match b.last().spec_into_event() {
            Some(event) => {
                assert((events_of(a) + events_of(b.drop_last())).push(event) =~= events_of(a)
                    + events_of(b.drop_last()).push(event));
            },
            None => {},
        }
    }
}

/// A record whose flags stand for no event adds nothing to the events, and
/// the records after it are decoded as if it were not there.
pub proof fn lemma_unrecognized_record_is_passed_over(
    before: Seq<RawEvent>,
    record: RawEvent,
    after: Seq<RawEvent>,
)
    requires
        record.spec_kind() is None,
    ensures
        events_of(before.push(record) + after) == events_of(before + after),
        events_of(before.push(record) + after).len() == events_of(before).len() + events_of(
            after,
        ).len(),
{
    lemma_events_of_concat(before.push(record), after);
    lemma_events_of_concat(before, after);
    assert(before.push(record).drop_last() =~= before);
}

/// Every event is one of the records, at the record's time: the event at
/// place `n` comes from a record at a place no earlier than `n`, and later
/// events come from later records.
pub proof fn lemma_event_source(records: Seq<RawEvent>, n: int) -> (k: int)
    requires
        0 <= n < events_of(records).len(),
    ensures
        n <= k < records.len(),
        records[k].spec_into_event() == Some(events_of(records)[n]),
        events_of(records.take(k)).len() == n,
    decreases records.len(),
{
    let before = events_of(records.drop_last());
    if records.last().spec_into_event() is Some && n == before.len() {
        assert(records.take(records.len() - 1) =~= records.drop_last());
        lemma_events_of_len(records.drop_last());
        records.len() - 1
    } else {
        let k = lemma_event_source(records.drop_last(), n);
        assert(records.drop_last().take(k) =~= records.take(k));
        k
    }
}

/// There are no more events than records.
pub proof fn lemma_events_of_len(records: Seq<RawEvent>)
    ensures
        events_of(records).len() <= records.len(),
    decreases records.len(),
{
    if records.len() > 0 {
        lemma_events_of_len(records.drop_last());
    }
}

/// The events of a shorter run of records are the first events of a longer
/// one.
pub proof fn lemma_events_of_prefix(records: Seq<RawEvent>, k: int)
    requires
        0 <= k <= records.len(),
    ensures
        events_of(records.take(k)).len() <= events_of(records).len(),
        events_of(records.take(k)) == events_of(records).take(
            events_of(records.take(k)).len() as int,
        ),
{
    assert(records.take(k) + records.skip(k) =~= records);
    lemma_events_of_concat(records.take(k), records.skip(k));
    assert((events_of(records.take(k)) + events_of(records.skip(k))).take(
        events_of(records.take(k)).len() as int,
    ) =~= events_of(records.take(k)));
}

/// Where the records are in the order of their times, so are the events.
pub proof fn lemma_event_times_ordered(records: Seq<RawEvent>)
    requires
        forall|i: int, j: int| 0 <= i <= j < records.len() ==> records[i].time <= records[j].time,
    ensures
        forall|a: int, b: int|
            0 <= a <= b < events_of(records).len() ==> events_of(records)[a].time <= events_of(
                records,
            )[b].time,
{
    let events = events_of(records);
    assert forall|a: int, b: int| 0 <= a <= b < events.len() implies events[a].time
        <= events[b].time by {
        let i = lemma_event_source(records, a);
        let j = lemma_event_source(records, b);
        if i > j {
            lemma_events_of_prefix(records.take(i), j);
            assert(records.take(i).take(j) =~= records.take(j));
        }
    }
}

/// The first event is the first record that stands for one.
pub proof fn lemma_first_event(records: Seq<RawEvent>, k: int)
    requires
        0 <= k < records.len(),
        records[k].spec_kind() is Some,
        forall|j: int| 0 <= j < k ==> records[j].spec_kind() is None,
    ensures
        events_of(records).len() > 0,
        Some(events_of(records)[0]) == records[k].spec_into_event(),
    decreases records.len(),
{
    if k == records.len() - 1 {
        lemma_no_events(records.drop_last());
    } else {
        lemma_first_event(records.drop_last(), k);
    }
}

/// Records none of which stands for an event give no events.
pub proof fn lemma_no_events(records: Seq<RawEvent>)
    requires
        forall|j: int| 0 <= j < records.len() ==> records[j].spec_kind() is None,
    ensures
        events_of(records).len() == 0,
    decreases records.len(),
{
    if records.len() > 0 {
        lemma_no_events(records.drop_last());
    }
}

/// In a log whose records are in the order of their times, the events are
/// in the order of their times too. And if the first record that stands
/// for an event carries the time of the log's first record, the first
/// event is at time 0.
pub proof fn lemma_decoded_times(bytes: Seq<u8>, k: int)
    requires
        spec_parse(bytes) is Ok,
        forall|i: int, j: int|
            0 <= i <= j < spec_record_count(bytes) ==> spec_record(bytes, i).time <= spec_record(
                bytes,
                j,
            ).time,
    ensures
        forall|a: int, b: int|
            0 <= a <= b < spec_parse(bytes)->Ok_0.events.len() ==> spec_parse(
                bytes,
            )->Ok_0.events[a].time <= spec_parse(bytes)->Ok_0.events[b].time,
        ({
            &&& 0 <= k < spec_record_count(bytes)
            &&& spec_record(bytes, k).spec_kind() is Some
            &&& forall|j: int| 0 <= j < k ==> spec_record(bytes, j).spec_kind() is None
            &&& spec_record(bytes, k).time == spec_record(bytes, 0).time
        }) ==> spec_parse(bytes)->Ok_0.events.len() > 0 && spec_parse(bytes)->Ok_0.events[0].time
            == 0,
{
    let records = spec_records(bytes);
    lemma_event_times_ordered(records);
    if 0 <= k < spec_record_count(bytes) && spec_record(bytes, k).spec_kind() is Some && (forall|
        j: int,
    |
        0 <= j < k ==> spec_record(bytes, j).spec_kind() is None) {
        assert forall|j: int| 0 <= j < k implies records[j].spec_kind() is None by {
            assert(spec_record(bytes, j).spec_kind() is None);
        }
        lemma_first_event(records, k);
    }
}

} // verus!
