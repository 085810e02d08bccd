//! Who is who in a log: the agent table, which is keyed by address, and
//! the instance ids under which the records refer to the agents in it.

use super::bytes::{first_nul, le_u64, name_end, text_at, u64_at, u8_at, utf8_lossy};
use super::evtc::{
    agents_view, event_agent, spec_event_agent, Agent, AgentId, AgentMap, AgentView, RawEvent,
    Time, AGENT_LEN, AGENT_NAME_AT, MAX_HEALTH_UPDATE, NAME_LEN,
};
use std::collections::HashMap;
use vstd::prelude::*;

verus! {

broadcast use vstd::std_specs::hash::group_hash_axioms;

/// One record of the agent table: the agent's address, its name, and for a
/// player the account name that follows the name in the name buffer.
pub struct AgentEntry {
    pub addr: u64,
    pub name: String,
    pub account: Option<String>,
}

/// An `AgentEntry` as plain values.
pub struct AgentEntryView {
    pub addr: u64,
    pub name: Seq<char>,
    pub account: Option<Seq<char>>,
}

impl View for AgentEntry {
    type V = AgentEntryView;

    open spec fn view(&self) -> AgentEntryView {
        AgentEntryView {
            addr: self.addr,
            name: self.name@,
            account: match self.account {
                Some(a) => Some(a@),
                None => None,
            },
        }
    }
}

/// Where the name in the name buffer of the agent record at `at` ends.
pub open spec fn spec_name_end(bytes: Seq<u8>, at: int) -> int {
    first_nul(bytes.subrange(0, at + AGENT_NAME_AT + NAME_LEN), at + AGENT_NAME_AT)
}

/// Whether the agent record at `at` is a player's: whether a second name
/// follows the zero that ends the first, its first byte being a separator.
pub open spec fn spec_is_player(bytes: Seq<u8>, at: int) -> bool {
    let end = spec_name_end(bytes, at);
    end + 1 < at + AGENT_NAME_AT + NAME_LEN && bytes[end + 1] != 0
}

/// The agent record whose 96 bytes start at `at`.
pub open spec fn spec_agent_entry(bytes: Seq<u8>, at: int) -> AgentEntryView {
    let end = spec_name_end(bytes, at);
    AgentEntryView {
        addr: le_u64(bytes, at) as u64,
        name: utf8_lossy(bytes.subrange(at + AGENT_NAME_AT, end)),
        account: if spec_is_player(bytes, at) {
            Some(
                utf8_lossy(
                    bytes.subrange(
                        end + 2,
                        first_nul(bytes.subrange(0, at + AGENT_NAME_AT + NAME_LEN), end + 2),
                    ),
                ),
            )
        } else {
            None
        },
    }
}

/// Decodes the agent record that starts at `at`.
pub fn read_agent_entry(bytes: &[u8], at: usize) -> (entry: AgentEntry)
    requires
        at + AGENT_LEN <= bytes@.len(),
    ensures
        entry@ == spec_agent_entry(bytes@, at as int),
{
    let len: usize = bytes.len();
    assert(at + AGENT_LEN <= len);
    let from: usize = at + AGENT_NAME_AT;
    let limit: usize = from + NAME_LEN;
    let end: usize = name_end(bytes, from, limit);
    let name = text_at(bytes, from, end);
    let account = if end + 1 < limit && u8_at(bytes, end + 1) != 0 {
        let account_end: usize = name_end(bytes, end + 2, limit);
        Some(text_at(bytes, end + 2, account_end))
    } else {
        None
    };
    AgentEntry { addr: u64_at(bytes, at), name, account }
}

/// The agent table: every agent by address, the players among them by
/// address under their account names, and the address taken for the boss.
pub struct AddressBook {
    pub agents: HashMap<u64, Agent>,
    pub players: HashMap<u64, Agent>,
    pub boss: Option<u64>,
}

/// An `AddressBook` as plain values.
pub struct AddressBookView {
    pub agents: Map<u64, AgentView>,
    pub players: Map<u64, AgentView>,
    pub boss: Option<u64>,
}

impl View for AddressBook {
    type V = AddressBookView;

    open spec fn view(&self) -> AddressBookView {
        AddressBookView {
            agents: agents_view(self.agents@),
            players: agents_view(self.players@),
            boss: self.boss,
        }
    }
}

/// The book before any entry.
pub open spec fn empty_book() -> AddressBookView {
    AddressBookView { agents: Map::empty(), players: Map::empty(), boss: None }
}

/// The book with one more entry. Every entry is filed as an agent that no
/// record has referred to yet; a player's is filed as a player too, under
/// the account name; the first entry that is no player's gives the boss's
/// address. A later entry for an address replaces an earlier one.
pub open spec fn book_with(book: AddressBookView, entry: AgentEntryView) -> AddressBookView {
    AddressBookView {
        agents: book.agents.insert(
            entry.addr,
            AgentView { name: entry.name, health: 0, first_aware: u64::MAX, last_aware: 0 },
        ),
        players: match entry.account {
            Some(account) => book.players.insert(
                entry.addr,
                AgentView { name: account, health: 0, first_aware: 0, last_aware: 0 },
            ),
            None => book.players,
        },
        boss: if entry.account is None && book.boss is None {
            Some(entry.addr)
        } else {
            book.boss
        },
    }
}

/// The book of the first `n` records of the agent table, which starts at
/// `at`.
pub open spec fn spec_address_book(bytes: Seq<u8>, at: int, n: nat) -> AddressBookView
    decreases n,
{
    if n == 0 {
        empty_book()
    } else {
        book_with(
            spec_address_book(bytes, at, (n - 1) as nat),
            spec_agent_entry(bytes, at + AGENT_LEN * (n - 1)),
        )
    }
}

impl AddressBook {
    pub fn new() -> (book: AddressBook)
        ensures
            book@ == empty_book(),
    {
        let book = AddressBook { agents: HashMap::new(), players: HashMap::new(), boss: None };
        assert(book@.agents =~= Map::empty());
        assert(book@.players =~= Map::empty());
        book
    }

    pub fn add(&mut self, entry: AgentEntry)
        ensures
            final(self)@ == book_with(old(self)@, entry@),
    {
        let AgentEntry { addr, name, account } = entry;
        match account {
            Some(account) => {
                self.players.insert(
                    addr,
                    Agent { name: account, health: 0, first_aware: 0, last_aware: 0 },
                );
            },
            None => {
                if self.boss.is_none() {
                    self.boss = Some(addr);
                }
            },
        }
        self.agents.insert(addr, Agent { name, health: 0, first_aware: u64::MAX, last_aware: 0 });
        assert(self@.agents =~= book_with(old(self)@, entry@).agents);
        assert(self@.players =~= book_with(old(self)@, entry@).players);
    }
}

/// The agents met in the records so far, by instance id, and the instance
/// id of the boss once a record has referred to the boss.
pub struct Roster {
    pub boss: Option<AgentId>,
    pub agents: AgentMap,
    pub players: AgentMap,
}

/// A `Roster` as plain values.
pub struct RosterView {
    pub boss: Option<AgentId>,
    pub agents: Map<u16, AgentView>,
    pub players: Map<u16, AgentView>,
}

impl View for Roster {
    type V = RosterView;

    open spec fn view(&self) -> RosterView {
        RosterView {
            boss: self.boss,
            agents: agents_view(self.agents@),
            players: agents_view(self.players@),
        }
    }
}

/// The roster before any record.
pub open spec fn empty_roster() -> RosterView {
    RosterView { boss: None, agents: Map::empty(), players: Map::empty() }
}

/// An agent after a record at `time` referred to it: seen first no later
/// and last no earlier than `time`, and with the record's maximum health
/// if the record reports one that is higher.
pub open spec fn touched(agent: AgentView, record: RawEvent) -> AgentView {
    AgentView {
        name: agent.name,
        health: if record.is_statechange == MAX_HEALTH_UPDATE && record.dst_agent > agent.health {
            record.dst_agent
        } else {
            agent.health
        },
        first_aware: if record.time < agent.first_aware {
            record.time
        } else {
            agent.first_aware
        },
        last_aware: if record.time > agent.last_aware {
            record.time
        } else {
            agent.last_aware
        },
    }
}

/// The roster once an instance id that it does not hold is met at address
/// `addr`: the book's agent at that address, and its player if it has one,
/// are entered under the id; and if no boss is known yet and the address is
/// the boss's, the id becomes the boss's.
pub open spec fn enrolled(book: AddressBookView, roster: RosterView, addr: u64, id: AgentId)
    -> RosterView {
    RosterView {
        boss: if roster.boss is None && book.boss == Some(addr) {
            Some(id)
        } else {
            roster.boss
        },
        agents: if book.agents.contains_key(addr) {
            roster.agents.insert(id.0, book.agents[addr])
        } else {
            roster.agents
        },
        players: if book.players.contains_key(addr) {
            roster.players.insert(id.0, book.players[addr])
        } else {
            roster.players
        },
    }
}

/// The roster after one more record. A record that refers to no agent
/// leaves it as it is.
pub open spec fn roster_step(book: AddressBookView, roster: RosterView, record: RawEvent)
    -> RosterView {
    match spec_event_agent(record) {
        None => roster,
        Some((addr, id)) => {
            let known = if roster.agents.contains_key(id.0) {
                roster
            } else {
                enrolled(book, roster, addr, id)
            };
            if known.agents.contains_key(id.0) {
                RosterView {
                    agents: known.agents.insert(id.0, touched(known.agents[id.0], record)),
                    ..known
                }
            } else {
                known
            }
        },
    }
}

/// The roster after all of `records`, taken in order.
pub open spec fn roster_after(book: AddressBookView, records: Seq<RawEvent>) -> RosterView
    decreases records.len(),
{
    if records.len() == 0 {
        empty_roster()
    } else {
        roster_step(book, roster_after(book, records.drop_last()), records.last())
    }
}

impl Roster {
    pub fn new() -> (roster: Roster)
        ensures
            roster@ == empty_roster(),
    {
        let roster = Roster { boss: None, agents: HashMap::new(), players: HashMap::new() };
        assert(roster@.agents =~= Map::empty());
        assert(roster@.players =~= Map::empty());
        roster
    }

    /// Takes note of the agent that `record` refers to.
    pub fn observe(&mut self, book: &AddressBook, record: &RawEvent)
        ensures
            final(self)@ == roster_step(book@, old(self)@, *record),
    {
        if let Some((addr, id)) = event_agent(record) {
            let key: u16 = id.to_inner();
            if !self.agents.contains_key(&key) {
                if self.boss.is_none() && book.boss == Some(addr) {
                    self.boss = Some(id);
                }
                if let Some(agent) = book.agents.get(&addr) {
                    self.agents.insert(key, agent.duplicate());
                }
                if let Some(player) = book.players.get(&addr) {
                    self.players.insert(key, player.duplicate());
                }
                assert(self@.agents =~= enrolled(book@, old(self)@, addr, id).agents);
                assert(self@.players =~= enrolled(book@, old(self)@, addr, id).players);
            }
            let ghost known = self@;
            let seen = match self.agents.get(&key) {
                Some(agent) => {
                    let health: u64 = if record.is_statechange == MAX_HEALTH_UPDATE
                        && record.dst_agent > agent.health {
                        record.dst_agent
                    } else {
                        agent.health
                    };
                    let first_aware: Time = if record.time < agent.first_aware {
                        record.time
                    } else {
                        agent.first_aware
                    };
                    let last_aware: Time = if record.time > agent.last_aware {
                        record.time
                    } else {
                        agent.last_aware
                    };
                    Some(Agent { name: agent.name.clone(), health, first_aware, last_aware })
                },
                None => None,
            };
            if let Some(agent) = seen {
                self.agents.insert(key, agent);
                assert(self@.agents =~= known.agents.insert(
                    key,
                    touched(known.agents[key], *record),
                ));
            }
            assert(self@.players =~= known.players);
        }
    }
}

/// Once a record has given the boss an instance id, every later record
/// leaves that id as it is: the boss is assigned once.
pub proof fn lemma_boss_assigned_once(
    book: AddressBookView,
    records: Seq<RawEvent>,
    i: int,
    j: int,
)
    requires
        0 <= i <= j <= records.len(),
        roster_after(book, records.take(i)).boss is Some,
    ensures
        roster_after(book, records.take(j)).boss == roster_after(book, records.take(i)).boss,
    decreases j - i,
{
    if i < j {
        lemma_boss_assigned_once(book, records, i, j - 1);
        assert(records.take(j).drop_last() =~= records.take(j - 1));
    }
}


/// An instance id is given to an agent once: an agent that the roster
/// holds stays in it under its name, whatever records follow, and is
/// never seen first later or last earlier than it was.
pub proof fn lemma_agent_enrolled_once(
    book: AddressBookView,
    records: Seq<RawEvent>,
    i: int,
    j: int,
    id: u16,
)
    requires
        0 <= i <= j <= records.len(),
        roster_after(book, records.take(i)).agents.contains_key(id),
    ensures
        roster_after(book, records.take(j)).agents.contains_key(id),
        roster_after(book, records.take(j)).agents[id].name == roster_after(
            book,
            records.take(i),
        ).agents[id].name,
        roster_after(book, records.take(j)).agents[id].first_aware <= roster_after(
            book,
            records.take(i),
        ).agents[id].first_aware,
        roster_after(book, records.take(j)).agents[id].last_aware >= roster_after(
            book,
            records.take(i),
        ).agents[id].last_aware,
        roster_after(book, records.take(j)).agents[id].health >= roster_after(
            book,
            records.take(i),
        ).agents[id].health,
    decreases j - i,
{
    if i < j {
        lemma_agent_enrolled_once(book, records, i, j - 1, id);
        assert(records.take(j).drop_last() =~= records.take(j - 1));
    }
}

/// The players of the roster are among its agents.
pub proof fn lemma_players_are_agents(book: AddressBookView, records: Seq<RawEvent>, id: u16)
    requires
        book.players.dom().subset_of(book.agents.dom()),
        roster_after(book, records).players.contains_key(id),
    ensures
        roster_after(book, records).agents.contains_key(id),
    decreases records.len(),
{
    if records.len() > 0 {
        let before = roster_after(book, records.drop_last());
        if before.players.contains_key(id) {
            lemma_players_are_agents(book, records.drop_last(), id);
        }
    }
}

/// Every player of the agent table is an agent of it.
pub proof fn lemma_book_players_are_agents(bytes: Seq<u8>, at: int, n: nat)
    ensures
        spec_address_book(bytes, at, n).players.dom().subset_of(
            spec_address_book(bytes, at, n).agents.dom(),
        ),
    decreases n,
{
    if n > 0 {
        lemma_book_players_are_agents(bytes, at, (n - 1) as nat);
    }
}

} // verus!
