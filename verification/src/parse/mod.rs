//! From the bytes of a log to its encounters.

pub mod agents;
pub mod bytes;
pub mod context;
pub mod event;
pub mod evtc;
pub mod phase;
pub mod phases;
pub mod strategy;
pub mod success;

pub use context::{gather_context, LogContext};
pub use event::{
    BuffApply, BuffRemove, CastCFire, CastCancel, CastEnd, CastStart, CombatEnter, CombatExit,
    CondDamage, Death, Despawn, Event, EventKind, PhysDamage, Reward, Spawn, WeaponSwap,
};
pub use evtc::{
    dst_is_agent, event_agent, src_is_agent, target_id, Agent, AgentId, AgentMap, Data, ParseError,
    RawEvent, SkillMap, Time,
};
pub use phase::Phase;
pub use phases::{
    parse_phases, parse_phases_ai_dark, parse_phases_ai_elemental, parse_phases_by_invulns,
};
pub use success::{
    check_success, check_success_ai, check_success_by_combat_exit, check_success_by_invuln_count,
};

use crate::target::Target;
use context::{next_ms, spec_gather_context, spec_next_ms, ContextView};
use evtc::{spec_parse, spec_revision, spec_target_id, DataView};
use phase::{phase_views, PhaseView};
use phases::{
    lemma_phases_ai_dark, lemma_phases_ai_elemental, lemma_phases_by_invulns, spec_phases_ai_dark,
    spec_phases_ai_elemental, spec_phases_by_invulns, well_formed,
};
use strategy::{spec_strategy, strategy, PhaseRule};
use success::{find_cast, find_toggle, first_cast, first_toggle_at, spec_check_success_ai};
use vstd::prelude::*;

verus! {

broadcast use vstd::std_specs::hash::group_hash_axioms;

/// A fight with one boss, found in a log: who the boss was, whether the
/// group won, and the phases of the fight, the whole of it first.
#[derive(Debug, Clone)]
pub struct Encounter {
    pub target: Target,
    pub success: bool,
    pub phases: Vec<Phase>,
}

/// An `Encounter` as plain values.
pub struct EncounterView {
    pub target: Target,
    pub success: bool,
    pub phases: Seq<PhaseView>,
}

impl View for Encounter {
    type V = EncounterView;

    open spec fn view(&self) -> EncounterView {
        EncounterView {
            target: self.target,
            success: self.success,
            phases: phase_views(self.phases@),
        }
    }
}

impl Encounter {
    /// Whether the encounter has its first phase, the one that spans it.
    pub open spec fn wf(&self) -> bool {
        self.phases@.len() > 0
    }
}

/// The encounters of a list as plain values.
pub open spec fn encounter_views(encounters: Seq<Encounter>) -> Seq<EncounterView> {
    Seq::new(encounters.len(), |i: int| encounters[i]@)
}

/// A cast of this skill shows that the log holds the second stage of the
/// two-stage boss.
pub const DARK_FORM: i32 = 61356;

/// A cast of this skill shows that the second stage followed on the first
/// within the log.
pub const DARK_PHASE_EVENT: i32 = 53569;

/// The cast with which the second stage starts.
pub const DARK_TRANSITION: i32 = 61277;

pub open spec fn has_dark_form(ctx: ContextView) -> bool {
    ctx.casts.contains_key(DARK_FORM)
}

pub open spec fn has_elemental_form(ctx: ContextView) -> bool {
    !has_dark_form(ctx) || ctx.casts.contains_key(DARK_PHASE_EVENT)
}

/// When a record first referred to the boss; 0 where none did.
pub open spec fn boss_first_aware(data: DataView) -> Time {
    if data.agents.contains_key(data.boss.0) {
        data.agents[data.boss.0].first_aware
    } else {
        0
    }
}

/// The highest maximum health reported for the boss; 0 where none was.
pub open spec fn boss_health(data: DataView) -> u64 {
    if data.agents.contains_key(data.boss.0) {
        data.agents[data.boss.0].health
    } else {
        0
    }
}

/// Where in a log that holds both stages the second begins, going by the
/// casts and toggles alone: the millisecond after the first starting cast
/// that is not before the first cast that announces the stage, or 0 where
/// no such cast was seen; moved on to the millisecond after the first
/// removal of the second invulnerability that is not before that. It is 0
/// for a log that holds one stage.
pub open spec fn transition_offset(ctx: ContextView) -> Time {
    if has_elemental_form(ctx) && has_dark_form(ctx) {
        let announced = if ctx.casts[DARK_PHASE_EVENT].len() > 0 {
            ctx.casts[DARK_PHASE_EVENT][0]
        } else {
            0
        };
        let cast = match first_cast(ctx.casts, DARK_TRANSITION, announced) {
            Some(t) => spec_next_ms(t),
            None => 0,
        };
        match first_toggle_at(ctx.other_invuln_changes, 0, cast, true) {
            Some(t) => spec_next_ms(t),
            None => cast,
        }
    } else {
        0
    }
}

/// Where the second stage begins: at `transition_offset`, but not before
/// the boss was first referred to.
pub open spec fn dark_offset(data: DataView, ctx: ContextView) -> Time {
    if transition_offset(ctx) >= boss_first_aware(data) {
        transition_offset(ctx)
    } else {
        boss_first_aware(data)
    }
}

/// The first stage as an encounter: it starts when the boss was first
/// referred to, and it is won if the log's context says so.
pub open spec fn elemental_encounter(data: DataView, ctx: ContextView) -> EncounterView {
    EncounterView {
        target: Target::AiElemental,
        success: ctx.success is Some,
        phases: spec_phases_ai_elemental(ContextView { start: boss_first_aware(data), ..ctx }),
    }
}

/// When the second stage was won. In a log that holds both stages that is
/// decided anew, from the start of the second stage on.
pub open spec fn dark_success(data: DataView, ctx: ContextView) -> Option<Time> {
    if has_elemental_form(ctx) {
        spec_check_success_ai(ctx, dark_offset(data, ctx))
    } else {
        ctx.success
    }
}

/// The second stage as an encounter, in times counted from its start.
pub open spec fn dark_encounter(data: DataView, ctx: ContextView) -> EncounterView {
    EncounterView {
        target: Target::AiDark,
        success: dark_success(data, ctx) is Some,
        phases: spec_phases_ai_dark(
            ContextView { success: dark_success(data, ctx), ..ctx },
            dark_offset(data, ctx),
        ),
    }
}

/// The encounters in a log of the two-stage boss: the first stage unless
/// the log holds the second alone, then the second if the log holds it.
pub open spec fn spec_parse_ai(data: DataView, ctx: ContextView) -> Seq<EncounterView> {
    let first = if has_elemental_form(ctx) {
        seq![elemental_encounter(data, ctx)]
    } else {
        Seq::empty()
    };
    if has_dark_form(ctx) {
        first.push(dark_encounter(data, ctx))
    } else {
        first
    }
}

pub fn parse_ai(data: &Data, ctx: LogContext) -> (encounters: Vec<Encounter>)
    ensures
        encounter_views(encounters@) == spec_parse_ai(data@, ctx@),
        1 <= encounters@.len() <= 2,
        forall|i: int| 0 <= i < encounters@.len() ==> (#[trigger] encounters@[i]).wf(),
{
    let has_dark: bool = ctx.casts.contains_key(&DARK_FORM);
    let announced: Option<Time> = match ctx.casts.get(&DARK_PHASE_EVENT) {
        Some(times) => Some(
            if times.len() > 0 {
                times[0]
            } else {
                0
            },
        ),
        None => None,
    };
    let has_elemental: bool = !has_dark || announced.is_some();
    let mut offset: Time = 0;
    if has_elemental && has_dark {
        if let Some(announced) = announced {
            offset = match find_cast(&ctx.casts, DARK_TRANSITION, announced) {
                Some(t) => next_ms(t),
                None => 0,
            };
            if let Some(t) = find_toggle(&ctx.other_invuln_changes, offset, true) {
                offset = next_ms(t);
            }
        }
    }
    assert(offset == transition_offset(ctx@));
    let key: u16 = data.boss.to_inner();
    let first_aware: Time = match data.agents.get(&key) {
        Some(boss) => boss.first_aware,
        None => 0,
    };
    let ghost given = ctx@;
    let mut ctx = ctx;
    let mut encounters: Vec<Encounter> = Vec::new();
    if has_elemental {
        ctx.start = first_aware;
        let phases = parse_phases_ai_elemental(&ctx);
        encounters.push(
            Encounter { target: Target::AiElemental, success: ctx.success.is_some(), phases },
        );
    }
    if has_dark {
        if first_aware > offset {
            offset = first_aware;
        }
        if has_elemental {
            ctx.success = check_success_ai(&ctx, offset);
        }
        assert(ctx@.success == dark_success(data@, given));
        assert(spec_phases_ai_dark(ctx@, offset) == spec_phases_ai_dark(
            ContextView { success: dark_success(data@, given), ..given },
            offset,
        ));
        let phases = parse_phases_ai_dark(&ctx, offset);
        encounters.push(
            Encounter { target: Target::AiDark, success: ctx.success.is_some(), phases },
        );
    }
    assert(encounter_views(encounters@) =~= spec_parse_ai(data@, given));
    encounters
}

/// The encounters that a decoded log of `target` holds. There are none
/// where the boss has less health than the strategy of the target asks
/// for, and none where the target is a stage of the two-stage boss, which
/// no log is of. A log of the two-stage boss holds one or two encounters;
/// any other holds one.
pub open spec fn spec_encounters(data: DataView, target: Target) -> Option<Seq<EncounterView>> {
    if !target.is_logged() {
        None
    } else if boss_health(data) < spec_strategy(target).min_health {
        None
    } else {
        let ctx = spec_gather_context(data, target);
        if spec_strategy(target).phases == PhaseRule::TwoStage {
            Some(spec_parse_ai(data, ctx))
        } else {
            Some(
                seq![
                    EncounterView {
                        target,
                        success: ctx.success is Some,
                        phases: spec_phases_by_invulns(ctx, target),
                    },
                ],
            )
        }
    }
}

/// Finds the encounters in a decoded log of `target`.
pub fn analyse(data: &Data, target: Target) -> (r: Option<Vec<Encounter>>)
    ensures
        match r {
            Some(encounters) => {
                &&& spec_encounters(data@, target) == Some(encounter_views(encounters@))
                &&& 1 <= encounters@.len() <= 2
                &&& forall|i: int| 0 <= i < encounters@.len() ==> (#[trigger] encounters@[i]).wf()
            },
            None => spec_encounters(data@, target) is None,
        },
{
    match target {
        Target::AiElemental | Target::AiDark => {
            return None;
        },
        _ => {},
    }
    let strategy = strategy(target);
    let key: u16 = data.boss.to_inner();
    let health: u64 = match data.agents.get(&key) {
        Some(boss) => boss.health,
        None => 0,
    };
    if health < strategy.min_health {
        return None;
    }
    let ctx = gather_context(data, target);
    if strategy.phases == PhaseRule::TwoStage {
        return Some(parse_ai(data, ctx));
    }
    let phases = parse_phases(&ctx, target);
    let mut encounters: Vec<Encounter> = Vec::new();
    encounters.push(Encounter { target, success: ctx.success.is_some(), phases });
    assert(encounter_views(encounters@) =~= spec_encounters(data@, target)->0);
    Some(encounters)
}

/// The target that the header of a log names, if it is a supported one.
pub open spec fn spec_target(bytes: Seq<u8>) -> Option<Target> {
    match spec_target_id(bytes) {
        Some(id) => Target::spec_from_id(id),
        None => None,
    }
}

/// What a log tells.
///
/// A buffer that cannot be decoded is an error, whatever its header names.
/// A log of a target that is not supported tells nothing, and neither does
/// one in which `spec_encounters` finds nothing. Any other tells its
/// encounters and all that was decoded.
pub open spec fn spec_analysis(bytes: Seq<u8>) -> Result<
    Option<(Seq<EncounterView>, DataView)>,
    ParseError,
> {
    match spec_parse(bytes) {
        Err(e) => Err(e),
        Ok(data) => match spec_target(bytes) {
            None => Ok(None),
            Some(target) => match spec_encounters(data, target) {
                None => Ok(None),
                Some(encounters) => Ok(Some((encounters, data))),
            },
        },
    }
}

/// What came out of `parse`, as plain values.
pub open spec fn outcome_view(r: Result<Option<(Vec<Encounter>, Data)>, ParseError>) -> Result<
    Option<(Seq<EncounterView>, DataView)>,
    ParseError,
> {
    match r {
        Err(e) => Err(e),
        Ok(None) => Ok(None),
        Ok(Some((encounters, data))) => Ok(Some((encounter_views(encounters@), data@))),
    }
}

/// Decodes a log and finds the encounters in it.
pub fn parse(bytes: &[u8]) -> (r: Result<Option<(Vec<Encounter>, Data)>, ParseError>)
    ensures
        outcome_view(r) == spec_analysis(bytes@),
        spec_revision(bytes@) matches Some(revision) && revision != 1 ==> r is Err && r->Err_0
            == ParseError::UnsupportedRevision,
        r matches Ok(Some((encounters, _))) ==> {
            &&& 1 <= encounters@.len() <= 2
            &&& forall|i: int| 0 <= i < encounters@.len() ==> (#[trigger] encounters@[i]).wf()
        },
{
    let data = match evtc::parse(bytes) {
        Ok(data) => data,
        Err(e) => {
            return Err(e);
        },
    };
    let target = match target_id(bytes) {
        Some(id) => match Target::from_id(id) {
            Some(target) => target,
            None => {
                return Ok(None);
            },
        },
        None => {
            return Ok(None);
        },
    };
    match analyse(&data, target) {
        Some(encounters) => Ok(Some((encounters, data))),
        None => Ok(None),
    }
}

/// `parse` is a function of the bytes: whatever two runs on the same
/// buffer return, it is the same encounters and the same data, or the same
/// error.
pub proof fn lemma_parse_is_deterministic(
    bytes: Seq<u8>,
    first: Result<Option<(Vec<Encounter>, Data)>, ParseError>,
    second: Result<Option<(Vec<Encounter>, Data)>, ParseError>,
)
    requires
        outcome_view(first) == spec_analysis(bytes),
        outcome_view(second) == spec_analysis(bytes),
    ensures
        outcome_view(first) == outcome_view(second),
{
}

/// A log whose header states a revision other than 1 tells nothing at
/// all: the outcome is the error, with no encounters and no data.
pub proof fn lemma_unsupported_revision(bytes: Seq<u8>)
    requires
        spec_revision(bytes) matches Some(revision) && revision != 1,
    ensures
        spec_parse(bytes) == Err::<DataView, ParseError>(ParseError::UnsupportedRevision),
        spec_analysis(bytes) == Err::<Option<(Seq<EncounterView>, DataView)>, ParseError>(
            ParseError::UnsupportedRevision,
        ),
{
}


/// Where a log holds encounters, it holds one or two; each has its first
/// phase, and no phase of it ends before it starts. An encounter that is
/// not with the two-stage boss is with the target of the log; the
/// two-stage boss gives its stages, the first one first.
pub proof fn lemma_encounters_are_well_formed(data: DataView, target: Target)
    requires
        spec_encounters(data, target) is Some,
    ensures
        1 <= spec_encounters(data, target)->0.len() <= 2,
        forall|i: int|
            0 <= i < spec_encounters(data, target)->0.len() ==> well_formed(
                (#[trigger] spec_encounters(data, target)->0[i]).phases,
            ),
        spec_strategy(target).phases != PhaseRule::TwoStage ==> {
            &&& spec_encounters(data, target)->0.len() == 1
            &&& spec_encounters(data, target)->0[0].target == target
        },
        spec_strategy(target).phases == PhaseRule::TwoStage ==> {
            &&& spec_encounters(data, target)->0[0].target == Target::AiElemental
                || spec_encounters(data, target)->0[0].target == Target::AiDark
            &&& spec_encounters(data, target)->0.last().target == Target::AiElemental
                || spec_encounters(data, target)->0.last().target == Target::AiDark
            &&& spec_encounters(data, target)->0.len() == 2 ==> spec_encounters(
                data,
                target,
            )->0[0].target == Target::AiElemental && spec_encounters(
                data,
                target,
            )->0[1].target == Target::AiDark
        },
{
    let ctx = spec_gather_context(data, target);
    if spec_strategy(target).phases == PhaseRule::TwoStage {
        lemma_phases_ai_elemental(ContextView { start: boss_first_aware(data), ..ctx });
        lemma_phases_ai_dark(
            ContextView { success: dark_success(data, ctx), ..ctx },
            dark_offset(data, ctx),
        );
    } else {
        lemma_phases_by_invulns(ctx, target);
    }
}

} // verus!
