//! Where the phases of an encounter lie.

use super::context::{next_ms, spec_next_ms, ContextView, LogContext};
use super::evtc::Time;
use super::phase::{phase_views, push_phase, spec_phase, Phase, PhaseView};
use super::strategy::{spec_strategy, strategy, PhaseRule};
use super::success::{find_cast, first_cast};
use crate::target::Target;
use vstd::prelude::*;

verus! {

/// The cast with which the first stage of the two-stage boss resumes the
/// fight after an invulnerability.
pub const ELEMENTAL_RESUME: i32 = 61385;

/// The casts that open the second and the third phase of the second stage.
pub const FEAR_TO_SORROW: i32 = 61606;

pub const SORROW_TO_GUILT: i32 = 61602;

/// When the encounter ended: when the group won, or else with the last
/// event.
pub open spec fn spec_end_time(ctx: ContextView) -> Time {
    match ctx.success {
        Some(t) => t,
        None => ctx.last_event,
    }
}

pub fn end_time(ctx: &LogContext) -> (t: Time)
    ensures
        t == spec_end_time(ctx@),
{
    match ctx.success {
        Some(t) => t,
        None => ctx.last_event,
    }
}

/// Whether the phases of `target` are told by the toggles of its
/// invulnerability.
pub open spec fn has_invuln_phases(target: Target) -> bool {
    spec_strategy(target).phases != PhaseRule::TwoStage
}

/// How many pairs of toggles follow the first of `n` toggles.
pub open spec fn pair_count(n: nat) -> nat {
    if n == 0 {
        0
    } else {
        ((n - 1) / 2) as nat
    }
}

/// The `i`-th phase that the toggles carve out:
/// - phase 0 is the whole encounter;
/// - phase 1 runs from the start to the first toggle, or to the end where
///   there is no toggle;
/// - each pair of toggles after the first toggle is a phase;
/// - the last toggle, whether or not it closed a phase, opens the phase
///   that runs to the end.
pub open spec fn carved_phase(ctx: ContextView, i: int) -> PhaseView {
    let changes = ctx.invuln_changes;
    if i <= 0 {
        spec_phase(ctx.start, spec_end_time(ctx))
    } else if i == 1 {
        if changes.len() > 0 {
            spec_phase(ctx.start, changes[0].0)
        } else {
            spec_phase(ctx.start, spec_end_time(ctx))
        }
    } else if i < 2 + pair_count(changes.len()) {
        spec_phase(changes[2 * i - 3].0, changes[2 * i - 2].0)
    } else {
        spec_phase(changes.last().0, spec_end_time(ctx))
    }
}

/// How many phases the toggles carve out.
pub open spec fn carved_count(ctx: ContextView) -> nat {
    let n = ctx.invuln_changes.len();
    if n > 0 {
        3 + pair_count(n)
    } else {
        2
    }
}

pub open spec fn carved_phases(ctx: ContextView) -> Seq<PhaseView> {
    Seq::new(carved_count(ctx), |i: int| carved_phase(ctx, i))
}

/// How many of the gaps between the carved phases count as splits: the
/// gap before each pair, and the gap before the last phase if the toggle
/// that opens it is a removal.
pub open spec fn split_count(ctx: ContextView) -> nat {
    let n = ctx.invuln_changes.len();
    if n > 0 && ctx.invuln_changes.last().1 {
        1 + pair_count(n)
    } else {
        pair_count(n)
    }
}

/// The splits: the `i`-th runs from the end of phase `i + 1` to the start
/// of phase `i + 2`.
pub open spec fn split_phases(ctx: ContextView) -> Seq<PhaseView> {
    Seq::new(
        split_count(ctx),
        |i: int| spec_phase(carved_phase(ctx, i + 1).end, carved_phase(ctx, i + 2).start),
    )
}

/// The phases of an encounter with a boss whose phases are told by its
/// invulnerability. Where the strategy of the target lists splits, they
/// follow the phases.
pub open spec fn spec_phases_by_invulns(ctx: ContextView, target: Target) -> Seq<PhaseView> {
    if spec_strategy(target).phases == PhaseRule::InvulnsAndSplits {
        carved_phases(ctx) + split_phases(ctx)
    } else {
        carved_phases(ctx)
    }
}

pub fn parse_phases_by_invulns(ctx: &LogContext, target: Target) -> (phases: Vec<Phase>)
    ensures
        phase_views(phases@) == spec_phases_by_invulns(ctx@, target),
        phases@.len() >= 2,
{
    let n: usize = ctx.invuln_changes.len();
    let start: Time = ctx.start;
    let end: Time = end_time(ctx);
    let siax: bool = strategy(target).phases == PhaseRule::InvulnsAndSplits;
    let mut phases: Vec<Phase> = Vec::new();
    let mut splits: Vec<Phase> = Vec::new();
    push_phase(&mut phases, start, end);
    if n > 0 {
        push_phase(&mut phases, start, ctx.invuln_changes[0].0);
    } else {
        push_phase(&mut phases, start, end);
    }
    let pairs: usize = if n == 0 {
        0
    } else {
        (n - 1) / 2
    };
    assert(phase_views(phases@) =~= Seq::new(2, |i: int| carved_phase(ctx@, i)));
    assert(phase_views(splits@) =~= Seq::new(
        0,
        |i: int| spec_phase(carved_phase(ctx@, i + 1).end, carved_phase(ctx@, i + 2).start),
    ));
    let mut k: usize = 0;
    while k < pairs
        invariant
            k <= pairs,
            pairs == pair_count(n as nat),
            n == ctx@.invuln_changes.len(),
            phases@.len() == 2 + k,
            phase_views(phases@) == Seq::new((2 + k) as nat, |i: int| carved_phase(ctx@, i)),
            phase_views(splits@) == Seq::new(
                (if siax {
                    k
                } else {
                    0
                }) as nat,
                |i: int| spec_phase(carved_phase(ctx@, i + 1).end, carved_phase(ctx@, i + 2).start),
            ),
        decreases pairs - k,
    {
        let from: Time = ctx.invuln_changes[2 * k + 1].0;
        let to: Time = ctx.invuln_changes[2 * k + 2].0;
        assert(carved_phase(ctx@, 2 + k) == spec_phase(from, to));
        if siax {
            let last: Time = phases[phases.len() - 1].end();
            assert(last == phase_views(phases@)[1 + k].end);
            push_phase(&mut splits, last, from);
            assert(phase_views(splits@) =~= Seq::new(
                (k + 1) as nat,
                |i: int| spec_phase(carved_phase(ctx@, i + 1).end, carved_phase(ctx@, i + 2).start),
            ));
        }
        push_phase(&mut phases, from, to);
        assert(phase_views(phases@) =~= Seq::new((3 + k) as nat, |i: int| carved_phase(ctx@, i)));
        k += 1;
    }
    if n > 0 {
        let time: Time = ctx.invuln_changes[n - 1].0;
        let was_removal: bool = ctx.invuln_changes[n - 1].1;
        assert(carved_phase(ctx@, 2 + pairs) == spec_phase(time, end));
        if siax && was_removal {
            let last: Time = phases[phases.len() - 1].end();
            assert(last == phase_views(phases@)[1 + pairs].end);
            push_phase(&mut splits, last, time);
        }
        push_phase(&mut phases, time, end);
    }
    assert(phase_views(phases@) =~= carved_phases(ctx@));
    if siax {
        assert(phase_views(splits@) =~= split_phases(ctx@));
        let ghost main = phases@;
        let ghost extra = splits@;
        phases.append(&mut splits);
        assert(phase_views(main + extra) =~= phase_views(main) + phase_views(extra));
    }
    phases
}

/// The phases of an encounter with `target`, which is a boss whose phases
/// are told by its invulnerability.
pub fn parse_phases(ctx: &LogContext, target: Target) -> (phases: Vec<Phase>)
    requires
        has_invuln_phases(target),
    ensures
        phase_views(phases@) == spec_phases_by_invulns(ctx@, target),
        phases@.len() >= 2,
{
    parse_phases_by_invulns(ctx, target)
}

/// The times of the toggles in the direction `removal`, in order.
pub open spec fn times_of(changes: Seq<(Time, bool)>, removal: bool) -> Seq<Time>
    decreases changes.len(),
{
    if changes.len() == 0 {
        Seq::empty()
    } else if changes.last().1 == removal {
        times_of(changes.drop_last(), removal).push(changes.last().0)
    } else {
        times_of(changes.drop_last(), removal)
    }
}

pub fn toggle_times(changes: &Vec<(Time, bool)>, removal: bool) -> (times: Vec<Time>)
    ensures
        times@ == times_of(changes@, removal),
{
    let mut times: Vec<Time> = Vec::new();
    let mut i: usize = 0;
    assert(changes@.take(0) =~= Seq::empty());
    while i < changes.len()
        invariant
            i <= changes.len(),
            times@ == times_of(changes@.take(i as int), removal),
        decreases changes.len() - i,
    {
        assert(changes@.take(i + 1).drop_last() =~= changes@.take(i as int));
        if changes[i].1 == removal {
            times.push(changes[i].0);
        }
        i += 1;
    }
    assert(changes@.take(changes.len() as int) =~= changes@);
    times
}

/// The phases of the first stage from the `i`-th application of the
/// invulnerability on, the phase at hand having started at `start`. Each
/// application ends a phase. The next phase starts with the first resuming
/// cast that is not before the removal that answers the application; where
/// there is no such cast the phases end. An application that no removal
/// answers leaves the start where it was.
pub open spec fn elemental_rest(
    applied: Seq<Time>,
    removed: Seq<Time>,
    casts: Map<i32, Seq<Time>>,
    i: int,
    start: Time,
) -> Seq<PhaseView>
    decreases applied.len() - i,
{
    if i < 0 || i >= applied.len() {
        Seq::empty()
    } else {
        let here = seq![spec_phase(start, applied[i])];
        if i < removed.len() {
            match first_cast(casts, ELEMENTAL_RESUME, removed[i]) {
                Some(resumed) => here + elemental_rest(applied, removed, casts, i + 1, resumed),
                None => here,
            }
        } else {
            here + elemental_rest(applied, removed, casts, i + 1, start)
        }
    }
}

/// The phases of the first stage of the two-stage boss: the whole stage,
/// then the phases that its invulnerability carves out.
pub open spec fn spec_phases_ai_elemental(ctx: ContextView) -> Seq<PhaseView> {
    seq![spec_phase(ctx.start, spec_end_time(ctx))] + elemental_rest(
        times_of(ctx.invuln_changes, false),
        times_of(ctx.invuln_changes, true),
        ctx.casts,
        0,
        ctx.start,
    )
}

pub fn parse_phases_ai_elemental(ctx: &LogContext) -> (phases: Vec<Phase>)
    ensures
        phase_views(phases@) == spec_phases_ai_elemental(ctx@),
        phases@.len() >= 1,
{
    let mut phases: Vec<Phase> = Vec::new();
    push_phase(&mut phases, ctx.start, end_time(ctx));
    let removed = toggle_times(&ctx.invuln_changes, true);
    let applied = toggle_times(&ctx.invuln_changes, false);
    let mut start: Time = ctx.start;
    let mut i: usize = 0;
    assert(phase_views(phases@) =~= seq![spec_phase(ctx@.start, spec_end_time(ctx@))]);
    while i < applied.len()
        invariant
            i <= applied.len(),
            phases@.len() >= 1,
            applied@ == times_of(ctx@.invuln_changes, false),
            removed@ == times_of(ctx@.invuln_changes, true),
            phase_views(phases@) + elemental_rest(applied@, removed@, ctx@.casts, i as int, start)
                == spec_phases_ai_elemental(ctx@),
        decreases applied.len() - i,
    {
        let ghost before = phase_views(phases@);
        let ghost here = seq![spec_phase(start, applied@[i as int])];
        push_phase(&mut phases, start, applied[i]);
        assert(phase_views(phases@) =~= before + here);
        if i < removed.len() {
            match find_cast(&ctx.casts, ELEMENTAL_RESUME, removed[i]) {
                Some(resumed) => {
                    assert(before + (here + elemental_rest(
                        applied@,
                        removed@,
                        ctx@.casts,
                        i + 1,
                        resumed,
                    )) =~= (before + here) + elemental_rest(
                        applied@,
                        removed@,
                        ctx@.casts,
                        i + 1,
                        resumed,
                    ));
                    start = resumed;
                },
                None => {
                    return phases;
                },
            }
        } else {
            assert(before + (here + elemental_rest(
                applied@,
                removed@,
                ctx@.casts,
                i + 1,
                start,
            )) =~= (before + here) + elemental_rest(applied@, removed@, ctx@.casts, i + 1, start));
        }
        i += 1;
    }
    assert(phase_views(phases@) + Seq::<PhaseView>::empty() =~= phase_views(phases@));
    phases
}

/// How long after `offset` the time `t` lies; 0 for a time before it.
pub open spec fn spec_since(t: Time, offset: Time) -> Time {
    if t >= offset {
        (t - offset) as u64
    } else {
        0
    }
}

pub fn since(t: Time, offset: Time) -> (r: Time)
    ensures
        r == spec_since(t, offset),
{
    if t >= offset {
        t - offset
    } else {
        0
    }
}

/// The phases of the second stage of the two-stage boss, which starts at
/// `offset`, in times counted from `offset`: the whole stage; and, where
/// the cast that ends the first phase was seen after `offset`, the first
/// phase up to that cast and the second from the millisecond after it to
/// the end, or, where the cast that ends the second was seen too, up to
/// that cast, with a third phase from the millisecond after it to the end.
pub open spec fn spec_phases_ai_dark(ctx: ContextView, offset: Time) -> Seq<PhaseView> {
    let end = spec_since(spec_end_time(ctx), offset);
    let whole = seq![spec_phase(0, end)];
    match first_cast(ctx.casts, FEAR_TO_SORROW, offset) {
        None => whole,
        Some(sorrow) => {
            let first = spec_phase(1, spec_since(sorrow, offset));
            let second_start = spec_next_ms(spec_since(sorrow, offset));
            match first_cast(ctx.casts, SORROW_TO_GUILT, offset) {
                None => whole.push(first).push(spec_phase(second_start, end)),
                Some(guilt) => whole.push(first).push(
                    spec_phase(second_start, spec_since(guilt, offset)),
                ).push(spec_phase(spec_next_ms(spec_since(guilt, offset)), end)),
            }
        },
    }
}

pub fn parse_phases_ai_dark(ctx: &LogContext, offset: Time) -> (phases: Vec<Phase>)
    ensures
        phase_views(phases@) == spec_phases_ai_dark(ctx@, offset),
        phases@.len() >= 1,
{
    let end: Time = since(end_time(ctx), offset);
    let mut phases: Vec<Phase> = Vec::new();
    push_phase(&mut phases, 0, end);
    assert(phase_views(phases@) =~= seq![spec_phase(0, end)]);
    if let Some(sorrow) = find_cast(&ctx.casts, FEAR_TO_SORROW, offset) {
        push_phase(&mut phases, 1, since(sorrow, offset));
        let second_start: Time = next_ms(since(sorrow, offset));
        match find_cast(&ctx.casts, SORROW_TO_GUILT, offset) {
            Some(guilt) => {
                push_phase(&mut phases, second_start, since(guilt, offset));
                push_phase(&mut phases, next_ms(since(guilt, offset)), end);
            },
            None => {
                push_phase(&mut phases, second_start, end);
            },
        }
    }
    phases
}


/// Whether `phases` are the phases of an encounter: there is a first one,
/// and none ends before it starts.
pub open spec fn well_formed(phases: Seq<PhaseView>) -> bool {
    &&& phases.len() > 0
    &&& forall|i: int| 0 <= i < phases.len() ==> (#[trigger] phases[i]).start <= phases[i].end
}

/// The phases that the toggles carve out, with the splits where there are
/// any, are the phases of an encounter. There are at least the encounter
/// and its first phase.
pub proof fn lemma_phases_by_invulns(ctx: ContextView, target: Target)
    ensures
        well_formed(spec_phases_by_invulns(ctx, target)),
        spec_phases_by_invulns(ctx, target).len() >= 2,
        spec_phases_by_invulns(ctx, target)[0] == spec_phase(ctx.start, spec_end_time(ctx)),
{
}

/// The phases of the first stage from any application on are each no
/// shorter than nothing.
pub proof fn lemma_elemental_rest(
    applied: Seq<Time>,
    removed: Seq<Time>,
    casts: Map<i32, Seq<Time>>,
    i: int,
    start: Time,
)
    ensures
        forall|k: int|
            0 <= k < elemental_rest(applied, removed, casts, i, start).len() ==> (
            #[trigger] elemental_rest(applied, removed, casts, i, start)[k]).start
                <= elemental_rest(applied, removed, casts, i, start)[k].end,
    decreases applied.len() - i,
{
    if 0 <= i < applied.len() {
        if i < removed.len() {
            match first_cast(casts, ELEMENTAL_RESUME, removed[i]) {
                Some(resumed) => lemma_elemental_rest(applied, removed, casts, i + 1, resumed),
                None => {},
            }
        } else {
            lemma_elemental_rest(applied, removed, casts, i + 1, start);
        }
    }
}

/// The phases of the first stage are the phases of an encounter.
pub proof fn lemma_phases_ai_elemental(ctx: ContextView)
    ensures
        well_formed(spec_phases_ai_elemental(ctx)),
        spec_phases_ai_elemental(ctx)[0] == spec_phase(ctx.start, spec_end_time(ctx)),
{
    lemma_elemental_rest(
        times_of(ctx.invuln_changes, false),
        times_of(ctx.invuln_changes, true),
        ctx.casts,
        0,
        ctx.start,
    );
}

/// The phases of the second stage are the phases of an encounter, and the
/// stage starts at 0.
pub proof fn lemma_phases_ai_dark(ctx: ContextView, offset: Time)
    ensures
        well_formed(spec_phases_ai_dark(ctx, offset)),
        spec_phases_ai_dark(ctx, offset)[0] == spec_phase(
            0,
            spec_since(spec_end_time(ctx), offset),
        ),
{
}

} // verus!
