//! Properties of the loop that span its rules and its ticks.
use vstd::prelude::*;

use crate::binary64::Bits;
use crate::model::{ActionView, AgentConfigView, ComponentView, ObservationView};
use crate::phase::Phase;
use crate::rules::{
    commissioned, own_sign, phase_rank, run, decision, evasive, is_relevant, relevant_of, warning_pattern, FleetAgentView,
    COMMISSIONING_TICKS,
};

verus! {

/// An agent is commissioning exactly while it is younger than fifty ticks,
/// whatever its energy and observations.
pub proof fn law_commissioning_by_age(a: FleetAgentView, low_energy: bool)
    ensures
        (a.phase(low_energy) == Phase::Commissioning) <==> a.tick < COMMISSIONING_TICKS,
{
}

/// After commissioning, low energy means recovering, even on a collision course.
pub proof fn law_recovering_takes_priority(a: FleetAgentView)
    requires
        a.tick >= COMMISSIONING_TICKS,
    ensures
        a.phase(true) == Phase::Recovering,
{
}

/// After commissioning, with enough energy, the agent is stressed exactly when
/// some observation it has received was on a collision course, and
/// operational otherwise.
pub proof fn law_stress_from_collision_course(a: FleetAgentView)
    requires
        a.tick >= COMMISSIONING_TICKS,
    ensures
        a.phase(false) == (if a.stressed() { Phase::Stressed } else { Phase::Operational }),
{
}

/// A tick ages the agent by one, appends exactly one log line stamped with the
/// old age and the tick's phase, keeps every earlier line, every earlier
/// observation and the configuration, and stamps the state with the keel date
/// plus the new age.
pub proof fn law_tick_records(a: FleetAgentView, ext: Seq<ObservationView>, low_energy: bool)
    requires
        a.tick < u64::MAX,
        a.config.keel_date + a.tick + 1 <= u64::MAX,
    ensures
        a.after_tick(ext, low_energy).tick == a.tick + 1,
        a.after_tick(ext, low_energy).log.len() == a.log.len() + 1,
        a.after_tick(ext, low_energy).log.subrange(0, a.log.len() as int) == a.log,
        a.after_tick(ext, low_energy).log.last().tick == a.tick,
        a.after_tick(ext, low_energy).log.last().phase == a.tick_phase(ext, low_energy),
        a.after_tick(ext, low_energy).observations.subrange(0, a.observations.len() as int) == a.observations,
        a.after_tick(ext, low_energy).observations.len() == a.observations.len() + ext.len(),
        a.after_tick(ext, low_energy).config == a.config,
        a.after_tick(ext, low_energy).state.timestamp == a.config.keel_date + a.after_tick(ext, low_energy).tick,
        a.after_tick(ext, low_energy).build.keel_date == a.build.keel_date,
{
    assert(a.after_tick(ext, low_energy).log.subrange(0, a.log.len() as int) =~= a.log);
    assert(a.after_tick(ext, low_energy).observations.subrange(0, a.observations.len() as int) =~= a.observations);
}

/// Once commissioning is over it never comes back: ticks only make the agent older.
pub proof fn law_commissioning_never_returns(
    a: FleetAgentView,
    ext: Seq<ObservationView>,
    low_energy: bool,
    later_low_energy: bool,
)
    requires
        a.tick < u64::MAX,
        a.phase(low_energy) != Phase::Commissioning,
    ensures
        a.after_tick(ext, low_energy).phase(later_low_energy) != Phase::Commissioning,
{
}

/// Stress is remembered: an agent that has seen a collision course still has
/// after any further tick.
pub proof fn law_stress_persists(a: FleetAgentView, ext: Seq<ObservationView>, low_energy: bool)
    requires
        a.stressed(),
        a.tick < u64::MAX,
    ensures
        a.after_tick(ext, low_energy).stressed(),
{
    let i = choose|i: int| 0 <= i < a.observations.len() && crate::rules::on_collision_course(#[trigger] a.observations[i]);
    assert(a.after_tick(ext, low_energy).observations[i] == a.observations[i]);
}

/// A tick keeps the agent's own sign pattern made of `1` and `-1`, and of the
/// same length.
pub proof fn law_tick_keeps_signs(a: FleetAgentView, ext: Seq<ObservationView>, low_energy: bool)
    requires
        a.well_formed(),
        a.tick < u64::MAX,
    ensures
        a.after_tick(ext, low_energy).well_formed(),
        a.after_tick(ext, low_energy).state.sign_pattern.len() == a.state.sign_pattern.len(),
{
    let p = a.after_tick(ext, low_energy).state.sign_pattern;
    assert forall|i: int| 0 <= i < p.len() implies #[trigger] p[i] == 1 || p[i] == -1 by {
        assert(a.state.sign_pattern[i] == 1 || a.state.sign_pattern[i] == -1);
    }
}

/// Every observation a tick senses is relevant and is one of the external
/// observations, and every relevant external observation is sensed.
pub proof fn law_sensed_are_relevant(ext: Seq<ObservationView>, own: Seq<i8>)
    ensures
        forall|i: int| 0 <= i < relevant_of(ext, own).len() ==> is_relevant(#[trigger] relevant_of(ext, own)[i], own)
            && ext.contains(relevant_of(ext, own)[i]),
        forall|o: ObservationView| ext.contains(o) && is_relevant(o, own) ==> #[trigger] relevant_of(ext, own).contains(o),
        relevant_of(ext, own).len() <= ext.len(),
{
    let pred = |o: ObservationView| is_relevant(o, own);
    ext.lemma_filter_len(pred);
    assert forall|i: int| 0 <= i < relevant_of(ext, own).len() implies is_relevant(#[trigger] relevant_of(ext, own)[i], own)
        && ext.contains(relevant_of(ext, own)[i]) by {
        ext.lemma_filter_pred(pred, i);
        assert(ext.filter(pred).contains(ext.filter(pred)[i]));
        ext.lemma_filter_contains_rev(pred, ext.filter(pred)[i]);
    }
    assert forall|o: ObservationView| ext.contains(o) && is_relevant(o, own) implies #[trigger] relevant_of(ext, own).contains(o) by {
        let k = choose|k: int| 0 <= k < ext.len() && ext[k] == o;
        ext.lemma_filter_contains(pred, k);
    }
}

/// While commissioning or recovering the agent only holds.
pub proof fn law_hold_while_learning_or_recovering(
    config: AgentConfigView,
    refits: nat,
    obs: Seq<ObservationView>,
    constraints_ok: bool,
    phase: Phase,
)
    requires
        phase == Phase::Commissioning || phase == Phase::Recovering,
    ensures
        decision(config, refits, obs, constraints_ok, phase) == seq![ActionView::Hold],
{
}

/// Under stress the agent always ends by broadcasting the warning pattern;
/// before it, it turns to the opposite heading if it has one, or else prunes
/// the first relevant observation's sender if there is one.
pub proof fn law_stress_response(config: AgentConfigView, refits: nat, obs: Seq<ObservationView>, constraints_ok: bool)
    ensures
        ({
            let acts = decision(config, refits, obs, constraints_ok, Phase::Stressed);
            &&& acts.len() >= 1
            &&& acts.last() == ActionView::Broadcast(warning_pattern())
            &&& config.heading is Some ==> acts.len() == 2
                && acts[0] == ActionView::ChangeHeading(evasive(config.heading->0))
            &&& config.heading is None && obs.len() > 0 ==> acts.len() == 2
                && acts[0] == (ActionView::Prune { target: obs[0].from, reason: "collision avoidance"@ })
            &&& config.heading is None && obs.len() == 0 ==> acts.len() == 1
        }),
{
}

/// A violated constraint in normal operation always leads to exactly one refit
/// of the core, numbered after the earlier refits.
pub proof fn law_violation_refits_core(config: AgentConfigView, refits: nat, obs: Seq<ObservationView>)
    ensures
        decision(config, refits, obs, false, Phase::Operational) == seq![
            ActionView::Refit(ComponentView { name: "core"@, version: crate::rules::refit_version(refits) })
        ],
{
}

/// Turning away twice restores the heading.
pub proof fn law_evasive_twice_restores(h: crate::model::HeadingView)
    ensures
        evasive(evasive(h)) == h,
{
    assert forall|i: int| 0 <= i < h.direction.len() implies #[trigger] evasive(evasive(h)).direction[i] == h.direction[i] by {
        crate::binary64::lemma_neg_properties(h.direction[i]);
    }
    assert(evasive(evasive(h)).direction =~= h.direction);
}

/// A commissioning tick only holds; so does a tick of an agent past
/// commissioning whose energy is low.
pub proof fn law_tick_holds_while_learning_or_recovering(a: FleetAgentView, ext: Seq<ObservationView>, low_energy: bool)
    requires
        a.tick < COMMISSIONING_TICKS || low_energy,
    ensures
        a.tick_actions(ext, low_energy) == seq![ActionView::Hold],
        a.tick_entry(ext, low_energy).action == ActionView::Hold,
{
}

/// A tick in normal operation with a violated constraint records exactly one
/// refit line, `core:` followed by the version it was given, and no prune.
pub proof fn law_refit_recorded(a: FleetAgentView, ext: Seq<ObservationView>)
    requires
        a.tick_phase(ext, false) == Phase::Operational,
        !a.constraints_hold(),
    ensures
        a.after_tick(ext, false).build.refits
            == a.build.refits.push("core"@ + ":"@ + crate::rules::refit_version(a.build.refits.len())),
        a.after_tick(ext, false).build.prunes == a.build.prunes,
{
    let acts = a.tick_actions(ext, false);
    let line = "core"@ + ":"@ + crate::rules::refit_version(a.build.refits.len());
    let refit = ActionView::Refit(ComponentView { name: "core"@, version: crate::rules::refit_version(a.build.refits.len()) });
    assert(acts == seq![refit]);
    Seq::lemma_filter_map_singleton(refit, |x: ActionView| crate::rules::refit_line(x));
    Seq::lemma_filter_map_singleton(refit, |x: ActionView| crate::rules::prune_line(x));
    assert(crate::rules::refits_of(acts) =~= seq![line]);
    assert(crate::rules::prunes_of(acts) =~= Seq::empty());
    assert(a.build.prunes + Seq::<(Seq<char>, Seq<char>)>::empty() =~= a.build.prunes);
}

/// With no constraints configured, the constraint check passes.
pub proof fn law_no_constraints_pass(values: Seq<Bits>)
    ensures
        crate::rules::all_constraints_hold(values, Seq::empty()),
{
}

/// After `n` ticks from commissioning the agent is `n` ticks old, its log has
/// exactly `n` lines and line `i` carries tick `i`, and its state is stamped
/// with the keel date plus `n`.
pub proof fn law_log_after_ticks(config: AgentConfigView, steps: Seq<(Seq<ObservationView>, bool)>)
    requires
        config.keel_date + steps.len() <= u64::MAX,
    ensures
        run(commissioned(config), steps).tick == steps.len(),
        run(commissioned(config), steps).log.len() == steps.len(),
        forall|i: int| 0 <= i < steps.len() ==> #[trigger] run(commissioned(config), steps).log[i].tick == i,
        steps.len() > 0 ==> run(commissioned(config), steps).state.timestamp == config.keel_date + steps.len(),
        run(commissioned(config), steps).config == config,
    decreases steps.len(),
{
    if steps.len() > 0 {
        let prev = steps.drop_last();
        law_log_after_ticks(config, prev);
        let a = run(commissioned(config), prev);
        let b = run(commissioned(config), steps);
        assert(b == a.after_tick(steps.last().0, steps.last().1));
        assert forall|i: int| 0 <= i < steps.len() implies #[trigger] b.log[i].tick == i by {
            if i < prev.len() {
                assert(b.log[i] == a.log[i]);
            }
        }
    }
}

/// After `n` ticks from commissioning the agent's own sign pattern is the
/// single sign `own_sign(n)`: `1`, flipped on every tick that is a multiple of
/// seven.
pub proof fn law_own_pattern_after_ticks(config: AgentConfigView, steps: Seq<(Seq<ObservationView>, bool)>)
    requires
        config.keel_date + steps.len() <= u64::MAX,
    ensures
        run(commissioned(config), steps).state.sign_pattern == seq![own_sign(steps.len())],
        own_sign(steps.len()) == (if (steps.len() / 7) % 2 == 0 { 1i8 } else { -1i8 }),
    decreases steps.len(),
{
    if steps.len() > 0 {
        let prev = steps.drop_last();
        law_own_pattern_after_ticks(config, prev);
        law_log_after_ticks(config, prev);
        let n = steps.len();
        let a = run(commissioned(config), prev);
        let p = run(commissioned(config), steps).state.sign_pattern;
        assert(a.tick == n - 1);
        assert(p == crate::rules::drift(seq![own_sign((n - 1) as nat)], n));
        if n % 7 == 0 {
            assert(n / 7 == (n - 1) / 7 + 1);
        } else {
            assert(n / 7 == (n - 1) / 7);
        }
        assert(p =~= seq![own_sign(n)]);
    }
}

/// Against an own pattern of a single sign, an observation is relevant exactly
/// when its bearing rate is finite and its pattern starts with that sign.
pub proof fn law_relevance_against_single_sign(o: ObservationView, sign: i8)
    ensures
        is_relevant(o, seq![sign]) <==> (crate::binary64::spec_is_finite(o.bearing_rate)
            && o.state.sign_pattern.len() > 0 && o.state.sign_pattern[0] == sign),
{
    if crate::binary64::spec_is_finite(o.bearing_rate) && o.state.sign_pattern.len() > 0 && o.state.sign_pattern[0] == sign {
        assert(o.state.sign_pattern[0] == seq![sign][0]);
    }
}

/// Two configurations that differ only in the reserved coupling and gain.
pub open spec fn differ_only_in_reserved(c1: AgentConfigView, c2: AgentConfigView) -> bool {
    c1 == (AgentConfigView { coupling: c1.coupling, gain: c1.gain, ..c2 })
}

/// One tick ignores the reserved coupling and gain: agents that differ only
/// there decide the same, log the same, and still differ only there.
pub proof fn law_tick_ignores_reserved(
    a: FleetAgentView,
    b: FleetAgentView,
    ext: Seq<ObservationView>,
    low_energy: bool,
)
    requires
        differ_only_in_reserved(a.config, b.config),
        a == (FleetAgentView { config: a.config, ..b }),
    ensures
        a.tick_actions(ext, low_energy) == b.tick_actions(ext, low_energy),
        a.tick_phase(ext, low_energy) == b.tick_phase(ext, low_energy),
        a.phase(low_energy) == b.phase(low_energy),
        a.constraints_hold() == b.constraints_hold(),
        a.after_tick(ext, low_energy) == (FleetAgentView { config: a.config, ..b.after_tick(ext, low_energy) }),
{
}

/// Tick `k` of a sequence decides the same actions in the same phase for agents
/// commissioned from `c1` and from `c2`.
pub open spec fn same_tick_decisions(
    c1: AgentConfigView,
    c2: AgentConfigView,
    steps: Seq<(Seq<ObservationView>, bool)>,
    k: int,
) -> bool {
    &&& run(commissioned(c1), steps.take(k)).tick_actions(steps[k].0, steps[k].1)
        == run(commissioned(c2), steps.take(k)).tick_actions(steps[k].0, steps[k].1)
    &&& run(commissioned(c1), steps.take(k)).tick_phase(steps[k].0, steps[k].1)
        == run(commissioned(c2), steps.take(k)).tick_phase(steps[k].0, steps[k].1)
}

/// Agents commissioned from configurations that differ only in the reserved
/// coupling and gain stay equal apart from those two fields over any sequence
/// of ticks, and every tick of the sequence decides the same actions in the
/// same phase.
pub proof fn law_reserved_fields_unused(
    c1: AgentConfigView,
    c2: AgentConfigView,
    steps: Seq<(Seq<ObservationView>, bool)>,
)
    requires
        differ_only_in_reserved(c1, c2),
    ensures
        run(commissioned(c1), steps) == (FleetAgentView { config: c1, ..run(commissioned(c2), steps) }),
        forall|k: int| 0 <= k < steps.len() ==> #[trigger] same_tick_decisions(c1, c2, steps, k),
    decreases steps.len(),
{
    lemma_reserved_run(c1, c2, steps);
    assert forall|k: int| 0 <= k < steps.len() implies #[trigger] same_tick_decisions(c1, c2, steps, k) by {
        lemma_reserved_run(c1, c2, steps.take(k));
        lemma_run_keeps_config(commissioned(c1), steps.take(k));
        lemma_run_keeps_config(commissioned(c2), steps.take(k));
        law_tick_ignores_reserved(run(commissioned(c1), steps.take(k)), run(commissioned(c2), steps.take(k)), steps[k].0, steps[k].1);
    }
}

proof fn lemma_run_keeps_config(a: FleetAgentView, steps: Seq<(Seq<ObservationView>, bool)>)
    ensures
        run(a, steps).config == a.config,
    decreases steps.len(),
{
    if steps.len() > 0 {
        lemma_run_keeps_config(a, steps.drop_last());
    }
}

proof fn lemma_reserved_run(c1: AgentConfigView, c2: AgentConfigView, steps: Seq<(Seq<ObservationView>, bool)>)
    requires
        differ_only_in_reserved(c1, c2),
    ensures
        run(commissioned(c1), steps) == (FleetAgentView { config: c1, ..run(commissioned(c2), steps) }),
    decreases steps.len(),
{
    if steps.len() > 0 {
        lemma_reserved_run(c1, c2, steps.drop_last());
        lemma_run_keeps_config(commissioned(c1), steps.drop_last());
        lemma_run_keeps_config(commissioned(c2), steps.drop_last());
        law_tick_ignores_reserved(
            run(commissioned(c1), steps.drop_last()),
            run(commissioned(c2), steps.drop_last()),
            steps.last().0,
            steps.last().1,
        );
    }
}

/// After commissioning the phase only moves forward, operational, then
/// stressed, then recovering, as long as a low energy stays low (the caller's
/// decay only shrinks the values): stress is remembered, and low energy wins.
pub proof fn law_phase_moves_forward(
    a: FleetAgentView,
    ext: Seq<ObservationView>,
    low_energy: bool,
    later_low_energy: bool,
)
    requires
        a.tick >= COMMISSIONING_TICKS,
        a.tick < u64::MAX,
        low_energy ==> later_low_energy,
    ensures
        phase_rank(a.after_tick(ext, low_energy).phase(later_low_energy)) >= phase_rank(a.phase(low_energy)),
        phase_rank(a.tick_phase(ext, low_energy)) >= phase_rank(a.phase(low_energy)),
{
    if a.stressed() {
        law_stress_persists(a, ext, low_energy);
        let i = choose|i: int| 0 <= i < a.observations.len() && crate::rules::on_collision_course(#[trigger] a.observations[i]);
        assert((a.observations + ext)[i] == a.observations[i]);
    }
}

/// An observation puts the agent on a collision course exactly when its
/// bearing rate is below `0.01` (encoding `0x3F84_7AE1_47AE_147B`): the agent is
/// stressed exactly when some observation received so far has such a rate.
pub proof fn law_stressed_iff_bearing_below_hundredth(a: FleetAgentView)
    ensures
        a.stressed() <==> exists|i: int| 0 <= i < a.observations.len()
            && crate::binary64::spec_lt(#[trigger] a.observations[i].bearing_rate, 0x3F84_7AE1_47AE_147Bu64),
{
}

/// The phase table: commissioning below fifty ticks; then recovering on low
/// energy; then stressed when some observation had a bearing rate below
/// `0.01`; otherwise operational.
pub proof fn law_phase_table(a: FleetAgentView, low_energy: bool)
    ensures
        a.phase(low_energy) == (if a.tick < 50 {
            Phase::Commissioning
        } else if low_energy {
            Phase::Recovering
        } else if exists|i: int| 0 <= i < a.observations.len()
            && crate::binary64::spec_lt(#[trigger] a.observations[i].bearing_rate, 0x3F84_7AE1_47AE_147Bu64) {
            Phase::Stressed
        } else {
            Phase::Operational
        }),
{
}

/// A tick runs in the phase the agent has once the external observations are
/// stored with the earlier ones.
pub proof fn law_tick_phase_counts_new_observations(a: FleetAgentView, ext: Seq<ObservationView>, low_energy: bool)
    ensures
        a.tick_phase(ext, low_energy) == (FleetAgentView { observations: a.observations + ext, ..a }).phase(low_energy),
{
}

/// Under stress with a heading, the first action turns to the heading whose
/// every direction component is negated, over the same scope, and the second
/// broadcasts `[-1, 1, -1]`; nothing else is decided.
pub proof fn law_evasive_negates_every_component(
    config: AgentConfigView,
    refits: nat,
    obs: Seq<ObservationView>,
    constraints_ok: bool,
)
    requires
        config.heading is Some,
    ensures
        ({
            let h = config.heading->0;
            decision(config, refits, obs, constraints_ok, Phase::Stressed) == seq![
                ActionView::ChangeHeading(crate::model::HeadingView {
                    direction: Seq::new(h.direction.len(), |i: int| crate::binary64::spec_neg(h.direction[i])),
                    scope: h.scope,
                }),
                ActionView::Broadcast(seq![-1i8, 1i8, -1i8]),
            ]
        }),
{
    let h = config.heading->0;
    assert(evasive(h).direction =~= Seq::new(h.direction.len(), |i: int| crate::binary64::spec_neg(h.direction[i])));
}

/// Under stress without a heading, the agent prunes the sender of the first
/// relevant observation for collision avoidance, if there is one, and then
/// broadcasts `[-1, 1, -1]`.
pub proof fn law_stress_without_heading(
    config: AgentConfigView,
    refits: nat,
    obs: Seq<ObservationView>,
    constraints_ok: bool,
)
    requires
        config.heading is None,
    ensures
        decision(config, refits, obs, constraints_ok, Phase::Stressed) == (if obs.len() > 0 {
            seq![
                ActionView::Prune { target: obs[0].from, reason: "collision avoidance"@ },
                ActionView::Broadcast(seq![-1i8, 1i8, -1i8]),
            ]
        } else {
            seq![ActionView::Broadcast(seq![-1i8, 1i8, -1i8])]
        }),
{
    if obs.len() > 0 {
        assert(decision(config, refits, obs, constraints_ok, Phase::Stressed) =~= seq![
            ActionView::Prune { target: obs[0].from, reason: "collision avoidance"@ },
            ActionView::Broadcast(seq![-1i8, 1i8, -1i8]),
        ]);
    } else {
        assert(decision(config, refits, obs, constraints_ok, Phase::Stressed) =~= seq![
            ActionView::Broadcast(seq![-1i8, 1i8, -1i8])]);
    }
}

/// In normal operation with the constraints holding: with no relevant
/// observation the agent holds; with some, it keeps its heading exactly as
/// configured, or does nothing when it has none.
pub proof fn law_operational_maintains_heading(config: AgentConfigView, refits: nat, obs: Seq<ObservationView>)
    ensures
        obs.len() == 0 ==> decision(config, refits, obs, true, Phase::Operational) == seq![ActionView::Hold],
        obs.len() > 0 && config.heading is Some ==> decision(config, refits, obs, true, Phase::Operational)
            == seq![ActionView::ChangeHeading(config.heading->0)],
        obs.len() > 0 && config.heading is None ==> decision(config, refits, obs, true, Phase::Operational).len() == 0,
{
}

/// The constraint check passes exactly when, for every configured
/// constraint, the threshold is not a NaN and every non-NaN state value is
/// below it; one failing constraint fails the check.
pub proof fn law_constraints_hold_iff_every_constraint_holds(a: FleetAgentView)
    ensures
        a.constraints_hold() <==> forall|i: int| 0 <= i < a.config.constraints.len() ==> {
            &&& !crate::binary64::spec_is_nan(#[trigger] a.config.constraints[i].threshold)
            &&& forall|j: int| 0 <= j < a.state.values.len() && !crate::binary64::spec_is_nan(#[trigger] a.state.values[j])
                ==> crate::binary64::spec_lt(a.state.values[j], a.config.constraints[i].threshold)
        },
        forall|i: int, j: int| 0 <= i < a.config.constraints.len() && 0 <= j < a.state.values.len()
            && !crate::binary64::spec_is_nan(a.state.values[j])
            && !crate::binary64::spec_lt(#[trigger] a.state.values[j], #[trigger] a.config.constraints[i].threshold)
            ==> !a.constraints_hold(),
{
}

/// The log line of a tick carries the old tick, the tick's phase, the first of
/// the relevant external observations (none if there is none) and the first
/// action the tick returns (`Hold` if it returns none).
pub proof fn law_log_line_carries_first_sensed_and_first_action(
    a: FleetAgentView,
    ext: Seq<ObservationView>,
    low_energy: bool,
)
    ensures
        ({
            let line = a.after_tick(ext, low_energy).log.last();
            let acts = a.tick_actions(ext, low_energy);
            let sensed = a.sensed(ext);
            &&& line.tick == a.tick
            &&& line.phase == a.tick_phase(ext, low_energy)
            &&& line.action == (if acts.len() > 0 { acts[0] } else { ActionView::Hold })
            &&& line.observation == (if sensed.len() > 0 { Some(sensed[0]) } else { None })
        }),
{
}

/// The actions a tick returns are those the decision table gives for the
/// tick's phase, the relevant external observations, the constraint check on
/// the current state and the number of earlier refits.
pub proof fn law_tick_decides_on_what_it_senses(a: FleetAgentView, ext: Seq<ObservationView>, low_energy: bool)
    ensures
        a.tick_actions(ext, low_energy) == decision(
            a.config,
            a.build.refits.len(),
            a.sensed(ext),
            a.constraints_hold(),
            a.tick_phase(ext, low_energy),
        ),
{
}

/// A tick senses, in their order, exactly the external observations whose
/// bearing rate is finite and whose sign pattern agrees with the agent's own
/// at some position both have.
pub proof fn law_sensed_in_primitive_terms(a: FleetAgentView, ext: Seq<ObservationView>)
    ensures
        a.sensed(ext) == ext.filter(|o: ObservationView|
            crate::binary64::spec_is_finite(o.bearing_rate)
            && exists|j: int| 0 <= j < o.state.sign_pattern.len() && j < a.state.sign_pattern.len()
                && #[trigger] o.state.sign_pattern[j] == a.state.sign_pattern[j]),
{
    let own = a.state.sign_pattern;
    let p1 = |o: ObservationView| is_relevant(o, own);
    let p2 = |o: ObservationView|
        crate::binary64::spec_is_finite(o.bearing_rate)
        && exists|j: int| 0 <= j < o.state.sign_pattern.len() && j < own.len()
            && #[trigger] o.state.sign_pattern[j] == own[j];
    assert(p1 =~= p2);
}

/// A tick flips every sign of the agent's own pattern when its new tick count
/// is a multiple of seven, and keeps them otherwise.
pub proof fn law_drift_flips_on_multiples_of_seven(a: FleetAgentView, ext: Seq<ObservationView>, low_energy: bool)
    requires
        a.well_formed(),
        a.tick < u64::MAX,
    ensures
        ({
            let p = a.after_tick(ext, low_energy).state.sign_pattern;
            &&& p.len() == a.state.sign_pattern.len()
            &&& forall|i: int| 0 <= i < p.len() ==> #[trigger] p[i] as int == (if (a.tick + 1) % 7 == 0 {
                -(a.state.sign_pattern[i] as int)
            } else {
                a.state.sign_pattern[i] as int
            })
        }),
{
    let p = a.after_tick(ext, low_energy).state.sign_pattern;
    assert forall|i: int| 0 <= i < p.len() implies #[trigger] p[i] as int == (if (a.tick + 1) % 7 == 0 {
        -(a.state.sign_pattern[i] as int)
    } else {
        a.state.sign_pattern[i] as int
    }) by {
        assert(a.state.sign_pattern[i] == 1 || a.state.sign_pattern[i] == -1);
    }
}

/// A freshly commissioned agent: state values `[1.0]` stamped with the keel
/// date, own sign pattern `[1]`, a build record with the keel date and nothing
/// refitted or pruned, no observations, an empty log, age 0.
pub proof fn law_commissioned_agent(config: AgentConfigView)
    ensures
        commissioned(config).config == config,
        commissioned(config).state.values == seq![0x3FF0_0000_0000_0000u64],
        commissioned(config).state.timestamp == config.keel_date,
        commissioned(config).state.sign_pattern == seq![1i8],
        commissioned(config).build.keel_date == config.keel_date,
        commissioned(config).build.refits.len() == 0,
        commissioned(config).build.prunes.len() == 0,
        commissioned(config).observations.len() == 0,
        commissioned(config).log.len() == 0,
        commissioned(config).tick == 0,
{
}

/// The version of a refit is the number of earlier refits in decimal,
/// followed by `.1`.
pub proof fn law_refit_version_counts_refits(refits: nat)
    ensures
        crate::rules::refit_version(refits) == crate::decimal::decimal(refits) + seq!['.', '1'],
{
    reveal_strlit(".1");
}

/// A tick adds to the build record exactly one line `core:<n>.1` when it runs
/// in normal operation with a violated constraint (n the earlier refits), and
/// exactly one prune of the first relevant sender for collision avoidance when
/// it runs under stress without a heading and senses something; otherwise the
/// build record is unchanged.
pub proof fn law_build_record_after_tick(a: FleetAgentView, ext: Seq<ObservationView>, low_energy: bool)
    ensures
        ({
            let b = a.after_tick(ext, low_energy).build;
            let phase = a.tick_phase(ext, low_energy);
            let sensed = a.sensed(ext);
            &&& b.keel_date == a.build.keel_date
            &&& b.refits == a.build.refits + (if phase == Phase::Operational && !a.constraints_hold() {
                seq!["core"@ + ":"@ + crate::decimal::decimal(a.build.refits.len()) + ".1"@]
            } else {
                Seq::<Seq<char>>::empty()
            })
            &&& b.prunes == a.build.prunes + (if phase == Phase::Stressed && a.config.heading is None && sensed.len() > 0 {
                seq![(sensed[0].from, "collision avoidance"@)]
            } else {
                Seq::<(Seq<char>, Seq<char>)>::empty()
            })
        }),
{
    reveal_with_fuel(Seq::filter_map, 3);
    let acts = a.tick_actions(ext, low_energy);
    let phase = a.tick_phase(ext, low_energy);
    let sensed = a.sensed(ext);
    let fr = |x: ActionView| crate::rules::refit_line(x);
    let fp = |x: ActionView| crate::rules::prune_line(x);
    assert(acts.len() <= 2);
    if acts.len() == 2 {
        assert(acts.drop_last() =~= seq![acts[0]]);
        assert(acts.drop_last().drop_last() =~= Seq::<ActionView>::empty());
    } else if acts.len() == 1 {
        assert(acts.drop_last() =~= Seq::<ActionView>::empty());
    }
    let d = crate::decimal::decimal(a.build.refits.len());
    assert("core"@ + ":"@ + (d + ".1"@) =~= "core"@ + ":"@ + d + ".1"@);
    assert(crate::rules::refits_of(acts) =~= (if phase == Phase::Operational && !a.constraints_hold() {
        seq!["core"@ + ":"@ + crate::decimal::decimal(a.build.refits.len()) + ".1"@]
    } else {
        Seq::<Seq<char>>::empty()
    }));
    assert(crate::rules::prunes_of(acts) =~= (if phase == Phase::Stressed && a.config.heading is None && sensed.len() > 0 {
        seq![(sensed[0].from, "collision avoidance"@)]
    } else {
        Seq::<(Seq<char>, Seq<char>)>::empty()
    }));
    assert(a.after_tick(ext, low_energy).build.refits =~= a.build.refits + crate::rules::refits_of(acts));
}

/// The loop's constants: fifty commissioning ticks, the collision bearing
/// `0.01`, the low energy `0.5`, a drift period of seven ticks, and `1.0`.
pub proof fn law_constants()
    ensures
        COMMISSIONING_TICKS == 50,
        crate::rules::COLLISION_BEARING == 0x3F84_7AE1_47AE_147Bu64,
        crate::rules::LOW_ENERGY == 0x3FE0_0000_0000_0000u64,
        crate::rules::DRIFT_PERIOD == 7,
        crate::binary64::ONE == 0x3FF0_0000_0000_0000u64,
{
}

/// The text of an action: `Hold`, `Refit(name:version)`,
/// `Prune(target: reason)`, `Broadcast([..])`, and none for a heading change.
pub proof fn law_action_text(a: ActionView)
    ensures
        crate::model::action_text(a) == match a {
            ActionView::Hold => Some("Hold"@),
            ActionView::ChangeHeading(_) => None,
            ActionView::Refit(c) => Some("Refit("@ + c.name + ":"@ + c.version + ")"@),
            ActionView::Prune { target, reason } => Some("Prune("@ + target + ": "@ + reason + ")"@),
            ActionView::Broadcast(p) => Some("Broadcast(["@ + crate::model::signs_text(p) + "])"@),
        },
{
}

/// A sign is written as its decimal numeral, after a minus sign when negative.
pub proof fn law_sign_text(s: i8)
    ensures
        s < 0 ==> crate::model::sign_text(s)[0] == '-'
            && crate::decimal::numeral_value(crate::model::sign_text(s).drop_first()) == -(s as int),
        s >= 0 ==> crate::decimal::numeral_value(crate::model::sign_text(s)) == s as int,
        forall|i: int| (if s < 0 { 1int } else { 0int }) <= i < crate::model::sign_text(s).len()
            ==> '0' <= #[trigger] crate::model::sign_text(s)[i] <= '9',
{
    reveal_strlit("-");
    if s < 0 {
        let n = (-(s as int)) as nat;
        crate::decimal::law_decimal_is_the_numeral(n);
        assert(crate::model::sign_text(s).drop_first() =~= crate::decimal::decimal(n));
    } else {
        crate::decimal::law_decimal_is_the_numeral(s as nat);
    }
}

/// The signs of a pattern are written in order, separated by `", "`.
pub proof fn law_signs_text(p: Seq<i8>)
    ensures
        p.len() == 0 ==> crate::model::signs_text(p).len() == 0,
        p.len() == 1 ==> crate::model::signs_text(p) == crate::model::sign_text(p[0]),
        p.len() > 1 ==> crate::model::signs_text(p)
            == crate::model::signs_text(p.drop_last()) + ", "@ + crate::model::sign_text(p.last()),
{
}

/// Two headings are equal when their directions are equal component by
/// component as IEEE-754 numbers and their scopes hold the same texts; two
/// actions are equal when they are of the same kind with equal fields.
pub proof fn law_equalities(h1: crate::model::HeadingView, h2: crate::model::HeadingView, a1: ActionView, a2: ActionView)
    ensures
        crate::model::heading_eq(h1, h2) <==> (h1.direction.len() == h2.direction.len()
            && (forall|i: int| 0 <= i < h1.direction.len()
                ==> crate::binary64::spec_eq(#[trigger] h1.direction[i], h2.direction[i]))
            && h1.scope == h2.scope),
        crate::model::action_eq(a1, a2) <==> match (a1, a2) {
            (ActionView::Hold, ActionView::Hold) => true,
            (ActionView::ChangeHeading(x), ActionView::ChangeHeading(y)) => crate::model::heading_eq(x, y),
            (ActionView::Refit(x), ActionView::Refit(y)) => x.name == y.name && x.version == y.version,
            (ActionView::Prune { target: t1, reason: r1 }, ActionView::Prune { target: t2, reason: r2 }) =>
                t1 == t2 && r1 == r2,
            (ActionView::Broadcast(x), ActionView::Broadcast(y)) => x == y,
            _ => false,
        },
{
}

} // verus!
