//! The rules of the loop, stated over views: relevance, stress, constraints,
//! phase, the decision table, and how a tick changes the agent.
use vstd::prelude::*;

use crate::binary64::{Bits, ONE, spec_is_finite, spec_is_nan, spec_lt, spec_neg};
use crate::decimal::decimal;
use crate::model::{ActionView, AgentConfigView, BuildRecordView, ComponentView, ConstraintView, HeadingView,
    LogEntryView, ObservationView, StateView};
use crate::phase::Phase;

verus! {

/// An agent is commissioning for its first ticks.
pub const COMMISSIONING_TICKS: u64 = 50;

/// The encoding of `0.01`: a bearing rate below it means a collision course.
pub const COLLISION_BEARING: Bits = 0x3F84_7AE1_47AE_147B;

/// The encoding of `0.5`: a state energy below it means the agent must recover.
pub const LOW_ENERGY: Bits = 0x3FE0_0000_0000_0000;

/// The sign pattern flips on every tick that is a multiple of this period.
pub const DRIFT_PERIOD: u64 = 7;

/// Two sign patterns overlap when, at some position both have, they agree.
pub open spec fn patterns_overlap(a: Seq<i8>, b: Seq<i8>) -> bool {
    exists|i: int| 0 <= i < a.len() && i < b.len() && a[i] == b[i]
}

/// An observation is relevant to an agent with sign pattern `own` when its
/// bearing rate is finite and its sign pattern overlaps `own`.
pub open spec fn is_relevant(o: ObservationView, own: Seq<i8>) -> bool {
    spec_is_finite(o.bearing_rate) && patterns_overlap(o.state.sign_pattern, own)
}

/// The observations of `ext` relevant to `own`, in their order.
pub open spec fn relevant_of(ext: Seq<ObservationView>, own: Seq<i8>) -> Seq<ObservationView> {
    ext.filter(|o: ObservationView| is_relevant(o, own))
}

/// An observation on a collision course: bearing rate below `0.01`.
pub open spec fn on_collision_course(o: ObservationView) -> bool {
    spec_lt(o.bearing_rate, COLLISION_BEARING)
}

/// Whether any observation seen so far is on a collision course.
pub open spec fn any_collision(obs: Seq<ObservationView>) -> bool {
    exists|i: int| 0 <= i < obs.len() && on_collision_course(#[trigger] obs[i])
}

/// A constraint holds when every state value stays below its threshold (the
/// threshold is the level above which the constraint is violated), with the
/// IEEE-754 `<`. NaN values are passed over, as the largest of the values
/// passes over them; a NaN threshold is never met; with no state values every
/// other threshold is met.
pub open spec fn constraint_holds(values: Seq<Bits>, threshold: Bits) -> bool {
    &&& !spec_is_nan(threshold)
    &&& forall|i: int| 0 <= i < values.len() && !spec_is_nan(#[trigger] values[i]) ==> spec_lt(values[i], threshold)
}

/// Every constraint holds of the values.
pub open spec fn all_constraints_hold(values: Seq<Bits>, constraints: Seq<ConstraintView>) -> bool {
    forall|i: int| 0 <= i < constraints.len() ==> constraint_holds(values, #[trigger] constraints[i].threshold)
}

/// The phase of an agent of the given age: commissioning first; then a low
/// energy means recovering (even under stress); then stress means stressed.
pub open spec fn phase_rule(age: u64, stressed: bool, low_energy: bool) -> Phase {
    if age < COMMISSIONING_TICKS {
        Phase::Commissioning
    } else if low_energy {
        Phase::Recovering
    } else if stressed {
        Phase::Stressed
    } else {
        Phase::Operational
    }
}

/// The heading pointing the opposite way over the same scope.
pub open spec fn evasive(h: HeadingView) -> HeadingView {
    HeadingView { direction: h.direction.map_values(|d: Bits| spec_neg(d)), scope: h.scope }
}

/// The pattern broadcast to warn others.
pub open spec fn warning_pattern() -> Seq<i8> {
    seq![-1i8, 1i8, -1i8]
}

/// The version given to the next refit, after `refits` earlier ones.
pub open spec fn refit_version(refits: nat) -> Seq<char> {
    decimal(refits) + ".1"@
}

/// The actions chosen in a phase, given the configuration, the number of
/// earlier refits, the relevant observations and whether the constraints hold.
pub open spec fn decision(
    config: AgentConfigView,
    refits: nat,
    obs: Seq<ObservationView>,
    constraints_ok: bool,
    phase: Phase,
) -> Seq<ActionView> {
    match phase {
        Phase::Commissioning => seq![ActionView::Hold],
        Phase::Recovering => seq![ActionView::Hold],
        Phase::Stressed => {
            let response = match config.heading {
                Some(h) => seq![ActionView::ChangeHeading(evasive(h))],
                None => if obs.len() > 0 {
                    seq![ActionView::Prune { target: obs[0].from, reason: "collision avoidance"@ }]
                } else {
                    Seq::<ActionView>::empty()
                },
            };
            response.push(ActionView::Broadcast(warning_pattern()))
        },
        Phase::Operational => {
            if !constraints_ok {
                seq![ActionView::Refit(ComponentView { name: "core"@, version: refit_version(refits) })]
            } else if obs.len() == 0 {
                seq![ActionView::Hold]
            } else {
                match config.heading {
                    Some(h) => seq![ActionView::ChangeHeading(h)],
                    None => Seq::<ActionView>::empty(),
                }
            }
        },
    }
}

/// The sign pattern after the tick numbered `tick`: every sign flips when the
/// tick is a multiple of the drift period.
pub open spec fn drift(p: Seq<i8>, tick: nat) -> Seq<i8> {
    if tick % (DRIFT_PERIOD as nat) == 0 {
        p.map_values(|s: i8| (-s) as i8)
    } else {
        p
    }
}

/// The build-record line of a refit: the component's name and version.
pub open spec fn refit_line(a: ActionView) -> Option<Seq<char>> {
    match a {
        ActionView::Refit(c) => Some(c.name + ":"@ + c.version),
        _ => None,
    }
}

/// The build-record entry of a prune: its target and reason.
pub open spec fn prune_line(a: ActionView) -> Option<(Seq<char>, Seq<char>)> {
    match a {
        ActionView::Prune { target, reason } => Some((target, reason)),
        _ => None,
    }
}

/// The build-record lines of the refits among the actions, in order.
pub open spec fn refits_of(actions: Seq<ActionView>) -> Seq<Seq<char>> {
    actions.filter_map(|a: ActionView| refit_line(a))
}

/// The build-record entries of the prunes among the actions, in order.
pub open spec fn prunes_of(actions: Seq<ActionView>) -> Seq<(Seq<char>, Seq<char>)> {
    actions.filter_map(|a: ActionView| prune_line(a))
}

/// Everything an agent is, seen as values.
pub struct FleetAgentView {
    pub config: AgentConfigView,
    pub state: StateView,
    pub build: BuildRecordView,
    pub observations: Seq<ObservationView>,
    pub log: Seq<LogEntryView>,
    pub tick: u64,
}

impl FleetAgentView {
    /// The agent's own sign pattern holds only the signs `1` and `-1`.
    pub open spec fn well_formed(self) -> bool {
        forall|i: int| 0 <= i < self.state.sign_pattern.len()
            ==> #[trigger] self.state.sign_pattern[i] == 1 || self.state.sign_pattern[i] == -1
    }

    /// Whether any observation received so far puts the agent on a collision course.
    pub open spec fn stressed(self) -> bool {
        any_collision(self.observations)
    }

    /// The phase of the agent, given whether its state energy is below `0.5`.
    pub open spec fn phase(self, low_energy: bool) -> Phase {
        phase_rule(self.tick, self.stressed(), low_energy)
    }

    /// Whether every configured constraint holds of the current state.
    pub open spec fn constraints_hold(self) -> bool {
        all_constraints_hold(self.state.values, self.config.constraints)
    }

    /// The external observations a tick treats as relevant.
    pub open spec fn sensed(self, ext: Seq<ObservationView>) -> Seq<ObservationView> {
        relevant_of(ext, self.state.sign_pattern)
    }

    /// The phase a tick runs in: all external observations are stored first.
    pub open spec fn tick_phase(self, ext: Seq<ObservationView>, low_energy: bool) -> Phase {
        phase_rule(self.tick, any_collision(self.observations + ext), low_energy)
    }

    /// The actions a tick decides on.
    pub open spec fn tick_actions(self, ext: Seq<ObservationView>, low_energy: bool) -> Seq<ActionView> {
        decision(
            self.config,
            self.build.refits.len(),
            self.sensed(ext),
            self.constraints_hold(),
            self.tick_phase(ext, low_energy),
        )
    }

    /// The log line a tick records.
    pub open spec fn tick_entry(self, ext: Seq<ObservationView>, low_energy: bool) -> LogEntryView {
        let sensed = self.sensed(ext);
        let actions = self.tick_actions(ext, low_energy);
        LogEntryView {
            tick: self.tick,
            phase: self.tick_phase(ext, low_energy),
            observation: if sensed.len() > 0 { Some(sensed[0]) } else { None },
            action: if actions.len() > 0 { actions[0] } else { ActionView::Hold },
        }
    }

    /// The agent after one tick (before its state values decay).
    pub open spec fn after_tick(self, ext: Seq<ObservationView>, low_energy: bool) -> FleetAgentView {
        let actions = self.tick_actions(ext, low_energy);
        let next = (self.tick + 1) as u64;
        FleetAgentView {
            config: self.config,
            state: StateView {
                values: self.state.values,
                timestamp: (self.config.keel_date + next) as u64,
                sign_pattern: drift(self.state.sign_pattern, next as nat),
            },
            build: BuildRecordView {
                keel_date: self.build.keel_date,
                refits: self.build.refits + refits_of(actions),
                prunes: self.build.prunes + prunes_of(actions),
            },
            observations: self.observations + ext,
            log: self.log.push(self.tick_entry(ext, low_energy)),
            tick: next,
        }
    }
}

/// The agent commissioned from a configuration: state `[1.0]` stamped with the
/// keel date, sign pattern `[1]`, empty build record, observations and log, age 0.
pub open spec fn commissioned(config: AgentConfigView) -> FleetAgentView {
    FleetAgentView {
        config,
        state: StateView { values: seq![ONE], timestamp: config.keel_date, sign_pattern: seq![1i8] },
        build: BuildRecordView { keel_date: config.keel_date, refits: Seq::empty(), prunes: Seq::empty() },
        observations: Seq::empty(),
        log: Seq::empty(),
        tick: 0,
    }
}

/// The agent after a sequence of ticks, each given its external observations
/// and whether the state energy was low.
pub open spec fn run(a: FleetAgentView, steps: Seq<(Seq<ObservationView>, bool)>) -> FleetAgentView
    decreases steps.len(),
{
    if steps.len() == 0 {
        a
    } else {
        run(a, steps.drop_last()).after_tick(steps.last().0, steps.last().1)
    }
}

/// The sign held by a freshly commissioned agent after `n` ticks: it starts at
/// `1` and flips on every tick that is a multiple of the drift period.
pub open spec fn own_sign(n: nat) -> i8 {
    if (n / (DRIFT_PERIOD as nat)) % 2 == 0 { 1i8 } else { -1i8 }
}

/// Orders the phases after commissioning: operational, then stressed, then recovering.
pub open spec fn phase_rank(p: Phase) -> int {
    match p {
        Phase::Commissioning => -1,
        Phase::Operational => 0,
        Phase::Stressed => 1,
        Phase::Recovering => 2,
    }
}

} // verus!
