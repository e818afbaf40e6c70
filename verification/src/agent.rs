//! The agent: one loop of sense, constraint check, orient, decide, act and record.
use vstd::prelude::*;

use crate::binary64::{is_finite, is_nan, lt, neg, spec_is_nan, spec_lt, spec_neg, Bits, ONE};
use crate::decimal::push_decimal;
use crate::model::{
    actions_view, copy_strings, log_view, observations_view, texts, Action, AgentConfig, BuildRecord,
    Component, Constraint, Heading, LogEntry, Observation, SignPattern, State, ObservationView,
};
use crate::phase::Phase;
use crate::rules::{
    constraint_holds, decision, is_relevant, on_collision_course, patterns_overlap,
    relevant_of, FleetAgentView, COLLISION_BEARING, COMMISSIONING_TICKS, DRIFT_PERIOD,
};

verus! {

/// The views of a sequence of borrowed observations.
pub open spec fn borrowed_view<'a>(v: Seq<&'a Observation>) -> Seq<ObservationView> {
    v.map_values(|o: &'a Observation| o@)
}

/// Whether two sign patterns agree at some position both have.
pub fn patterns_agree(a: &Vec<i8>, b: &Vec<i8>) -> (r: bool)
    ensures
        r == patterns_overlap(a@, b@),
{
    let n = if a.len() < b.len() {
        a.len()
    } else {
        b.len()
    };
    let mut i: usize = 0;
    while i < n
        invariant
            i <= n,
            n <= a.len(),
            n <= b.len(),
            n == a.len() || n == b.len(),
            forall|j: int| 0 <= j < i ==> a@[j] != b@[j],
        decreases n - i,
    {
        if a[i] == b[i] {
            return true;
        }
        i = i + 1;
    }
    false
}

/// A fleet agent: its configuration, state, build record, everything it has
/// observed, its log and its tick counter.
pub struct FleetAgent {
    config: AgentConfig,
    state: State,
    build: BuildRecord,
    observations: Vec<Observation>,
    log: Vec<LogEntry>,
    tick: u64,
}

impl View for FleetAgent {
    type V = FleetAgentView;

    closed spec fn view(&self) -> FleetAgentView {
        FleetAgentView {
            config: self.config@,
            state: self.state@,
            build: self.build@,
            observations: observations_view(self.observations@),
            log: log_view(self.log@),
            tick: self.tick,
        }
    }
}

impl FleetAgent {
    /// The agent's own sign pattern only ever holds the signs `1` and `-1`.
    #[verifier::type_invariant]
    closed spec fn own_signs_are_units(self) -> bool {
        self@.well_formed()
    }

    /// Commission a new agent from config.
    pub fn new(config: AgentConfig) -> (agent: Self)
        ensures
            agent@ == crate::rules::commissioned(config@),
            agent@.well_formed(),
    {
        let keel_date = config.keel_date;
        let state = State { values: vec![ONE], timestamp: keel_date, sign_pattern: vec![1i8] };
        let agent = FleetAgent {
            config,
            state,
            build: BuildRecord { keel_date, refits: Vec::new(), prunes: Vec::new() },
            observations: Vec::new(),
            log: Vec::new(),
            tick: 0,
        };
        assert(observations_view(agent.observations@) =~= Seq::empty());
        assert(log_view(agent.log@) =~= Seq::empty());
        assert(texts(agent.build.refits@) =~= Seq::empty());
        assert(crate::model::text_pairs(agent.build.prunes@) =~= Seq::empty());
        assert(agent.state.values@ =~= seq![ONE]);
        assert(agent.state.sign_pattern@ =~= seq![1i8]);
        assert(agent@ =~= crate::rules::commissioned(agent.config@));
        agent
    }

    /// The configuration the agent was commissioned with.
    pub fn config(&self) -> (c: &AgentConfig)
        ensures
            c@ == self@.config,
    {
        &self.config
    }

    /// The agent's current state.
    pub fn state(&self) -> (s: &State)
        ensures
            s@ == self@.state,
    {
        &self.state
    }

    /// Replaces the state values, leaving everything else as it was.
    pub fn set_state_values(&mut self, values: Vec<Bits>)
        ensures
            final(self)@ == (FleetAgentView {
                state: crate::model::StateView { values: values@, ..old(self)@.state },
                ..old(self)@
            }),
    {
        proof {
            use_type_invariant(&*self);
        }
        self.state.values = values;
    }

    /// Age in ticks.
    pub fn age(&self) -> (a: u64)
        ensures
            a == self@.tick,
    {
        self.tick
    }

    /// True if still in the first ticks.
    pub fn is_commissioning(&self) -> (b: bool)
        ensures
            b == (self@.tick < COMMISSIONING_TICKS),
    {
        self.tick < COMMISSIONING_TICKS
    }

    /// The event log.
    pub fn log(&self) -> (l: &[LogEntry])
        ensures
            log_view(l@) == self@.log,
    {
        self.log.as_slice()
    }

    /// The build record.
    pub fn build_record(&self) -> (b: &BuildRecord)
        ensures
            b@ == self@.build,
    {
        &self.build
    }
}

impl FleetAgent {
    /// Filter external observations, returning only those relevant: a finite
    /// bearing rate and a sign pattern that overlaps ours.
    pub fn sense<'a>(&self, external: &'a [Observation]) -> (sensed: Vec<&'a Observation>)
        ensures
            borrowed_view(sensed@) == relevant_of(observations_view(external@), self@.state.sign_pattern),
    {
        let ghost own = self@.state.sign_pattern;
        let ghost ext = observations_view(external@);
        let ghost pred = |o: ObservationView| is_relevant(o, own);
        let mut sensed: Vec<&'a Observation> = Vec::new();
        let mut i: usize = 0;
        proof {
            reveal(Seq::filter);
            assert(ext.subrange(0, 0) =~= Seq::<ObservationView>::empty());
            assert(borrowed_view(sensed@) =~= ext.subrange(0, 0).filter(pred));
        }
        while i < external.len()
            invariant
                i <= external.len(),
                ext == observations_view(external@),
                own == self@.state.sign_pattern,
                pred == (|o: ObservationView| is_relevant(o, own)),
                borrowed_view(sensed@) == ext.subrange(0, i as int).filter(pred),
            decreases external.len() - i,
        {
            let obs = &external[i];
            let keep = is_finite(obs.bearing_rate) && patterns_agree(&obs.state.sign_pattern, &self.state.sign_pattern);
            let ghost before = sensed@;
            if keep {
                sensed.push(obs);
            }
            proof {
                reveal(Seq::filter);
                assert(ext.subrange(0, i + 1).drop_last() =~= ext.subrange(0, i as int));
                assert(ext.subrange(0, i + 1).last() == obs@);
                if keep {
                    assert(borrowed_view(sensed@) =~= borrowed_view(before).push(obs@));
                } else {
                    assert(borrowed_view(sensed@) =~= borrowed_view(before));
                }
            }
            i = i + 1;
        }
        proof {
            assert(ext.subrange(0, external@.len() as int) =~= ext);
        }
        sensed
    }

    /// Evaluate a single constraint: every state value must stay below the
    /// threshold; NaN values are passed over and a NaN threshold is never met.
    fn eval_constraint(&self, c: &Constraint) -> (ok: bool)
        ensures
            ok == constraint_holds(self@.state.values, c.threshold),
    {
        if is_nan(c.threshold) {
            return false;
        }
        let values = &self.state.values;
        let mut i: usize = 0;
        while i < values.len()
            invariant
                i <= values.len(),
                values@ == self@.state.values,
                forall|j: int| 0 <= j < i && !spec_is_nan(#[trigger] values@[j]) ==> spec_lt(values@[j], c.threshold),
            decreases values.len() - i,
        {
            if !is_nan(values[i]) && !lt(values[i], c.threshold) {
                return false;
            }
            i = i + 1;
        }
        true
    }

    /// Run all defined constraints against the current state.
    /// Returns true if ALL constraints pass.
    pub fn check_constraints(&self) -> (ok: bool)
        ensures
            ok == self@.constraints_hold(),
    {
        let mut i: usize = 0;
        while i < self.config.constraints.len()
            invariant
                i <= self.config.constraints.len(),
                forall|j: int| 0 <= j < i ==> constraint_holds(self@.state.values, #[trigger] self@.config.constraints[j].threshold),
            decreases self.config.constraints.len() - i,
        {
            assert(self@.config.constraints[i as int] == self.config.constraints@[i as int]@);
            if !self.eval_constraint(&self.config.constraints[i]) {
                assert(!constraint_holds(self@.state.values, self@.config.constraints[i as int].threshold));
                return false;
            }
            i = i + 1;
        }
        true
    }

    /// Whether any observation received so far is on a collision course.
    fn has_stress(&self) -> (b: bool)
        ensures
            b == self@.stressed(),
    {
        let mut i: usize = 0;
        while i < self.observations.len()
            invariant
                i <= self.observations.len(),
                forall|j: int| 0 <= j < i ==> !on_collision_course(#[trigger] self@.observations[j]),
            decreases self.observations.len() - i,
        {
            if lt(self.observations[i].bearing_rate, COLLISION_BEARING) {
                assert(on_collision_course(self@.observations[i as int]));
                return true;
            }
            i = i + 1;
        }
        false
    }

    /// Public accessor so callers can read the phase without mutating, given
    /// whether the state energy is below `0.5`.
    pub fn phase(&self, low_energy: bool) -> (p: Phase)
        ensures
            p == self@.phase(low_energy),
    {
        if self.tick < COMMISSIONING_TICKS {
            return Phase::Commissioning;
        }
        let has_stress = self.has_stress();
        if has_stress {
            if low_energy {
                // Stressed AND energy low: Recovering takes priority
                return Phase::Recovering;
            }
            return Phase::Stressed;
        }
        if low_energy {
            return Phase::Recovering;
        }
        Phase::Operational
    }

    /// Determine the current operating phase from state and observations,
    /// given whether the state energy is below `0.5`.
    pub fn orient(&mut self, low_energy: bool) -> (p: Phase)
        ensures
            final(self)@ == old(self)@,
            p == old(self)@.phase(low_energy),
    {
        self.phase(low_energy)
    }
}

/// The heading pointing the opposite way over the same scope.
fn evasive_heading(h: &Heading) -> (e: Heading)
    ensures
        e@ == crate::rules::evasive(h@),
{
    let mut direction: Vec<Bits> = Vec::new();
    let mut i: usize = 0;
    while i < h.direction.len()
        invariant
            i <= h.direction.len(),
            direction@ == h.direction@.subrange(0, i as int).map_values(|d: Bits| spec_neg(d)),
        decreases h.direction.len() - i,
    {
        direction.push(neg(h.direction[i]));
        i = i + 1;
        assert(direction@ =~= h.direction@.subrange(0, i as int).map_values(|d: Bits| spec_neg(d)));
    }
    assert(h.direction@.subrange(0, i as int) =~= h.direction@);
    Heading { direction, scope: copy_strings(&h.scope) }
}

impl FleetAgent {
    /// Choose actions based on phase, relevant observations and constraint state.
    pub fn decide(&self, observations: &[Observation], constraints_ok: bool, phase: Phase) -> (actions: Vec<Action>)
        ensures
            actions_view(actions@) == decision(
                self@.config,
                self@.build.refits.len(),
                observations_view(observations@),
                constraints_ok,
                phase,
            ),
    {
        let ghost obs = observations_view(observations@);
        match phase {
            Phase::Commissioning => {
                // Learn, don't act
                let actions = vec![Action::Hold];
                assert(actions_view(actions@) =~= seq![crate::model::ActionView::Hold]);
                actions
            },
            Phase::Stressed => {
                let mut actions: Vec<Action> = Vec::new();
                match &self.config.heading {
                    Some(h) => {
                        // Evasive heading change
                        actions.push(Action::ChangeHeading(evasive_heading(h)));
                    },
                    None => {
                        // No heading defined: prune the source of stress
                        if observations.len() > 0 {
                            let target = observations[0].from.clone();
                            actions.push(Action::Prune { target, reason: String::from_str("collision avoidance") });
                        }
                    },
                }
                // Warn others
                let ghost before = actions@;
                actions.push(Action::Broadcast(SignPattern(vec![-1i8, 1i8, -1i8])));
                assert(actions_view(actions@) =~= actions_view(before).push(
                    crate::model::ActionView::Broadcast(crate::rules::warning_pattern())));
                assert(actions_view(actions@) =~= decision(self@.config, self@.build.refits.len(), obs, constraints_ok, phase));
                actions
            },
            Phase::Recovering => {
                // Hold for stability
                let actions = vec![Action::Hold];
                assert(actions_view(actions@) =~= seq![crate::model::ActionView::Hold]);
                actions
            },
            Phase::Operational => {
                if !constraints_ok {
                    // Violated constraints: refit
                    let mut version = String::new();
                    push_decimal(&mut version, self.build.refits.len());
                    version.append(".1");
                    let actions = vec![Action::Refit(Component { name: String::from_str("core"), version })];
                    assert(actions_view(actions@) =~= decision(self@.config, self@.build.refits.len(), obs, constraints_ok, phase));
                    actions
                } else if observations.len() == 0 {
                    let actions = vec![Action::Hold];
                    assert(actions_view(actions@) =~= seq![crate::model::ActionView::Hold]);
                    actions
                } else {
                    // Respond to observations while maintaining heading
                    let mut actions: Vec<Action> = Vec::new();
                    match &self.config.heading {
                        Some(h) => {
                            actions.push(Action::ChangeHeading(h.clone()));
                        },
                        None => {},
                    }
                    assert(actions_view(actions@) =~= decision(self@.config, self@.build.refits.len(), obs, constraints_ok, phase));
                    actions
                }
            },
        }
    }
}

/// The build-record line of a refitted component: its name, a colon, its version.
fn refit_note(c: &Component) -> (line: String)
    ensures
        crate::rules::refit_line(crate::model::ActionView::Refit(c@)) == Some(line@),
{
    let mut line = c.name.clone();
    line.append(":");
    line.append(c.version.as_str());
    line
}

impl FleetAgent {
    /// Records the refits and prunes among the actions in the build record.
    fn record_build(&mut self, actions: &Vec<Action>)
        ensures
            final(self)@ == (FleetAgentView {
                build: crate::model::BuildRecordView {
                    refits: old(self)@.build.refits + crate::rules::refits_of(actions_view(actions@)),
                    prunes: old(self)@.build.prunes + crate::rules::prunes_of(actions_view(actions@)),
                    ..old(self)@.build
                },
                ..old(self)@
            }),
    {
        proof {
            use_type_invariant(&*self);
        }
        let ghost acts = actions_view(actions@);
        let ghost refits0 = old(self)@.build.refits;
        let ghost prunes0 = old(self)@.build.prunes;
        let mut refits: Vec<String> = Vec::new();
        std::mem::swap(&mut refits, &mut self.build.refits);
        let mut prunes: Vec<(String, String)> = Vec::new();
        std::mem::swap(&mut prunes, &mut self.build.prunes);
        let mut i: usize = 0;
        proof {
            assert(acts.subrange(0, 0) =~= Seq::<crate::model::ActionView>::empty());
            assert(refits0 + crate::rules::refits_of(acts.subrange(0, 0)) =~= refits0);
            assert(prunes0 + crate::rules::prunes_of(acts.subrange(0, 0)) =~= prunes0);
        }
        while i < actions.len()
            invariant
                i <= actions.len(),
                acts == actions_view(actions@),
                texts(refits@) == refits0 + crate::rules::refits_of(acts.subrange(0, i as int)),
                crate::model::text_pairs(prunes@) == prunes0 + crate::rules::prunes_of(acts.subrange(0, i as int)),
            decreases actions.len() - i,
        {
            let ghost prefix = acts.subrange(0, i as int);
            let ghost next = acts.subrange(0, i + 1);
            proof {
                assert(next.drop_last() =~= prefix);
                assert(next.last() == actions@[i as int]@);
            }
            match &actions[i] {
                Action::Refit(c) => {
                    let line = refit_note(c);
                    let ghost old_refits = refits@;
                    refits.push(line);
                    proof {
                        assert(texts(refits@) =~= texts(old_refits).push(line@));
                        assert(crate::rules::refits_of(next) =~= crate::rules::refits_of(prefix) + seq![line@]);
                        assert(crate::rules::prunes_of(next) =~= crate::rules::prunes_of(prefix));
                    }
                },
                Action::Prune { target, reason } => {
                    let ghost old_prunes = prunes@;
                    prunes.push((target.clone(), reason.clone()));
                    proof {
                        assert(crate::model::text_pairs(prunes@) =~= crate::model::text_pairs(old_prunes).push((target@, reason@)));
                        assert(crate::rules::prunes_of(next) =~= crate::rules::prunes_of(prefix) + seq![(target@, reason@)]);
                        assert(crate::rules::refits_of(next) =~= crate::rules::refits_of(prefix));
                    }
                },
                _ => {
                    proof {
                        assert(crate::rules::refits_of(next) =~= crate::rules::refits_of(prefix));
                        assert(crate::rules::prunes_of(next) =~= crate::rules::prunes_of(prefix));
                    }
                },
            }
            assert(texts(refits@) =~= refits0 + crate::rules::refits_of(next));
            assert(crate::model::text_pairs(prunes@) =~= prunes0 + crate::rules::prunes_of(next));
            i = i + 1;
        }
        proof {
            assert(acts.subrange(0, actions@.len() as int) =~= acts);
        }
        self.build.refits = refits;
        self.build.prunes = prunes;
    }
}

impl FleetAgent {
    /// Tick-level state evolution of the sign pattern and timestamp: the
    /// timestamp follows the tick, and every sign flips on a tick that is a
    /// multiple of the drift period.
    fn tick_state(&mut self)
        requires
            old(self)@.config.keel_date + old(self)@.tick <= u64::MAX,
        ensures
            final(self)@ == (FleetAgentView {
                state: crate::model::StateView {
                    timestamp: (old(self)@.config.keel_date + old(self)@.tick) as u64,
                    sign_pattern: crate::rules::drift(old(self)@.state.sign_pattern, old(self)@.tick as nat),
                    ..old(self)@.state
                },
                ..old(self)@
            }),
    {
        proof {
            use_type_invariant(&*self);
        }
        self.state.timestamp = self.config.keel_date + self.tick;
        let flip = self.tick % DRIFT_PERIOD == 0;
        let ghost sp = self.state.sign_pattern@;
        let mut next: Vec<i8> = Vec::new();
        let mut i: usize = 0;
        while i < self.state.sign_pattern.len()
            invariant
                i <= sp.len(),
                sp == self.state.sign_pattern@,
                forall|j: int| 0 <= j < sp.len() ==> #[trigger] sp[j] == 1 || sp[j] == -1,
                next@.len() == i,
                forall|j: int| 0 <= j < i ==> #[trigger] next@[j] == (if flip { (-sp[j]) as i8 } else { sp[j] }),
            decreases sp.len() - i,
        {
            let s = self.state.sign_pattern[i];
            assert(s == 1 || s == -1);
            if flip {
                next.push(-s);
            } else {
                next.push(s);
            }
            i = i + 1;
        }
        assert(next@ =~= crate::rules::drift(sp, self.tick as nat));
        self.state.sign_pattern = next;
    }

    /// Run one full loop iteration: SENSE, CONSTRAINT CHECK, ORIENT, DECIDE,
    /// RECORD (build record and log), then advance the tick, the timestamp and
    /// the sign pattern. `low_energy` tells whether the state energy is below
    /// `0.5`; the caller decays the state values after the tick.
    /// Returns the actions decided during this tick.
    pub fn tick(&mut self, external: Vec<Observation>, low_energy: bool) -> (actions: Vec<Action>)
        requires
            old(self)@.config.keel_date + old(self)@.tick + 1 <= u64::MAX,
        ensures
            final(self)@ == old(self)@.after_tick(observations_view(external@), low_energy),
            actions_view(actions@) == old(self)@.tick_actions(observations_view(external@), low_energy),
            final(self)@.well_formed(),
    {
        proof {
            use_type_invariant(&*self);
        }
        let ghost pre = self@;
        let ghost ext = observations_view(external@);
        // SENSE
        let sensed: Vec<Observation> = {
            let refs = self.sense(external.as_slice());
            let mut out: Vec<Observation> = Vec::new();
            let mut i: usize = 0;
            while i < refs.len()
                invariant
                    i <= refs.len(),
                    observations_view(out@) == borrowed_view(refs@).subrange(0, i as int),
                decreases refs.len() - i,
            {
                let o: &Observation = refs[i];
                let copy = o.clone();
                assert(copy@ == borrowed_view(refs@)[i as int]);
                let ghost before = out@;
                out.push(copy);
                assert(observations_view(out@) =~= observations_view(before).push(copy@));
                i = i + 1;
            }
            assert(borrowed_view(refs@).subrange(0, i as int) =~= borrowed_view(refs@));
            out
        };
        assert(observations_view(sensed@) == pre.sensed(ext));
        let mut external = external;
        let mut stored: Vec<Observation> = Vec::new();
        std::mem::swap(&mut stored, &mut self.observations);
        let ghost stored0 = stored@;
        stored.append(&mut external);
        assert(observations_view(stored@) =~= observations_view(stored0) + ext);
        self.observations = stored;
        // CONSTRAINT CHECK
        let constraints_ok = self.check_constraints();
        // ORIENT
        let phase = self.orient(low_energy);
        // DECIDE
        let actions = self.decide(sensed.as_slice(), constraints_ok, phase);
        // ACT is the caller's; RECORD
        self.record_build(&actions);
        let observation = if sensed.len() > 0 {
            Some(sensed[0].clone())
        } else {
            None
        };
        let action = if actions.len() > 0 {
            actions[0].clone()
        } else {
            Action::Hold
        };
        let mut log: Vec<LogEntry> = Vec::new();
        std::mem::swap(&mut log, &mut self.log);
        let ghost log0 = log@;
        log.push(LogEntry { tick: self.tick, phase, observation, action });
        assert(log_view(log@) =~= log_view(log0).push(pre.tick_entry(ext, low_energy)));
        self.log = log;
        self.tick = self.tick + 1;
        // Evolve the state
        self.tick_state();
        proof {
            use_type_invariant(&*self);
        }
        actions
    }
}

} // verus!
