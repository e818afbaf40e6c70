use fleet_agent_core::{
    Action, AgentConfig, Component, Constraint, FleetAgent, Heading, Observation, Phase, SignPattern, State,
};

fn bits(x: f64) -> u64 {
    x.to_bits()
}

fn values_of(agent: &FleetAgent) -> Vec<f64> {
    agent.state().values.iter().map(|b| f64::from_bits(*b)).collect()
}

/// Total energy: sum of absolute values.
fn energy(agent: &FleetAgent) -> f64 {
    values_of(agent).iter().map(|v| v.abs()).sum()
}

fn low_energy(agent: &FleetAgent) -> bool {
    energy(agent) < f64::from_bits(fleet_agent_core::rules::LOW_ENERGY)
}

/// One tick as the agent's owner runs it: the energy check before, the decay after.
fn step(agent: &mut FleetAgent, external: Vec<Observation>) -> Vec<Action> {
    let low = low_energy(agent);
    let actions = agent.tick(external, low);
    let decayed: Vec<u64> = values_of(agent)
        .into_iter()
        .map(|v| {
            let mut v = v * 0.99;
            if v < 0.01 {
                v = 0.0;
            }
            v.to_bits()
        })
        .collect();
    agent.set_state_values(decayed);
    actions
}

fn phase_of(agent: &FleetAgent) -> Phase {
    agent.phase(low_energy(agent))
}

fn observation(from: &str, value: f64, sign_pattern: Vec<i8>, bearing_rate: f64) -> Observation {
    Observation {
        from: from.into(),
        state: State { values: vec![bits(value)], timestamp: 0, sign_pattern },
        bearing_rate: bits(bearing_rate),
    }
}

fn default_config() -> AgentConfig {
    AgentConfig {
        id: "test-agent".into(),
        keel_date: 1000,
        constraints: vec![Constraint {
            name: "temperature".into(),
            description: "Core temp must stay below 85.0".into(),
            threshold: bits(85.0),
        }],
        heading: Some(Heading { direction: vec![bits(1.0), bits(0.0), bits(0.0)], scope: vec!["north".into()] }),
        coupling: bits(0.5),
        gain: bits(1.0),
    }
}

fn fast_mod(a: f64, b: f64) -> f64 {
    (a - (a / b).floor() * b).abs()
}

fn rand_bearing() -> f64 {
    0.5 + (fast_mod(42.0, 13.0) / 13.0)
}

// Construction & identity

#[test]
fn test_new_agent() {
    let cfg = default_config();
    let agent = FleetAgent::new(cfg.clone());
    assert_eq!(agent.config().id, "test-agent");
    assert_eq!(agent.age(), 0);
    assert!(agent.is_commissioning());
}

#[test]
fn test_build_record() {
    let agent = FleetAgent::new(default_config());
    assert_eq!(agent.build_record().keel_date, 1000);
    assert!(agent.build_record().refits.is_empty());
    assert!(agent.build_record().prunes.is_empty());
}

#[test]
fn test_initial_state_energy() {
    let agent = FleetAgent::new(default_config());
    assert_eq!(agent.state().values, vec![bits(1.0)]);
    assert!((energy(&agent) - 1.0).abs() < 1e-9);
}

// Age & commissioning

#[test]
fn test_age_increases() {
    let mut agent = FleetAgent::new(default_config());
    for i in 0..10 {
        assert_eq!(agent.age(), i);
        let _ = step(&mut agent, vec![]);
    }
    assert_eq!(agent.age(), 10);
}

#[test]
fn test_commissioning_phase_under_50() {
    let mut agent = FleetAgent::new(default_config());
    for _ in 0..49 {
        let _ = step(&mut agent, vec![]);
    }
    assert_eq!(phase_of(&agent), Phase::Commissioning);
}

#[test]
fn test_commissioning_ends_at_50() {
    let mut agent = FleetAgent::new(default_config());
    for _ in 0..50 {
        let _ = step(&mut agent, vec![]);
    }
    assert_ne!(phase_of(&agent), Phase::Commissioning);
}

// Phase transitions

#[test]
fn test_operational_after_commissioning() {
    let mut agent = FleetAgent::new(default_config());
    for _ in 0..60 {
        let _ = step(&mut agent, vec![]);
    }
    assert_eq!(phase_of(&agent), Phase::Operational);
}

#[test]
fn test_stressed_phase_on_low_bearing_rate() {
    let mut agent = FleetAgent::new(default_config());
    for _ in 0..55 {
        let _ = step(&mut agent, vec![]);
    }
    let inbound = vec![observation("hostile", 10.0, vec![1], 0.005)];
    let _ = step(&mut agent, inbound);
    assert_eq!(phase_of(&agent), Phase::Stressed);
}

#[test]
fn test_recovering_on_low_energy() {
    let mut agent = FleetAgent::new(default_config());
    for _ in 0..55 {
        let _ = step(&mut agent, vec![]);
    }
    agent.set_state_values(vec![bits(0.1)]);
    assert!(energy(&agent) < 0.5);
    assert_eq!(phase_of(&agent), Phase::Recovering);
}

#[test]
fn test_recovering_takes_priority_over_stressed() {
    let mut agent = FleetAgent::new(default_config());
    for _ in 0..55 {
        let _ = step(&mut agent, vec![]);
    }
    agent.set_state_values(vec![bits(0.1)]);
    let inbound = vec![observation("hostile", 10.0, vec![1], 0.001)];
    let _ = step(&mut agent, inbound);
    assert_eq!(phase_of(&agent), Phase::Recovering);
}

// SENSE

#[test]
fn test_sense_relevant_observations() {
    let agent = FleetAgent::new(default_config());
    let relevant = observation("friend", 2.0, vec![1], 0.5);
    let irrelevant_sig = observation("stranger", 2.0, vec![-1], 0.5);
    let nonsense = observation("noise", 0.0, vec![], f64::NAN);
    let obs = vec![relevant, irrelevant_sig, nonsense];
    let sensed = agent.sense(&obs);
    assert_eq!(sensed.len(), 1);
    assert_eq!(sensed[0].from, "friend");
}

#[test]
fn test_sense_empty_when_no_overlap() {
    let agent = FleetAgent::new(default_config());
    let obs = vec![observation("alien", 1.0, vec![-1], 3.0)];
    assert!(agent.sense(&obs).is_empty());
}

// CONSTRAINT CHECK

#[test]
fn test_constraint_passes() {
    let agent = FleetAgent::new(default_config());
    assert!(agent.check_constraints());
}

#[test]
fn test_constraint_fails() {
    let mut cfg = default_config();
    cfg.constraints = vec![Constraint { name: "tight".into(), description: "Strict".into(), threshold: bits(0.5) }];
    let agent = FleetAgent::new(cfg);
    assert!(!agent.check_constraints());
}

#[test]
fn test_constraint_uses_max_value() {
    let mut cfg = default_config();
    cfg.constraints = vec![Constraint { name: "multi".into(), description: "Multi-dim".into(), threshold: bits(3.0) }];
    let mut agent = FleetAgent::new(cfg);
    agent.set_state_values(vec![bits(0.5), bits(2.0), bits(0.1)]);
    assert!(agent.check_constraints());
    agent.set_state_values(vec![bits(0.5), bits(5.0), bits(0.1)]);
    assert!(!agent.check_constraints());
}

// DECIDE

#[test]
fn test_decide_commissioning_hold() {
    let agent = FleetAgent::new(default_config());
    let actions = agent.decide(&[], true, Phase::Commissioning);
    assert_eq!(actions, vec![Action::Hold]);
}

#[test]
fn test_decide_stressed_evasive() {
    let agent = FleetAgent::new(default_config());
    let obs = vec![observation("threat", 5.0, vec![1], 0.001)];
    let actions = agent.decide(&obs, true, Phase::Stressed);
    assert_eq!(actions.len(), 2);
    assert!(matches!(actions[0], Action::ChangeHeading(_)));
    assert!(matches!(actions[1], Action::Broadcast(_)));
}

#[test]
fn test_decide_stressed_no_heading_prune() {
    let mut cfg = default_config();
    cfg.heading = None;
    let agent = FleetAgent::new(cfg);
    let obs = vec![observation("rogue", 99.0, vec![1], 0.0001)];
    let actions = agent.decide(&obs, true, Phase::Stressed);
    assert_eq!(actions.len(), 2);
    assert!(matches!(&actions[0], Action::Prune { target, .. } if target == "rogue"));
    assert!(matches!(actions[1], Action::Broadcast(_)));
}

#[test]
fn test_decide_recovering_hold() {
    let agent = FleetAgent::new(default_config());
    let actions = agent.decide(&[], true, Phase::Recovering);
    assert_eq!(actions, vec![Action::Hold]);
}

#[test]
fn test_decide_operational_constraint_violation_refit() {
    let agent = FleetAgent::new(default_config());
    let actions = agent.decide(&[], false, Phase::Operational);
    assert_eq!(actions.len(), 1);
    assert!(matches!(&actions[0], Action::Refit(c) if c.name == "core"));
}

#[test]
fn test_decide_operational_no_observations_hold() {
    let agent = FleetAgent::new(default_config());
    let actions = agent.decide(&[], true, Phase::Operational);
    assert_eq!(actions, vec![Action::Hold]);
}

#[test]
fn test_decide_operational_with_observations() {
    let agent = FleetAgent::new(default_config());
    let obs = vec![observation("peer", 1.0, vec![1], 1.0)];
    let actions = agent.decide(&obs, true, Phase::Operational);
    assert!(matches!(actions[0], Action::ChangeHeading(_)));
}

// Full tick integration

#[test]
fn test_tick_increments_age_and_logs() {
    let mut agent = FleetAgent::new(default_config());
    assert_eq!(agent.log().len(), 0);
    let actions = step(&mut agent, vec![]);
    assert_eq!(agent.age(), 1);
    assert_eq!(agent.log().len(), 1);
    assert_eq!(agent.log()[0].tick, 0);
    assert_eq!(agent.log()[0].phase, Phase::Commissioning);
    assert_eq!(actions, vec![Action::Hold]);
}

#[test]
fn test_one_hundred_ticks_no_panic() {
    let mut agent = FleetAgent::new(default_config());
    for _ in 0..100 {
        let external = vec![
            observation("drone-1", 0.8, vec![1], rand_bearing()),
            observation("drone-2", 1.2, vec![1], rand_bearing()),
        ];
        step(&mut agent, external);
    }
    assert_eq!(agent.age(), 100);
    assert_eq!(agent.log().len(), 100);
    let phases: Vec<Phase> = agent.log().iter().map(|e| e.phase).collect();
    assert!(phases.contains(&Phase::Commissioning));
    assert!(phases.contains(&Phase::Operational));
}

#[test]
fn test_stress_event_during_run() {
    let mut agent = FleetAgent::new(default_config());
    for _ in 0..55 {
        let _ = step(&mut agent, vec![]);
    }
    let obs = vec![observation("missile", 100.0, vec![1], 0.0001)];
    let actions = step(&mut agent, obs);
    let has_evasive = actions.iter().any(|a| matches!(a, Action::ChangeHeading(_)));
    let has_broadcast = actions.iter().any(|a| matches!(a, Action::Broadcast(_)));
    assert!(has_evasive || has_broadcast, "Expected stress-related actions");
}

// Edge cases

#[test]
fn test_zero_constraints() {
    let cfg = AgentConfig {
        id: "zero".into(),
        keel_date: 0,
        constraints: vec![],
        heading: None,
        coupling: bits(0.0),
        gain: bits(0.0),
    };
    let agent = FleetAgent::new(cfg);
    assert!(agent.check_constraints());
}

#[test]
fn test_empty_state_values() {
    let mut agent = FleetAgent::new(default_config());
    agent.set_state_values(vec![]);
    assert_eq!(energy(&agent), 0.0);
    let _ = step(&mut agent, vec![]);
}

// Further cases of the rules

#[test]
fn stressed_evasive_heading_points_the_opposite_way() {
    let agent = FleetAgent::new(default_config());
    let actions = agent.decide(&[], true, Phase::Stressed);
    assert_eq!(
        actions,
        vec![
            Action::ChangeHeading(Heading {
                direction: vec![bits(-1.0), bits(-0.0), bits(-0.0)],
                scope: vec!["north".into()],
            }),
            Action::Broadcast(SignPattern(vec![-1, 1, -1])),
        ]
    );
}

#[test]
fn stressed_without_heading_or_observation_only_broadcasts() {
    let mut cfg = default_config();
    cfg.heading = None;
    let agent = FleetAgent::new(cfg);
    let actions = agent.decide(&[], true, Phase::Stressed);
    assert_eq!(actions, vec![Action::Broadcast(SignPattern(vec![-1, 1, -1]))]);
}

#[test]
fn operational_without_heading_does_nothing_on_observations() {
    let mut cfg = default_config();
    cfg.heading = None;
    let agent = FleetAgent::new(cfg);
    let obs = vec![observation("peer", 1.0, vec![1], 1.0)];
    assert!(agent.decide(&obs, true, Phase::Operational).is_empty());
}

#[test]
fn operational_keeps_heading_unchanged() {
    let agent = FleetAgent::new(default_config());
    let obs = vec![observation("peer", 1.0, vec![1], 1.0)];
    let actions = agent.decide(&obs, true, Phase::Operational);
    assert_eq!(
        actions,
        vec![Action::ChangeHeading(Heading {
            direction: vec![bits(1.0), bits(0.0), bits(0.0)],
            scope: vec!["north".into()],
        })]
    );
}

#[test]
fn refit_version_counts_earlier_refits() {
    let mut cfg = default_config();
    cfg.constraints = vec![Constraint { name: "tight".into(), description: "Strict".into(), threshold: bits(0.5) }];
    let mut agent = FleetAgent::new(cfg);
    for _ in 0..50 {
        let _ = step(&mut agent, vec![]);
    }
    // 0.99^50 > 0.5: the tight constraint is violated in normal operation
    let first = step(&mut agent, vec![]);
    assert_eq!(
        first,
        vec![Action::Refit(Component { name: "core".into(), version: "0.1".into() })]
    );
    let second = step(&mut agent, vec![]);
    assert_eq!(
        second,
        vec![Action::Refit(Component { name: "core".into(), version: "1.1".into() })]
    );
    assert_eq!(agent.build_record().refits, vec!["core:0.1".to_string(), "core:1.1".to_string()]);
}

#[test]
fn prune_is_recorded_in_build_record() {
    let mut cfg = default_config();
    cfg.heading = None;
    let mut agent = FleetAgent::new(cfg);
    for _ in 0..55 {
        let _ = step(&mut agent, vec![]);
    }
    // the pattern flipped on ticks 7, 14, ..., 49: seven times
    assert_eq!(agent.state().sign_pattern, vec![-1]);
    let actions = step(&mut agent, vec![observation("rogue", 99.0, vec![-1], 0.0001)]);
    assert_eq!(actions.len(), 2);
    assert_eq!(
        agent.build_record().prunes,
        vec![("rogue".to_string(), "collision avoidance".to_string())]
    );
}

#[test]
fn log_records_first_relevant_observation_and_first_action() {
    let mut agent = FleetAgent::new(default_config());
    let ignored = observation("stranger", 2.0, vec![-1], 0.5);
    let seen = observation("friend", 2.0, vec![1], 0.5);
    let _ = step(&mut agent, vec![ignored, seen.clone()]);
    let entry = &agent.log()[0];
    assert_eq!(entry.observation, Some(seen));
    assert_eq!(entry.action, Action::Hold);
}

#[test]
fn sign_pattern_flips_on_every_seventh_tick() {
    let mut agent = FleetAgent::new(default_config());
    for _ in 0..6 {
        let _ = step(&mut agent, vec![]);
    }
    assert_eq!(agent.state().sign_pattern, vec![1]);
    let _ = step(&mut agent, vec![]);
    assert_eq!(agent.state().sign_pattern, vec![-1]);
    let _ = step(&mut agent, vec![]);
    assert_eq!(agent.state().sign_pattern, vec![-1]);
    for _ in 0..6 {
        let _ = step(&mut agent, vec![]);
    }
    assert_eq!(agent.age(), 14);
    assert_eq!(agent.state().sign_pattern, vec![1]);
}

#[test]
fn timestamp_follows_the_tick() {
    let mut agent = FleetAgent::new(default_config());
    assert_eq!(agent.state().timestamp, 1000);
    for _ in 0..3 {
        let _ = step(&mut agent, vec![]);
    }
    assert_eq!(agent.state().timestamp, 1003);
}

#[test]
fn stress_is_remembered_after_the_observation() {
    let mut agent = FleetAgent::new(default_config());
    for _ in 0..55 {
        let _ = step(&mut agent, vec![]);
    }
    let _ = step(&mut agent, vec![observation("hostile", 10.0, vec![-1], 0.005)]);
    let _ = step(&mut agent, vec![]);
    assert_eq!(phase_of(&agent), Phase::Stressed);
}

#[test]
fn negative_infinite_bearing_is_a_collision_course_but_not_relevant() {
    let mut agent = FleetAgent::new(default_config());
    for _ in 0..55 {
        let _ = step(&mut agent, vec![]);
    }
    let obs = vec![observation("ghost", 1.0, vec![1], f64::NEG_INFINITY)];
    assert!(agent.sense(&obs).is_empty());
    let _ = step(&mut agent, obs);
    assert_eq!(phase_of(&agent), Phase::Stressed);
    assert_eq!(agent.log()[55].observation, None);
}

#[test]
fn constraint_passes_over_nan_values_and_accepts_low_thresholds() {
    let mut cfg = default_config();
    cfg.constraints = vec![Constraint { name: "c".into(), description: "d".into(), threshold: bits(3.0) }];
    let mut agent = FleetAgent::new(cfg);
    agent.set_state_values(vec![bits(f64::NAN), bits(2.0)]);
    assert!(agent.check_constraints());
    agent.set_state_values(vec![bits(f64::NAN)]);
    assert!(agent.check_constraints());
    agent.set_state_values(vec![bits(f64::NAN), bits(4.0)]);
    assert!(!agent.check_constraints());
    agent.set_state_values(vec![bits(f64::INFINITY)]);
    assert!(!agent.check_constraints());
    agent.set_state_values(vec![bits(2.999)]);
    assert!(agent.check_constraints());
    agent.set_state_values(vec![bits(3.0)]);
    assert!(!agent.check_constraints());
    let mut cfg = default_config();
    cfg.constraints = vec![Constraint { name: "c".into(), description: "d".into(), threshold: bits(-1.0) }];
    let mut agent = FleetAgent::new(cfg);
    agent.set_state_values(vec![bits(-5.0)]);
    assert!(agent.check_constraints());
    agent.set_state_values(vec![]);
    assert!(agent.check_constraints());
    agent.set_state_values(vec![bits(-0.5)]);
    assert!(!agent.check_constraints());
    let mut cfg = default_config();
    cfg.constraints = vec![Constraint { name: "c".into(), description: "d".into(), threshold: bits(0.0) }];
    let mut agent = FleetAgent::new(cfg);
    agent.set_state_values(vec![bits(-0.0)]);
    assert!(!agent.check_constraints());
    agent.set_state_values(vec![bits(-2.0)]);
    assert!(agent.check_constraints());
    let mut cfg = default_config();
    cfg.constraints = vec![Constraint { name: "c".into(), description: "d".into(), threshold: bits(f64::NAN) }];
    let mut agent = FleetAgent::new(cfg);
    assert!(!agent.check_constraints());
    agent.set_state_values(vec![]);
    assert!(!agent.check_constraints());
}

#[test]
fn heading_equality_compares_numbers() {
    let a = Heading { direction: vec![bits(0.0), bits(1.0)], scope: vec!["north".into()] };
    let b = Heading { direction: vec![bits(-0.0), bits(1.0)], scope: vec!["north".into()] };
    assert_eq!(a, b);
    assert_eq!(Action::ChangeHeading(a.clone()), Action::ChangeHeading(b.clone()));
    let n = Heading { direction: vec![bits(f64::NAN)], scope: vec![] };
    assert_ne!(n, n.clone());
    let c = Heading { direction: vec![bits(0.0), bits(1.0)], scope: vec!["south".into()] };
    assert_ne!(a, c);
    assert_ne!(Action::Hold, Action::ChangeHeading(a));
}

#[test]
fn orient_agrees_with_phase() {
    let mut agent = FleetAgent::new(default_config());
    for _ in 0..50 {
        let _ = step(&mut agent, vec![]);
    }
    let p = agent.phase(true);
    assert_eq!(agent.orient(true), p);
    assert_eq!(p, Phase::Recovering);
    assert_eq!(agent.orient(false), Phase::Operational);
    assert_eq!(agent.age(), 50);
}

#[test]
fn commissioning_never_returns() {
    let mut agent = FleetAgent::new(default_config());
    for _ in 0..50 {
        let _ = step(&mut agent, vec![]);
    }
    for _ in 0..60 {
        assert!(!agent.is_commissioning());
        assert_ne!(agent.phase(true), Phase::Commissioning);
        assert_ne!(agent.phase(false), Phase::Commissioning);
        let _ = step(&mut agent, vec![]);
    }
    assert!(agent.log().iter().skip(50).all(|e| e.phase != Phase::Commissioning));
}

#[test]
fn action_text_renders_all_but_heading_changes() {
    assert_eq!(Action::Hold.text(), Some("Hold".to_string()));
    let refit = Action::Refit(Component { name: "core".into(), version: "0.1".into() });
    assert_eq!(refit.text(), Some("Refit(core:0.1)".to_string()));
    let prune = Action::Prune { target: "rogue".into(), reason: "collision avoidance".into() };
    assert_eq!(prune.text(), Some("Prune(rogue: collision avoidance)".to_string()));
    let pattern = vec![-1i8, 1, -1];
    let broadcast = Action::Broadcast(SignPattern(pattern.clone()));
    assert_eq!(broadcast.text(), Some(format!("Broadcast({:?})", pattern)));
    assert_eq!(broadcast.text(), Some("Broadcast([-1, 1, -1])".to_string()));
    let extremes = vec![i8::MIN, 0, i8::MAX, 10];
    assert_eq!(Action::Broadcast(SignPattern(extremes.clone())).text(), Some(format!("Broadcast({:?})", extremes)));
    assert_eq!(Action::Broadcast(SignPattern(vec![])).text(), Some("Broadcast([])".to_string()));
    let h = Action::ChangeHeading(Heading { direction: vec![bits(1.0), bits(0.0)], scope: vec!["north".into()] });
    assert_eq!(h.text(), None);
}

#[test]
fn log_line_i_carries_tick_i() {
    let mut agent = FleetAgent::new(default_config());
    for n in 0..80u64 {
        let external = if n % 3 == 0 { vec![observation("peer", 1.0, vec![1], 0.2)] } else { vec![] };
        let _ = step(&mut agent, external);
    }
    assert_eq!(agent.log().len() as u64, agent.age());
    for (i, e) in agent.log().iter().enumerate() {
        assert_eq!(e.tick, i as u64);
    }
    assert_eq!(agent.state().timestamp, 1000 + 80);
}

#[test]
fn own_pattern_after_n_ticks_decides_what_is_sensed() {
    let mut agent = FleetAgent::new(default_config());
    let plus = vec![observation("plus", 1.0, vec![1, -1], 0.5)];
    let minus = vec![observation("minus", 1.0, vec![-1], 0.5)];
    for n in 0..30u64 {
        let sp: i8 = if (n / 7) % 2 == 0 { 1 } else { -1 };
        assert_eq!(agent.state().sign_pattern, vec![sp]);
        assert_eq!(agent.sense(&plus).len(), if sp == 1 { 1 } else { 0 });
        assert_eq!(agent.sense(&minus).len(), if sp == -1 { 1 } else { 0 });
        let _ = step(&mut agent, vec![]);
    }
}

#[test]
fn coupling_and_gain_change_nothing() {
    let mut other = default_config();
    other.coupling = bits(42.0);
    other.gain = bits(f64::NAN);
    let mut a = FleetAgent::new(default_config());
    let mut b = FleetAgent::new(other);
    for n in 0..70u64 {
        let external = if n == 60 { vec![observation("hostile", 1.0, vec![1], 0.001)] } else { vec![] };
        assert_eq!(step(&mut a, external.clone()), step(&mut b, external));
        assert_eq!(phase_of(&a), phase_of(&b));
        assert_eq!(a.check_constraints(), b.check_constraints());
    }
    assert_eq!(a.log(), b.log());
    assert_eq!(a.state(), b.state());
    assert_eq!(a.build_record(), b.build_record());
}

#[test]
fn phase_only_moves_forward_after_commissioning() {
    let mut agent = FleetAgent::new(default_config());
    let rank = |p: Phase| match p {
        Phase::Commissioning => -1,
        Phase::Operational => 0,
        Phase::Stressed => 1,
        Phase::Recovering => 2,
    };
    for _ in 0..50 {
        let _ = step(&mut agent, vec![]);
    }
    let mut last = rank(phase_of(&agent));
    assert_eq!(last, 0);
    for n in 0..40u64 {
        let external = if n == 5 { vec![observation("hostile", 1.0, vec![1], 0.001)] } else { vec![] };
        let _ = step(&mut agent, external);
        let now = rank(phase_of(&agent));
        assert!(now >= last);
        last = now;
    }
    assert_eq!(phase_of(&agent), Phase::Recovering);
}

#[test]
fn test_action_display() {
    assert_eq!(Action::Hold.text(), Some("Hold".to_string()));
}

#[test]
fn build_record_and_log_entries_clone() {
    let mut cfg = default_config();
    cfg.heading = None;
    let mut agent = FleetAgent::new(cfg);
    for _ in 0..55 {
        let _ = step(&mut agent, vec![]);
    }
    let _ = step(&mut agent, vec![observation("rogue", 99.0, vec![-1], 0.0001)]);
    let record = agent.build_record().clone();
    assert_eq!(&record, agent.build_record());
    assert_eq!(record.prunes.len(), 1);
    let entry = agent.log()[55].clone();
    assert_eq!(entry, agent.log()[55]);
    assert_eq!(entry.tick, 55);
}
