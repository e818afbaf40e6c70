use fleet_agent_core::phase::Phase;

#[test]
fn test_phase_display() {
    assert_eq!(Phase::Commissioning.to_string(), "Commissioning");
    assert_eq!(Phase::Operational.to_string(), "Operational");
    assert_eq!(Phase::Stressed.to_string(), "Stressed");
    assert_eq!(Phase::Recovering.to_string(), "Recovering");
}
