# fleet_agent_core

A single-loop fleet agent: SENSE → CONSTRAINT CHECK → ORIENT → DECIDE → ACT →
RECORD → repeat, with its decision logic verified by Verus.

- `src/binary64.rs`: measurements are IEEE-754 binary64 numbers carried as their
  bit encodings; finiteness, NaN, `<` and negation are decided exactly on them.
- `src/model.rs`: configuration, state, observations, actions, build record and
  log entries, each with a view.
- `src/rules.rs`: the rules as spec functions: relevance, collision course,
  constraints, the phase rule, the decision table, and what one tick does.
- `src/agent.rs`: `FleetAgent`, whose methods are proved to follow the rules.
- `src/laws.rs`: properties that span ticks and rules.
- `src/decimal.rs`, `src/phase.rs`: refit version numbers and phase names.
- `app/main.rs`: the 100-tick demonstration. Summing and decaying the state
  values (floating-point arithmetic) happen there; the loop is told whether the
  state energy is below 0.5.
