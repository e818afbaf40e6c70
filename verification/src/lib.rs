//! Core decision logic of a single-loop fleet agent:
//! SENSE, CONSTRAINT CHECK, ORIENT, DECIDE, ACT, RECORD, repeat.
//!
//! Measurements (state values, thresholds, bearing rates, headings) are IEEE-754
//! binary64 numbers held as their 64-bit encodings; the loop decides everything
//! it needs on those encodings. Summing and decaying state values are left to
//! the caller, which hands the loop whether the state energy is low.

pub mod agent;
pub mod binary64;
pub mod decimal;
pub mod laws;
pub mod model;
pub mod phase;
pub mod rules;

pub use agent::FleetAgent;
pub use model::{
    Action, AgentConfig, AgentId, BuildRecord, Component, Constraint, Heading, LogEntry, Observation,
    SignPattern, State,
};
pub use phase::Phase;
