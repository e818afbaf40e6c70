use vstd::prelude::*;

verus! {

/// The operating phase of an agent.
#[derive(Debug, Clone, Copy, PartialEq, Eq, Hash, Structural)]
pub enum Phase {
    Commissioning,
    Operational,
    Stressed,
    Recovering,
}

/// The human-readable name of a phase.
pub open spec fn phase_name(p: Phase) -> Seq<char> {
    match p {
        Phase::Commissioning => "Commissioning"@,
        Phase::Operational => "Operational"@,
        Phase::Stressed => "Stressed"@,
        Phase::Recovering => "Recovering"@,
    }
}

/// Each phase is named as its variant is.
pub proof fn law_phase_names()
    ensures
        phase_name(Phase::Commissioning) == "Commissioning"@,
        phase_name(Phase::Operational) == "Operational"@,
        phase_name(Phase::Stressed) == "Stressed"@,
        phase_name(Phase::Recovering) == "Recovering"@,
{
}

impl Phase {
    /// Renders the phase as its name.
    pub fn to_string(&self) -> (s: String)
        ensures
            s@ == phase_name(*self),
    {
        match self {
            Phase::Commissioning => String::from_str("Commissioning"),
            Phase::Operational => String::from_str("Operational"),
            Phase::Stressed => String::from_str("Stressed"),
            Phase::Recovering => String::from_str("Recovering"),
        }
    }
}

} // verus!
