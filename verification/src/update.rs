//! The messages a control thread sends to the summing bus.

use crate::level::Level;
use vstd::prelude::*;

verus! {

/// One of the two decks that feed the summing bus.
#[derive(Clone, Copy, Debug, PartialEq, Eq, Structural)]
pub enum DeckId {
    /// The deck heard alone with the crossfader at 0.
    A,
    /// The deck heard alone with the crossfader at 1.
    B,
}

/// A change to one parameter of the summing bus.
///
/// The level is carried as sent; it is clamped when the bus applies it.
#[derive(Clone, Copy, Debug, PartialEq, Eq, Structural)]
pub enum ParameterUpdate {
    /// Sets the linear gain of one deck.
    DeckGain { deck: DeckId, gain: Level },
    /// Sets the crossfader position: 0 is all deck A, 1 is all deck B.
    Crossfader(Level),
    /// Sets the gain of the mixed output.
    MasterGain(Level),
}

/// One of the four parameters that the bus holds.
#[derive(Clone, Copy, Debug, PartialEq, Eq, Structural)]
pub enum Parameter {
    /// The linear gain of one deck.
    DeckGain(DeckId),
    /// The crossfader position.
    Crossfader,
    /// The gain of the mixed output.
    MasterGain,
}

impl ParameterUpdate {
    /// The parameter that the update sets.
    pub open spec fn spec_target(self) -> Parameter {
        match self {
            ParameterUpdate::DeckGain { deck, gain } => Parameter::DeckGain(deck),
            ParameterUpdate::Crossfader(position) => Parameter::Crossfader,
            ParameterUpdate::MasterGain(gain) => Parameter::MasterGain,
        }
    }

    /// The level as sent.
    pub open spec fn spec_level(self) -> Level {
        match self {
            ParameterUpdate::DeckGain { deck, gain } => gain,
            ParameterUpdate::Crossfader(position) => position,
            ParameterUpdate::MasterGain(gain) => gain,
        }
    }

    /// The level that the bus stores for the update: a gain clamped from below
    /// at zero, a crossfader position clamped into [0, 1], and zero in place of
    /// what is not a number.
    pub open spec fn spec_stored(self) -> Level {
        match self {
            ParameterUpdate::DeckGain { deck, gain } => gain.clamped_non_negative(),
            ParameterUpdate::Crossfader(position) => position.clamped_unit(),
            ParameterUpdate::MasterGain(gain) => gain.clamped_non_negative(),
        }
    }

    /// The parameter that the update sets.
    #[verifier::when_used_as_spec(spec_target)]
    pub fn target(self) -> (parameter: Parameter)
        ensures
            parameter == self.spec_target(),
    {
        match self {
            ParameterUpdate::DeckGain { deck, gain: _ } => Parameter::DeckGain(deck),
            ParameterUpdate::Crossfader(_) => Parameter::Crossfader,
            ParameterUpdate::MasterGain(_) => Parameter::MasterGain,
        }
    }

    /// The level that the bus stores for the update.
    #[verifier::when_used_as_spec(spec_stored)]
    pub fn stored(self) -> (level: Level)
        ensures
            level == self.spec_stored(),
    {
        match self {
            ParameterUpdate::DeckGain { deck: _, gain } => gain.clamp_non_negative(),
            ParameterUpdate::Crossfader(position) => position.clamp_unit(),
            ParameterUpdate::MasterGain(gain) => gain.clamp_non_negative(),
        }
    }
}

} // verus!
