//! The parameter record of the summing bus and the rule by which updates
//! change it.

use crate::level::law_clamp_non_negative;
use crate::level::law_clamp_unit;
use crate::level::lemma_named_values;
use crate::level::unit_scale;
use crate::level::Level;
use crate::update::DeckId;
use crate::update::Parameter;
use crate::update::ParameterUpdate;
use vstd::prelude::*;

verus! {

/// The four levels that shape a mix.
#[derive(Clone, Copy, Debug, PartialEq, Eq, Structural)]
pub struct MixLevels {
    /// Linear gain of deck A.
    pub deck_a_gain: Level,
    /// Linear gain of deck B.
    pub deck_b_gain: Level,
    /// Crossfader position.
    pub crossfader: Level,
    /// Linear gain of the mixed output.
    pub master_gain: Level,
}

impl MixLevels {
    /// Unity gains and a centred crossfader.
    pub open spec fn spec_unity() -> MixLevels {
        MixLevels {
            deck_a_gain: Level::spec_one(),
            deck_b_gain: Level::spec_one(),
            crossfader: Level::spec_half(),
            master_gain: Level::spec_one(),
        }
    }

    /// The level held for a parameter.
    pub open spec fn spec_get(self, parameter: Parameter) -> Level {
        match parameter {
            Parameter::DeckGain(DeckId::A) => self.deck_a_gain,
            Parameter::DeckGain(DeckId::B) => self.deck_b_gain,
            Parameter::Crossfader => self.crossfader,
            Parameter::MasterGain => self.master_gain,
        }
    }

    /// The record with one parameter replaced.
    pub open spec fn spec_with(self, parameter: Parameter, level: Level) -> MixLevels {
        match parameter {
            Parameter::DeckGain(DeckId::A) => MixLevels { deck_a_gain: level, ..self },
            Parameter::DeckGain(DeckId::B) => MixLevels { deck_b_gain: level, ..self },
            Parameter::Crossfader => MixLevels { crossfader: level, ..self },
            Parameter::MasterGain => MixLevels { master_gain: level, ..self },
        }
    }

    /// The record after one update: the parameter it names holds the clamped
    /// level, the other three are as before.
    pub open spec fn after(self, update: ParameterUpdate) -> MixLevels {
        self.spec_with(update.spec_target(), update.spec_stored())
    }

    /// The record after a run of updates, applied first to last.
    pub open spec fn after_all(self, updates: Seq<ParameterUpdate>) -> MixLevels
        decreases updates.len(),
    {
        if updates.len() == 0 {
            self
        } else {
            self.after_all(updates.drop_last()).after(updates.last())
        }
    }

    /// What every record of a bus satisfies: each gain is a number that is
    /// zero or more, and the crossfader is a number in [0, 1].
    pub open spec fn valid(self) -> bool {
        &&& self.deck_a_gain.is_plain_non_negative()
        &&& self.deck_b_gain.is_plain_non_negative()
        &&& self.master_gain.is_plain_non_negative()
        &&& self.crossfader.in_unit_range()
    }

    /// Unity gains and a centred crossfader.
    #[verifier::when_used_as_spec(spec_unity)]
    pub fn unity() -> (levels: MixLevels)
        ensures
            levels == MixLevels::spec_unity(),
    {
        MixLevels {
            deck_a_gain: Level::one(),
            deck_b_gain: Level::one(),
            crossfader: Level::half(),
            master_gain: Level::one(),
        }
    }

    /// The level held for a parameter.
    #[verifier::when_used_as_spec(spec_get)]
    pub fn get(self, parameter: Parameter) -> (level: Level)
        ensures
            level == self.spec_get(parameter),
    {
        match parameter {
            Parameter::DeckGain(DeckId::A) => self.deck_a_gain,
            Parameter::DeckGain(DeckId::B) => self.deck_b_gain,
            Parameter::Crossfader => self.crossfader,
            Parameter::MasterGain => self.master_gain,
        }
    }

    /// The gain held for a deck.
    pub fn deck_gain(self, deck: DeckId) -> (gain: Level)
        ensures
            gain == self.spec_get(Parameter::DeckGain(deck)),
    {
        match deck {
            DeckId::A => self.deck_a_gain,
            DeckId::B => self.deck_b_gain,
        }
    }

    /// Applies one update.
    pub fn apply(self, update: ParameterUpdate) -> (next: MixLevels)
        ensures
            next == self.after(update),
    {
        let level = update.stored();
        match update.target() {
            Parameter::DeckGain(DeckId::A) => MixLevels { deck_a_gain: level, ..self },
            Parameter::DeckGain(DeckId::B) => MixLevels { deck_b_gain: level, ..self },
            Parameter::Crossfader => MixLevels { crossfader: level, ..self },
            Parameter::MasterGain => MixLevels { master_gain: level, ..self },
        }
    }
}

/// The record that a bus starts with is valid.
pub proof fn law_unity_is_valid()
    ensures
        MixLevels::spec_unity().valid(),
{
    law_clamp_unit(Level::spec_half());
    lemma_named_values();
}

/// A run of no updates changes nothing: a period that finds the channel empty
/// is mixed with the levels of the period before it.
pub proof fn law_empty_run_changes_nothing(levels: MixLevels)
    ensures
        levels.after_all(Seq::<ParameterUpdate>::empty()) == levels,
{
}

/// One more update at the end of a run is applied after the run.
pub proof fn law_run_then_one(levels: MixLevels, updates: Seq<ParameterUpdate>, update: ParameterUpdate)
    ensures
        levels.after_all(updates.push(update)) == levels.after_all(updates).after(update),
{
    assert(updates.push(update).drop_last() =~= updates);
}

/// Within a run the last update of a parameter wins: the parameter ends at
/// the clamped level of that update, whatever came before it.
pub proof fn law_last_update_wins(levels: MixLevels, updates: Seq<ParameterUpdate>, last: int)
    requires
        0 <= last < updates.len(),
        forall|later: int|
            last < later < updates.len() ==> updates[later].spec_target()
                != updates[last].spec_target(),
    ensures
        levels.after_all(updates).spec_get(updates[last].spec_target())
            == updates[last].spec_stored(),
    decreases updates.len(),
{
    if last < updates.len() - 1 {
        law_last_update_wins(levels, updates.drop_last(), last);
    }
}

/// A parameter that no update of a run names is as it was.
pub proof fn law_untouched_parameter_stays(
    levels: MixLevels,
    updates: Seq<ParameterUpdate>,
    parameter: Parameter,
)
    requires
        forall|at: int| 0 <= at < updates.len() ==> updates[at].spec_target() != parameter,
    ensures
        levels.after_all(updates).spec_get(parameter) == levels.spec_get(parameter),
    decreases updates.len(),
{
    if updates.len() > 0 {
        law_untouched_parameter_stays(levels, updates.drop_last(), parameter);
    }
}

/// After a gain update the gain is a number that is zero or more: the value
/// sent where that is zero or more, and zero for every value below zero and
/// for what is not a number.
pub proof fn law_gain_is_clamped_at_zero(levels: MixLevels, update: ParameterUpdate)
    requires
        update.spec_target() != Parameter::Crossfader,
    ensures
        ({
            let sent = update.spec_level();
            let stored = levels.after(update).spec_get(update.spec_target());
            &&& stored.is_plain_non_negative()
            &&& stored.scaled_value() >= 0
            &&& sent.spec_is_nan() ==> stored == Level::spec_zero()
            &&& !sent.spec_is_nan() && sent.scaled_value() < 0 ==> stored == Level::spec_zero()
                && stored.scaled_value() == 0
            &&& !sent.spec_is_nan() && sent.scaled_value() >= 0 ==> stored.scaled_value()
                == sent.scaled_value()
        }),
{
    law_clamp_non_negative(update.spec_level());
}

/// After a crossfader update the position lies in [0, 1], whatever was sent:
/// the value sent where that lies in the range, the nearer bound where it lies
/// outside, and zero where what was sent is not a number.
pub proof fn law_crossfader_is_clamped_to_nearest_bound(levels: MixLevels, position: Level)
    ensures
        ({
            let stored = levels.after(ParameterUpdate::Crossfader(position)).crossfader;
            &&& stored.in_unit_range()
            &&& position.spec_is_nan() ==> stored == Level::spec_zero()
            &&& !position.spec_is_nan() && position.scaled_value() < 0 ==> stored
                == Level::spec_zero() && stored.scaled_value() == 0
            &&& !position.spec_is_nan() && position.scaled_value() > unit_scale() ==> stored
                == Level::spec_one() && stored.scaled_value() == unit_scale()
            &&& !position.spec_is_nan() && 0 <= position.scaled_value() <= unit_scale()
                ==> stored == position
        }),
{
    law_clamp_unit(position);
}

/// An update to a valid record leaves it valid.
pub proof fn law_update_keeps_validity(levels: MixLevels, update: ParameterUpdate)
    requires
        levels.valid(),
    ensures
        levels.after(update).valid(),
{
    law_clamp_non_negative(update.spec_level());
    law_clamp_unit(update.spec_level());
}

/// A run of updates to a valid record leaves it valid.
pub proof fn law_run_keeps_validity(levels: MixLevels, updates: Seq<ParameterUpdate>)
    requires
        levels.valid(),
    ensures
        levels.after_all(updates).valid(),
    decreases updates.len(),
{
    if updates.len() > 0 {
        law_run_keeps_validity(levels, updates.drop_last());
        law_update_keeps_validity(levels.after_all(updates.drop_last()), updates.last());
    }
}

} // verus!
