//! The summing bus: the parameter record of a mix, bound to the receiving half
//! of a parameter channel.
//!
//! Once per audio period the bus drains the channel and hands out the levels
//! then in effect. Scaling and summing the samples by those levels is
//! floating-point work and is done by the caller.

use crate::channel::ParameterReceiver;
use crate::mix::law_run_then_one;
use crate::mix::law_unity_is_valid;
use crate::mix::law_update_keeps_validity;
use crate::mix::MixLevels;
use crate::update::ParameterUpdate;
use vstd::prelude::*;

verus! {

/// Whether three buffer lengths suit one mix: all equal, and even, since a
/// stereo frame is a left sample followed by a right one.
pub open spec fn buffers_match(deck_a_len: usize, deck_b_len: usize, output_len: usize) -> bool {
    deck_a_len == deck_b_len && deck_a_len == output_len && deck_a_len % 2 == 0
}

/// The number of stereo frames in buffers of the given lengths, or `None` if
/// the lengths do not suit one mix.
pub fn stereo_frames(deck_a_len: usize, deck_b_len: usize, output_len: usize) -> (frames: Option<
    usize,
>)
    ensures
        frames is Some <==> buffers_match(deck_a_len, deck_b_len, output_len),
        frames matches Some(count) ==> 2 * count == output_len,
{
    if deck_a_len == deck_b_len && deck_a_len == output_len && deck_a_len % 2 == 0 {
        Some(deck_a_len / 2)
    } else {
        None
    }
}

/// What the bus hands out at the start of an audio period.
#[derive(Clone, Copy, Debug, PartialEq, Eq, Structural)]
pub struct MixPeriod {
    /// The levels that the period is to be mixed with.
    pub levels: MixLevels,
    /// The number of updates that were applied to reach them.
    pub applied: usize,
}

/// The mixing state of two decks, fed by a parameter channel.
///
/// The levels change only as the bus drains its channel; nothing else can set
/// them.
#[derive(Debug)]
pub struct SummingBus {
    levels: MixLevels,
    params: ParameterReceiver,
}

impl SummingBus {
    #[verifier::type_invariant]
    spec fn levels_are_valid(self) -> bool {
        self.levels.valid()
    }

    /// The levels now in effect.
    pub closed spec fn spec_levels(&self) -> MixLevels {
        self.levels
    }

    /// The channel half that the bus drains.
    pub closed spec fn receiver(&self) -> ParameterReceiver {
        self.params
    }

    /// A bus with unity gains and a centred crossfader, fed by `params`.
    pub fn new(params: ParameterReceiver) -> (bus: SummingBus)
        ensures
            bus.spec_levels() == MixLevels::spec_unity(),
            bus.receiver() == params,
    {
        proof {
            law_unity_is_valid();
        }
        SummingBus { levels: MixLevels::unity(), params }
    }

    /// The levels now in effect. They are valid in every state of the bus.
    #[verifier::when_used_as_spec(spec_levels)]
    pub fn levels(&self) -> (levels: MixLevels)
        ensures
            levels == self.spec_levels(),
            levels.valid(),
    {
        proof {
            use_type_invariant(self);
        }
        self.levels
    }

    /// Applies one update to the levels.
    fn apply_update(&mut self, update: ParameterUpdate)
        ensures
            final(self).spec_levels() == old(self).spec_levels().after(update),
            final(self).receiver() == old(self).receiver(),
    {
        proof {
            use_type_invariant(&*self);
            law_update_keeps_validity(self.levels, update);
        }
        self.levels = self.levels.apply(update);
    }

    /// Takes the pending updates off the channel, oldest first, and applies
    /// each in turn, so that the last update of a parameter wins.
    ///
    /// It stops when the channel is found empty, and at the latest after as
    /// many updates as the channel can hold: what a sender adds while the
    /// drain runs may wait for the next period. Returns the number applied.
    pub fn drain_updates(&mut self) -> (applied: usize)
        ensures
            applied <= old(self).receiver().capacity(),
            final(self).receiver() == old(self).receiver(),
            exists|updates: Seq<ParameterUpdate>|
                updates.len() == applied && final(self).spec_levels() == #[trigger] old(
                    self,
                ).spec_levels().after_all(updates),
            applied == 0 ==> final(self).spec_levels() == old(self).spec_levels(),
    {
        let limit = self.params.limit();
        let mut applied: usize = 0;
        let ghost mut run = Seq::<ParameterUpdate>::empty();
        while applied < limit
            invariant
                applied <= limit,
                limit == old(self).receiver().capacity(),
                self.receiver() == old(self).receiver(),
                run.len() == applied,
                self.spec_levels() == old(self).spec_levels().after_all(run),
            decreases limit - applied,
        {
            match self.params.pop() {
                Some(update) => {
                    proof {
                        law_run_then_one(old(self).spec_levels(), run, update);
                        run = run.push(update);
                    }
                    self.apply_update(update);
                    applied = applied + 1;
                },
                None => {
                    break ;
                },
            }
        }
        applied
    }

    /// Opens one audio period: drains the channel and returns the levels that
    /// the period is to be mixed with, and how many updates led to them. Where
    /// none did, the levels are those of the period before.
    ///
    /// The lengths are those of the two deck buffers and of the output buffer.
    /// A period cannot be mixed from buffers that do not match.
    pub fn prepare_mix(&mut self, deck_a_len: usize, deck_b_len: usize, output_len: usize) -> (period:
        MixPeriod)
        requires
            buffers_match(deck_a_len, deck_b_len, output_len),
        ensures
            period.levels == final(self).spec_levels(),
            period.levels.valid(),
            period.applied <= old(self).receiver().capacity(),
            final(self).receiver() == old(self).receiver(),
            exists|updates: Seq<ParameterUpdate>|
                updates.len() == period.applied && period.levels == #[trigger] old(
                    self,
                ).spec_levels().after_all(updates),
            period.applied == 0 ==> period.levels == old(self).spec_levels(),
    {
        let applied = self.drain_updates();
        MixPeriod { levels: self.levels(), applied }
    }
}

} // verus!
