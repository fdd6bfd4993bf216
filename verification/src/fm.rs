//! Frequency modulation built from two core oscillators.
//!
//! Each tick the modulator runs free (forcing 0); a transient oscillator is
//! built whose `omega` is the carrier's nominal `omega` offset by the
//! modulator's new position scaled by `index`, and the carrier advances
//! through it under the caller's forcing. With `index == 0` the offset is
//! always 0, so FM degenerates exactly to the plain carrier oscillator.
use vstd::prelude::*;

use crate::arith::{mult_div, mult_div_spec};
use crate::osc::{osc_initial_spec, osc_step_spec, Oscillator, OscillatorState};

verus! {

/// Frequency-modulation parameters: the carrier and modulator oscillators
/// and the modulation `index` scaling the frequency offset.
#[derive(Copy, Clone, Debug, PartialEq, Eq, Structural)]
pub struct FM {
    pub carrier: Oscillator,
    pub modulator: Oscillator,
    pub index: i32,
}

/// Output sample plus the carrier's and the modulator's states.
#[derive(Copy, Clone, Debug, PartialEq, Eq, Structural)]
pub struct FMState {
    pub y0: i32,
    pub carrier: OscillatorState,
    pub modulator: OscillatorState,
}

/// The instantaneous frequency offset: the freshly advanced modulator's
/// position, dropped to its high bits, scaled by `index` and divided by 16.
/// Exactly 0 whenever `index` is 0.
pub open spec fn fm_offset_spec(fm: FM, modulator_state: OscillatorState) -> i32 {
    mult_div_spec(modulator_state.y0 >> 15u32, fm.index, 16)
}

/// What `FM::step` returns: the modulator advanced with forcing 0, the
/// carrier advanced through the transient oscillator whose `omega` carries
/// the modulator's offset, and the new carrier position as output.
pub open spec fn fm_step_spec(fm: FM, s: FMState, x0: i32) -> FMState {
    let m = osc_step_spec(fm.modulator, s.modulator, 0);
    let c = osc_step_spec(
        Oscillator {
            omega: (fm.carrier.omega + fm_offset_spec(fm, m)) as i32,
            zeta: fm.carrier.zeta,
        },
        s.carrier,
        x0,
    );
    FMState { y0: c.y0, carrier: c, modulator: m }
}

/// The FM states reached by stepping once per forcing value, left to right;
/// the starting state itself is not included.
pub open spec fn fm_run_spec(fm: FM, s: FMState, xs: Seq<i32>) -> Seq<FMState>
    decreases xs.len(),
{
    if xs.len() == 0 {
        Seq::empty()
    } else {
        let s1 = fm_step_spec(fm, s, xs[0]);
        seq![s1] + fm_run_spec(fm, s1, xs.skip(1))
    }
}

/// The FM starting state: carrier and modulator each initialized
/// independently, output 0.
pub open spec fn fm_initial_spec(fm: FM) -> FMState {
    FMState { y0: 0, carrier: osc_initial_spec(fm.carrier), modulator: osc_initial_spec(fm.modulator) }
}

impl FM {
    /// Advance the modulator free-running, then the carrier through the
    /// transient oscillator with the offset `omega`; output the carrier's
    /// new position. The offset sum must fit in `i32`; with `index == 0`
    /// the offset is 0 and the bound holds trivially.
    pub fn step(&self, state: FMState, x0: i32) -> (r: FMState)
        requires
            i32::MIN <= self.carrier.omega + fm_offset_spec(
                *self,
                osc_step_spec(self.modulator, state.modulator, 0),
            ) <= i32::MAX,
        ensures
            r == fm_step_spec(*self, state, x0),
            r.y0 == r.carrier.y0,
            r.modulator == osc_step_spec(self.modulator, state.modulator, 0),
    {
        let modulator_state: OscillatorState = self.modulator.step(state.modulator, 0);
        let offset: i32 = mult_div(modulator_state.y0 >> 15u32, self.index, 16);
        let carrier_state: OscillatorState = Oscillator {
            omega: self.carrier.omega + offset,
            zeta: self.carrier.zeta,
        }.step(state.carrier, x0);
        FMState { y0: carrier_state.y0, carrier: carrier_state, modulator: modulator_state }
    }

    /// Carrier and modulator each at their initial state, output 0.
    pub fn initial_state(&self) -> (r: FMState)
        requires
            i32::MIN <= 32767 * self.carrier.omega <= i32::MAX,
            i32::MIN <= 32767 * self.modulator.omega <= i32::MAX,
        ensures
            r == fm_initial_spec(*self),
    {
        FMState {
            y0: 0,
            carrier: self.carrier.initial_state(),
            modulator: self.modulator.initial_state(),
        }
    }
}

} // verus!
