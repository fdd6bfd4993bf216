//! The core damped harmonic oscillator.
//!
//! `Oscillator` holds the fixed-point parameters `{omega, zeta}` and advances
//! an `OscillatorState` `{y0, y1}` (position, velocity) one sample tick at a
//! time with classical 4th-order Runge-Kutta over the system
//! ```text
//!   y0' = y1
//!   y1' = x0 - zeta*omega*y1 - omega^2*y0
//! ```
//! Every product of fixed-point quantities goes through `mult3`; the state
//! combination uses wrapping addition on purpose (the position behaves as a
//! phase accumulator that may wrap), while the RK4 divisions by 2 and 6
//! truncate toward zero.
use vstd::prelude::*;

use crate::arith::{mult3, mult3_spec, tdiv};

verus! {

/// Position (`y0`) and velocity (`y1`) of the oscillator, both signed 32-bit
/// fixed-point values. States are plain data: created by `initial_state`,
/// advanced by `step`, copied by value.
#[derive(Debug, Copy, Clone, PartialEq, Eq, Structural)]
pub struct OscillatorState {
    pub y0: i32,
    pub y1: i32,
}

/// Fixed oscillator parameters: `omega` is the Q16 angular-frequency
/// coefficient normalized to the sample rate, `zeta` the Q16 damping
/// coefficient.
#[derive(Copy, Clone, Debug, PartialEq, Eq, Structural)]
pub struct Oscillator {
    pub zeta: i32,
    pub omega: i32,
}

/// Wrapping 32-bit addition (two's-complement).
pub open spec fn w_add(a: i32, b: i32) -> i32 {
    vstd::wrapping::i32_specs::wrapping_add(a, b)
}

/// Wrapping 32-bit subtraction (two's-complement).
pub open spec fn w_sub(a: i32, b: i32) -> i32 {
    vstd::wrapping::i32_specs::wrapping_sub(a, b)
}

/// Wrapping 32-bit multiplication (two's-complement).
pub open spec fn w_mul(a: i32, b: i32) -> i32 {
    vstd::wrapping::i32_specs::wrapping_mul(a, b)
}

/// Truncating halving of an `i32` (the RK4 mid-step).
pub open spec fn half(a: i32) -> i32 {
    tdiv(a as int, 2) as i32
}

/// The classical RK4 combination `k1 + 2*k2 + 2*k3 + k4`, doubling the two
/// middle stages, with wrapping sums and a truncating division by 6 (the sum
/// of the weights).
pub open spec fn rk4_combine(k1: i32, k2: i32, k3: i32, k4: i32) -> i32 {
    tdiv(w_add(w_add(w_add(k1, w_mul(k2, 2)), w_mul(k3, 2)), k4) as int, 6) as i32
}

/// One RK4 step of the oscillator: the four stage estimates `k1..k4` for
/// position and velocity, each stage reusing the previous stage's derivative
/// (the forcing `x0` is held constant across the sub-steps), combined with
/// the classical 1-2-2-1 weights. Additions wrap by design.
#[verifier::opaque]
pub open spec fn osc_step_spec(o: Oscillator, s: OscillatorState, x0: i32) -> OscillatorState {
    let k1_0 = s.y1;
    let k1_1 = w_sub(w_sub(x0, mult3_spec(s.y1, o.omega, o.zeta)), mult3_spec(s.y0, o.omega, o.omega));
    let k2_0 = w_add(k1_0, half(k1_1));
    let k2_1 = w_sub(
        w_sub(k1_1, mult3_spec(half(k1_1), o.omega, o.zeta)),
        mult3_spec(half(k1_0), o.omega, o.omega),
    );
    let k3_0 = w_add(k1_0, half(k2_1));
    let k3_1 = w_sub(
        w_sub(k1_1, mult3_spec(half(k2_1), o.omega, o.zeta)),
        mult3_spec(half(k2_0), o.omega, o.omega),
    );
    let k4_0 = w_add(k1_0, k3_1);
    let k4_1 = w_sub(
        w_sub(k1_1, mult3_spec(k3_1, o.omega, o.zeta)),
        mult3_spec(k3_0, o.omega, o.omega),
    );
    OscillatorState {
        y0: w_add(s.y0, rk4_combine(k1_0, k2_0, k3_0, k4_0)),
        y1: w_add(s.y1, rk4_combine(k1_1, k2_1, k3_1, k4_1)),
    }
}

/// The starting state: at rest in position, with a velocity of
/// `(i32::MAX / 65536) * omega = 32767 * omega`, scaled so the free
/// oscillation reaches close to the full signed range. With `omega == 0`
/// this is the degenerate fixed point `{0, 0}`.
pub open spec fn osc_initial_spec(o: Oscillator) -> OscillatorState {
    OscillatorState { y0: 0, y1: (32767 * o.omega) as i32 }
}

/// What `retrigger_step` returns: one free-running step, except that a
/// velocity of exactly zero restarts the oscillator from its initial state.
pub open spec fn retrigger_step_spec(o: Oscillator, s: OscillatorState) -> OscillatorState {
    let stepped = osc_step_spec(o, s, 0);
    if stepped.y1 == 0 {
        osc_initial_spec(o)
    } else {
        stepped
    }
}

/// The states reached by stepping once per forcing value, left to right;
/// the starting state itself is not included.
pub open spec fn many_steps_spec(o: Oscillator, s: OscillatorState, xs: Seq<i32>) -> Seq<
    OscillatorState,
>
    decreases xs.len(),
{
    if xs.len() == 0 {
        Seq::empty()
    } else {
        let s1 = osc_step_spec(o, s, xs[0]);
        seq![s1] + many_steps_spec(o, s1, xs.skip(1))
    }
}

/// The state after stepping through the whole forcing sequence.
pub open spec fn state_after(o: Oscillator, s: OscillatorState, xs: Seq<i32>) -> OscillatorState
    decreases xs.len(),
{
    if xs.len() == 0 {
        s
    } else {
        state_after(o, osc_step_spec(o, s, xs[0]), xs.skip(1))
    }
}

/// Appending one forcing value to the sequence appends exactly one step,
/// taken from the state the rest of the sequence reaches.
pub proof fn lemma_many_steps_snoc(o: Oscillator, s: OscillatorState, xs: Seq<i32>, x: i32)
    ensures
        many_steps_spec(o, s, xs.push(x)) == many_steps_spec(o, s, xs).push(
            osc_step_spec(o, state_after(o, s, xs), x),
        ),
        state_after(o, s, xs.push(x)) == osc_step_spec(o, state_after(o, s, xs), x),
        many_steps_spec(o, s, xs).len() == xs.len(),
    decreases xs.len(),
{
    reveal_with_fuel(many_steps_spec, 3);
    reveal_with_fuel(state_after, 3);
    if xs.len() == 0 {
        assert(xs.push(x)[0] == x);
        assert(xs.push(x).skip(1) =~= Seq::<i32>::empty());
        assert(many_steps_spec(o, s, xs.push(x)) =~= many_steps_spec(o, s, xs).push(
            osc_step_spec(o, state_after(o, s, xs), x),
        ));
    } else {
        let s1 = osc_step_spec(o, s, xs[0]);
        assert(xs.push(x)[0] == xs[0]);
        assert(xs.push(x).skip(1) =~= xs.skip(1).push(x));
        lemma_many_steps_snoc(o, s1, xs.skip(1), x);
        assert(many_steps_spec(o, s, xs.push(x)) =~= many_steps_spec(o, s, xs).push(
            osc_step_spec(o, state_after(o, s, xs), x),
        ));
    }
}

impl Oscillator {
    /// An undamped oscillator with the given angular-frequency coefficient.
    pub fn from_omega(omega: i32) -> (r: Oscillator)
        ensures
            r == (Oscillator { omega, zeta: 0 }),
    {
        Oscillator { omega, zeta: 0 }
    }

    /// Advance the state one sample tick under the forcing input `x0`.
    /// Total: every product saturates rather than failing, and the state
    /// combination wraps by design.
    pub fn step(&self, state: OscillatorState, x0: i32) -> (r: OscillatorState)
        ensures
            r == osc_step_spec(*self, state, x0),
    {
        proof {
            reveal(osc_step_spec);
        }
        let k1_0: i32 = state.y1;
        let k1_1: i32 = x0.wrapping_sub(mult3(state.y1, self.omega, self.zeta)).wrapping_sub(
            mult3(state.y0, self.omega, self.omega),
        );
        let k2_0: i32 = k1_0.wrapping_add(k1_1 / 2);
        let k2_1: i32 = k1_1.wrapping_sub(mult3(k1_1 / 2, self.omega, self.zeta)).wrapping_sub(
            mult3(k1_0 / 2, self.omega, self.omega),
        );
        let k3_0: i32 = k1_0.wrapping_add(k2_1 / 2);
        let k3_1: i32 = k1_1.wrapping_sub(mult3(k2_1 / 2, self.omega, self.zeta)).wrapping_sub(
            mult3(k2_0 / 2, self.omega, self.omega),
        );
        let k4_0: i32 = k1_0.wrapping_add(k3_1);
        let k4_1: i32 = k1_1.wrapping_sub(mult3(k3_1, self.omega, self.zeta)).wrapping_sub(
            mult3(k3_0, self.omega, self.omega),
        );
        let y0: i32 = state.y0.wrapping_add(
            k1_0.wrapping_add(k2_0.wrapping_mul(2)).wrapping_add(k3_0.wrapping_mul(2)).wrapping_add(
                k4_0,
            ) / 6,
        );
        let y1: i32 = state.y1.wrapping_add(
            k1_1.wrapping_add(k2_1.wrapping_mul(2)).wrapping_add(k3_1.wrapping_mul(2)).wrapping_add(
                k4_1,
            ) / 6,
        );
        OscillatorState { y0, y1 }
    }

    /// Advance through a finite forcing sequence, strictly left to right,
    /// and return every intermediate state in order. Deterministic: the
    /// result is a function of the parameters, the starting state and the
    /// forcing sequence alone.
    pub fn many_steps(&self, state: OscillatorState, x0s: Vec<i32>) -> (res: Vec<OscillatorState>)
        ensures
            res@ == many_steps_spec(*self, state, x0s@),
            res@.len() == x0s@.len(),
    {
        let n: usize = x0s.len();
        let mut res: Vec<OscillatorState> = Vec::with_capacity(n);
        let mut st: OscillatorState = state;
        let mut i: usize = 0;
        proof {
            assert(x0s@.take(0) =~= Seq::<i32>::empty());
        }
        while i < n
            invariant
                n == x0s@.len(),
                i <= n,
                res@ == many_steps_spec(*self, state, x0s@.take(i as int)),
                res@.len() == i,
                st == state_after(*self, state, x0s@.take(i as int)),
            decreases n - i,
        {
            st = self.step(st, x0s[i]);
            res.push(st);
            proof {
                lemma_many_steps_snoc(*self, state, x0s@.take(i as int), x0s@[i as int]);
                assert(x0s@.take(i as int + 1) =~= x0s@.take(i as int).push(x0s@[i as int]));
            }
            i = i + 1;
        }
        proof {
            assert(x0s@.take(n as int) =~= x0s@);
            lemma_many_steps_snoc(*self, state, x0s@, 0);
        }
        res
    }

    /// One free-running (zero-forcing) step with re-trigger: when the new
    /// velocity crosses zero exactly, the oscillator restarts from rest at
    /// its initial state instead.
    pub fn retrigger_step(&self, state: OscillatorState) -> (r: OscillatorState)
        requires
            i32::MIN <= 32767 * self.omega <= i32::MAX,
        ensures
            r == retrigger_step_spec(*self, state),
    {
        let stepped: OscillatorState = self.step(state, 0);
        if stepped.y1 == 0 {
            self.initial_state()
        } else {
            stepped
        }
    }

    /// The starting state: position 0, velocity `(i32::MAX / 65536) * omega`.
    /// The product must fit in `i32`, which bounds `omega` to about ±65538.
    pub fn initial_state(&self) -> (r: OscillatorState)
        requires
            i32::MIN <= 32767 * self.omega <= i32::MAX,
        ensures
            r == osc_initial_spec(*self),
    {
        OscillatorState { y0: 0, y1: (i32::MAX / 65536) * self.omega }
    }
}

} // verus!
