//! Derived waveform generators: rectangle, triangle, sawtooth.
//!
//! Each wraps one core oscillator and shapes its position output. The
//! rectangle is a hard comparator on the position's sign; the triangle
//! integrates a signed amplitude step with saturating addition (an
//! intentional clip at the signed 32-bit bounds, never a wrap); the sawtooth
//! folds the triangle by the base oscillator's position sign.
use vstd::prelude::*;

use crate::arith::{mul_sign, mul_sign_sat, sat_i32, saturating_add_i32, sgn, sign_i32};
use crate::osc::{osc_initial_spec, osc_step_spec, Oscillator, OscillatorState};

verus! {

/// Calibration constant for the triangle's per-tick amplitude step. Its
/// derivation is undocumented; it is kept exactly as calibrated, since
/// changing it changes the waveform's observable amplitude.
pub const TRIANGLE_AMPLITUDE_SCALE: i32 = 10430;

/// Output sample plus the wrapped oscillator's state.
#[derive(Copy, Clone, Debug, PartialEq, Eq, Structural)]
pub struct RectangleState {
    pub y0: i32,
    pub osc: OscillatorState,
}

/// A square-wave generator: the wrapped oscillator's position sign, scaled
/// to full range.
#[derive(Copy, Clone, Debug, PartialEq, Eq, Structural)]
pub struct Rectangle(pub Oscillator);

/// What `Rectangle::step` returns: the advanced oscillator, and an output of
/// `sgn(position) * i32::MAX` - always exactly `i32::MAX`, `-i32::MAX` or 0.
pub open spec fn rect_step_spec(g: Rectangle, s: RectangleState, x0: i32) -> RectangleState {
    let osc = osc_step_spec(g.0, s.osc, x0);
    RectangleState { y0: (sgn(osc.y0 as int) * i32::MAX) as i32, osc }
}

/// The rectangle's starting state: the oscillator's, with output 0.
pub open spec fn rect_initial_spec(g: Rectangle) -> RectangleState {
    RectangleState { y0: 0, osc: osc_initial_spec(g.0) }
}

impl Rectangle {
    /// Advance the inner oscillator and output its new position's sign at
    /// full range: a hard comparator, zero exactly when the position is zero.
    pub fn step(&self, state: RectangleState, x0: i32) -> (r: RectangleState)
        ensures
            r == rect_step_spec(*self, state, x0),
            r.osc == osc_step_spec(self.0, state.osc, x0),
            r.y0 == i32::MAX || r.y0 == -i32::MAX || r.y0 == 0,
            r.y0 == 0 <==> r.osc.y0 == 0,
    {
        let osc: OscillatorState = self.0.step(state.osc, x0);
        let s: i32 = sign_i32(osc.y0);
        RectangleState { osc, y0: s * i32::MAX }
    }

    /// The inner oscillator's initial state, with output 0.
    pub fn initial_state(&self) -> (r: RectangleState)
        requires
            i32::MIN <= 32767 * self.0.omega <= i32::MAX,
        ensures
            r == rect_initial_spec(*self),
    {
        RectangleState { y0: 0, osc: self.0.initial_state() }
    }
}

/// Output accumulator plus the wrapped oscillator's state.
#[derive(Copy, Clone, Debug, PartialEq, Eq, Structural)]
pub struct TriangleState {
    pub y0: i32,
    pub osc: OscillatorState,
}

/// A triangle-wave generator: integrates a signed per-tick amplitude step,
/// clipping at the signed 32-bit bounds.
#[derive(Copy, Clone, Debug, PartialEq, Eq, Structural)]
pub struct Triangle(pub Oscillator);

/// The triangle's per-tick amplitude: `omega * TRIANGLE_AMPLITUDE_SCALE`.
pub open spec fn tri_amplitude(g: Triangle) -> int {
    g.0.omega * TRIANGLE_AMPLITUDE_SCALE
}

/// The signed amount a triangle step adds to the output: the amplitude,
/// with the sign of the advanced oscillator's position.
pub open spec fn tri_push(g: Triangle, osc_pos: i32) -> int {
    sgn(osc_pos as int) * tri_amplitude(g)
}

/// What `Triangle::step` returns: the advanced oscillator, and the previous
/// output plus `sgn(position) * amplitude`, saturating at the `i32` bounds.
pub open spec fn tri_step_spec(g: Triangle, s: TriangleState, x0: i32) -> TriangleState {
    let osc = osc_step_spec(g.0, s.osc, x0);
    TriangleState { y0: sat_i32(s.y0 + tri_push(g, osc.y0)), osc }
}

/// The triangle's starting state: the oscillator's, with output 0.
pub open spec fn tri_initial_spec(g: Triangle) -> TriangleState {
    TriangleState { y0: 0, osc: osc_initial_spec(g.0) }
}

impl Triangle {
    /// An undamped triangle generator with the given angular-frequency
    /// coefficient.
    pub fn from_omega(omega: i32) -> (r: Triangle)
        ensures
            r == Triangle(Oscillator { omega, zeta: 0 }),
    {
        Triangle(Oscillator { omega, zeta: 0 })
    }

    /// Advance the inner oscillator and integrate `sgn(position) * amplitude`
    /// into the output with saturating addition: the output clips at
    /// `i32::MAX` / `i32::MIN` instead of wrapping. The amplitude product
    /// must fit in `i32` (no integer `omega` makes it exactly `i32::MIN`,
    /// so the strict lower bound excludes no input).
    pub fn step(&self, state: TriangleState, x0: i32) -> (r: TriangleState)
        requires
            i32::MIN < self.0.omega * TRIANGLE_AMPLITUDE_SCALE <= i32::MAX,
        ensures
            r == tri_step_spec(*self, state, x0),
            r.osc == osc_step_spec(self.0, state.osc, x0),
            i32::MIN <= r.y0 <= i32::MAX,
    {
        let amplitude: i32 = self.0.omega * TRIANGLE_AMPLITUDE_SCALE;
        let osc: OscillatorState = self.0.step(state.osc, x0);
        let s: i32 = sign_i32(osc.y0);
        TriangleState { y0: saturating_add_i32(state.y0, mul_sign(s, amplitude)), osc }
    }

    /// The inner oscillator's initial state, with output 0.
    pub fn initial_state(&self) -> (r: TriangleState)
        requires
            i32::MIN <= 32767 * self.0.omega <= i32::MAX,
        ensures
            r == tri_initial_spec(*self),
    {
        TriangleState { y0: 0, osc: self.0.initial_state() }
    }
}

/// Output sample plus the wrapped triangle's state.
#[derive(Copy, Clone, Debug, PartialEq, Eq, Structural)]
pub struct SawtoothState {
    pub y0: i32,
    pub triangle: TriangleState,
}

/// A sawtooth generator: the triangle's output folded by the base
/// oscillator's position sign into an asymmetric ramp.
#[derive(Copy, Clone, Debug, PartialEq, Eq, Structural)]
pub struct Sawtooth(pub Triangle);

/// What `Sawtooth::step` returns: the advanced triangle, and its output
/// multiplied by the sign of the base oscillator's position, clamped to the
/// `i32` range (the fold of a saturated `i32::MIN` output by a negative
/// position clips to `i32::MAX` instead of wrapping).
pub open spec fn saw_step_spec(g: Sawtooth, s: SawtoothState, x0: i32) -> SawtoothState {
    let t = tri_step_spec(g.0, s.triangle, x0);
    SawtoothState { y0: sat_i32(t.y0 as int * sgn(t.osc.y0 as int)), triangle: t }
}

/// The sawtooth's starting state: the triangle's, with output 0.
pub open spec fn saw_initial_spec(g: Sawtooth) -> SawtoothState {
    SawtoothState { y0: 0, triangle: tri_initial_spec(g.0) }
}

impl Sawtooth {
    /// An undamped sawtooth generator with the given angular-frequency
    /// coefficient.
    pub fn from_omega(omega: i32) -> (r: Sawtooth)
        ensures
            r == Sawtooth(Triangle(Oscillator { omega, zeta: 0 })),
    {
        Sawtooth(Triangle::from_omega(omega))
    }

    /// Advance the inner triangle and fold its output by the sign of the
    /// base oscillator's new position. Total on every state: the one
    /// unrepresentable fold, a saturated triangle output of `i32::MIN`
    /// against a negative position, clips to `i32::MAX`.
    pub fn step(&self, state: SawtoothState, x0: i32) -> (r: SawtoothState)
        requires
            i32::MIN < self.0.0.omega * TRIANGLE_AMPLITUDE_SCALE <= i32::MAX,
        ensures
            r == saw_step_spec(*self, state, x0),
            r.triangle == tri_step_spec(self.0, state.triangle, x0),
    {
        let t: TriangleState = self.0.step(state.triangle, x0);
        let s: i32 = sign_i32(t.osc.y0);
        SawtoothState { y0: mul_sign_sat(s, t.y0), triangle: t }
    }

    /// The inner triangle's initial state, with output 0.
    pub fn initial_state(&self) -> (r: SawtoothState)
        requires
            i32::MIN <= 32767 * self.0.0.omega <= i32::MAX,
        ensures
            r == saw_initial_spec(*self),
    {
        SawtoothState { y0: 0, triangle: self.0.initial_state() }
    }
}

} // verus!
