//! Properties of the generators that hold for all inputs, proved once over
//! the spec-level transition functions.
use vstd::prelude::*;

use crate::arith::{mult3_spec, tdiv};
use crate::fm::{fm_offset_spec, fm_run_spec, fm_step_spec, FM, FMState};
use crate::osc::{
    many_steps_spec, osc_initial_spec, osc_step_spec, Oscillator, OscillatorState,
};
use crate::wave::{tri_push, tri_step_spec, Triangle, TriangleState};

verus! {

/// The degenerate oscillator `{omega: 0, zeta: 0}` starts at `{0, 0}` and,
/// under zero forcing, never leaves it: `{0, 0}` is a fixed point of the
/// step recurrence, not a special case.
pub proof fn lemma_degenerate_fixed_point()
    ensures
        osc_initial_spec(Oscillator { omega: 0, zeta: 0 }) == (OscillatorState { y0: 0, y1: 0 }),
        osc_step_spec(Oscillator { omega: 0, zeta: 0 }, OscillatorState { y0: 0, y1: 0 }, 0) == (
        OscillatorState { y0: 0, y1: 0 }),
{
    reveal(osc_step_spec);
    vstd::std_specs::bits::axiom_u32_leading_zeros(0);
    assert(0i32 >> 0u32 == 0i32) by (bit_vector);
    assert(0i32 >> 16u32 == 0i32) by (bit_vector);
    assert(mult3_spec(0, 0, 0) == 0);
}

/// With `index == 0` one FM step moves the carrier exactly as one plain
/// carrier step under the same forcing would, whatever the modulator does;
/// the output is that carrier position, and the modulator still runs free.
pub proof fn lemma_fm_index_zero_step(fm: FM, s: FMState, x0: i32)
    requires
        fm.index == 0,
    ensures
        fm_step_spec(fm, s, x0).carrier == osc_step_spec(fm.carrier, s.carrier, x0),
        fm_step_spec(fm, s, x0).modulator == osc_step_spec(fm.modulator, s.modulator, 0),
        fm_step_spec(fm, s, x0).y0 == osc_step_spec(fm.carrier, s.carrier, x0).y0,
{
    let m = osc_step_spec(fm.modulator, s.modulator, 0);
    assert((m.y0 >> 15u32) as int * 0 == 0);
    assert(tdiv(0, 16) == 0);
    assert(fm_offset_spec(fm, m) == 0);
    assert(Oscillator {
        omega: (fm.carrier.omega + fm_offset_spec(fm, m)) as i32,
        zeta: fm.carrier.zeta,
    } == fm.carrier);
}

/// With `index == 0` a whole FM run through any forcing sequence yields,
/// element for element, the same carrier states as running the plain
/// carrier oscillator through that sequence, regardless of the modulator's
/// trajectory.
pub proof fn lemma_fm_index_zero_run(fm: FM, s: FMState, xs: Seq<i32>)
    requires
        fm.index == 0,
    ensures
        fm_run_spec(fm, s, xs).len() == xs.len(),
        many_steps_spec(fm.carrier, s.carrier, xs).len() == xs.len(),
        forall|i: int|
            0 <= i < xs.len() ==> (#[trigger] fm_run_spec(fm, s, xs)[i]).carrier
                == many_steps_spec(fm.carrier, s.carrier, xs)[i],
    decreases xs.len(),
{
    if xs.len() != 0 {
        let s1 = fm_step_spec(fm, s, xs[0]);
        let c1 = osc_step_spec(fm.carrier, s.carrier, xs[0]);
        lemma_fm_index_zero_step(fm, s, xs[0]);
        lemma_fm_index_zero_run(fm, s1, xs.skip(1));
        assert(fm_run_spec(fm, s, xs) == seq![s1] + fm_run_spec(fm, s1, xs.skip(1)));
        assert(many_steps_spec(fm.carrier, s.carrier, xs) == seq![c1] + many_steps_spec(
            fm.carrier,
            c1,
            xs.skip(1),
        ));
        assert forall|i: int| 0 <= i < xs.len() implies (#[trigger] fm_run_spec(fm, s, xs)[i]).carrier
            == many_steps_spec(fm.carrier, s.carrier, xs)[i] by {
            if i > 0 {
                assert(fm_run_spec(fm, s, xs)[i] == fm_run_spec(fm, s1, xs.skip(1))[i - 1]);
                assert(many_steps_spec(fm.carrier, s.carrier, xs)[i] == many_steps_spec(
                    fm.carrier,
                    c1,
                    xs.skip(1),
                )[i - 1]);
            }
        }
    }
}

/// The triangle's accumulator saturates, it never wraps: on the step where
/// the bound would be crossed the output is exactly `i32::MAX` or
/// `i32::MIN`, and it stays pinned there as long as the push keeps pressing
/// against the same bound.
pub proof fn lemma_triangle_saturates(g: Triangle, s: TriangleState, x0: i32)
    ensures
        s.y0 + tri_push(g, tri_step_spec(g, s, x0).osc.y0) > i32::MAX ==> tri_step_spec(
            g,
            s,
            x0,
        ).y0 == i32::MAX,
        s.y0 + tri_push(g, tri_step_spec(g, s, x0).osc.y0) < i32::MIN ==> tri_step_spec(
            g,
            s,
            x0,
        ).y0 == i32::MIN,
        s.y0 == i32::MAX && tri_push(g, tri_step_spec(g, s, x0).osc.y0) >= 0 ==> tri_step_spec(
            g,
            s,
            x0,
        ).y0 == i32::MAX,
        s.y0 == i32::MIN && tri_push(g, tri_step_spec(g, s, x0).osc.y0) <= 0 ==> tri_step_spec(
            g,
            s,
            x0,
        ).y0 == i32::MIN,
        i32::MIN <= tri_step_spec(g, s, x0).y0 <= i32::MAX,
{
}

} // verus!
