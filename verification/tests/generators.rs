//! The derived generators: rectangle range, triangle saturation, sawtooth
//! folding, FM index-zero reduction.
use lowpass::fm::{FMState, FM};
use lowpass::osc::{Oscillator, OscillatorState};
use lowpass::wave::{Rectangle, RectangleState, Sawtooth, SawtoothState, Triangle, TriangleState};

#[test]
fn rectangle_output_is_full_range_or_zero() {
    let gen = Rectangle(Oscillator { omega: 171, zeta: 0 });
    let mut state = gen.initial_state();
    assert_eq!(state.y0, 0);
    for _ in 0..500 {
        state = gen.step(state, 0);
        assert!(state.y0 == i32::MAX || state.y0 == -i32::MAX || state.y0 == 0);
        assert_eq!(state.y0 == 0, state.osc.y0 == 0);
    }
}

#[test]
fn rectangle_tracks_position_sign() {
    let gen = Rectangle(Oscillator { omega: 171, zeta: 0 });
    let mut state = gen.initial_state();
    for _ in 0..500 {
        state = gen.step(state, 0);
        assert_eq!(state.y0, state.osc.y0.signum() * i32::MAX);
    }
}

#[test]
fn rectangle_first_step_from_rest_is_high() {
    // The initial velocity is positive, so the first position sample is
    // positive and the comparator reads full scale.
    let gen = Rectangle(Oscillator { omega: 171, zeta: 0 });
    let state = gen.step(gen.initial_state(), 0);
    assert!(state.osc.y0 > 0);
    assert_eq!(state.y0, i32::MAX);
}

#[test]
fn triangle_integrates_amplitude_steps() {
    let gen = Triangle::from_omega(171);
    let amplitude = 171 * 10430;
    let mut state = gen.initial_state();
    state = gen.step(state, 0);
    assert!(state.osc.y0 > 0);
    assert_eq!(state.y0, amplitude);
    state = gen.step(state, 0);
    assert!(state.osc.y0 > 0);
    assert_eq!(state.y0, 2 * amplitude);
}

#[test]
fn triangle_saturates_at_max_and_stays_pinned() {
    let gen = Triangle::from_omega(171);
    // Start the accumulator just under the bound; the next positive push
    // must clip to exactly i32::MAX, not wrap.
    let mut state = TriangleState {
        y0: i32::MAX - 1000,
        osc: Oscillator::from_omega(171).initial_state(),
    };
    state = gen.step(state, 0);
    assert!(state.osc.y0 > 0);
    assert_eq!(state.y0, i32::MAX);
    // The push keeps pressing against the same bound: pinned, no wrap.
    for _ in 0..10 {
        state = gen.step(state, 0);
        assert!(state.osc.y0 > 0);
        assert_eq!(state.y0, i32::MAX);
    }
}

#[test]
fn triangle_saturates_at_min_and_stays_pinned() {
    // A negative omega gives a negative amplitude; against a positive
    // position the push is negative and the accumulator clips at i32::MIN.
    let gen = Triangle(Oscillator { omega: -171, zeta: 0 });
    let mut state = TriangleState {
        y0: i32::MIN + 1000,
        osc: OscillatorState { y0: 0, y1: 171 * 32767 },
    };
    state = gen.step(state, 0);
    assert!(state.osc.y0 > 0);
    assert_eq!(state.y0, i32::MIN);
    for _ in 0..10 {
        state = gen.step(state, 0);
        assert!(state.osc.y0 > 0);
        assert_eq!(state.y0, i32::MIN);
    }
}

#[test]
fn sawtooth_folds_triangle_by_position_sign() {
    let gen = Sawtooth::from_omega(171);
    let mut state = gen.initial_state();
    assert_eq!(state.y0, 0);
    for _ in 0..500 {
        state = gen.step(state, 0);
        assert_eq!(state.y0, state.triangle.y0 * state.triangle.osc.y0.signum());
    }
}

#[test]
fn sawtooth_fold_of_saturated_minimum_clips() {
    // Drive the triangle accumulator onto its i32::MIN clip while the
    // position is negative: the fold by sign -1 must saturate to i32::MAX,
    // not wrap.
    let gen = Sawtooth::from_omega(171);
    let state = SawtoothState {
        y0: 0,
        triangle: TriangleState {
            y0: i32::MIN + 1000,
            osc: OscillatorState {
                y0: -5_000_000,
                y1: -(171 * 32767),
            },
        },
    };
    let next = gen.step(state, 0);
    assert!(next.triangle.osc.y0 < 0);
    assert_eq!(next.triangle.y0, i32::MIN);
    assert_eq!(next.y0, i32::MAX);
}

#[test]
fn sawtooth_first_step_value() {
    let gen = Sawtooth::from_omega(171);
    let state = gen.step(gen.initial_state(), 0);
    assert!(state.triangle.osc.y0 > 0);
    assert_eq!(state.y0, 171 * 10430);
}

#[test]
fn fm_initial_state_initializes_both_oscillators() {
    let gen = FM {
        carrier: Oscillator { omega: 1000, zeta: 0 },
        modulator: Oscillator { omega: 3000, zeta: 0 },
        index: 0,
    };
    let state = gen.initial_state();
    assert_eq!(state.y0, 0);
    assert_eq!(state.carrier, OscillatorState { y0: 0, y1: 1000 * 32767 });
    assert_eq!(state.modulator, OscillatorState { y0: 0, y1: 3000 * 32767 });
}

#[test]
fn fm_with_zero_index_reduces_to_carrier() {
    // Scenario: FM with index 0 against the bare carrier oscillator,
    // through the same 50-element forcing sequence, element for element.
    let gen = FM {
        carrier: Oscillator { omega: 1000, zeta: 0 },
        modulator: Oscillator { omega: 3000, zeta: 0 },
        index: 0,
    };
    let carrier = Oscillator { omega: 1000, zeta: 0 };
    let forcing: Vec<i32> = (0..50).map(|i| i * 7 - 100).collect();

    let mut fm_state = gen.initial_state();
    let bare_states = carrier.many_steps(carrier.initial_state(), forcing.clone());
    for (i, x0) in forcing.iter().enumerate() {
        fm_state = gen.step(fm_state, *x0);
        assert_eq!(fm_state.carrier, bare_states[i]);
        assert_eq!(fm_state.y0, bare_states[i].y0);
    }
}

#[test]
fn fm_output_is_carrier_position() {
    let gen = FM {
        carrier: Oscillator { omega: 1000, zeta: 0 },
        modulator: Oscillator { omega: 3000, zeta: 0 },
        index: 65536,
    };
    let mut state = gen.initial_state();
    for _ in 0..200 {
        state = gen.step(state, 0);
        assert_eq!(state.y0, state.carrier.y0);
    }
}

#[test]
fn fm_modulator_runs_free() {
    // The modulator's trajectory does not depend on the forcing or the
    // index: it always advances with forcing 0.
    let free = Oscillator { omega: 3000, zeta: 0 };
    let gen = FM {
        carrier: Oscillator { omega: 1000, zeta: 0 },
        modulator: free,
        index: 65536,
    };
    let mut state = gen.initial_state();
    let mut mod_state = free.initial_state();
    for i in 0..200 {
        state = gen.step(state, i * 13 - 50);
        mod_state = free.step(mod_state, 0);
        assert_eq!(state.modulator, mod_state);
    }
}

#[test]
fn fm_state_carries_both_states() {
    let gen = FM {
        carrier: Oscillator { omega: 1000, zeta: 0 },
        modulator: Oscillator { omega: 3000, zeta: 0 },
        index: 0,
    };
    let state: FMState = gen.initial_state();
    let next = gen.step(state, 42);
    assert_ne!(next.carrier, state.carrier);
    assert_ne!(next.modulator, state.modulator);
}

#[test]
fn rectangle_state_starts_at_zero_output() {
    let gen = Rectangle(Oscillator { omega: 3775, zeta: 100 });
    let state: RectangleState = gen.initial_state();
    assert_eq!(state.y0, 0);
    assert_eq!(state.osc, OscillatorState { y0: 0, y1: 3775 * 32767 });
}
