//! Fixed-point damped-harmonic-oscillator waveform generators.
//!
//! A core oscillator integrates a second-order linear ODE with classical RK4
//! using only scaled 32-bit integer arithmetic; derived generators (rectangle,
//! triangle, sawtooth, frequency modulation) shape its position output into
//! richer waveforms. Every step is a pure function of parameters, state and
//! forcing input: no I/O, no hidden globals, and no panic on any input the
//! contracts admit.
pub mod arith;
pub mod fm;
pub mod laws;
pub mod osc;
pub mod wave;
