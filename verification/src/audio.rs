//! Audio: fixed-point amplitudes, the capture engine's state, and the
//! resampler and encoder.

pub mod capture;
pub mod encoder;
pub mod sample;
