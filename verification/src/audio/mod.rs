//! Audio analysis outputs and audio-to-video routing targets.

pub mod fft;
pub mod routing;
