//! Sampler module - Pad and Sample management

pub mod bank;
pub mod library;
pub mod pad;
pub mod sample;

pub use pad::TriggerMode;
