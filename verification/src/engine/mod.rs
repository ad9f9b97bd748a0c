//! Render-engine settings that the mixer shader consumes.

pub mod mixer;

pub use mixer::MixMode;
