//! Lock-free audio analysis outputs shared with the real-time audio callback.
//!
//! All types in this module are safe to use from the real-time audio callback:
//! no allocations, no mutexes -- only atomics. Floating-point values travel
//! through the atomics as their IEEE-754 bit patterns.

use vstd::prelude::*;
use std::sync::atomic::{AtomicBool, AtomicU32, Ordering};

verus! {

/// Bit pattern of the `f32` value 0.0.
pub const F32_ZERO_BITS: u32 = 0x0000_0000u32;

/// Bit pattern of the `f32` value 0.5.
pub const F32_HALF_BITS: u32 = 0x3F00_0000u32;

/// Bit pattern of the `f32` value 1.0.
pub const F32_ONE_BITS: u32 = 0x3F80_0000u32;

/// Lock-free audio output (written by real-time callback, read by main thread)
pub struct AudioOutput {
    pub fft: [AtomicU32; 8],
    pub volume: AtomicU32,
    pub beat: AtomicBool,
    pub beat_phase: AtomicU32,
}

impl AudioOutput {
    /// All eight bands, the volume and the beat phase start at 0.0 and no
    /// beat is pending.
    pub fn new() -> Self {
        Self {
            fft: [
                AtomicU32::new(F32_ZERO_BITS),
                AtomicU32::new(F32_ZERO_BITS),
                AtomicU32::new(F32_ZERO_BITS),
                AtomicU32::new(F32_ZERO_BITS),
                AtomicU32::new(F32_ZERO_BITS),
                AtomicU32::new(F32_ZERO_BITS),
                AtomicU32::new(F32_ZERO_BITS),
                AtomicU32::new(F32_ZERO_BITS),
            ],
            volume: AtomicU32::new(F32_ZERO_BITS),
            beat: AtomicBool::new(false),
            beat_phase: AtomicU32::new(F32_ZERO_BITS),
        }
    }

    /// Stores 0.0 in every band, the volume and the beat phase, and clears
    /// the pending beat.
    pub fn reset(&self) {
        for i in 0..8usize {
            self.fft[i].store(F32_ZERO_BITS, Ordering::Relaxed);
        }
        self.volume.store(F32_ZERO_BITS, Ordering::Relaxed);
        self.beat.store(false, Ordering::Relaxed);
        self.beat_phase.store(F32_ZERO_BITS, Ordering::Relaxed);
    }

    /// Reads and clears the pending-beat flag. The audio thread may set the
    /// flag at any moment, so the value returned is whatever the flag held at
    /// the swap.
    pub fn take_beat(&self) -> bool {
        self.beat.swap(false, Ordering::Relaxed)
    }
}

/// Lock-free audio config (written by main thread, read by real-time callback)
pub struct AudioConfig {
    pub amplitude: AtomicU32,
    pub smoothing: AtomicU32,
    pub normalize: AtomicBool,
    pub pink_noise_shaping: AtomicBool,
}

impl AudioConfig {
    /// Amplitude 1.0, smoothing 0.5, normalisation on, pink-noise shaping off.
    pub fn new() -> Self {
        Self {
            amplitude: AtomicU32::new(F32_ONE_BITS),
            smoothing: AtomicU32::new(F32_HALF_BITS),
            normalize: AtomicBool::new(true),
            pink_noise_shaping: AtomicBool::new(false),
        }
    }
}

} // verus!
