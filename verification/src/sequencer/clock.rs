//! Clock for sequencer timing: tick counting at 96 PPQN.
//!
//! The clock counts ticks (96 per quarter note) and converts tick counts to
//! musical positions. The tick duration follows from the tempo, which is
//! floating point; the application computes it and hands it over in
//! nanoseconds together with the time that has passed.

use vstd::prelude::*;

verus! {

/// Ticks per quarter note (PPQN).
pub const TICKS_PER_BEAT: u64 = 96;

/// Beats per bar (4/4 time).
pub const BEATS_PER_BAR: u64 = 4;

#[derive(Debug, Clone, Copy, PartialEq, Eq, Structural)]
pub enum SyncMode {
    Internal,
    MidiClock,
}

/// Clock events that can be generated
#[derive(Debug, Clone, Copy, PartialEq, Eq, Structural)]
pub enum ClockEvent {
    Step { track: usize, step: usize },
    /// Beat number within bar
    Beat(u32),
    /// Bar number
    Bar(u32),
}

/// Clock for sequencer timing
pub struct SequencerClock {
    /// Current position in ticks (96 PPQN - parts per quarter note)
    ticks: u64,
    /// Time accumulated towards the next tick, in nanoseconds
    accum_nanos: u64,
    /// Whether clock is running
    running: bool,
    /// External sync mode
    sync_mode: SyncMode,
    /// Tap tempo times in microseconds (last 8 taps)
    tap_times: Vec<u64>,
    /// Last tap timestamp in microseconds
    last_tap_time: u64,
}

pub struct SequencerClockView {
    pub ticks: u64,
    pub accum_nanos: u64,
    pub running: bool,
    pub sync_mode: SyncMode,
    pub tap_times: Seq<u64>,
    pub last_tap_time: u64,
}

/// Taps further apart than this (two seconds, in microseconds) start a new
/// tap sequence.
pub const TAP_RESET_MICROS: u64 = 2_000_000;

/// Taps remembered.
pub const MAX_TAPS: usize = 8;

/// A tempo read from taps: the taps spanned `span_micros` over `intervals`
/// intervals, so one beat lasts `span_micros / intervals` microseconds and
/// the tempo is `60_000_000 * intervals / span_micros` BPM.
#[derive(Debug, Clone, Copy, PartialEq, Eq, Structural)]
pub struct TapTempo {
    pub span_micros: u64,
    pub intervals: u64,
}

/// The taps remembered after a tap at `now`: a gap of more than two
/// seconds since the last tap forgets the earlier taps, and only the last
/// eight are kept.
pub open spec fn spec_taps_after(taps: Seq<u64>, last_tap: u64, now: u64) -> Seq<u64> {
    let kept = if now > last_tap && now - last_tap > TAP_RESET_MICROS { Seq::<u64>::empty() } else { taps };
    let pushed = kept.push(now);
    if pushed.len() > MAX_TAPS { pushed.drop_first() } else { pushed }
}

/// The tempo the taps give: from four taps on, when the mean interval
/// between consecutive taps lies strictly between 0.1 s and 3 s.
pub open spec fn spec_tap_tempo(taps: Seq<u64>) -> Option<TapTempo> {
    if taps.len() >= 4 {
        let span = taps.last() - taps[0];
        let n = taps.len() - 1;
        if 100_000 * n < span && span < 3_000_000 * n {
            Some(TapTempo { span_micros: span as u64, intervals: n as u64 })
        } else {
            None
        }
    } else {
        None
    }
}

impl View for SequencerClock {
    type V = SequencerClockView;

    closed spec fn view(&self) -> SequencerClockView {
        SequencerClockView {
            ticks: self.ticks,
            accum_nanos: self.accum_nanos,
            running: self.running,
            sync_mode: self.sync_mode,
            tap_times: self.tap_times@,
            last_tap_time: self.last_tap_time,
        }
    }
}

/// (bar, beat, tick) of a tick count in 4/4 at 96 PPQN; the bar number is
/// kept to its low 32 bits.
pub open spec fn spec_position(ticks: u64) -> (u32, u32, u32) {
    let total_beats = ticks / 96;
    (((total_beats / 4) as u32), ((total_beats % 4) as u32), ((ticks % 96) as u32))
}

impl SequencerClock {
    /// At most eight taps are remembered.
    #[verifier::type_invariant]
    spec fn taps_bounded(self) -> bool {
        self.tap_times@.len() <= MAX_TAPS
    }

    /// A stopped clock at tick 0, synchronised internally.
    pub fn new() -> (c: Self)
        ensures
            c@ == (SequencerClockView {
                ticks: 0,
                accum_nanos: 0,
                running: false,
                sync_mode: SyncMode::Internal,
                tap_times: Seq::<u64>::empty(),
                last_tap_time: 0,
            }),
    {
        SequencerClock {
            ticks: 0,
            accum_nanos: 0,
            running: false,
            sync_mode: SyncMode::Internal,
            tap_times: Vec::new(),
            last_tap_time: 0,
        }
    }

    /// Advance the clock by `elapsed_nanos` of wall time, one tick lasting
    /// `tick_nanos`. Returns the number of ticks advanced; a stopped clock
    /// does not move. Time short of a whole tick carries over to the next
    /// update.
    pub fn update(&mut self, elapsed_nanos: u64, tick_nanos: u64) -> (advanced: u32)
        requires
            tick_nanos > 0,
            old(self)@.accum_nanos + elapsed_nanos <= u64::MAX,
            (old(self)@.accum_nanos + elapsed_nanos) / (tick_nanos as int) <= u32::MAX,
            old(self)@.ticks + (old(self)@.accum_nanos + elapsed_nanos) / (tick_nanos as int)
                <= u64::MAX,
        ensures
            !old(self)@.running ==> advanced == 0 && final(self)@ == old(self)@,
            old(self)@.running ==> {
                let total = old(self)@.accum_nanos + elapsed_nanos;
                &&& advanced == total / (tick_nanos as int)
                &&& final(self)@.ticks == old(self)@.ticks + advanced
                &&& final(self)@.accum_nanos == total % (tick_nanos as int)
                &&& final(self)@.running == old(self)@.running
                &&& final(self)@.sync_mode == old(self)@.sync_mode
                &&& final(self)@.tap_times == old(self)@.tap_times
                &&& final(self)@.last_tap_time == old(self)@.last_tap_time
            },
    {
        proof {
            use_type_invariant(&*self);
        }
        if !self.running {
            return 0;
        }
        let total = self.accum_nanos + elapsed_nanos;
        let n = total / tick_nanos;
        self.accum_nanos = total % tick_nanos;
        self.ticks = self.ticks + n;
        n as u32
    }

    /// Start the clock
    pub fn start(&mut self)
        ensures
            final(self)@ == (SequencerClockView { running: true, ..old(self)@ }),
    {
        proof {
            use_type_invariant(&*self);
        }
        self.running = true;
    }

    /// Stop the clock
    pub fn stop(&mut self)
        ensures
            final(self)@ == (SequencerClockView { running: false, ..old(self)@ }),
    {
        proof {
            use_type_invariant(&*self);
        }
        self.running = false;
    }

    /// Reset to beginning
    pub fn reset(&mut self)
        ensures
            final(self)@ == (SequencerClockView { ticks: 0, accum_nanos: 0, ..old(self)@ }),
    {
        proof {
            use_type_invariant(&*self);
        }
        self.ticks = 0;
        self.accum_nanos = 0;
    }

    /// Drop the time accumulated towards the next tick, so that the next
    /// tick falls a full tick from now (phase reset on a tempo tap).
    pub fn reset_phase(&mut self)
        ensures
            final(self)@ == (SequencerClockView { accum_nanos: 0, ..old(self)@ }),
    {
        proof {
            use_type_invariant(&*self);
        }
        self.accum_nanos = 0;
    }

    /// Tap tempo at time `now` (microseconds): remembers the tap, resets the
    /// phase so that the beat falls on the tap, and returns the tempo the
    /// remembered taps give, if any (the caller sets the tempo from it).
    pub fn tap(&mut self, now: u64) -> (tempo: Option<TapTempo>)
        ensures
            final(self)@.tap_times == spec_taps_after(old(self)@.tap_times, old(self)@.last_tap_time, now),
            final(self)@.last_tap_time == now,
            final(self)@.accum_nanos == 0,
            final(self)@.ticks == old(self)@.ticks,
            final(self)@.running == old(self)@.running,
            final(self)@.sync_mode == old(self)@.sync_mode,
            tempo == spec_tap_tempo(final(self)@.tap_times),
    {
        proof {
            use_type_invariant(&*self);
        }
        let mut taps: Vec<u64> = Vec::new();
        std::mem::swap(&mut taps, &mut self.tap_times);
        if now > self.last_tap_time && now - self.last_tap_time > TAP_RESET_MICROS {
            taps.clear();
        }
        taps.push(now);
        if taps.len() > MAX_TAPS {
            taps.remove(0);
        }
        let n = taps.len();
        let first = taps[0];
        let last = taps[n - 1];
        self.tap_times = taps;
        self.last_tap_time = now;
        self.accum_nanos = 0;
        if n >= 4 {
            if last > first {
                let span = last - first;
                let intervals = (n - 1) as u64;
                if 100_000 * intervals < span && span < 3_000_000 * intervals {
                    return Some(TapTempo { span_micros: span, intervals });
                }
            }
        }
        None
    }

    /// Number of taps recorded, capped at 4 for display.
    pub fn tap_count(&self) -> (n: usize)
        ensures
            n == if self@.tap_times.len() < 4 { self@.tap_times.len() as int } else { 4 },
    {
        if self.tap_times.len() < 4 {
            self.tap_times.len()
        } else {
            4
        }
    }

    /// Check if running
    pub fn is_running(&self) -> (b: bool)
        ensures
            b == self@.running,
    {
        self.running
    }

    /// Get current position (bar, beat, tick)
    pub fn position(&self) -> (p: (u32, u32, u32))
        ensures
            p == spec_position(self@.ticks),
    {
        let total_beats = self.ticks / TICKS_PER_BEAT;
        let bar = (total_beats / BEATS_PER_BAR) as u32;
        let beat = (total_beats % BEATS_PER_BAR) as u32;
        let tick = (self.ticks % TICKS_PER_BEAT) as u32;
        (bar, beat, tick)
    }

    /// Get current tick count
    pub fn ticks(&self) -> (t: u64)
        ensures
            t == self@.ticks,
    {
        self.ticks
    }

    /// Convert step to tick position
    pub fn step_to_tick(step: usize, steps_per_beat: usize) -> (tick: u64)
        requires
            steps_per_beat > 0,
            step * (96int / (steps_per_beat as int)) <= u64::MAX,
        ensures
            tick == step * (96int / (steps_per_beat as int)),
    {
        let step_ticks = TICKS_PER_BEAT / steps_per_beat as u64;
        step as u64 * step_ticks
    }
}

impl Default for SequencerClock {
    fn default() -> (c: Self)
        ensures
            c@ == (SequencerClockView {
                ticks: 0,
                accum_nanos: 0,
                running: false,
                sync_mode: SyncMode::Internal,
                tap_times: Seq::<u64>::empty(),
                last_tap_time: 0,
            }),
    {
        Self::new()
    }
}

/// The position describes the tick count exactly: while the bar number fits
/// in 32 bits, bar * 384 + beat * 96 + tick gives the ticks back, with beat
/// below 4 and tick below 96.
pub proof fn lemma_position_exact(ticks: u64)
    requires
        ticks / 384 <= u32::MAX,
    ensures
        ({
            let (bar, beat, tick) = spec_position(ticks);
            &&& beat < 4
            &&& tick < 96
            &&& bar * 384 + beat * 96 + tick == ticks
        }),
{
    let tb = ticks / 96;
    assert(tb / 4 == ticks / 384) by (nonlinear_arith)
        requires
            tb == ticks / 96,
    ;
    assert(ticks == tb * 96 + ticks % 96) by (nonlinear_arith)
        requires
            tb == ticks / 96,
    ;
    assert(tb == (tb / 4) * 4 + tb % 4) by (nonlinear_arith);
    assert((tb / 4) * 384 + (tb % 4) * 96 + ticks % 96 == ticks) by (nonlinear_arith)
        requires
            ticks == tb * 96 + ticks % 96,
            tb == (tb / 4) * 4 + tb % 4,
    ;
}

/// Ticks accumulate without loss: two updates by `a` then `b` nanoseconds
/// advance the clock as far as one update by `a + b` would.
pub proof fn lemma_update_additive(accum: nat, a: nat, b: nat, tick: nat)
    requires
        tick > 0,
    ensures
        (accum + a) / tick + (((accum + a) % tick) + b) / tick == (accum + a + b) / tick,
        (((accum + a) % tick) + b) % tick == (accum + a + b) % tick,
{
    let x = accum + a;
    assert(x == (x / tick) * tick + x % tick) by (nonlinear_arith)
        requires
            tick > 0,
    ;
    let y = x % tick + b;
    assert(x + b == (x / tick) * tick + y);
    assert(y == (y / tick) * tick + y % tick) by (nonlinear_arith)
        requires
            tick > 0,
    ;
    assert(0 <= y % tick < tick) by (nonlinear_arith)
        requires
            tick > 0,
    ;
    assert(x + b == (x / tick + y / tick) * tick + y % tick) by (nonlinear_arith)
        requires
            x + b == (x / tick) * tick + y,
            y == (y / tick) * tick + y % tick,
    ;
    vstd::arithmetic::div_mod::lemma_fundamental_div_mod_converse(
        (x + b) as int,
        tick as int,
        (x / tick + y / tick) as int,
        (y % tick) as int,
    );
}

} // verus!
