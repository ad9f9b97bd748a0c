use rustjay_404::sequencer::step::ratchet_count;
use rustjay_404::sequencer::clock::{ClockEvent, SequencerClock, SyncMode, TapTempo};
use rustjay_404::sequencer::pattern::Pattern;
use rustjay_404::sequencer::step::{next_random_state, RNG_SEED};
use rustjay_404::sequencer::track::{ActiveGate, SequencerTrack};

#[test]
fn new_track_defaults() {
    let t = SequencerTrack::new(3);
    assert_eq!(t.pad_index, 3);
    assert_eq!(t.steps.len(), 64);
    assert!(t.steps.iter().all(|s| !s));
    assert_eq!(t.length, 16);
    assert_eq!(t.current_step, 0);
    assert!(!t.has_active_gates());
    assert_eq!(t.display_name(), "Pad 4");
    let mut named = t.clone();
    named.name = Some("Kick".to_string());
    assert_eq!(named.display_name(), "Kick");
    assert_eq!(SequencerTrack::default().pad_index, 0);
}

#[test]
fn advance_wraps_at_length() {
    let mut t = SequencerTrack::new(0);
    t.set_length(3);
    assert!(!t.advance());
    assert_eq!(t.current_step, 1);
    assert!(!t.advance());
    assert!(t.advance());
    assert_eq!(t.current_step, 0);
}

#[test]
fn set_length_clamps_and_resets_position() {
    let mut t = SequencerTrack::new(0);
    t.set_length(0);
    assert_eq!(t.length, 1);
    t.set_length(1000);
    assert_eq!(t.length, 64);
    for _ in 0..10 {
        t.advance();
    }
    assert_eq!(t.current_step, 10);
    t.set_length(8);
    assert_eq!(t.current_step, 0);
    t.advance();
    t.set_length(4);
    assert_eq!(t.current_step, 1);
}

#[test]
fn gates_close_at_their_end_tick() {
    let mut t = SequencerTrack::new(0);
    t.add_gate(100, 24);
    t.advance();
    t.add_gate(110, 50);
    assert!(t.has_active_gates());
    assert_eq!(t.active_gates[0], ActiveGate { end_tick: 124, step_index: 0 });
    assert_eq!(t.active_gates[1], ActiveGate { end_tick: 160, step_index: 1 });
    assert!(!t.update_gates(123));
    assert_eq!(t.active_gates.len(), 2);
    assert!(t.update_gates(124));
    assert_eq!(t.active_gates, vec![ActiveGate { end_tick: 160, step_index: 1 }]);
    assert!(t.update_gates(500));
    assert!(!t.has_active_gates());
    assert!(!t.update_gates(600));
}

#[test]
fn toggle_clear_reset() {
    let mut t = SequencerTrack::new(0);
    t.toggle_step(2);
    t.toggle_step(63);
    t.toggle_step(64); // past the end: ignored
    assert_eq!(t.get_step(2), Some(true));
    assert_eq!(t.get_step(63), Some(true));
    assert_eq!(t.get_step(64), None);
    t.toggle_step(2);
    assert_eq!(t.get_step(2), Some(false));
    t.advance();
    t.add_gate(0, 1);
    t.tick_accumulator = 7;
    t.reset();
    assert_eq!(t.current_step, 0);
    assert_eq!(t.tick_accumulator, 0);
    assert!(!t.has_active_gates());
    assert_eq!(t.get_step(63), Some(true));
    t.advance();
    t.clear();
    assert_eq!(t.current_step, 0);
    assert!(t.steps.iter().all(|s| !s));
}

#[test]
fn pattern_basics() {
    let mut p = Pattern::new(0);
    assert_eq!(p.name, "Pattern 01");
    assert_eq!(Pattern::new(11).name, "Pattern 12");
    assert_eq!(Pattern::new(99).name, "Pattern 100");
    assert_eq!(p.length(), 16);
    assert!(p.active_pads().is_empty());
    p.tracks[5].toggle_step(0);
    p.tracks[2].toggle_step(10);
    assert_eq!(p.active_pads(), vec![2, 5]);
    assert_eq!(p.get_track(5).unwrap().pad_index, 5);
    assert!(p.get_track(16).is_none());
    p.set_length(32);
    assert_eq!(p.length(), 32);
    assert!(p.tracks.iter().all(|t| t.length == 32));
    let mut q = Pattern::default();
    q.copy_from(&p);
    assert_eq!(q.active_pads(), vec![2, 5]);
    assert_eq!(q.name, "Pattern 01");
    q.clear();
    assert!(q.active_pads().is_empty());
    assert_eq!(p.active_pads(), vec![2, 5]);
}

#[test]
fn clock_counts_ticks_and_positions() {
    let mut c = SequencerClock::new();
    assert!(!c.is_running());
    assert_eq!(c.update(1_000_000, 100), 0);
    assert_eq!(c.ticks(), 0);
    c.start();
    assert!(c.is_running());
    assert_eq!(c.update(250, 100), 2);
    assert_eq!(c.update(60, 100), 1); // 50 carried over
    assert_eq!(c.ticks(), 3);
    assert_eq!(c.update(100 * 96 * 5, 100), 480);
    assert_eq!(c.ticks(), 483);
    // 483 ticks = bar 1, beat 1, tick 3
    assert_eq!(c.position(), (1, 1, 3));
    c.stop();
    assert_eq!(c.update(1000, 100), 0);
    c.reset();
    assert_eq!(c.ticks(), 0);
    assert_eq!(c.position(), (0, 0, 0));
}

#[test]
fn step_to_tick_and_events() {
    assert_eq!(SequencerClock::step_to_tick(5, 4), 120);
    assert_eq!(SequencerClock::step_to_tick(3, 5), 57);
    assert_eq!(SequencerClock::step_to_tick(0, 1), 0);
    assert_ne!(SyncMode::Internal, SyncMode::MidiClock);
    assert_eq!(ClockEvent::Beat(2), ClockEvent::Beat(2));
    assert_ne!(ClockEvent::Bar(1), ClockEvent::Step { track: 0, step: 1 });
}

#[test]
fn xorshift_matches_reference() {
    let mut x = RNG_SEED;
    x ^= x << 13;
    x ^= x >> 7;
    x ^= x << 17;
    assert_eq!(next_random_state(RNG_SEED), x);
    assert_ne!(next_random_state(1), 0);
    assert_eq!(next_random_state(0), 0);
}

#[test]
fn current_step_and_step_access() {
    let mut t = SequencerTrack::new(0);
    t.toggle_step(0);
    assert!(t.current());
    *t.current_mut() = false;
    assert!(!t.current());
    assert_eq!(t.get_step(0), Some(false));
    if let Some(s) = t.get_step_mut(5) {
        *s = true;
    }
    assert_eq!(t.get_step(5), Some(true));
    assert!(t.get_step_mut(64).is_none());
}

#[test]
fn step_range_is_cut_at_the_last_step() {
    let mut t = SequencerTrack::new(0);
    t.toggle_step(61);
    let r = t.get_step_range(60, 8);
    assert_eq!(r, &[false, true, false, false][..]);
    assert_eq!(t.get_step_range(0, 16).len(), 16);
    assert!(t.get_step_range(64, 4).is_empty());
}

#[test]
fn pattern_track_mut_changes_one_track() {
    let mut p = Pattern::new(0);
    if let Some(t) = p.get_track_mut(3) {
        t.toggle_step(2);
        t.muted = true;
    }
    assert!(p.tracks[3].muted);
    assert_eq!(p.tracks[3].get_step(2), Some(true));
    assert!(!p.tracks[2].muted);
    assert!(p.get_track_mut(16).is_none());
}

#[test]
fn four_taps_half_a_second_apart_give_120_bpm() {
    let mut c = SequencerClock::new();
    assert_eq!(c.tap(10_000_000), None);
    assert_eq!(c.tap(10_500_000), None);
    assert_eq!(c.tap(11_000_000), None);
    assert_eq!(c.tap_count(), 3);
    let t = c.tap(11_500_000).unwrap();
    assert_eq!(t, TapTempo { span_micros: 1_500_000, intervals: 3 });
    let bpm = 60_000_000.0 * t.intervals as f64 / t.span_micros as f64;
    assert!((bpm - 120.0).abs() < 1e-9);
    assert_eq!(c.tap_count(), 4);
}

#[test]
fn a_long_pause_starts_a_new_tap_sequence() {
    let mut c = SequencerClock::new();
    for i in 0..4u64 {
        c.tap(1_000_000 + i * 400_000);
    }
    assert_eq!(c.tap_count(), 4);
    // 2.5 s after the last tap: earlier taps are forgotten
    assert_eq!(c.tap(4_700_000), None);
    assert_eq!(c.tap_count(), 1);
}

#[test]
fn taps_too_fast_give_no_tempo_and_only_eight_are_kept() {
    let mut c = SequencerClock::new();
    for i in 0..10u64 {
        // 50 ms apart: faster than 600 BPM
        assert_eq!(c.tap(5_000_000 + i * 50_000), None);
    }
    assert_eq!(c.tap_count(), 4);
    // eight taps 250 ms apart after a pause: 240 BPM over seven intervals
    let mut last = None;
    for i in 0..12u64 {
        last = c.tap(20_000_000 + i * 250_000);
    }
    assert_eq!(last, Some(TapTempo { span_micros: 1_750_000, intervals: 7 }));
}

#[test]
fn tap_resets_the_phase() {
    let mut c = SequencerClock::new();
    c.start();
    assert_eq!(c.update(1_500, 1_000), 1);
    c.tap(1);
    // the half tick accumulated before the tap is dropped
    assert_eq!(c.update(600, 1_000), 0);
    assert_eq!(c.update(400, 1_000), 1);
}

#[test]
fn ratchet_counts_run_from_one_to_eight() {
    assert_eq!(ratchet_count(0), 1);
    assert_eq!(ratchet_count(1), 1);
    assert_eq!(ratchet_count(3), 3);
    assert_eq!(ratchet_count(8), 8);
    assert_eq!(ratchet_count(200), 8);
}
