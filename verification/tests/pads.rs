use rustjay_404::ui::widgets::pad_grid::pad_button_input;
use rustjay_404::input::router::{handle_pad_event, PadEvent};
use rustjay_404::sampler::bank::{BankManager, SampleBank};
use rustjay_404::sampler::pad::{PadPlayState, TriggerMode};
use rustjay_404::sampler::sample::SampleRange;

#[test]
fn new_bank_has_sixteen_idle_gate_pads() {
    let b = SampleBank::new("Bank A");
    assert_eq!(b.name, "Bank A");
    for p in b.pads.iter() {
        assert_eq!(*p, PadPlayState::new(TriggerMode::Gate));
    }
    assert!(b.get_active_pads().is_empty());
    assert!(b.get_pad(15).is_some());
    assert!(b.get_pad(16).is_none());
}

#[test]
fn trigger_release_and_stop_pads() {
    let mut b = SampleBank::new("B");
    b.get_pad_mut(1).unwrap().trigger_mode = TriggerMode::Latch;
    assert!(b.trigger_pad(0));
    assert!(b.trigger_pad(1));
    assert!(b.trigger_pad(2));
    assert!(!b.trigger_pad(16));
    assert_eq!(b.get_active_pads(), vec![0, 1, 2]);
    b.release_pad(0);
    b.release_pad(1);
    assert_eq!(b.get_active_pads(), vec![1, 2]);
    assert!(!b.pads[1].is_triggered);
    // a second trigger of a latch pad stops it
    assert!(!b.trigger_pad(1));
    assert_eq!(b.get_active_pads(), vec![2]);
    b.stop_all();
    assert!(b.get_active_pads().is_empty());
    assert!(b.pads.iter().all(|p| !p.is_triggered));
    assert_eq!(b.pads[1].trigger_mode, TriggerMode::Latch);
}

#[test]
fn switching_banks_stops_the_bank_left() {
    let mut m = BankManager::new();
    assert_eq!(m.current_bank().name, "Bank A");
    let i = m.add_bank("Bank B");
    assert_eq!(i, 1);
    assert_eq!(m.banks.len(), 2);
    m.current_bank_mut().trigger_pad(4);
    assert_eq!(m.current_bank().get_active_pads(), vec![4]);
    m.switch_bank(1);
    assert_eq!(m.current_index, 1);
    assert_eq!(m.current_bank().name, "Bank B");
    assert!(m.banks[0].get_active_pads().is_empty());
    // an index past the last bank changes nothing
    m.current_bank_mut().trigger_pad(0);
    m.switch_bank(7);
    assert_eq!(m.current_index, 1);
    assert_eq!(m.current_bank().get_active_pads(), vec![0]);
    assert_eq!(BankManager::default().banks.len(), 1);
}

#[test]
fn release_events_only_release_gate_pads() {
    let mut b = SampleBank::new("B");
    b.pads[3].trigger_mode = TriggerMode::OneShot;
    handle_pad_event(&mut b, PadEvent::Trigger { pad: 3 });
    handle_pad_event(&mut b, PadEvent::Trigger { pad: 4 });
    handle_pad_event(&mut b, PadEvent::Release { pad: 3 });
    handle_pad_event(&mut b, PadEvent::Release { pad: 4 });
    assert!(b.pads[3].is_playing);
    assert!(b.pads[3].is_triggered);
    assert!(!b.pads[4].is_playing);
    handle_pad_event(&mut b, PadEvent::Trigger { pad: 20 });
    assert_eq!(b.get_active_pads(), vec![3]);
    handle_pad_event(&mut b, PadEvent::StopAll);
    assert!(b.get_active_pads().is_empty());
    assert!(!b.pads[3].is_triggered);
}

#[test]
fn set_range_orders_and_clamps_points() {
    let mut r = SampleRange::new(100);
    assert_eq!((r.in_point, r.out_point), (0, 99));
    r.set_range(80, 20);
    assert_eq!((r.in_point, r.out_point), (20, 80));
    r.set_range(50, 500);
    assert_eq!((r.in_point, r.out_point), (50, 99));
    assert_eq!(r.effective_frames(), 49);
    assert_eq!(r.clamp_frame(10), 50);
    assert_eq!(r.clamp_frame(70), 70);
    assert_eq!(r.clamp_frame(1000), 99);
    let mut empty = SampleRange::new(0);
    empty.set_range(5, 9);
    assert_eq!((empty.in_point, empty.out_point), (0, 0));
}

#[test]
fn preset_ranges_play_forward() {
    let mut r = SampleRange::new(100);
    r.apply_preset_range(10, 60);
    assert_eq!((r.in_point, r.out_point), (10, 60));
    r.apply_preset_range(150, 300);
    assert_eq!((r.in_point, r.out_point), (99, 100));
    r.apply_preset_range(40, 40);
    assert_eq!((r.in_point, r.out_point), (40, 100));
    let reversed = SampleRange { frame_count: 100, in_point: 60, out_point: 10 };
    assert_eq!(reversed.effective_frames(), 0);
}

#[test]
fn gate_pads_play_while_the_mouse_holds_them() {
    let mut pad = PadPlayState::new(TriggerMode::Gate);
    let mut mouse = false;
    pad_button_input(&mut pad, &mut mouse, true, false);
    assert!(pad.is_playing && pad.is_triggered && mouse);
    pad_button_input(&mut pad, &mut mouse, true, false);
    assert!(pad.is_playing);
    pad_button_input(&mut pad, &mut mouse, false, true);
    assert!(!pad.is_playing && !pad.is_triggered && !mouse);
    // a pad held from elsewhere is not released by the mouse
    pad.trigger();
    pad_button_input(&mut pad, &mut mouse, false, false);
    assert!(pad.is_playing && pad.is_triggered);
    // latch pads toggle on clicks
    let mut latch = PadPlayState::new(TriggerMode::Latch);
    pad_button_input(&mut latch, &mut mouse, true, false);
    assert!(!latch.is_playing);
    pad_button_input(&mut latch, &mut mouse, false, true);
    assert!(latch.is_playing);
    pad_button_input(&mut latch, &mut mouse, false, true);
    assert!(!latch.is_playing);
}
