use rustjay_404::app::config::{AppConfig, EncodingConfig, GpuMode, HapEncodeFormat};
use rustjay_404::app::state::{AppMode, AppState};
use rustjay_404::audio::fft::{AudioConfig, AudioOutput};
use rustjay_404::audio::routing::{FftBand, ModulationTarget};
use rustjay_404::engine::mixer::{ColorSpace, MixMode};
use rustjay_404::input::osc::{parse_osc_address, OscCommand, OscMapping};
use rustjay_404::lfo::{LfoTarget, Waveform};
use rustjay_404::output::OutputCommand;
use rustjay_404::sampler::bank::{blend_mode_name, parse_blend_mode, parse_trigger_mode, trigger_mode_name};
use rustjay_404::sampler::library::SampleLibrary;
use rustjay_404::sampler::pad::{clip_edge_action, default_color, BlendMode, ClipEdgeAction, PadPlayState, TriggerMode};
use rustjay_404::ui::widgets::pad_grid::PadGrid;
use rustjay_404::ui::widgets::sequencer::SequencerWidget;
use rustjay_404::ui::windows::lfo::LfoWindow;
use rustjay_404::ui::windows::sequencer::SequencerWindow;
use std::sync::atomic::Ordering;

#[test]
fn app_mode_cycles() {
    let mut s = AppState::new();
    assert_eq!(s.mode, AppMode::Perform);
    s.next_mode();
    assert_eq!(s.mode, AppMode::Edit);
    s.next_mode();
    assert_eq!(s.mode, AppMode::Sequence);
    s.next_mode();
    assert_eq!(s.mode, AppMode::Record);
    s.next_mode();
    assert_eq!(s.mode, AppMode::Perform);
    assert!(AppState::default().selected_pad.is_none());
}

#[test]
fn mix_modes() {
    let all = MixMode::all_modes();
    assert_eq!(all.len(), 12);
    for (i, m) in all.iter().enumerate() {
        assert_eq!(m.to_shader_index() as usize, i);
    }
    assert_eq!(MixMode::SoftLight.display_name(), "Soft Light");
    assert_eq!(MixMode::LumaKey.display_name(), "Luma Key");
    assert!(MixMode::ChromaKey.is_keying());
    assert!(!MixMode::Difference.is_keying());
    assert_eq!(MixMode::default(), MixMode::Normal);
    assert_eq!(ColorSpace::default(), ColorSpace::Rgb);
}

#[test]
fn fft_bands_and_targets() {
    assert_eq!(FftBand::all().len(), 8);
    for (i, b) in FftBand::all().iter().enumerate() {
        assert_eq!(FftBand::from_index(i), Some(*b));
    }
    assert_eq!(FftBand::from_index(8), None);
    assert_eq!(FftBand::LowMid.name(), "Low Mid");
    assert_eq!(FftBand::VeryHigh.short_name(), "VHigh");
    assert_eq!(ModulationTarget::PadOpacity(0).name(), "Pad 1 Opacity");
    assert_eq!(ModulationTarget::PadSpeed(15).name(), "Pad 16 Speed");
    assert_eq!(ModulationTarget::MasterOpacity.name(), "Master Opacity");
    let opts = ModulationTarget::all_options();
    assert_eq!(opts.len(), 33);
    assert_eq!(opts[0], ModulationTarget::PadOpacity(0));
    assert_eq!(opts[16], ModulationTarget::PadSpeed(0));
    assert_eq!(opts[31], ModulationTarget::PadSpeed(15));
    assert_eq!(opts[32], ModulationTarget::MasterOpacity);
}

#[test]
fn lfo_names() {
    assert_eq!(Waveform::all().len(), 5);
    assert_eq!(Waveform::Square.name(), "Square");
    assert_eq!(Waveform::default(), Waveform::Sine);
    assert_eq!(LfoTarget::NoTarget.name(), "None");
    assert_eq!(LfoTarget::PadOpacity(9).name(), "Pad 10 Opacity");
    assert_eq!(LfoTarget::PadSpeed(2).name(), "Pad 3 Speed");
    assert_eq!(LfoTarget::default(), LfoTarget::NoTarget);
}

#[test]
fn audio_atomics_start_zeroed() {
    let out = AudioOutput::new();
    assert!(out.fft.iter().all(|f| f.load(Ordering::Relaxed) == 0));
    out.beat.store(true, Ordering::Relaxed);
    out.volume.store(1234, Ordering::Relaxed);
    assert!(out.take_beat());
    assert!(!out.take_beat());
    out.reset();
    assert_eq!(out.volume.load(Ordering::Relaxed), 0);
    let cfg = AudioConfig::new();
    assert_eq!(f32::from_bits(cfg.amplitude.load(Ordering::Relaxed)), 1.0);
    assert_eq!(f32::from_bits(cfg.smoothing.load(Ordering::Relaxed)), 0.5);
    assert!(cfg.normalize.load(Ordering::Relaxed));
    assert!(!cfg.pink_noise_shaping.load(Ordering::Relaxed));
}

#[test]
fn osc_addresses() {
    assert_eq!(parse_osc_address("/rusty404/trigger"), Some(OscCommand::Trigger));
    assert_eq!(parse_osc_address("rusty404//stop/"), Some(OscCommand::Stop));
    assert_eq!(parse_osc_address("/rusty404/bpm"), Some(OscCommand::Bpm));
    assert_eq!(parse_osc_address("/rusty404/speed"), Some(OscCommand::Speed));
    assert_eq!(parse_osc_address("/rusty404"), None);
    assert_eq!(parse_osc_address("/other/trigger"), None);
    assert_eq!(parse_osc_address("/rusty404/trigger/1"), None);
    assert_eq!(parse_osc_address(""), None);
    assert_eq!(OscMapping::default(), OscMapping);
}

#[test]
fn pad_modes_and_bank_names() {
    for m in [TriggerMode::Gate, TriggerMode::Latch, TriggerMode::OneShot] {
        assert_eq!(parse_trigger_mode(trigger_mode_name(m)), m);
    }
    assert_eq!(trigger_mode_name(TriggerMode::OneShot), "OneShot");
    assert_eq!(parse_trigger_mode("bogus"), TriggerMode::Gate);
    for b in [BlendMode::Replace, BlendMode::Add, BlendMode::Multiply, BlendMode::Screen, BlendMode::Alpha] {
        assert_eq!(parse_blend_mode(blend_mode_name(b)), b);
    }
    assert_eq!(parse_blend_mode("add"), BlendMode::Replace);
    assert_eq!(default_color(0), [255, 100, 100]);
    assert_eq!(default_color(15), [255, 80, 180]);
    assert_eq!(default_color(17), [255, 150, 50]);
}

#[test]
fn pad_trigger_modes() {
    let mut gate = PadPlayState::new(TriggerMode::Gate);
    assert!(gate.trigger());
    assert!(gate.is_playing && gate.is_triggered);
    gate.release();
    assert!(!gate.is_playing && !gate.is_triggered);

    let mut latch = PadPlayState::new(TriggerMode::Latch);
    assert!(latch.trigger());
    latch.release();
    assert!(latch.is_playing);
    assert!(!latch.trigger());
    assert!(!latch.is_playing);

    let mut one = PadPlayState::new(TriggerMode::OneShot);
    assert!(one.trigger());
    one.release();
    assert!(one.is_playing);
    one.stop();
    assert!(!one.is_playing && !one.is_triggered);
}

#[test]
fn clip_edges() {
    assert_eq!(clip_edge_action(true, false, TriggerMode::Gate), ClipEdgeAction::Hold);
    assert_eq!(clip_edge_action(true, false, TriggerMode::Latch), ClipEdgeAction::Wrap);
    assert_eq!(clip_edge_action(true, false, TriggerMode::OneShot), ClipEdgeAction::Stop);
    assert_eq!(clip_edge_action(false, false, TriggerMode::Latch), ClipEdgeAction::Stop);
    assert_eq!(clip_edge_action(false, true, TriggerMode::Gate), ClipEdgeAction::Wrap);
    assert_eq!(clip_edge_action(true, true, TriggerMode::OneShot), ClipEdgeAction::Wrap);
}

#[test]
fn config_defaults() {
    let c = AppConfig::default();
    assert_eq!((c.output_window.width, c.output_window.height), (1280, 720));
    assert_eq!(c.output_window.title, "Rusty-404 - Output");
    assert!(!c.output_window.cursor_visible);
    assert_eq!(c.control_window.x, Some(50));
    assert!(c.control_window.cursor_visible);
    assert_eq!(c.target_fps, 60);
    let e = EncodingConfig::default();
    assert_eq!(e.format, HapEncodeFormat::Dxt1);
    assert_eq!(e.gpu_mode, GpuMode::Auto);
    assert_eq!(e.max_dimension, 1920);
    assert_eq!(c.clone().control_window.title, "Rusty-404 - Control");
}

#[test]
fn small_types() {
    assert_eq!(OutputCommand::default(), OutputCommand::NoCommand);
    assert_eq!(PadGrid::new(), PadGrid);
    assert_eq!(SequencerWidget::default(), SequencerWidget);
    assert_eq!(LfoWindow::new(), LfoWindow);
    let _w = SequencerWindow::new();
    let lib = SampleLibrary::new(std::path::PathBuf::from("/samples"));
    assert!(lib.scan().is_empty());
}
