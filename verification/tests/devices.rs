use rustjay_404::ui::windows::video_settings::{InputSourceType, VideoSettingsWindow};
use rustjay_404::v4l2_devices::{enumerate_devices, DeviceProbe, V4l2DeviceInfo};

#[test]
fn device_display_names() {
    let d = V4l2DeviceInfo { path: "/dev/video0".into(), card: "".into(), driver: "uvc".into() };
    assert_eq!(d.display_name(), "/dev/video0");
    let d = V4l2DeviceInfo { path: "/dev/video2".into(), card: "HD Cam".into(), driver: "uvc".into() };
    assert_eq!(d.display_name(), "HD Cam (/dev/video2)");
}

#[test]
fn devices_split_into_capture_and_loopback() {
    let probes = vec![
        DeviceProbe { index: 0, name: Some("Integrated Camera\n".into()), driver: Some("uvcvideo\n".into()) },
        DeviceProbe { index: 3, name: Some("Dummy video device (0x0000)\n".into()), driver: Some("v4l2 loopback\n".into()) },
        DeviceProbe { index: 10, name: Some("Virtual".into()), driver: Some(" v4l2loopback ".into()) },
        DeviceProbe { index: 12, name: Some("OBS LoopBack".into()), driver: None },
    ];
    let (capture, output) = enumerate_devices(&probes);
    assert_eq!(capture.len(), 1);
    assert_eq!(capture[0].path, "/dev/video0");
    assert_eq!(capture[0].card, "Integrated Camera");
    assert_eq!(capture[0].driver, "uvcvideo");
    let paths: Vec<&str> = output.iter().map(|d| d.path.as_str()).collect();
    assert_eq!(paths, vec!["/dev/video3", "/dev/video10", "/dev/video12"]);
    assert_eq!(output[1].card, "Virtual");
    assert_eq!(output[1].driver, "v4l2loopback");
    assert_eq!(output[2].driver, "");
}

#[test]
fn unreadable_devices_are_skipped() {
    let probes = vec![
        DeviceProbe { index: 0, name: None, driver: None },
        DeviceProbe { index: 1, name: Some("Dummy video device".into()), driver: None },
        DeviceProbe { index: 2, name: None, driver: Some("uvcvideo".into()) },
        DeviceProbe { index: 4, name: Some("Cam".into()), driver: Some("uvcvideo".into()) },
    ];
    let (capture, output) = enumerate_devices(&probes);
    assert_eq!(capture.len(), 1);
    assert_eq!(capture[0].path, "/dev/video4");
    assert_eq!(output.len(), 1);
    assert_eq!(output[0].path, "/dev/video1");
}

#[test]
fn video_settings_requests_and_lists() {
    let mut w = VideoSettingsWindow::new();
    assert!(!w.is_visible());
    assert!(w.needs_refresh());
    w.update_camera_list(vec![(0, "A".into())]);
    assert!(!w.needs_refresh());
    w.toggle();
    assert!(w.is_visible());
    assert!(w.needs_refresh());
    w.toggle();
    assert!(!w.is_visible());
    assert_eq!(w.selected_camera(), 0);
    assert!(!w.take_start_webcam_requested());
    assert_eq!(w.selected_syphon_server(), None);
    w.update_syphon_servers(vec!["S1".into(), "S2".into()]);
    // selection -1 is below the list length and stays "none"
    assert_eq!(w.selected_syphon_server(), None);
    w.update_ndi_sources(vec![]);
    assert_eq!(w.selected_ndi_source(), None);
    assert!(!w.ndi_needs_refresh() && !w.syphon_needs_refresh());
    assert_eq!(w.syphon_output_name(), "Rusty-404");
    assert_eq!(w.ndi_output_name(), "Rusty-404");
    w.set_input_source_type(InputSourceType::Ndi);
    assert_eq!(w.input_source_type(), InputSourceType::Ndi);
    assert_eq!(InputSourceType::Ndi.name(), "NDI");
    w.set_initializing(true);
    assert!(w.is_initializing());
    w.set_error(Some("boom".into()));
    w.clear_error();
    w.set_syphon_output_active(true);
    w.set_ndi_output_active(true);
    assert!(!w.take_start_syphon_requested());
    assert!(!w.take_start_ndi_requested());
    assert!(!w.take_start_syphon_output_requested());
    assert!(!w.take_stop_syphon_output_requested());
    assert!(!w.take_start_ndi_output_requested());
    assert!(!w.take_stop_ndi_output_requested());
    w.refresh_cameras();
    assert!(w.needs_refresh());
}
