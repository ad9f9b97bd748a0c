//! Video settings window - device selection and output controls.
//!
//! The window holds the user's choices and requests; the application polls
//! the requests with the `take_*` methods and reports device lists back.

use vstd::prelude::*;
use crate::util::order::string_views;

verus! {

/// Input source type
#[derive(Debug, Clone, Copy, PartialEq, Eq, Structural)]
pub enum InputSourceType {
    Webcam,
    /// Syphon input (macOS)
    Syphon,
    /// NDI network input
    Ndi,
}

pub open spec fn spec_source_name(t: InputSourceType) -> Seq<char> {
    match t {
        InputSourceType::Webcam => "Webcam"@,
        InputSourceType::Syphon => "Syphon"@,
        InputSourceType::Ndi => "NDI"@,
    }
}

impl InputSourceType {
    pub fn name(&self) -> (n: &'static str)
        ensures
            n@ == spec_source_name(*self),
    {
        match self {
            InputSourceType::Webcam => "Webcam",
            InputSourceType::Syphon => "Syphon",
            InputSourceType::Ndi => "NDI",
        }
    }
}

/// Video settings window
pub struct VideoSettingsWindow {
    /// List of available cameras
    cameras: Vec<(u32, String)>,
    /// Currently selected camera index
    selected_camera: i32,
    /// Camera list needs refresh
    needs_refresh: bool,
    /// Is window visible
    visible: bool,
    /// Last error message
    last_error: Option<String>,
    /// Device is currently being initialized
    initializing: bool,
    /// Current input source type
    input_source_type: InputSourceType,
    /// User clicked "Start Device" — app should start the selected webcam
    start_webcam_requested: bool,
    /// Syphon server list
    syphon_servers: Vec<String>,
    /// Selected Syphon server index (-1: none)
    selected_syphon_server: i32,
    /// Syphon server list needs refresh
    syphon_needs_refresh: bool,
    /// User clicked "Start Syphon" — app should connect the selected server
    start_syphon_requested: bool,
    /// NDI source list
    ndi_sources: Vec<String>,
    /// Selected NDI source index (-1: none)
    selected_ndi_source: i32,
    /// NDI source list needs refresh
    ndi_needs_refresh: bool,
    /// User clicked "Start NDI" — app should connect the selected source
    start_ndi_requested: bool,
    /// Syphon output server name
    syphon_output_name: String,
    /// User requested Syphon output start
    start_syphon_output_requested: bool,
    /// User requested Syphon output stop
    stop_syphon_output_requested: bool,
    /// Whether Syphon output is currently active (set by app)
    syphon_output_active: bool,
    /// NDI output stream name
    ndi_output_name: String,
    /// User requested NDI output start
    start_ndi_output_requested: bool,
    /// User requested NDI output stop
    stop_ndi_output_requested: bool,
    /// Whether NDI output is currently active (set by app)
    ndi_output_active: bool,
}

pub struct VideoSettingsView {
    pub cameras: Seq<(u32, Seq<char>)>,
    pub selected_camera: i32,
    pub needs_refresh: bool,
    pub visible: bool,
    pub last_error: Option<Seq<char>>,
    pub initializing: bool,
    pub input_source_type: InputSourceType,
    pub start_webcam_requested: bool,
    pub syphon_servers: Seq<Seq<char>>,
    pub selected_syphon_server: i32,
    pub syphon_needs_refresh: bool,
    pub start_syphon_requested: bool,
    pub ndi_sources: Seq<Seq<char>>,
    pub selected_ndi_source: i32,
    pub ndi_needs_refresh: bool,
    pub start_ndi_requested: bool,
    pub syphon_output_name: Seq<char>,
    pub start_syphon_output_requested: bool,
    pub stop_syphon_output_requested: bool,
    pub syphon_output_active: bool,
    pub ndi_output_name: Seq<char>,
    pub start_ndi_output_requested: bool,
    pub stop_ndi_output_requested: bool,
    pub ndi_output_active: bool,
}

pub open spec fn camera_views(c: Seq<(u32, String)>) -> Seq<(u32, Seq<char>)> {
    c.map_values(|e: (u32, String)| (e.0, e.1@))
}

pub open spec fn error_view(e: Option<String>) -> Option<Seq<char>> {
    match e {
        Some(s) => Some(s@),
        None => None,
    }
}

/// Selection after a device list is replaced: kept when still in range,
/// otherwise the first entry, or -1 when the list is empty.
pub open spec fn spec_reselect(selected: i32, len: nat) -> i32 {
    if selected >= (len as i32) {
        if len == 0 { -1i32 } else { 0i32 }
    } else {
        selected
    }
}

/// The entry of a device list a selection index refers to, if any.
pub open spec fn spec_selected(list: Seq<Seq<char>>, selected: i32) -> Option<Seq<char>> {
    if selected >= 0 && (selected as int) < list.len() {
        Some(list[selected as int])
    } else {
        None
    }
}

fn reselect(selected: i32, len: usize) -> (r: i32)
    ensures
        r == spec_reselect(selected, len as nat),
{
    if selected >= len as i32 {
        if len == 0 {
            -1
        } else {
            0
        }
    } else {
        selected
    }
}

impl View for VideoSettingsWindow {
    type V = VideoSettingsView;

    closed spec fn view(&self) -> VideoSettingsView {
        VideoSettingsView {
            cameras: camera_views(self.cameras@),
            selected_camera: self.selected_camera,
            needs_refresh: self.needs_refresh,
            visible: self.visible,
            last_error: error_view(self.last_error),
            initializing: self.initializing,
            input_source_type: self.input_source_type,
            start_webcam_requested: self.start_webcam_requested,
            syphon_servers: string_views(self.syphon_servers@),
            selected_syphon_server: self.selected_syphon_server,
            syphon_needs_refresh: self.syphon_needs_refresh,
            start_syphon_requested: self.start_syphon_requested,
            ndi_sources: string_views(self.ndi_sources@),
            selected_ndi_source: self.selected_ndi_source,
            ndi_needs_refresh: self.ndi_needs_refresh,
            start_ndi_requested: self.start_ndi_requested,
            syphon_output_name: self.syphon_output_name@,
            start_syphon_output_requested: self.start_syphon_output_requested,
            stop_syphon_output_requested: self.stop_syphon_output_requested,
            syphon_output_active: self.syphon_output_active,
            ndi_output_name: self.ndi_output_name@,
            start_ndi_output_requested: self.start_ndi_output_requested,
            stop_ndi_output_requested: self.stop_ndi_output_requested,
            ndi_output_active: self.ndi_output_active,
        }
    }
}

impl VideoSettingsWindow {
    pub fn new() -> (w: Self)
        ensures
            w@ == (VideoSettingsView {
                cameras: Seq::empty(),
                selected_camera: 0,
                needs_refresh: true,
                visible: false,
                last_error: None,
                initializing: false,
                input_source_type: InputSourceType::Webcam,
                start_webcam_requested: false,
                syphon_servers: Seq::empty(),
                selected_syphon_server: -1i32,
                syphon_needs_refresh: true,
                start_syphon_requested: false,
                ndi_sources: Seq::empty(),
                selected_ndi_source: -1i32,
                ndi_needs_refresh: true,
                start_ndi_requested: false,
                syphon_output_name: "Rusty-404"@,
                start_syphon_output_requested: false,
                stop_syphon_output_requested: false,
                syphon_output_active: false,
                ndi_output_name: "Rusty-404"@,
                start_ndi_output_requested: false,
                stop_ndi_output_requested: false,
                ndi_output_active: false,
            }),
    {
        let w = Self {
            cameras: Vec::new(),
            selected_camera: 0,
            needs_refresh: true,
            visible: false,
            last_error: None,
            initializing: false,
            input_source_type: InputSourceType::Webcam,
            start_webcam_requested: false,
            syphon_servers: Vec::new(),
            selected_syphon_server: -1i32,
            syphon_needs_refresh: true,
            start_syphon_requested: false,
            ndi_sources: Vec::new(),
            selected_ndi_source: -1i32,
            ndi_needs_refresh: true,
            start_ndi_requested: false,
            syphon_output_name: String::from_str("Rusty-404"),
            start_syphon_output_requested: false,
            stop_syphon_output_requested: false,
            syphon_output_active: false,
            ndi_output_name: String::from_str("Rusty-404"),
            start_ndi_output_requested: false,
            stop_ndi_output_requested: false,
            ndi_output_active: false,
        };
        proof {
            assert(camera_views(w.cameras@) =~= Seq::empty());
            assert(string_views(w.syphon_servers@) =~= Seq::empty());
            assert(string_views(w.ndi_sources@) =~= Seq::empty());
        }
        w
    }

    /// Show/hide the window; showing it asks for a fresh camera list.
    pub fn toggle(&mut self)
        ensures
            final(self)@ == (VideoSettingsView {
                visible: !old(self)@.visible,
                needs_refresh: if !old(self)@.visible { true } else { old(self)@.needs_refresh },
                ..old(self)@
            }),
    {
        self.visible = !self.visible;
        if self.visible {
            self.needs_refresh = true;
        }
    }

    pub fn is_visible(&self) -> (b: bool)
        ensures
            b == self@.visible,
    {
        self.visible
    }

    pub fn selected_camera(&self) -> (c: u32)
        ensures
            c == self@.selected_camera as u32,
    {
        self.selected_camera as u32
    }

    pub fn refresh_cameras(&mut self)
        ensures
            final(self)@ == (VideoSettingsView { needs_refresh: true, ..old(self)@ }),
    {
        self.needs_refresh = true;
    }

    /// Replace the camera list; a selection past its end falls back to the
    /// first camera.
    pub fn update_camera_list(&mut self, cameras: Vec<(u32, String)>)
        ensures
            final(self)@ == (VideoSettingsView {
                cameras: camera_views(cameras@),
                selected_camera: if old(self)@.selected_camera >= (cameras@.len() as i32) {
                    0
                } else {
                    old(self)@.selected_camera
                },
                needs_refresh: false,
                ..old(self)@
            }),
    {
        self.cameras = cameras;
        if self.selected_camera >= self.cameras.len() as i32 {
            self.selected_camera = 0;
        }
        self.needs_refresh = false;
    }

    pub fn needs_refresh(&self) -> (b: bool)
        ensures
            b == self@.needs_refresh,
    {
        self.needs_refresh
    }

    pub fn input_source_type(&self) -> (t: InputSourceType)
        ensures
            t == self@.input_source_type,
    {
        self.input_source_type
    }

    pub fn set_input_source_type(&mut self, source_type: InputSourceType)
        ensures
            final(self)@ == (VideoSettingsView { input_source_type: source_type, ..old(self)@ }),
    {
        self.input_source_type = source_type;
    }

    /// Whether the user asked to start the webcam since the last call.
    pub fn take_start_webcam_requested(&mut self) -> (v: bool)
        ensures
            v == old(self)@.start_webcam_requested,
            final(self)@ == (VideoSettingsView { start_webcam_requested: false, ..old(self)@ }),
    {
        let v = self.start_webcam_requested;
        self.start_webcam_requested = false;
        v
    }

    /// Whether the user asked to connect a Syphon server since the last call.
    pub fn take_start_syphon_requested(&mut self) -> (v: bool)
        ensures
            v == old(self)@.start_syphon_requested,
            final(self)@ == (VideoSettingsView { start_syphon_requested: false, ..old(self)@ }),
    {
        let v = self.start_syphon_requested;
        self.start_syphon_requested = false;
        v
    }

    pub fn selected_syphon_server(&self) -> (s: Option<&str>)
        ensures
            match s {
                Some(name) => spec_selected(self@.syphon_servers, self@.selected_syphon_server)
                    == Some(name@),
                None => spec_selected(self@.syphon_servers, self@.selected_syphon_server) is None,
            },
    {
        if self.selected_syphon_server >= 0 && (self.selected_syphon_server as usize)
            < self.syphon_servers.len() {
            Some(self.syphon_servers[self.selected_syphon_server as usize].as_str())
        } else {
            None
        }
    }

    /// Replace the Syphon server list; a selection past its end falls back
    /// to the first server, or to none when the list is empty.
    pub fn update_syphon_servers(&mut self, servers: Vec<String>)
        ensures
            final(self)@ == (VideoSettingsView {
                syphon_servers: string_views(servers@),
                selected_syphon_server: spec_reselect(
                    old(self)@.selected_syphon_server,
                    servers@.len(),
                ),
                syphon_needs_refresh: false,
                ..old(self)@
            }),
    {
        let n = servers.len();
        let selected = reselect(self.selected_syphon_server, n);
        self.syphon_servers = servers;
        self.selected_syphon_server = selected;
        self.syphon_needs_refresh = false;
    }

    pub fn syphon_needs_refresh(&self) -> (b: bool)
        ensures
            b == self@.syphon_needs_refresh,
    {
        self.syphon_needs_refresh
    }

    /// Whether the user asked to connect an NDI source since the last call.
    pub fn take_start_ndi_requested(&mut self) -> (v: bool)
        ensures
            v == old(self)@.start_ndi_requested,
            final(self)@ == (VideoSettingsView { start_ndi_requested: false, ..old(self)@ }),
    {
        let v = self.start_ndi_requested;
        self.start_ndi_requested = false;
        v
    }

    pub fn selected_ndi_source(&self) -> (s: Option<&str>)
        ensures
            match s {
                Some(name) => spec_selected(self@.ndi_sources, self@.selected_ndi_source) == Some(
                    name@,
                ),
                None => spec_selected(self@.ndi_sources, self@.selected_ndi_source) is None,
            },
    {
        if self.selected_ndi_source >= 0 && (self.selected_ndi_source as usize)
            < self.ndi_sources.len() {
            Some(self.ndi_sources[self.selected_ndi_source as usize].as_str())
        } else {
            None
        }
    }

    /// Replace the NDI source list; a selection past its end falls back to
    /// the first source, or to none when the list is empty.
    pub fn update_ndi_sources(&mut self, sources: Vec<String>)
        ensures
            final(self)@ == (VideoSettingsView {
                ndi_sources: string_views(sources@),
                selected_ndi_source: spec_reselect(old(self)@.selected_ndi_source, sources@.len()),
                ndi_needs_refresh: false,
                ..old(self)@
            }),
    {
        let n = sources.len();
        let selected = reselect(self.selected_ndi_source, n);
        self.ndi_sources = sources;
        self.selected_ndi_source = selected;
        self.ndi_needs_refresh = false;
    }

    pub fn ndi_needs_refresh(&self) -> (b: bool)
        ensures
            b == self@.ndi_needs_refresh,
    {
        self.ndi_needs_refresh
    }

    pub fn take_start_syphon_output_requested(&mut self) -> (v: bool)
        ensures
            v == old(self)@.start_syphon_output_requested,
            final(self)@ == (VideoSettingsView {
                start_syphon_output_requested: false,
                ..old(self)@
            }),
    {
        let v = self.start_syphon_output_requested;
        self.start_syphon_output_requested = false;
        v
    }

    pub fn take_stop_syphon_output_requested(&mut self) -> (v: bool)
        ensures
            v == old(self)@.stop_syphon_output_requested,
            final(self)@ == (VideoSettingsView { stop_syphon_output_requested: false, ..old(self)@ }),
    {
        let v = self.stop_syphon_output_requested;
        self.stop_syphon_output_requested = false;
        v
    }

    pub fn set_syphon_output_active(&mut self, active: bool)
        ensures
            final(self)@ == (VideoSettingsView { syphon_output_active: active, ..old(self)@ }),
    {
        self.syphon_output_active = active;
    }

    pub fn syphon_output_name(&self) -> (n: &str)
        ensures
            n@ == self@.syphon_output_name,
    {
        self.syphon_output_name.as_str()
    }

    pub fn ndi_output_name(&self) -> (n: &str)
        ensures
            n@ == self@.ndi_output_name,
    {
        self.ndi_output_name.as_str()
    }

    pub fn take_start_ndi_output_requested(&mut self) -> (v: bool)
        ensures
            v == old(self)@.start_ndi_output_requested,
            final(self)@ == (VideoSettingsView { start_ndi_output_requested: false, ..old(self)@ }),
    {
        let v = self.start_ndi_output_requested;
        self.start_ndi_output_requested = false;
        v
    }

    pub fn take_stop_ndi_output_requested(&mut self) -> (v: bool)
        ensures
            v == old(self)@.stop_ndi_output_requested,
            final(self)@ == (VideoSettingsView { stop_ndi_output_requested: false, ..old(self)@ }),
    {
        let v = self.stop_ndi_output_requested;
        self.stop_ndi_output_requested = false;
        v
    }

    pub fn set_ndi_output_active(&mut self, active: bool)
        ensures
            final(self)@ == (VideoSettingsView { ndi_output_active: active, ..old(self)@ }),
    {
        self.ndi_output_active = active;
    }

    pub fn set_initializing(&mut self, initializing: bool)
        ensures
            final(self)@ == (VideoSettingsView { initializing: initializing, ..old(self)@ }),
    {
        self.initializing = initializing;
    }

    pub fn is_initializing(&self) -> (b: bool)
        ensures
            b == self@.initializing,
    {
        self.initializing
    }

    pub fn set_error(&mut self, error: Option<String>)
        ensures
            final(self)@ == (VideoSettingsView { last_error: error_view(error), ..old(self)@ }),
    {
        self.last_error = error;
    }

    pub fn clear_error(&mut self)
        ensures
            final(self)@ == (VideoSettingsView { last_error: None, ..old(self)@ }),
    {
        self.last_error = None;
    }
}

} // verus!
