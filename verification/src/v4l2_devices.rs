//! V4L2 device classification (Linux only)
//!
//! The application probes `/dev/video0` to `/dev/video31` and the sysfs
//! attributes of each existing device; this module turns the probe results
//! into device descriptions and tells capture devices from loopback outputs.

use vstd::prelude::*;
use crate::util::text::{
    decimal_between, spec_contains, spec_decimal, spec_lowercase, spec_trim, str_contains,
    str_to_lowercase, str_trim,
};

verus! {

/// Info about a V4L2 capture or loopback device.
#[derive(Debug)]
pub struct V4l2DeviceInfo {
    /// Device path, e.g. `/dev/video0`
    pub path: String,
    /// Card name reported by the driver
    pub card: String,
    /// Driver name
    pub driver: String,
}

pub struct V4l2DeviceInfoView {
    pub path: Seq<char>,
    pub card: Seq<char>,
    pub driver: Seq<char>,
}

impl View for V4l2DeviceInfo {
    type V = V4l2DeviceInfoView;

    open spec fn view(&self) -> V4l2DeviceInfoView {
        V4l2DeviceInfoView { path: self.path@, card: self.card@, driver: self.driver@ }
    }
}

impl Clone for V4l2DeviceInfo {
    fn clone(&self) -> (c: Self)
        ensures
            c@ == self@,
    {
        V4l2DeviceInfo { path: self.path.clone(), card: self.card.clone(), driver: self.driver.clone() }
    }
}

/// Label for UI combo boxes: "card (path)", or the path alone when the
/// driver reported no card name.
pub open spec fn spec_display_name(d: V4l2DeviceInfoView) -> Seq<char> {
    if d.card.len() == 0 {
        d.path
    } else {
        d.card + " ("@ + d.path + ")"@
    }
}

impl V4l2DeviceInfo {
    /// Human-readable label for UI combo boxes.
    pub fn display_name(&self) -> (name: String)
        ensures
            name@ == spec_display_name(self@),
    {
        if self.card.unicode_len() == 0 {
            self.path.clone()
        } else {
            let mut s = self.card.clone();
            s.append(" (");
            s.append(self.path.as_str());
            s.append(")");
            s
        }
    }
}

/// What probing one existing `/dev/videoN` device found: its number and the
/// raw contents of its sysfs `name` and `driver` attributes (None when an
/// attribute could not be read).
pub struct DeviceProbe {
    pub index: u32,
    pub name: Option<String>,
    pub driver: Option<String>,
}

pub open spec fn spec_opt_text(s: Option<String>) -> Seq<char> {
    match s {
        Some(t) => spec_trim(t@),
        None => Seq::empty(),
    }
}

/// The device's sysfs name could be read. (Its `driver` entry is usually a
/// link, not a readable file; a driver that cannot be read counts as "".)
pub open spec fn spec_probe_readable(p: DeviceProbe) -> bool {
    p.name is Some
}

/// The description of a readable probed device: its device path, and its
/// card and driver names without surrounding white space ("" for a driver
/// that could not be read).
pub open spec fn spec_probe_info(p: DeviceProbe) -> V4l2DeviceInfoView {
    V4l2DeviceInfoView {
        path: "/dev/video"@ + spec_decimal(p.index as nat),
        card: spec_opt_text(p.name),
        driver: spec_opt_text(p.driver),
    }
}

/// Heuristic for loopback devices: the driver is v4l2loopback, or the card
/// name mentions "loopback" or "dummy" in any letter case.
pub open spec fn spec_is_loopback(d: V4l2DeviceInfoView) -> bool {
    spec_contains(d.driver, "v4l2loopback"@) || spec_contains(spec_lowercase(d.card), "loopback"@)
        || spec_contains(spec_lowercase(d.card), "dummy"@)
}

pub open spec fn info_views(v: Seq<V4l2DeviceInfo>) -> Seq<V4l2DeviceInfoView> {
    v.map_values(|d: V4l2DeviceInfo| d@)
}

/// The descriptions of the readable probed devices that are (or are not)
/// loopback devices, in probe order. Devices whose name could not be read
/// are skipped.
pub open spec fn spec_devices_of_kind(probes: Seq<DeviceProbe>, loopback: bool) -> Seq<V4l2DeviceInfoView>
    decreases probes.len(),
{
    if probes.len() == 0 {
        Seq::empty()
    } else {
        let rest = spec_devices_of_kind(probes.drop_last(), loopback);
        let d = spec_probe_info(probes.last());
        if spec_probe_readable(probes.last()) && spec_is_loopback(d) == loopback {
            rest.push(d)
        } else {
            rest
        }
    }
}

fn opt_text(s: &Option<String>) -> (t: String)
    ensures
        t@ == spec_opt_text(*s),
{
    match s {
        Some(raw) => String::from_str(str_trim(raw.as_str())),
        None => String::new(),
    }
}

fn is_loopback(info: &V4l2DeviceInfo) -> (b: bool)
    ensures
        b == spec_is_loopback(info@),
{
    let lower = str_to_lowercase(info.card.as_str());
    str_contains(info.driver.as_str(), "v4l2loopback") || str_contains(lower.as_str(), "loopback")
        || str_contains(lower.as_str(), "dummy")
}

/// Sort the probed devices into capture devices and output (loopback)
/// devices, each list in probe order. Detection is best-effort; devices
/// whose sysfs name could not be read are silently skipped.
pub fn enumerate_devices(probes: &Vec<DeviceProbe>) -> (lists: (Vec<V4l2DeviceInfo>, Vec<V4l2DeviceInfo>))
    ensures
        info_views(lists.0@) == spec_devices_of_kind(probes@, false),
        info_views(lists.1@) == spec_devices_of_kind(probes@, true),
{
    let mut capture: Vec<V4l2DeviceInfo> = Vec::new();
    let mut output: Vec<V4l2DeviceInfo> = Vec::new();
    for i in 0..probes.len()
        invariant
            info_views(capture@) == spec_devices_of_kind(probes@.take(i as int), false),
            info_views(output@) == spec_devices_of_kind(probes@.take(i as int), true),
    {
        let p = &probes[i];
        proof {
            assert(probes@.take(i + 1).drop_last() =~= probes@.take(i as int));
            assert(probes@.take(i + 1).last() == *p);
        }
        if p.name.is_some() {
            let info = V4l2DeviceInfo {
                path: decimal_between("/dev/video", p.index as usize, ""),
                card: opt_text(&p.name),
                driver: opt_text(&p.driver),
            };
            proof {
                reveal_strlit("");
                assert(info@.path =~= "/dev/video"@ + spec_decimal(p.index as nat));
                assert(info@ == spec_probe_info(*p));
            }
            let ghost oc = capture@;
            let ghost oo = output@;
            if is_loopback(&info) {
                output.push(info);
                proof {
                    assert(info_views(output@) =~= info_views(oo).push(info@));
                }
            } else {
                capture.push(info);
                proof {
                    assert(info_views(capture@) =~= info_views(oc).push(info@));
                }
            }
        }
    }
    proof {
        assert(probes@.take(probes@.len() as int) =~= probes@);
    }
    (capture, output)
}

} // verus!
