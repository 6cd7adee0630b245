//! Camera hot-plug detection.
//!
//! A monitor polls the camera enumerator and compares the devices it sees
//! with those it knew: new identifiers are connections, vanished ones are
//! disconnections. The polling thread lives outside this library; the
//! comparison and the recognition of video device paths are here.
use vstd::prelude::*;
use crate::app_core::types::{CameraDevice, DeviceId};
use crate::capture::enumerator::CameraEvent;
use crate::text::{owned, seq_starts_with, str_starts_with};

verus! {

/// Configuration of the hot-plug monitor. Durations are in milliseconds.
#[derive(Debug, Clone, Copy, PartialEq, Eq, Structural)]
pub struct HotplugConfig {
    /// How often to poll for changes.
    pub poll_interval_ms: u64,
    /// How long to wait before declaring a device reconnected.
    pub reconnect_debounce_ms: u64,
}

impl Default for HotplugConfig {
    fn default() -> (r: Self)
        ensures
            r.poll_interval_ms == 2000,
            r.reconnect_debounce_ms == 500,
    {
        HotplugConfig { poll_interval_ms: 2000, reconnect_debounce_ms: 500 }
    }
}

/// The final component of a path, as `std::path::Path::file_name` gives it
/// (none for a path that ends in `..` or is a root or empty).
pub uninterp spec fn path_file_name(path: Seq<char>) -> Option<Seq<char>>;

/// The final component of `path`, from `Path::file_name`; the component of
/// a `&str` path is valid UTF-8, so it converts to a `String` whole.
#[verifier::external_body]
fn file_name_of(path: &str) -> (r: Option<String>)
    ensures
        match (r, path_file_name(path@)) {
            (Some(n), Some(m)) => n@ == m,
            (None, None) => true,
            _ => false,
        },
{
    match std::path::Path::new(path).file_name() {
        Some(n) => n.to_str().map(|s| s.to_string()),
        None => None,
    }
}

/// Whether the path names a video device: its last component starts with
/// `video`.
pub open spec fn is_video_path(path: Seq<char>) -> bool {
    match path_file_name(path) {
        Some(name) => seq_starts_with(name, "video"@),
        None => false,
    }
}

/// Whether a path looks like a video device (`/dev/video0`, ...).
pub fn is_video_device(path: &str) -> (r: bool)
    ensures
        r == is_video_path(path@),
{
    match file_name_of(path) {
        Some(name) => str_starts_with(name.as_str(), "video"),
        None => false,
    }
}

/// The device identifier of a video device path: the path itself.
pub fn device_path_to_id(path: &str) -> (r: DeviceId)
    ensures
        r.0@ == path@,
{
    DeviceId(owned(path))
}

/// Whether an identifier occurs among the known ones.
pub open spec fn id_known(known: Seq<DeviceId>, id: DeviceId) -> bool {
    exists|i: int| 0 <= i < known.len() && #[trigger] known[i].0@ == id.0@
}

/// Whether an identifier is among the current devices.
pub open spec fn id_present(devices: Seq<CameraDevice>, id: DeviceId) -> bool {
    exists|i: int| 0 <= i < devices.len() && #[trigger] devices[i].id.0@ == id.0@
}

/// The connections: each current device whose identifier was not known, in
/// the order of the devices.
pub open spec fn connected_devices(known: Seq<DeviceId>, devices: Seq<CameraDevice>) -> Seq<CameraDevice> {
    devices.filter(|d: CameraDevice| !id_known(known, d.id))
}

/// The disconnections: each known identifier that no current device has, in
/// the order they were known.
pub open spec fn vanished_ids(known: Seq<DeviceId>, devices: Seq<CameraDevice>) -> Seq<DeviceId> {
    known.filter(|id: DeviceId| !id_present(devices, id))
}

/// Whether the event announces the connection of a copy of the device.
pub open spec fn announces_connection(e: CameraEvent, device: CameraDevice) -> bool {
    match e {
        CameraEvent::Connected(d) => d.id == device.id && d.name@ == device.name@
            && d.manufacturer == device.manufacturer && d.capabilities@ == device.capabilities@
            && d.is_available == device.is_available,
        _ => false,
    }
}

fn contains_id(known: &Vec<DeviceId>, id: &DeviceId) -> (r: bool)
    ensures
        r == id_known(known@, *id),
{
    let mut i: usize = 0;
    while i < known.len()
        invariant
            i <= known@.len(),
            forall|j: int| 0 <= j < i ==> known@[j].0@ != id.0@,
        decreases known.len() - i,
    {
        if known[i].same_as(id) {
            return true;
        }
        i = i + 1;
    }
    false
}

fn device_present(devices: &Vec<CameraDevice>, id: &DeviceId) -> (r: bool)
    ensures
        r == id_present(devices@, *id),
{
    let mut i: usize = 0;
    while i < devices.len()
        invariant
            i <= devices@.len(),
            forall|j: int| 0 <= j < i ==> devices@[j].id.0@ != id.0@,
        decreases devices.len() - i,
    {
        if devices[i].id.same_as(id) {
            return true;
        }
        i = i + 1;
    }
    false
}

/// What one poll found: the events to deliver (connections first, in device
/// order, then disconnections, in the order the devices were known) and the
/// identifiers to know from now on (those of the current devices).
pub fn detect_device_changes(known: &Vec<DeviceId>, devices: &Vec<CameraDevice>) -> (r: (Vec<CameraEvent>, Vec<DeviceId>))
    ensures
        r.0@.len() == connected_devices(known@, devices@).len() + vanished_ids(known@, devices@).len(),
        forall|i: int| 0 <= i < connected_devices(known@, devices@).len() ==>
            announces_connection(#[trigger] r.0@[i], connected_devices(known@, devices@)[i]),
        forall|i: int| 0 <= i < vanished_ids(known@, devices@).len() ==>
            r.0@[connected_devices(known@, devices@).len() + i] == CameraEvent::Disconnected(#[trigger] vanished_ids(known@, devices@)[i]),
        r.1@.len() == devices@.len(),
        forall|i: int| 0 <= i < devices@.len() ==> #[trigger] r.1@[i] == devices@[i].id,
{
    let ghost conn = connected_devices(known@, devices@);
    let ghost gone = vanished_ids(known@, devices@);
    let mut events: Vec<CameraEvent> = Vec::new();
    let mut i: usize = 0;
    while i < devices.len()
        invariant
            i <= devices@.len(),
            events@.len() == connected_devices(known@, devices@.subrange(0, i as int)).len(),
            forall|k: int| 0 <= k < events@.len() ==>
                announces_connection(#[trigger] events@[k], connected_devices(known@, devices@.subrange(0, i as int))[k]),
        decreases devices.len() - i,
    {
        proof {
            let s = devices@.subrange(0, i as int + 1);
            assert(s.drop_last() =~= devices@.subrange(0, i as int));
            assert(s.last() == devices@[i as int]);
            reveal(Seq::filter);
        }
        if !contains_id(known, &devices[i].id) {
            events.push(CameraEvent::Connected(devices[i].clone()));
        }
        i = i + 1;
    }
    assert(devices@.subrange(0, devices@.len() as int) =~= devices@);
    let base = events.len();
    let mut k: usize = 0;
    while k < known.len()
        invariant
            k <= known@.len(),
            base == conn.len(),
            conn == connected_devices(known@, devices@),
            gone == vanished_ids(known@, devices@),
            events@.len() == base + vanished_ids(known@.subrange(0, k as int), devices@).len(),
            forall|j: int| 0 <= j < base ==>
                announces_connection(#[trigger] events@[j], conn[j]),
            forall|j: int| 0 <= j < vanished_ids(known@.subrange(0, k as int), devices@).len() ==>
                events@[base + j] == CameraEvent::Disconnected(#[trigger] vanished_ids(known@.subrange(0, k as int), devices@)[j]),
        decreases known.len() - k,
    {
        proof {
            let s = known@.subrange(0, k as int + 1);
            assert(s.drop_last() =~= known@.subrange(0, k as int));
            assert(s.last() == known@[k as int]);
            reveal(Seq::filter);
        }
        if !device_present(devices, &known[k]) {
            events.push(CameraEvent::Disconnected(known[k].clone()));
        }
        k = k + 1;
    }
    assert(known@.subrange(0, known@.len() as int) =~= known@);
    let mut ids: Vec<DeviceId> = Vec::new();
    let mut m: usize = 0;
    while m < devices.len()
        invariant
            m <= devices@.len(),
            ids@.len() == m,
            forall|j: int| 0 <= j < m ==> #[trigger] ids@[j] == devices@[j].id,
        decreases devices.len() - m,
    {
        ids.push(devices[m].id.clone());
        m = m + 1;
    }
    (events, ids)
}

} // verus!
