//! The capture manager's bookkeeping: which cameras are known and in what
//! state, which one is selected, and the state changes of starting and
//! stopping capture.
//!
//! The manager asks its enumerator for the devices; opening the camera and
//! running the capture loop are left to the caller, who reports back.
use vstd::prelude::*;
use crate::app_core::error::{capture_display_text, opt_view, CaptureError};
use crate::app_core::types::{same_device, CameraCapability, CameraDevice, CaptureSettings, DeviceId, NegotiatedFormat};
use crate::capture::enumerator::CameraEnumerator;
use crate::capture::state::{state_display_text, CameraState, CameraStateManager};
use crate::text::owned;

verus! {

/// A change of the known camera devices.
#[derive(Debug)]
pub enum DeviceEvent {
    /// A camera was connected.
    Connected(CameraDevice),
    /// A camera was disconnected.
    Disconnected(DeviceId),
    /// A camera became available or unavailable.
    AvailabilityChanged { device_id: DeviceId, available: bool },
}

impl Clone for DeviceEvent {
    fn clone(&self) -> (r: Self)
        ensures
            match (*self, r) {
                (DeviceEvent::Connected(x), DeviceEvent::Connected(y)) => same_device(x, y),
                (DeviceEvent::Disconnected(x), DeviceEvent::Disconnected(y)) => x == y,
                (DeviceEvent::AvailabilityChanged { device_id: x, available: ax },
                    DeviceEvent::AvailabilityChanged { device_id: y, available: ay }) => x == y && ax == ay,
                _ => false,
            },
    {
        match self {
            DeviceEvent::Connected(d) => DeviceEvent::Connected(d.clone()),
            DeviceEvent::Disconnected(id) => DeviceEvent::Disconnected(id.clone()),
            DeviceEvent::AvailabilityChanged { device_id, available } => DeviceEvent::AvailabilityChanged {
                device_id: device_id.clone(),
                available: *available,
            },
        }
    }
}

/// What a device is, by value: identifier, name, manufacturer,
/// capabilities, availability.
pub type DeviceView = (Seq<char>, Seq<char>, Option<Seq<char>>, Seq<CameraCapability>, bool);

/// The value of a device.
pub open spec fn device_view(d: CameraDevice) -> DeviceView {
    (d.id.0@, d.name@, opt_view(d.manufacturer), d.capabilities@, d.is_available)
}

/// The identifiers of a list of devices.
pub open spec fn ids_of(devices: Seq<CameraDevice>) -> Seq<Seq<char>> {
    devices.map_values(|d: CameraDevice| d.id.0@)
}

/// The identifiers among `devs` that are neither in `known` nor earlier in
/// `devs`, in order.
pub open spec fn added_ids(known: Seq<Seq<char>>, devs: Seq<Seq<char>>) -> Seq<Seq<char>>
    decreases devs.len(),
{
    if devs.len() == 0 {
        Seq::empty()
    } else {
        let before = added_ids(known, devs.drop_last());
        if (known + before).contains(devs.last()) {
            before
        } else {
            before.push(devs.last())
        }
    }
}

/// The state a known camera takes when the devices `devs` are listed: a
/// connected camera that is not listed is removed, when its state allows.
pub open spec fn state_after_listing(id: Seq<char>, s: CameraState, devs: Seq<Seq<char>>) -> CameraState {
    if !devs.contains(id) && !(s is Disconnected) && crate::capture::state::valid_transition(s, CameraState::Disconnected) {
        CameraState::Disconnected
    } else {
        s
    }
}

/// The known cameras, identifier and state, for which a listing of `devs`
/// reports a disconnection: connected ones that are not listed.
pub open spec fn removed_ids(cams: Seq<(Seq<char>, CameraState)>, devs: Seq<Seq<char>>) -> Seq<Seq<char>>
    decreases cams.len(),
{
    if cams.len() == 0 {
        Seq::empty()
    } else {
        let before = removed_ids(cams.drop_last(), devs);
        let c = cams.last();
        if !devs.contains(c.0) && !(c.1 is Disconnected) {
            before.push(c.0)
        } else {
            before
        }
    }
}

/// A handle on the selected camera.
#[derive(Debug)]
pub struct CameraHandle {
    device_id: DeviceId,
    device_info: CameraDevice,
    state: CameraState,
    format: Option<NegotiatedFormat>,
}

impl Clone for CameraHandle {
    fn clone(&self) -> (r: Self)
        ensures
            r.spec_id() == self.spec_id(),
            device_view(r.spec_info()) == device_view(self.spec_info()),
            r.spec_state() == self.spec_state(),
            r.spec_format() == self.spec_format(),
    {
        CameraHandle {
            device_id: self.device_id.clone(),
            device_info: self.device_info.clone(),
            state: self.state.clone(),
            format: self.format,
        }
    }
}

impl CameraHandle {
    /// The device identifier.
    pub closed spec fn spec_id(&self) -> DeviceId {
        self.device_id
    }

    /// The device information.
    pub closed spec fn spec_info(&self) -> CameraDevice {
        self.device_info
    }

    /// The camera's state when the handle was taken.
    pub closed spec fn spec_state(&self) -> CameraState {
        self.state
    }

    /// The negotiated format when the handle was taken.
    pub closed spec fn spec_format(&self) -> Option<NegotiatedFormat> {
        self.format
    }

    /// The device identifier.
    pub fn device_id(&self) -> (r: &DeviceId)
        ensures
            *r == self.spec_id(),
    {
        &self.device_id
    }

    /// The device information.
    pub fn device_info(&self) -> (r: &CameraDevice)
        ensures
            *r == self.spec_info(),
    {
        &self.device_info
    }

    /// The camera's state when the handle was taken.
    pub fn state(&self) -> (r: CameraState)
        ensures
            r == self.spec_state(),
    {
        self.state.clone()
    }

    /// The negotiated format when the handle was taken.
    pub fn format(&self) -> (r: Option<NegotiatedFormat>)
        ensures
            r == self.spec_format(),
    {
        self.format
    }

    /// Whether the camera was capturing when the handle was taken.
    pub fn is_capturing(&self) -> (r: bool)
        ensures
            r == (self.spec_state() is Capturing),
    {
        self.state.is_capturing()
    }
}

/// A known camera and its state.
pub struct ManagedCamera {
    device: CameraDevice,
    state: CameraStateManager,
}

impl ManagedCamera {
    /// The camera's identifier and state.
    pub closed spec fn entry(self) -> (Seq<char>, CameraState) {
        (self.device.id.0@, self.state.spec_state())
    }

    /// The camera's state machine is well formed and tracks this camera.
    pub closed spec fn wf(self) -> bool {
        self.state.spec_device().0@ == self.device.id.0@
    }
}

/// The entries of a list of cameras.
pub open spec fn entries_of(cams: Seq<ManagedCamera>) -> Seq<(Seq<char>, CameraState)> {
    cams.map_values(|c: ManagedCamera| c.entry())
}

/// The identifiers of a list of entries.
pub open spec fn entry_ids(e: Seq<(Seq<char>, CameraState)>) -> Seq<Seq<char>> {
    e.map_values(|x: (Seq<char>, CameraState)| x.0)
}

/// Entries of cameras that are listed do not change the reported
/// disconnections.
proof fn lemma_removed_ids_listed_suffix(a: Seq<(Seq<char>, CameraState)>, b: Seq<(Seq<char>, CameraState)>, devs: Seq<Seq<char>>)
    requires
        forall|j: int| 0 <= j < b.len() ==> devs.contains(#[trigger] b[j].0),
    ensures
        removed_ids(a + b, devs) == removed_ids(a, devs),
    decreases b.len(),
{
    if b.len() > 0 {
        let b2 = b.drop_last();
        assert((a + b).drop_last() =~= a + b2);
        assert((a + b).last() == b.last());
        assert(devs.contains(b[b.len() - 1].0));
        lemma_removed_ids_listed_suffix(a, b2, devs);
    } else {
        assert(a + b =~= a);
    }
}

/// Keeps the known cameras and the selected one, and asks the enumerator
/// for devices.
pub struct CaptureManager<E: CameraEnumerator> {
    enumerator: Option<E>,
    selected: Option<DeviceId>,
    cameras: Vec<ManagedCamera>,
}

impl<E: CameraEnumerator> CaptureManager<E> {
    /// The known cameras, identifier and state, in the order first seen.
    pub closed spec fn spec_entries(&self) -> Seq<(Seq<char>, CameraState)> {
        entries_of(self.cameras@)
    }

    /// The value of known camera `i`.
    pub closed spec fn spec_device(&self, i: int) -> DeviceView {
        device_view(self.cameras@[i].device)
    }

    /// The format negotiated for known camera `i`.
    pub closed spec fn spec_format(&self, i: int) -> Option<NegotiatedFormat> {
        self.cameras@[i].state.spec_format()
    }

    /// The identifier of the selected camera.
    pub closed spec fn spec_selected(&self) -> Option<Seq<char>> {
        match self.selected {
            Some(d) => Some(d.0@),
            None => None,
        }
    }

    /// Whether the manager has an enumerator.
    pub closed spec fn spec_has_enumerator(&self) -> bool {
        self.enumerator is Some
    }

    /// Every camera's state machine is well formed, and no camera is known
    /// twice.
    pub closed spec fn wf(&self) -> bool {
        &&& forall|i: int| 0 <= i < self.cameras@.len() ==> (#[trigger] self.cameras@[i]).wf()
        &&& forall|i: int, j: int| 0 <= i < j < self.cameras@.len() ==>
            (#[trigger] self.cameras@[i]).device.id.0@ != (#[trigger] self.cameras@[j]).device.id.0@
    }

    /// A manager that lists devices with `enumerator`; no camera is known
    /// or selected.
    pub fn with_enumerator(enumerator: E) -> (r: Self)
        ensures
            r.wf(),
            r.spec_entries().len() == 0,
            r.spec_selected() is None,
            r.spec_has_enumerator(),
    {
        let r = CaptureManager { enumerator: Some(enumerator), selected: None, cameras: Vec::new() };
        assert(r.spec_entries() =~= Seq::<(Seq<char>, CameraState)>::empty());
        r
    }

    fn find_camera(&self, id: &DeviceId) -> (r: Option<usize>)
        requires
            self.wf(),
        ensures
            match r {
                Some(i) => i < self.spec_entries().len() && self.spec_entries()[i as int].0 == id.0@,
                None => !entry_ids(self.spec_entries()).contains(id.0@),
            },
    {
        let mut i: usize = 0;
        while i < self.cameras.len()
            invariant
                i <= self.cameras@.len(),
                forall|j: int| 0 <= j < i ==> self.cameras@[j].device.id.0@ != id.0@,
            decreases self.cameras.len() - i,
        {
            if self.cameras[i].device.id.same_as(id) {
                return Some(i);
            }
            i = i + 1;
        }
        proof {
            if entry_ids(self.spec_entries()).contains(id.0@) {
                let j = choose|j: int| 0 <= j < entry_ids(self.spec_entries()).len() && entry_ids(self.spec_entries())[j] == id.0@;
                assert(self.cameras@[j].device.id.0@ == id.0@);
            }
        }
        None
    }
}

fn listed(devices: &Vec<CameraDevice>, id: &DeviceId) -> (r: bool)
    ensures
        r == ids_of(devices@).contains(id.0@),
{
    let mut k: usize = 0;
    while k < devices.len()
        invariant
            k <= devices@.len(),
            forall|j: int| 0 <= j < k ==> devices@[j].id.0@ != id.0@,
        decreases devices.len() - k,
    {
        if devices[k].id.same_as(id) {
            assert(ids_of(devices@)[k as int] == id.0@);
            return true;
        }
        k = k + 1;
    }
    proof {
        if ids_of(devices@).contains(id.0@) {
            let j = choose|j: int| 0 <= j < ids_of(devices@).len() && ids_of(devices@)[j] == id.0@;
            assert(devices@[j].id.0@ == id.0@);
        }
    }
    false
}

impl<E: CameraEnumerator> CaptureManager<E> {
    /// Adds the listed devices that are not known yet, in order, each
    /// arriving (so available).
    fn add_new_cameras(&mut self, devices: &Vec<CameraDevice>)
        requires
            old(self).wf(),
        ensures
            final(self).wf(),
            ({
                let added = added_ids(entry_ids(old(self).spec_entries()), ids_of(devices@));
                &&& final(self).spec_entries().len() == old(self).spec_entries().len() + added.len()
                &&& forall|j: int| 0 <= j < old(self).spec_entries().len() ==> {
                    &&& #[trigger] final(self).spec_entries()[j] == old(self).spec_entries()[j]
                    &&& final(self).spec_device(j) == old(self).spec_device(j)
                    &&& final(self).spec_format(j) == old(self).spec_format(j)
                }
                &&& forall|j: int| 0 <= j < added.len() ==>
                    #[trigger] final(self).spec_entries()[old(self).spec_entries().len() + j] == (added[j], CameraState::Available)
                &&& forall|j: int| old(self).spec_entries().len() <= j < final(self).spec_entries().len() ==>
                    exists|k: int| 0 <= k < devices@.len() && #[trigger] final(self).spec_device(j) == device_view(devices@[k])
            }),
            final(self).spec_selected() == old(self).spec_selected(),
            final(self).spec_has_enumerator() == old(self).spec_has_enumerator(),
    {
        let ghost old_entries = self.spec_entries();
        let ghost old_ids = entry_ids(old_entries);
        let ghost devs = ids_of(devices@);
        let ghost old_cams = self.cameras@;
        let mut i: usize = 0;
        while i < devices.len()
            invariant
                i <= devices@.len(),
                self.wf(),
                devs == ids_of(devices@),
                old_ids == entry_ids(old_entries),
                self.spec_entries().len() == old_entries.len() + added_ids(old_ids, devs.take(i as int)).len(),
                entry_ids(self.spec_entries()) == old_ids + added_ids(old_ids, devs.take(i as int)),
                self.cameras@.len() >= old_cams.len(),
                forall|j: int| 0 <= j < old_cams.len() ==> #[trigger] self.cameras@[j] == old_cams[j],
                forall|j: int| old_cams.len() <= j < self.cameras@.len() ==> {
                    &&& (#[trigger] self.cameras@[j]).state.spec_state() == CameraState::Available
                    &&& exists|k: int| 0 <= k < devices@.len() && device_view(self.cameras@[j].device) == device_view(devices@[k])
                },
                old_cams.len() == old_entries.len(),
                self.selected == old(self).selected,
                self.enumerator == old(self).enumerator,
                old_cams == old(self).cameras@,
                old_entries == old(self).spec_entries(),
            decreases devices.len() - i,
        {
            let d = &devices[i];
            let found = self.find_camera(&d.id);
            let ghost before = added_ids(old_ids, devs.take(i as int));
            assert(devs.take(i as int + 1).drop_last() =~= devs.take(i as int));
            assert(devs.take(i as int + 1).last() == d.id.0@);
            if found.is_none() {
                let mut st = CameraStateManager::new(d.id.clone());
                let _ = st.device_arrived();
                let cam = ManagedCamera { device: d.clone(), state: st };
                let ghost cams_before = self.cameras@;
                self.cameras.push(cam);
                proof {
                    assert(entry_ids(self.spec_entries()) =~= entry_ids(entries_of(cams_before)).push(d.id.0@));
                    assert(device_view(self.cameras@[self.cameras@.len() - 1].device) == device_view(devices@[i as int]));
                    assert forall|a: int, b: int| 0 <= a < b < self.cameras@.len() implies
                        (#[trigger] self.cameras@[a]).device.id.0@ != (#[trigger] self.cameras@[b]).device.id.0@ by {
                        if b == self.cameras@.len() - 1 {
                            assert(entry_ids(entries_of(cams_before))[a] == cams_before[a].device.id.0@);
                        }
                    }
                    assert forall|j: int| old_cams.len() <= j < self.cameras@.len() implies {
                        &&& (#[trigger] self.cameras@[j]).state.spec_state() == CameraState::Available
                        &&& exists|k: int| 0 <= k < devices@.len() && device_view(self.cameras@[j].device) == device_view(devices@[k])
                    } by {
                        if j < self.cameras@.len() - 1 {
                            assert(self.cameras@[j] == cams_before[j]);
                        }
                    }
                    assert forall|j: int| 0 <= j < old_cams.len() implies #[trigger] self.cameras@[j] == old_cams[j] by {
                        assert(self.cameras@[j] == cams_before[j]);
                    }
                }
            } else {
                proof {
                    let fi = found->0 as int;
                    assert(entry_ids(self.spec_entries())[fi] == d.id.0@);
                }
            }
            i = i + 1;
        }
        proof {
            assert(devs.take(devices@.len() as int) =~= devs);
            let added = added_ids(old_ids, devs);
            assert forall|j: int| 0 <= j < added.len() implies
                #[trigger] self.spec_entries()[old_entries.len() + j] == (added[j], CameraState::Available) by {
                assert(entry_ids(self.spec_entries())[old_entries.len() + j] == added[j]);
                assert(self.cameras@[old_cams.len() + j].state.spec_state() == CameraState::Available);
            }
            assert forall|j: int| 0 <= j < old_entries.len() implies {
                &&& #[trigger] self.spec_entries()[j] == old_entries[j]
                &&& self.spec_device(j) == old(self).spec_device(j)
                &&& self.spec_format(j) == old(self).spec_format(j)
            } by {
                assert(self.cameras@[j] == old_cams[j]);
            }
            assert forall|j: int| old_entries.len() <= j < self.spec_entries().len() implies
                exists|k: int| 0 <= k < devices@.len() && #[trigger] self.spec_device(j) == device_view(devices@[k]) by {
                assert(old_cams.len() <= j < self.cameras@.len());
                let k = choose|k: int| 0 <= k < devices@.len() && device_view(self.cameras@[j].device) == device_view(devices@[k]);
                assert(self.spec_device(j) == device_view(devices@[k]));
            }
        }
    }
}

impl<E: CameraEnumerator> CaptureManager<E> {
    /// Marks the known cameras that are connected but not listed as
    /// removed, and reports each as disconnected.
    fn mark_unlisted(&mut self, devices: &Vec<CameraDevice>) -> (r: Vec<DeviceEvent>)
        requires
            old(self).wf(),
        ensures
            final(self).wf(),
            final(self).spec_entries().len() == old(self).spec_entries().len(),
            forall|j: int| 0 <= j < old(self).spec_entries().len() ==> {
                let e = old(self).spec_entries()[j];
                &&& #[trigger] final(self).spec_entries()[j] == (e.0, state_after_listing(e.0, e.1, ids_of(devices@)))
                &&& final(self).spec_device(j) == old(self).spec_device(j)
                &&& final(self).spec_format(j) == if !ids_of(devices@).contains(e.0) && !(e.1 is Disconnected) {
                    None
                } else {
                    old(self).spec_format(j)
                }
            },
            r@.len() == removed_ids(old(self).spec_entries(), ids_of(devices@)).len(),
            forall|k: int| 0 <= k < r@.len() ==> ((#[trigger] r@[k]) matches DeviceEvent::Disconnected(d)
                && d.0@ == removed_ids(old(self).spec_entries(), ids_of(devices@))[k]),
            final(self).spec_selected() == old(self).spec_selected(),
            final(self).spec_has_enumerator() == old(self).spec_has_enumerator(),
    {
        let ghost old_cams = self.cameras@;
        let ghost old_entries = self.spec_entries();
        let ghost devs = ids_of(devices@);
        let mut events: Vec<DeviceEvent> = Vec::new();
        let mut j: usize = 0;
        while j < self.cameras.len()
            invariant
                j <= self.cameras@.len(),
                self.wf(),
                self.cameras@.len() == old_cams.len(),
                old_entries == entries_of(old_cams),
                devs == ids_of(devices@),
                forall|i: int| j <= i < old_cams.len() ==> #[trigger] self.cameras@[i] == old_cams[i],
                forall|i: int| 0 <= i < j ==> {
                    let e = old_entries[i];
                    &&& (#[trigger] self.cameras@[i]).entry() == (e.0, state_after_listing(e.0, e.1, devs))
                    &&& device_view(self.cameras@[i].device) == device_view(old_cams[i].device)
                    &&& self.cameras@[i].device.id.0@ == old_cams[i].device.id.0@
                    &&& self.cameras@[i].state.spec_format() == if !devs.contains(e.0) && !(e.1 is Disconnected) {
                        None
                    } else {
                        old_cams[i].state.spec_format()
                    }
                },
                events@.len() == removed_ids(old_entries.take(j as int), devs).len(),
                forall|k: int| 0 <= k < events@.len() ==> ((#[trigger] events@[k]) matches DeviceEvent::Disconnected(d)
                    && d.0@ == removed_ids(old_entries.take(j as int), devs)[k]),
                self.selected == old(self).selected,
                self.enumerator == old(self).enumerator,
            decreases self.cameras.len() - j,
        {
            let ghost before = self.cameras@;
            assert(old_entries.take(j as int + 1).drop_last() =~= old_entries.take(j as int));
            assert(old_entries.take(j as int + 1).last() == old_entries[j as int]);
            assert(self.cameras@[j as int] == old_cams[j as int]);
            let is_listed = listed(devices, &self.cameras[j].device.id);
            let connected = self.cameras[j].state.state().is_connected();
            if !is_listed && connected {
                let id = self.cameras[j].device.id.clone();
                let cam = &mut self.cameras[j];
                let _ = cam.state.device_removed();
                events.push(DeviceEvent::Disconnected(id));
            }
            proof {
                assert forall|a: int, b: int| 0 <= a < b < self.cameras@.len() implies
                    (#[trigger] self.cameras@[a]).device.id.0@ != (#[trigger] self.cameras@[b]).device.id.0@ by {
                    assert(self.cameras@[a].device.id.0@ == before[a].device.id.0@);
                    assert(self.cameras@[b].device.id.0@ == before[b].device.id.0@);
                }
                assert forall|i: int| 0 <= i < self.cameras@.len() implies (#[trigger] self.cameras@[i]).wf() by {
                    assert(before[i].wf());
                }
                assert forall|i: int| 0 <= i < j + 1 implies {
                    let e = old_entries[i];
                    &&& (#[trigger] self.cameras@[i]).entry() == (e.0, state_after_listing(e.0, e.1, devs))
                    &&& device_view(self.cameras@[i].device) == device_view(old_cams[i].device)
                    &&& self.cameras@[i].device.id.0@ == old_cams[i].device.id.0@
                    &&& self.cameras@[i].state.spec_format() == if !devs.contains(e.0) && !(e.1 is Disconnected) {
                        None
                    } else {
                        old_cams[i].state.spec_format()
                    }
                } by {
                    if i < j {
                        assert(self.cameras@[i] == before[i]);
                    }
                }
            }
            j = j + 1;
        }
        proof {
            assert(old_entries.take(old_cams.len() as int) =~= old_entries);
            assert forall|i: int| 0 <= i < old_entries.len() implies {
                let e = old_entries[i];
                &&& #[trigger] self.spec_entries()[i] == (e.0, state_after_listing(e.0, e.1, devs))
                &&& self.spec_device(i) == old(self).spec_device(i)
                &&& self.spec_format(i) == if !devs.contains(e.0) && !(e.1 is Disconnected) {
                    None
                } else {
                    old(self).spec_format(i)
                }
            } by {
                assert(self.cameras@[i].entry() == self.spec_entries()[i]);
            }
        }
        events
    }
}

/// Every identifier that a listing adds is listed.
proof fn lemma_added_are_listed(known: Seq<Seq<char>>, devs: Seq<Seq<char>>)
    ensures
        forall|j: int| 0 <= j < added_ids(known, devs).len() ==> devs.contains(#[trigger] added_ids(known, devs)[j]),
    decreases devs.len(),
{
    if devs.len() > 0 {
        let d = devs.drop_last();
        lemma_added_are_listed(known, d);
        assert forall|j: int| 0 <= j < added_ids(known, devs).len() implies devs.contains(#[trigger] added_ids(known, devs)[j]) by {
            if j < added_ids(known, d).len() {
                assert(d.contains(added_ids(known, d)[j]));
                let t = choose|t: int| 0 <= t < d.len() && d[t] == added_ids(known, d)[j];
                assert(devs[t] == d[t]);
            } else {
                assert(devs[devs.len() - 1] == devs.last());
            }
        }
    }
}

/// The index of the camera with identifier `id` among `entries`, if any.
pub open spec fn has_entry(entries: Seq<(Seq<char>, CameraState)>, id: Seq<char>, i: int) -> bool {
    0 <= i < entries.len() && entries[i].0 == id
}

impl<E: CameraEnumerator> CaptureManager<E> {
    /// Takes in a listing of the connected devices: devices not known yet
    /// are added, in order and available; known cameras that are connected
    /// but not listed are marked removed, and a disconnection is reported
    /// for each.
    pub fn track_devices(&mut self, devices: &Vec<CameraDevice>) -> (r: Vec<DeviceEvent>)
        requires
            old(self).wf(),
        ensures
            final(self).wf(),
            ({
                let old_e = old(self).spec_entries();
                let devs = ids_of(devices@);
                let added = added_ids(entry_ids(old_e), devs);
                &&& final(self).spec_entries().len() == old_e.len() + added.len()
                &&& forall|j: int| 0 <= j < old_e.len() ==> {
                    &&& #[trigger] final(self).spec_entries()[j] == (old_e[j].0, state_after_listing(old_e[j].0, old_e[j].1, devs))
                    &&& final(self).spec_device(j) == old(self).spec_device(j)
                }
                &&& forall|j: int| 0 <= j < added.len() ==>
                    #[trigger] final(self).spec_entries()[old_e.len() + j] == (added[j], CameraState::Available)
                &&& forall|j: int| old_e.len() <= j < final(self).spec_entries().len() ==>
                    exists|k: int| 0 <= k < devices@.len() && #[trigger] final(self).spec_device(j) == device_view(devices@[k])
                &&& r@.len() == removed_ids(old_e, devs).len()
                &&& forall|k: int| 0 <= k < r@.len() ==> ((#[trigger] r@[k]) matches DeviceEvent::Disconnected(d)
                    && d.0@ == removed_ids(old_e, devs)[k])
            }),
            final(self).spec_selected() == old(self).spec_selected(),
            final(self).spec_has_enumerator() == old(self).spec_has_enumerator(),
    {
        let ghost old_e = self.spec_entries();
        let ghost devs = ids_of(devices@);
        let ghost added = added_ids(entry_ids(old_e), devs);
        self.add_new_cameras(devices);
        let ghost mid = self.spec_entries();
        let ghost mid_self = *self;
        let events = self.mark_unlisted(devices);
        proof {
            lemma_added_are_listed(entry_ids(old_e), devs);
            assert(mid =~= old_e + mid.subrange(old_e.len() as int, mid.len() as int));
            assert forall|j: int| 0 <= j < mid.subrange(old_e.len() as int, mid.len() as int).len() implies
                devs.contains(#[trigger] mid.subrange(old_e.len() as int, mid.len() as int)[j].0) by {
                assert(mid[old_e.len() + j] == (added[j], CameraState::Available));
                assert(devs.contains(added[j]));
            }
            lemma_removed_ids_listed_suffix(old_e, mid.subrange(old_e.len() as int, mid.len() as int), devs);
            assert forall|j: int| 0 <= j < added.len() implies
                #[trigger] self.spec_entries()[old_e.len() + j] == (added[j], CameraState::Available) by {
                assert(mid[old_e.len() + j] == (added[j], CameraState::Available));
                assert(devs.contains(added[j]));
            }
            assert forall|j: int| old_e.len() <= j < self.spec_entries().len() implies
                exists|k: int| 0 <= k < devices@.len() && #[trigger] self.spec_device(j) == device_view(devices@[k]) by {
                assert(self.spec_entries()[j] == self.spec_entries()[j]);
                assert(mid_self.spec_device(j) == self.spec_device(j));
                let k = choose|k: int| 0 <= k < devices@.len() && #[trigger] mid_self.spec_device(j) == device_view(devices@[k]);
            }
        }
        events
    }

    /// Lists the devices with the enumerator (after a refresh, whose
    /// failure is ignored; a failed listing counts as empty) and takes them
    /// in as `track_devices` does. Without an enumerator nothing is listed
    /// and nothing changes.
    pub fn enumerate_cameras(&mut self) -> (r: (Vec<CameraDevice>, Vec<DeviceEvent>))
        requires
            old(self).wf(),
        ensures
            final(self).wf(),
            !old(self).spec_has_enumerator() ==> r.0@.len() == 0 && r.1@.len() == 0
                && final(self).spec_entries() == old(self).spec_entries(),
            old(self).spec_has_enumerator() ==> ({
                let old_e = old(self).spec_entries();
                let devs = ids_of(r.0@);
                let added = added_ids(entry_ids(old_e), devs);
                &&& final(self).spec_entries().len() == old_e.len() + added.len()
                &&& forall|j: int| 0 <= j < old_e.len() ==>
                    #[trigger] final(self).spec_entries()[j] == (old_e[j].0, state_after_listing(old_e[j].0, old_e[j].1, devs))
                &&& forall|j: int| 0 <= j < added.len() ==>
                    #[trigger] final(self).spec_entries()[old_e.len() + j] == (added[j], CameraState::Available)
                &&& r.1@.len() == removed_ids(old_e, devs).len()
                &&& forall|k: int| 0 <= k < r.1@.len() ==> ((#[trigger] r.1@[k]) matches DeviceEvent::Disconnected(d)
                    && d.0@ == removed_ids(old_e, devs)[k])
            }),
            final(self).spec_selected() == old(self).spec_selected(),
            final(self).spec_has_enumerator() == old(self).spec_has_enumerator(),
    {
        let devices = match &mut self.enumerator {
            Some(e) => {
                let _ = e.refresh();
                match e.enumerate() {
                    Ok(d) => d,
                    Err(_) => Vec::new(),
                }
            },
            None => {
                return (Vec::new(), Vec::new());
            },
        };
        let events = self.track_devices(&devices);
        (devices, events)
    }

    /// The capabilities of a device, as the enumerator reports them.
    pub fn get_capabilities(&self, device_id: &DeviceId) -> (r: Result<Vec<CameraCapability>, CaptureError>)
        ensures
            !self.spec_has_enumerator() ==> (r matches Err(CaptureError::Platform(m)) && m@ == "No enumerator available"@),
    {
        match &self.enumerator {
            Some(e) => e.get_capabilities(device_id),
            None => Err(CaptureError::Platform(owned("No enumerator available"))),
        }
    }

    fn handle_at(&self, i: usize) -> (r: CameraHandle)
        requires
            i < self.spec_entries().len(),
        ensures
            r.spec_id().0@ == self.spec_entries()[i as int].0,
            device_view(r.spec_info()) == self.spec_device(i as int),
            r.spec_state() == self.spec_entries()[i as int].1,
            r.spec_format() == self.spec_format(i as int),
    {
        let cam = &self.cameras[i];
        CameraHandle {
            device_id: cam.device.id.clone(),
            device_info: cam.device.clone(),
            state: cam.state.state(),
            format: cam.state.format(),
        }
    }

    /// Selects a known camera and returns a handle on it; an unknown one is
    /// not found (and the selection stays).
    pub fn select_camera(&mut self, device_id: &DeviceId) -> (r: Result<CameraHandle, CaptureError>)
        requires
            old(self).wf(),
        ensures
            final(self).wf(),
            final(self).spec_entries() == old(self).spec_entries(),
            final(self).spec_has_enumerator() == old(self).spec_has_enumerator(),
            !entry_ids(old(self).spec_entries()).contains(device_id.0@) ==> {
                &&& r matches Err(CaptureError::DeviceNotFound(m)) && m@ == device_id.0@
                &&& final(self).spec_selected() == old(self).spec_selected()
            },
            entry_ids(old(self).spec_entries()).contains(device_id.0@) ==> {
                &&& final(self).spec_selected() == Some(device_id.0@)
                &&& r matches Ok(h) && h.spec_id().0@ == device_id.0@ && exists|i: int| {
                    &&& #[trigger] has_entry(old(self).spec_entries(), device_id.0@, i)
                    &&& h.spec_state() == old(self).spec_entries()[i].1
                    &&& device_view(h.spec_info()) == old(self).spec_device(i)
                    &&& h.spec_format() == old(self).spec_format(i)
                }
            },
    {
        match self.find_camera(device_id) {
            None => Err(CaptureError::DeviceNotFound(device_id.0.clone())),
            Some(i) => {
                let h = self.handle_at(i);
                self.selected = Some(device_id.clone());
                assert(has_entry(old(self).spec_entries(), device_id.0@, i as int));
                assert(entry_ids(old(self).spec_entries())[i as int] == device_id.0@);
                Ok(h)
            },
        }
    }

    /// A handle on the selected camera, with its current state.
    pub fn selected_camera(&self) -> (r: Option<CameraHandle>)
        requires
            self.wf(),
        ensures
            match self.spec_selected() {
                Some(id) => match r {
                    Some(h) => h.spec_id().0@ == id && exists|i: int| {
                        &&& #[trigger] has_entry(self.spec_entries(), id, i)
                        &&& h.spec_state() == self.spec_entries()[i].1
                        &&& h.spec_format() == self.spec_format(i)
                    },
                    None => !entry_ids(self.spec_entries()).contains(id),
                },
                None => r is None,
            },
    {
        match &self.selected {
            None => None,
            Some(id) => match self.find_camera(id) {
                None => None,
                Some(i) => {
                    assert(has_entry(self.spec_entries(), id.0@, i as int));
                    assert(entry_ids(self.spec_entries())[i as int] == id.0@);
                    Some(self.handle_at(i))
                },
            },
        }
    }

    /// The state of a known camera.
    pub fn camera_state(&self, device_id: &DeviceId) -> (r: Option<CameraState>)
        requires
            self.wf(),
        ensures
            !entry_ids(self.spec_entries()).contains(device_id.0@) ==> r is None,
            entry_ids(self.spec_entries()).contains(device_id.0@) ==> exists|i: int|
                #[trigger] has_entry(self.spec_entries(), device_id.0@, i) && r == Some(self.spec_entries()[i].1),
    {
        match self.find_camera(device_id) {
            None => None,
            Some(i) => {
                assert(has_entry(self.spec_entries(), device_id.0@, i as int));
                assert(entry_ids(self.spec_entries())[i as int] == device_id.0@);
                Some(self.cameras[i].state.state())
            },
        }
    }
}

/// Whether `i` is the index of the selected camera among the known ones.
pub open spec fn is_selected_at(entries: Seq<(Seq<char>, CameraState)>, selected: Option<Seq<char>>, i: int) -> bool {
    selected matches Some(id) && has_entry(entries, id, i)
}

/// Whether some known camera is selected.
pub open spec fn has_selection(entries: Seq<(Seq<char>, CameraState)>, selected: Option<Seq<char>>) -> bool {
    selected matches Some(id) && entry_ids(entries).contains(id)
}

impl<E: CameraEnumerator> CaptureManager<E> {
    proof fn lemma_selection(&self)
        requires
            self.wf(),
        ensures
            forall|a: int, b: int| #[trigger] is_selected_at(self.spec_entries(), self.spec_selected(), a)
                && #[trigger] is_selected_at(self.spec_entries(), self.spec_selected(), b) ==> a == b,
            forall|a: int| #[trigger] is_selected_at(self.spec_entries(), self.spec_selected(), a)
                ==> has_selection(self.spec_entries(), self.spec_selected()),
    {
        assert forall|a: int, b: int| #[trigger] is_selected_at(self.spec_entries(), self.spec_selected(), a)
            && #[trigger] is_selected_at(self.spec_entries(), self.spec_selected(), b) implies a == b by {
            if a < b {
                assert(self.cameras@[a].device.id.0@ != self.cameras@[b].device.id.0@);
                assert(self.spec_entries()[a] == self.cameras@[a].entry());
                assert(self.spec_entries()[b] == self.cameras@[b].entry());
            } else if b < a {
                assert(self.cameras@[b].device.id.0@ != self.cameras@[a].device.id.0@);
                assert(self.spec_entries()[a] == self.cameras@[a].entry());
                assert(self.spec_entries()[b] == self.cameras@[b].entry());
            }
        }
        assert forall|a: int| #[trigger] is_selected_at(self.spec_entries(), self.spec_selected(), a)
            implies has_selection(self.spec_entries(), self.spec_selected()) by {
            assert(entry_ids(self.spec_entries())[a] == self.spec_entries()[a].0);
        }
    }

    fn selected_index(&self) -> (r: Option<usize>)
        requires
            self.wf(),
        ensures
            match r {
                Some(i) => is_selected_at(self.spec_entries(), self.spec_selected(), i as int),
                None => !has_selection(self.spec_entries(), self.spec_selected()),
            },
    {
        match &self.selected {
            None => None,
            Some(id) => {
                let f = self.find_camera(id);
                match f {
                    Some(i) => {
                        assert(has_entry(self.spec_entries(), id.0@, i as int));
                        Some(i)
                    },
                    None => None,
                }
            },
        }
    }

    /// Whether capture can start: a known camera is selected and its state
    /// allows opening.
    pub fn check_start(&self) -> (r: Result<(), CaptureError>)
        requires
            self.wf(),
        ensures
            !has_selection(self.spec_entries(), self.spec_selected()) ==>
                (r matches Err(CaptureError::Platform(m)) && m@ == "No camera selected"@),
            forall|i: int| #[trigger] is_selected_at(self.spec_entries(), self.spec_selected(), i) ==> {
                &&& self.spec_entries()[i].1.can_open_spec() ==> r is Ok
                &&& !self.spec_entries()[i].1.can_open_spec() ==> (r matches Err(CaptureError::Platform(m))
                    && m@ == "Cannot start capture in state: "@ + state_display_text(self.spec_entries()[i].1))
            },
    {
        proof {
            self.lemma_selection();
        }
        match self.selected_index() {
            None => Err(CaptureError::Platform(owned("No camera selected"))),
            Some(i) => {
                let st = self.cameras[i].state.state();
                if !st.can_open() {
                    let text = st.to_display_string();
                    Err(CaptureError::Platform(owned("Cannot start capture in state: ").concat(text.as_str())))
                } else {
                    Ok(())
                }
            },
        }
    }

    /// Begins opening the selected camera and returns its identifier, for
    /// the caller to open it; refused as `check_start` refuses.
    pub fn begin_open(&mut self) -> (r: Result<DeviceId, CaptureError>)
        requires
            old(self).wf(),
        ensures
            final(self).wf(),
            final(self).spec_selected() == old(self).spec_selected(),
            final(self).spec_has_enumerator() == old(self).spec_has_enumerator(),
            final(self).spec_entries().len() == old(self).spec_entries().len(),
            !has_selection(old(self).spec_entries(), old(self).spec_selected()) ==> {
                &&& r matches Err(CaptureError::Platform(m)) && m@ == "No camera selected"@
                &&& final(self).spec_entries() == old(self).spec_entries()
            },
            forall|i: int| #[trigger] is_selected_at(old(self).spec_entries(), old(self).spec_selected(), i) ==> {
                &&& forall|j: int| 0 <= j < old(self).spec_entries().len() && j != i ==>
                    #[trigger] final(self).spec_entries()[j] == old(self).spec_entries()[j]
                &&& old(self).spec_entries()[i].1.can_open_spec() ==> {
                    &&& r matches Ok(d) && d.0@ == old(self).spec_entries()[i].0
                    &&& final(self).spec_entries()[i] == (old(self).spec_entries()[i].0, CameraState::Opening)
                }
                &&& !old(self).spec_entries()[i].1.can_open_spec() ==> {
                    &&& r matches Err(CaptureError::Platform(m)) && m@ == "Cannot open camera in state: "@
                        + state_display_text(old(self).spec_entries()[i].1)
                    &&& final(self).spec_entries()[i] == old(self).spec_entries()[i]
                }
            },
    {
        proof {
            self.lemma_selection();
        }
        let i = match self.selected_index() {
            None => {
                return Err(CaptureError::Platform(owned("No camera selected")));
            },
            Some(i) => i,
        };
        let ghost before = self.cameras@;
        let id = self.cameras[i].device.id.clone();
        let cam = &mut self.cameras[i];
        let r = cam.state.begin_open();
        proof {
            self.lemma_update_keeps_wf(before, i as int);
        }
        match r {
            Ok(()) => Ok(id),
            Err(e) => Err(e),
        }
    }

    proof fn lemma_update_keeps_wf(&self, before: Seq<ManagedCamera>, i: int)
        requires
            0 <= i < before.len(),
            self.cameras@.len() == before.len(),
            forall|j: int| 0 <= j < before.len() && j != i ==> self.cameras@[j] == before[j],
            self.cameras@[i].device == before[i].device,
            self.cameras@[i].wf(),
            forall|a: int, b: int| 0 <= a < b < before.len() ==> (#[trigger] before[a]).device.id.0@ != (#[trigger] before[b]).device.id.0@,
            forall|j: int| 0 <= j < before.len() ==> (#[trigger] before[j]).wf(),
        ensures
            self.wf(),
    {
        assert forall|a: int, b: int| 0 <= a < b < self.cameras@.len() implies
            (#[trigger] self.cameras@[a]).device.id.0@ != (#[trigger] self.cameras@[b]).device.id.0@ by {
            assert(self.cameras@[a].device == before[a].device);
            assert(self.cameras@[b].device == before[b].device);
        }
        assert forall|j: int| 0 <= j < self.cameras@.len() implies (#[trigger] self.cameras@[j]).wf() by {
            if j != i {
                assert(before[j].wf());
            }
        }
    }
}

impl<E: CameraEnumerator> CaptureManager<E> {
    /// Records how opening the selected camera went: on success it becomes
    /// ready with the format and starts capturing, and the format is
    /// returned; on failure it records the error, which is returned. The
    /// state machine decides for a camera that was not opening.
    pub fn finish_start(&mut self, outcome: Result<NegotiatedFormat, CaptureError>) -> (r: Result<NegotiatedFormat, CaptureError>)
        requires
            old(self).wf(),
        ensures
            final(self).wf(),
            final(self).spec_selected() == old(self).spec_selected(),
            final(self).spec_has_enumerator() == old(self).spec_has_enumerator(),
            final(self).spec_entries().len() == old(self).spec_entries().len(),
            !has_selection(old(self).spec_entries(), old(self).spec_selected()) ==> {
                &&& r matches Err(CaptureError::Platform(m)) && m@ == "No camera selected"@
                &&& final(self).spec_entries() == old(self).spec_entries()
            },
            forall|i: int| #[trigger] is_selected_at(old(self).spec_entries(), old(self).spec_selected(), i) ==> {
                &&& forall|j: int| 0 <= j < old(self).spec_entries().len() && j != i ==>
                    #[trigger] final(self).spec_entries()[j] == old(self).spec_entries()[j]
                &&& final(self).spec_entries()[i].0 == old(self).spec_entries()[i].0
                &&& old(self).spec_entries()[i].1 is Opening ==> match outcome {
                    Ok(f) => {
                        &&& r == Ok::<NegotiatedFormat, CaptureError>(f)
                        &&& final(self).spec_entries()[i].1 is Capturing
                        &&& final(self).spec_format(i) == Some(f)
                    },
                    Err(e) => {
                        &&& r == Err::<NegotiatedFormat, CaptureError>(e)
                        &&& final(self).spec_entries()[i].1 is Error
                    },
                }
                &&& !(old(self).spec_entries()[i].1 is Opening) ==> {
                    &&& outcome is Ok ==> (r is Ok <==> old(self).spec_entries()[i].1 is Capturing)
                    &&& outcome is Ok ==> final(self).spec_entries()[i].1 == old(self).spec_entries()[i].1
                    &&& outcome is Err ==> r is Err
                    &&& outcome is Err ==> (final(self).spec_entries()[i].1 is Error
                        || final(self).spec_entries()[i].1 == old(self).spec_entries()[i].1)
                }
            },
    {
        proof {
            self.lemma_selection();
        }
        let i = match self.selected_index() {
            None => {
                return Err(CaptureError::Platform(owned("No camera selected")));
            },
            Some(i) => i,
        };
        let ghost before = self.cameras@;
        let cam = &mut self.cameras[i];
        let r = match outcome {
            Ok(f) => {
                match cam.state.open_succeeded(f) {
                    Err(e) => Err(e),
                    Ok(()) => match cam.state.start_capture() {
                        Err(e) => Err(e),
                        Ok(()) => Ok(f),
                    },
                }
            },
            Err(e) => {
                match cam.state.open_failed(&e) {
                    Err(t) => Err(t),
                    Ok(()) => Err(e),
                }
            },
        };
        proof {
            self.lemma_update_keeps_wf(before, i as int);
        }
        r
    }

    /// Stops capture on the selected camera, if it is capturing (it becomes
    /// ready); otherwise nothing changes.
    pub fn stop_capture(&mut self) -> (r: Result<(), CaptureError>)
        requires
            old(self).wf(),
        ensures
            final(self).wf(),
            r is Ok,
            final(self).spec_selected() == old(self).spec_selected(),
            final(self).spec_has_enumerator() == old(self).spec_has_enumerator(),
            final(self).spec_entries().len() == old(self).spec_entries().len(),
            !has_selection(old(self).spec_entries(), old(self).spec_selected()) ==>
                final(self).spec_entries() == old(self).spec_entries(),
            forall|i: int| #[trigger] is_selected_at(old(self).spec_entries(), old(self).spec_selected(), i) ==> {
                &&& forall|j: int| 0 <= j < old(self).spec_entries().len() && j != i ==>
                    #[trigger] final(self).spec_entries()[j] == old(self).spec_entries()[j]
                &&& final(self).spec_entries()[i] == if old(self).spec_entries()[i].1 is Capturing {
                    (old(self).spec_entries()[i].0, CameraState::Ready)
                } else {
                    old(self).spec_entries()[i]
                }
            },
    {
        proof {
            self.lemma_selection();
        }
        let i = match self.selected_index() {
            None => {
                return Ok(());
            },
            Some(i) => i,
        };
        if !self.cameras[i].state.state().is_capturing() {
            return Ok(());
        }
        let ghost before = self.cameras@;
        let cam = &mut self.cameras[i];
        let _ = cam.state.stop_capture();
        proof {
            self.lemma_update_keeps_wf(before, i as int);
        }
        Ok(())
    }

    /// Stops capture on the selected camera and selects none.
    pub fn deselect_camera(&mut self)
        requires
            old(self).wf(),
        ensures
            final(self).wf(),
            final(self).spec_selected() is None,
            final(self).spec_entries().len() == old(self).spec_entries().len(),
            final(self).spec_has_enumerator() == old(self).spec_has_enumerator(),
    {
        let _ = self.stop_capture();
        self.selected = None;
    }

    /// The format negotiated for the selected camera.
    pub fn current_format(&self) -> (r: Option<NegotiatedFormat>)
        requires
            self.wf(),
        ensures
            !has_selection(self.spec_entries(), self.spec_selected()) ==> r is None,
            forall|i: int| #[trigger] is_selected_at(self.spec_entries(), self.spec_selected(), i) ==> r == self.spec_format(i),
    {
        proof {
            self.lemma_selection();
        }
        match self.selected_index() {
            None => None,
            Some(i) => self.cameras[i].state.format(),
        }
    }
}

/// Every listed identifier is known after the listing.
proof fn lemma_listed_are_known(known: Seq<Seq<char>>, devs: Seq<Seq<char>>)
    ensures
        forall|i: int| 0 <= i < devs.len() ==> (known + added_ids(known, devs)).contains(#[trigger] devs[i]),
    decreases devs.len(),
{
    if devs.len() > 0 {
        let d = devs.drop_last();
        lemma_listed_are_known(known, d);
        let a = added_ids(known, d);
        let a2 = added_ids(known, devs);
        assert forall|i: int| 0 <= i < devs.len() implies (known + a2).contains(#[trigger] devs[i]) by {
            if i < d.len() {
                assert(devs[i] == d[i]);
                assert((known + a).contains(d[i]));
                let t = choose|t: int| 0 <= t < (known + a).len() && (known + a)[t] == d[i];
                assert((known + a2)[t] == (known + a)[t]);
            } else {
                if (known + a).contains(devs.last()) {
                    let t = choose|t: int| 0 <= t < (known + a).len() && (known + a)[t] == devs.last();
                    assert((known + a2)[t] == (known + a)[t]);
                } else {
                    assert((known + a2)[(known + a2).len() - 1] == devs.last());
                }
            }
        }
    }
}

/// A listing whose identifiers are all known adds nothing.
proof fn lemma_nothing_added(known: Seq<Seq<char>>, devs: Seq<Seq<char>>)
    requires
        forall|i: int| 0 <= i < devs.len() ==> known.contains(#[trigger] devs[i]),
    ensures
        added_ids(known, devs) == Seq::<Seq<char>>::empty(),
    decreases devs.len(),
{
    if devs.len() > 0 {
        let d = devs.drop_last();
        assert forall|i: int| 0 <= i < d.len() implies known.contains(#[trigger] d[i]) by {
            assert(d[i] == devs[i]);
        }
        lemma_nothing_added(known, d);
        assert(known + Seq::<Seq<char>>::empty() =~= known);
        assert(known.contains(devs[devs.len() - 1]));
    }
}

/// Listing the same devices twice is listing them once: the second listing
/// adds no camera and changes no camera's state.
pub proof fn lemma_listing_twice(known: Seq<Seq<char>>, devs: Seq<Seq<char>>, id: Seq<char>, s: CameraState)
    ensures
        added_ids(known + added_ids(known, devs), devs) == Seq::<Seq<char>>::empty(),
        state_after_listing(id, state_after_listing(id, s, devs), devs) == state_after_listing(id, s, devs),
{
    lemma_listed_are_known(known, devs);
    lemma_nothing_added(known + added_ids(known, devs), devs);
}

} // verus!
