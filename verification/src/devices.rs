//! The capture devices and who holds them.
//!
//! A device belongs to one session at a time. The ledger keeps the devices
//! that are held: a session takes all of its devices or none, and gives all
//! of them back when it ends, so that the next session can take them.

use crate::config::{CaptureTarget, OptionalFeeds, RecordingBaseInputs};
use vstd::prelude::*;

verus! {

/// Something that can be captured from by one session at a time.
#[derive(Clone, Copy, Debug, PartialEq, Eq, Structural)]
pub enum Device {
    Screen { id: u32 },
    Window { id: u32 },
    SystemAudio,
    Microphone { device: u32 },
    Camera { device: u32 },
}

/// The devices that are held by running sessions.
pub struct DeviceLedger {
    held: Vec<Device>,
}

/// The device that a capture target is filmed from.
pub open spec fn target_device(target: CaptureTarget) -> Device {
    match target {
        CaptureTarget::Screen { id } => Device::Screen { id },
        CaptureTarget::Window { id } => Device::Window { id },
    }
}

/// The devices a session captures from, in the order of its sources: the
/// device of the target, then system audio, the microphone and the camera,
/// each only if it was asked for.
pub open spec fn devices_of(inputs: RecordingBaseInputs, feeds: OptionalFeeds) -> Seq<Device> {
    let system = if inputs.capture_system_audio {
        seq![Device::SystemAudio]
    } else {
        Seq::<Device>::empty()
    };
    let mic = match inputs.mic_feed {
        Some(feed) => seq![(Device::Microphone { device: feed.device })],
        None => Seq::<Device>::empty(),
    };
    let camera = match feeds.camera_feed {
        Some(feed) => seq![(Device::Camera { device: feed.device })],
        None => Seq::<Device>::empty(),
    };
    seq![target_device(inputs.capture_target)] + system + mic + camera
}

/// The first of `devices` that is in `held`, if one is.
pub open spec fn first_busy(held: Set<Device>, devices: Seq<Device>) -> Option<Device>
    decreases devices.len(),
{
    if devices.len() == 0 {
        None
    } else if held.contains(devices[0]) {
        Some(devices[0])
    } else {
        first_busy(held, devices.drop_first())
    }
}

/// If no device of `devices` is busy, none of them is held.
pub proof fn lemma_none_busy(held: Set<Device>, devices: Seq<Device>)
    requires
        first_busy(held, devices) is None,
    ensures
        forall|d: Device| devices.contains(d) ==> !held.contains(d),
    decreases devices.len(),
{
    if devices.len() > 0 {
        let rest = devices.drop_first();
        lemma_none_busy(held, rest);
        assert forall|d: Device| devices.contains(d) implies !held.contains(d) by {
            let j = choose|j: int| 0 <= j < devices.len() && devices[j] == d;
            if j > 0 {
                assert(rest[j - 1] == d);
                assert(rest.contains(d));
            }
        }
    }
}

/// The devices a session with these inputs captures from, in source order.
pub fn capture_devices(inputs: &RecordingBaseInputs, feeds: &OptionalFeeds) -> (devices: Vec<Device>)
    ensures
        devices@ == devices_of(*inputs, *feeds),
{
    let mut devices: Vec<Device> = Vec::new();
    match inputs.capture_target {
        CaptureTarget::Screen { id } => devices.push(Device::Screen { id }),
        CaptureTarget::Window { id } => devices.push(Device::Window { id }),
    }
    if inputs.capture_system_audio {
        devices.push(Device::SystemAudio);
    }
    match inputs.mic_feed {
        Some(feed) => devices.push(Device::Microphone { device: feed.device }),
        None => {},
    }
    match feeds.camera_feed {
        Some(feed) => devices.push(Device::Camera { device: feed.device }),
        None => {},
    }
    assert(devices@ =~= devices_of(*inputs, *feeds));
    devices
}

/// Whether `device` is one of `devices`.
fn listed(devices: &Vec<Device>, device: Device) -> (b: bool)
    ensures
        b == devices@.contains(device),
{
    let mut i: usize = 0;
    while i < devices.len()
        invariant
            i <= devices.len(),
            forall|j: int| 0 <= j < i ==> devices@[j] != device,
        decreases devices.len() - i,
    {
        if devices[i] == device {
            return true;
        }
        i += 1;
    }
    false
}

/// No device of `devices` up to `n` is in `held`, so none of them is the
/// first busy one.
proof fn lemma_first_busy(held: Set<Device>, devices: Seq<Device>, n: int)
    requires
        0 <= n <= devices.len(),
        forall|j: int| 0 <= j < n ==> !held.contains(#[trigger] devices[j]),
    ensures
        first_busy(held, devices) == first_busy(held, devices.subrange(n, devices.len() as int)),
    decreases n,
{
    if n > 0 {
        assert(!held.contains(devices[0]));
        let rest = devices.drop_first();
        assert forall|j: int| 0 <= j < n - 1 implies !held.contains(#[trigger] rest[j]) by {
            assert(rest[j] == devices[j + 1]);
        }
        lemma_first_busy(held, rest, n - 1);
        assert(rest.subrange(n - 1, rest.len() as int) =~= devices.subrange(
            n,
            devices.len() as int,
        ));
    } else {
        assert(devices.subrange(0, devices.len() as int) =~= devices);
    }
}

impl View for DeviceLedger {
    type V = Set<Device>;

    closed spec fn view(&self) -> Set<Device> {
        self.held@.to_set()
    }
}

impl DeviceLedger {
    /// A ledger in which every device is free.
    pub fn new() -> (ledger: DeviceLedger)
        ensures
            ledger@ == Set::<Device>::empty(),
    {
        let ledger = DeviceLedger { held: Vec::new() };
        assert(ledger@ =~= Set::<Device>::empty());
        ledger
    }

    /// Whether a session holds `device`.
    pub fn holds(&self, device: Device) -> (b: bool)
        ensures
            b == self@.contains(device),
    {
        listed(&self.held, device)
    }

    /// Takes all of `devices` for one session, or none of them: if one is
    /// held already, the first such device comes back and the ledger stays as
    /// it was.
    pub fn acquire(&mut self, devices: &Vec<Device>) -> (out: Result<(), Device>)
        ensures
            match out {
                Ok(_) => first_busy(old(self)@, devices@) is None && final(self)@ == old(
                    self,
                )@.union(devices@.to_set()),
                Err(device) => first_busy(old(self)@, devices@) == Some(device) && final(self)@
                    == old(self)@,
            },
    {
        let mut i: usize = 0;
        while i < devices.len()
            invariant
                i <= devices.len(),
                self@ == old(self)@,
                forall|j: int| 0 <= j < i ==> !self@.contains(#[trigger] devices@[j]),
            decreases devices.len() - i,
        {
            let device = devices[i];
            if self.holds(device) {
                proof {
                    lemma_first_busy(self@, devices@, i as int);
                }
                return Err(device);
            }
            i += 1;
        }
        proof {
            lemma_first_busy(self@, devices@, devices@.len() as int);
        }
        let mut k: usize = 0;
        while k < devices.len()
            invariant
                k <= devices.len(),
                self.held@ == old(self).held@ + devices@.take(k as int),
            decreases devices.len() - k,
        {
            self.held.push(devices[k]);
            assert(devices@.take(k + 1) =~= devices@.take(k as int).push(devices@[k as int]));
            k += 1;
        }
        assert(devices@.take(devices@.len() as int) =~= devices@);
        assert(self@ =~= old(self)@.union(devices@.to_set())) by {
            assert forall|d: Device| self@.contains(d) == old(self)@.union(
                devices@.to_set(),
            ).contains(d) by {
                let all = old(self).held@ + devices@;
                if old(self).held@.contains(d) {
                    let j = choose|j: int| 0 <= j < old(self).held@.len() && old(self).held@[j] == d;
                    assert(all[j] == d);
                }
                if devices@.contains(d) {
                    let j = choose|j: int| 0 <= j < devices@.len() && devices@[j] == d;
                    assert(all[old(self).held@.len() + j] == d);
                }
            }
        }
        Ok(())
    }

    /// Gives all of `devices` back. A device that was not held stays free.
    pub fn release(&mut self, devices: &Vec<Device>)
        ensures
            final(self)@ == old(self)@.difference(devices@.to_set()),
    {
        let mut kept: Vec<Device> = Vec::new();
        let mut i: usize = 0;
        while i < self.held.len()
            invariant
                i <= self.held.len(),
                self.held@ == old(self).held@,
                forall|d: Device|
                    kept@.contains(d) <==> self.held@.take(i as int).contains(d)
                        && !devices@.contains(d),
            decreases self.held.len() - i,
        {
            let device = self.held[i];
            let ghost before = kept@;
            let ghost seen = self.held@.take(i as int);
            let ghost next = self.held@.take(i + 1);
            assert(next =~= seen.push(device));
            let gone = listed(devices, device);
            if !gone {
                kept.push(device);
            }
            assert forall|d: Device|
                kept@.contains(d) <==> next.contains(d) && !devices@.contains(d) by {
                if kept@.contains(d) {
                    let j = choose|j: int| 0 <= j < kept@.len() && kept@[j] == d;
                    if j < before.len() {
                        assert(before[j] == d);
                        assert(before.contains(d));
                        let s = choose|s: int| 0 <= s < seen.len() && seen[s] == d;
                        assert(next[s] == d);
                    } else {
                        assert(next[i as int] == d);
                    }
                }
                if next.contains(d) && !devices@.contains(d) {
                    let s = choose|s: int| 0 <= s < next.len() && next[s] == d;
                    if s < i {
                        assert(seen[s] == d);
                        assert(seen.contains(d));
                        let j = choose|j: int| 0 <= j < before.len() && before[j] == d;
                        assert(kept@[j] == d);
                    } else {
                        assert(kept@[before.len() as int] == d);
                    }
                }
            }
            i += 1;
        }
        assert(self.held@.take(self.held@.len() as int) =~= self.held@);
        self.held = kept;
        assert(self@ =~= old(self)@.difference(devices@.to_set()));
    }
}

/// What a session gives back it can take again: once its devices are
/// released, none of them is busy.
pub proof fn law_released_devices_are_free(held: Set<Device>, devices: Seq<Device>)
    ensures
        first_busy(held.difference(devices.to_set()), devices) is None,
    decreases devices.len(),
{
    let free = held.difference(devices.to_set());
    assert forall|j: int| 0 <= j < devices.len() implies !free.contains(#[trigger] devices[j]) by {
        assert(devices.contains(devices[j]));
    }
    lemma_first_busy(free, devices, devices.len() as int);
    assert(devices.subrange(devices.len() as int, devices.len() as int) =~= Seq::<Device>::empty());
}

/// Devices that were taken are held until they are given back: taking the
/// same devices again is refused with the first of them.
pub proof fn law_held_devices_are_busy(held: Set<Device>, devices: Seq<Device>)
    requires
        devices.len() > 0,
    ensures
        first_busy(held.union(devices.to_set()), devices) == Some(devices[0]),
{
    assert(devices.contains(devices[0]));
}

} // verus!
