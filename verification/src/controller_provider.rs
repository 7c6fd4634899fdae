//! Controller provider: the set of currently attached input devices plus
//! the disconnect debounce map.
//!
//! A device is identified by its stable filesystem path. A path that
//! disconnected less than [`DISCONNECT_DEBOUNCE_MS`] ago must not be
//! re-instantiated even if the backend re-announces it — that guards against
//! enumeration races spawning a duplicate logical device. The event fan-in
//! itself (waiting on every device at once) is the backend's work; this
//! model decides which devices exist and when a path may come back.

use vstd::prelude::*;

verus! {

/// Milliseconds a disconnected path stays barred from re-creation.
pub const DISCONNECT_DEBOUNCE_MS: u64 = 1000;

/// One attached gamepad: its path (the identity key) and display name.
#[derive(Debug, Clone)]
pub struct InputDevice {
    pub path: String,
    pub name: String,
}

/// One debounce record: a device path and when it disconnected.
#[derive(Debug, Clone)]
pub struct DisconnectDebounceEntry {
    pub path: String,
    pub disconnected_at_ms: u64,
}

/// First position of `path` among the tracked devices, or `-1`.
pub open spec fn find_device_index(devices: Seq<InputDevice>, path: Seq<char>) -> int
    decreases devices.len(),
{
    if devices.len() == 0 {
        -1
    } else if devices[0].path@ == path {
        0
    } else {
        let tail = find_device_index(devices.drop_first(), path);
        if tail == -1 {
            -1
        } else {
            tail + 1
        }
    }
}

/// The timestamp recorded for `path` in the debounce map — the most recent
/// record wins.
pub open spec fn debounce_at(entries: Seq<DisconnectDebounceEntry>, path: Seq<char>) -> Option<u64>
    decreases entries.len(),
{
    if entries.len() == 0 {
        None
    } else if entries.last().path@ == path {
        Some(entries.last().disconnected_at_ms)
    } else {
        debounce_at(entries.drop_last(), path)
    }
}

/// Tracks the live devices and the disconnect debounce map.
#[derive(Debug)]
pub struct ControllerProvider {
    /// The currently attached devices.
    pub controllers: Vec<InputDevice>,
    /// Paths recently disconnected, with their disconnect timestamps.
    pub debounce: Vec<DisconnectDebounceEntry>,
}

impl ControllerProvider {
    /// Tracked device paths are unique, so a path names one device.
    pub open spec fn wf(self) -> bool {
        forall|i: int, j: int|
            0 <= i < j < self.controllers@.len()
                ==> (#[trigger] self.controllers@[i].path@) != (#[trigger] self.controllers@[j].path@)
    }

    /// Whether a device with this path is currently tracked.
    pub open spec fn tracks(self, path: Seq<char>) -> bool {
        find_device_index(self.controllers@, path) != -1
    }

    /// Whether the debounce map bars this path at time `now_ms`: it holds a
    /// record younger than the window.
    pub open spec fn debounce_blocks(self, path: Seq<char>, now_ms: u64) -> bool {
        match debounce_at(self.debounce@, path) {
            Some(at) => now_ms < at + DISCONNECT_DEBOUNCE_MS,
            None => false,
        }
    }

    /// A path may become a new device iff it is neither tracked nor barred
    /// by the debounce map.
    pub open spec fn can_create(self, path: Seq<char>, now_ms: u64) -> bool {
        !self.tracks(path) && !self.debounce_blocks(path, now_ms)
    }

    /// A provider tracking nothing, with an empty debounce map.
    pub fn new() -> (r: ControllerProvider)
        ensures
            r.wf(),
            r.controllers@.len() == 0,
            r.debounce@.len() == 0,
    {
        ControllerProvider { controllers: Vec::new(), debounce: Vec::new() }
    }

    /// Position of the tracked device with this path, if any.
    fn find_index(&self, controller_id: &String) -> (r: Option<usize>)
        ensures
            r matches Some(i) ==> i as int == find_device_index(self.controllers@, controller_id@),
            r is None <==> !self.tracks(controller_id@),
    {
        proof {
            assert(self.controllers@.skip(0) =~= self.controllers@);
        }
        let mut i: usize = 0;
        while i < self.controllers.len()
            invariant
                i <= self.controllers@.len(),
                find_device_index(self.controllers@, controller_id@) == if find_device_index(
                    self.controllers@.skip(i as int),
                    controller_id@,
                ) == -1 {
                    -1int
                } else {
                    i + find_device_index(self.controllers@.skip(i as int), controller_id@)
                },
            decreases self.controllers@.len() - i,
        {
            proof {
                assert(self.controllers@.skip(i as int)[0] == self.controllers@[i as int]);
                assert(self.controllers@.skip(i as int).drop_first()
                    =~= self.controllers@.skip(i + 1));
            }
            if self.controllers[i].path == *controller_id {
                return Some(i);
            }
            proof {
                let rest = self.controllers@.skip(i as int);
                let shifted = self.controllers@.skip(i + 1);
                lemma_find_device_index_properties(shifted, controller_id@);
                assert(rest[0].path@ != controller_id@);
                assert(find_device_index(rest, controller_id@) == if find_device_index(
                    shifted,
                    controller_id@,
                ) == -1 {
                    -1int
                } else {
                    find_device_index(shifted, controller_id@) + 1
                });
            }
            i = i + 1;
        }
        proof {
            assert(self.controllers@.skip(self.controllers@.len() as int)
                =~= Seq::<InputDevice>::empty());
        }
        None
    }

    /// Whether a device with this path is currently tracked.
    pub fn contains_controller(&self, controller_id: &String) -> (r: bool)
        ensures
            r == self.tracks(controller_id@),
    {
        self.find_index(controller_id).is_some()
    }

    /// Display name of the tracked device with this path, if any.
    pub fn controller_name(&self, controller_id: &String) -> (r: Option<&String>)
        ensures
            r is Some <==> self.tracks(controller_id@),
            r matches Some(name) ==> exists|i: int|
                0 <= i < self.controllers@.len()
                    && (#[trigger] self.controllers@[i]).path@ == controller_id@
                    && self.controllers@[i].name@ == name@,
    {
        match self.find_index(controller_id) {
            Some(i) => {
                proof {
                    lemma_find_device_index_properties(self.controllers@, controller_id@);
                }
                Some(&self.controllers[i].name)
            }
            None => None,
        }
    }

    /// Create a device for a freshly announced path, unless the path is
    /// already tracked or disconnected less than the debounce window ago —
    /// then nothing happens. Returns the new device's position.
    pub fn try_create_new_controller(&mut self, path: String, name: String, now_ms: u64)
        -> (r: Option<usize>)
        requires
            old(self).wf(),
        ensures
            final(self).wf(),
            r is Some <==> old(self).can_create(path@, now_ms),
            final(self).debounce@ == old(self).debounce@,
            r matches Some(i) ==> i as int == old(self).controllers@.len()
                && final(self).controllers@ == old(self).controllers@.push(
                    InputDevice { path, name },
                ),
            r is None ==> final(self).controllers@ == old(self).controllers@,
    {
        if self.find_index(&path).is_some() {
            return None;
        }
        if self.is_debounced(&path, now_ms) {
            return None;
        }
        proof {
            lemma_find_device_index_properties(self.controllers@, path@);
        }
        let i = self.controllers.len();
        self.controllers.push(InputDevice { path, name });
        proof {
            lemma_push_unique_path_keeps_wf(old(self).controllers@, self.controllers@);
        }
        Some(i)
    }

    /// Whether the debounce map bars this path at time `now_ms`.
    pub fn is_debounced(&self, path: &String, now_ms: u64) -> (r: bool)
        ensures
            r == self.debounce_blocks(path@, now_ms),
    {
        proof {
            assert(self.debounce@.take(self.debounce@.len() as int) =~= self.debounce@);
        }
        let mut i: usize = self.debounce.len();
        while i > 0
            invariant
                i <= self.debounce@.len(),
                debounce_at(self.debounce@, path@) == debounce_at(
                    self.debounce@.take(i as int),
                    path@,
                ),
            decreases i,
        {
            i = i - 1;
            proof {
                assert(self.debounce@.take(i + 1).last() == self.debounce@[i as int]);
                assert(self.debounce@.take(i + 1).drop_last() =~= self.debounce@.take(i as int));
            }
            if self.debounce[i].path == *path {
                let at = self.debounce[i].disconnected_at_ms;
                return if now_ms < at {
                    true
                } else {
                    now_ms - at < DISCONNECT_DEBOUNCE_MS
                };
            }
        }
        false
    }

    /// Handle a device's disconnect event: the device leaves the tracked
    /// set and its path is recorded in the debounce map at `now_ms`. A path
    /// that is not tracked changes nothing.
    pub fn disconnect_controller(&mut self, controller_id: &String, now_ms: u64) -> (r: bool)
        requires
            old(self).wf(),
        ensures
            final(self).wf(),
            r == old(self).tracks(controller_id@),
            !final(self).tracks(controller_id@),
            forall|q: Seq<char>| q != controller_id@
                ==> final(self).tracks(q) == old(self).tracks(q),
            r ==> final(self).controllers@ == old(self).controllers@.remove(
                find_device_index(old(self).controllers@, controller_id@),
            ),
            r ==> final(self).debounce@.len() == old(self).debounce@.len() + 1
                && final(self).debounce@.last().path@ == controller_id@
                && final(self).debounce@.last().disconnected_at_ms == now_ms
                && (forall|i: int| 0 <= i < old(self).debounce@.len()
                    ==> (#[trigger] final(self).debounce@[i]) == old(self).debounce@[i]),
            r ==> debounce_at(final(self).debounce@, controller_id@) == Some(now_ms),
            !r ==> final(self).controllers@ == old(self).controllers@
                && final(self).debounce@ == old(self).debounce@,
    {
        match self.find_index(controller_id) {
            Some(i) => {
                proof {
                    lemma_find_device_index_properties(self.controllers@, controller_id@);
                }
                self.controllers.remove(i);
                let entry = DisconnectDebounceEntry {
                    path: controller_id.clone(),
                    disconnected_at_ms: now_ms,
                };
                self.debounce.push(entry);
                proof {
                    lemma_remove_path_untracks(old(self).controllers@, controller_id@);
                    lemma_remove_keeps_others(old(self).controllers@, controller_id@);
                    lemma_remove_keeps_wf(old(self).controllers@,
                        find_device_index(old(self).controllers@, controller_id@));
                }
                true
            }
            None => false,
        }
    }
}

/// If a path occurs among the devices, `find_device_index` points at it; if
/// not, it is `-1`.
pub proof fn lemma_find_device_index_properties(devices: Seq<InputDevice>, path: Seq<char>)
    ensures
        find_device_index(devices, path) == -1 ==> forall|i: int|
            0 <= i < devices.len() ==> (#[trigger] devices[i].path@) != path,
        find_device_index(devices, path) != -1 ==> {
            let k = find_device_index(devices, path);
            &&& 0 <= k < devices.len()
            &&& devices[k].path@ == path
            &&& forall|i: int| 0 <= i < k ==> (#[trigger] devices[i].path@) != path
        },
    decreases devices.len(),
{
    if devices.len() > 0 && devices[0].path@ != path {
        lemma_find_device_index_properties(devices.drop_first(), path);
        assert forall|i: int| 1 <= i < devices.len() implies devices[i].path@
            == devices.drop_first()[i - 1].path@ by {
            assert(devices.drop_first()[i - 1] == devices[i]);
        }
    }
}

proof fn lemma_push_unique_path_keeps_wf(devices: Seq<InputDevice>, pushed: Seq<InputDevice>)
    requires
        pushed.len() == devices.len() + 1,
        forall|i: int| 0 <= i < devices.len() ==> (#[trigger] pushed[i]) == devices[i],
        forall|i: int, j: int|
            0 <= i < j < devices.len()
                ==> (#[trigger] devices[i].path@) != (#[trigger] devices[j].path@),
        forall|i: int| 0 <= i < devices.len()
            ==> (#[trigger] devices[i].path@) != pushed[devices.len() as int].path@,
    ensures
        forall|i: int, j: int|
            0 <= i < j < pushed.len()
                ==> (#[trigger] pushed[i].path@) != (#[trigger] pushed[j].path@),
{
}

/// Removing the device found for a path leaves the path untracked, given
/// unique paths.
proof fn lemma_remove_path_untracks(devices: Seq<InputDevice>, path: Seq<char>)
    requires
        find_device_index(devices, path) != -1,
        forall|i: int, j: int|
            0 <= i < j < devices.len()
                ==> (#[trigger] devices[i].path@) != (#[trigger] devices[j].path@),
    ensures
        find_device_index(devices.remove(find_device_index(devices, path)), path) == -1,
{
    lemma_find_device_index_properties(devices, path);
    let k = find_device_index(devices, path);
    let shrunk = devices.remove(k);
    assert forall|i: int| 0 <= i < shrunk.len() implies (#[trigger] shrunk[i].path@) != path by {
        if i < k {
            assert(shrunk[i] == devices[i]);
        } else {
            assert(shrunk[i] == devices[i + 1]);
        }
    }
    lemma_no_match_means_not_found(shrunk, path);
}

/// A sequence without the path has `find_device_index == -1`.
proof fn lemma_no_match_means_not_found(devices: Seq<InputDevice>, path: Seq<char>)
    requires
        forall|i: int| 0 <= i < devices.len() ==> (#[trigger] devices[i].path@) != path,
    ensures
        find_device_index(devices, path) == -1,
    decreases devices.len(),
{
    if devices.len() > 0 {
        assert(devices[0].path@ != path);
        assert forall|i: int| 0 <= i < devices.drop_first().len()
            implies (#[trigger] devices.drop_first()[i].path@) != path by {
            assert(devices.drop_first()[i] == devices[i + 1]);
        }
        lemma_no_match_means_not_found(devices.drop_first(), path);
    }
}

/// A path present somewhere stays found after removing a different index's
/// device; a path absent stays absent.
proof fn lemma_remove_keeps_others(devices: Seq<InputDevice>, path: Seq<char>)
    requires
        find_device_index(devices, path) != -1,
    ensures
        forall|q: Seq<char>| q != path ==> (
            find_device_index(devices.remove(find_device_index(devices, path)), q) != -1
                <==> find_device_index(devices, q) != -1
        ),
{
    lemma_find_device_index_properties(devices, path);
    let k = find_device_index(devices, path);
    let shrunk = devices.remove(k);
    assert forall|q: Seq<char>| q != path implies (
        find_device_index(shrunk, q) != -1 <==> find_device_index(devices, q) != -1
    ) by {
        lemma_find_device_index_properties(devices, q);
        lemma_find_device_index_properties(shrunk, q);
        if find_device_index(devices, q) != -1 {
            let m = find_device_index(devices, q);
            if find_device_index(shrunk, q) == -1 {
                if m < k {
                    assert(shrunk[m] == devices[m]);
                } else {
                    assert(m != k);
                    assert(shrunk[m - 1] == devices[m]);
                }
            }
        } else {
            if find_device_index(shrunk, q) != -1 {
                let m = find_device_index(shrunk, q);
                if m < k {
                    assert(shrunk[m] == devices[m]);
                } else {
                    assert(shrunk[m] == devices[m + 1]);
                }
            }
        }
    }
}

/// Removing any device keeps the remaining paths unique.
proof fn lemma_remove_keeps_wf(devices: Seq<InputDevice>, k: int)
    requires
        0 <= k < devices.len(),
        forall|i: int, j: int|
            0 <= i < j < devices.len()
                ==> (#[trigger] devices[i].path@) != (#[trigger] devices[j].path@),
    ensures
        forall|i: int, j: int|
            0 <= i < j < devices.remove(k).len()
                ==> (#[trigger] devices.remove(k)[i].path@) != (#[trigger] devices.remove(k)[j].path@),
{
    let shrunk = devices.remove(k);
    assert forall|i: int, j: int| 0 <= i < j < shrunk.len()
        implies (#[trigger] shrunk[i].path@) != (#[trigger] shrunk[j].path@) by {
        let i0 = if i < k { i } else { i + 1 };
        let j0 = if j < k { j } else { j + 1 };
        assert(shrunk[i] == devices[i0]);
        assert(shrunk[j] == devices[j0]);
    }
}

/// Debounce window law: a path whose disconnect was recorded at `t_disc` is
/// barred from re-creation at any time strictly before `t_disc + 1000` ms,
/// and — once no device holds the path — creatable from `t_disc + 1000` ms
/// on.
pub proof fn lemma_debounce_governs_creation(
    p: ControllerProvider,
    path: Seq<char>,
    t_disc: u64,
    now_ms: u64,
)
    requires
        debounce_at(p.debounce@, path) == Some(t_disc),
        !p.tracks(path),
    ensures
        now_ms < t_disc + DISCONNECT_DEBOUNCE_MS ==> !p.can_create(path, now_ms),
        now_ms >= t_disc + DISCONNECT_DEBOUNCE_MS ==> p.can_create(path, now_ms),
{
}

}
