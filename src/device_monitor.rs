//! The decisions of the device monitor: which devices to open and which
//! have left, by hotplug callback or by polling the present devices.

use crate::device::{DeviceIdentifier, ARTURIA_VID, FOCUSRITE_VID, M_AUDIO_VID, NATIVE_INSTRUMENTS_VID};
use vstd::prelude::*;

verus! {

/// The interval between two polls, in milliseconds.
pub const POLL_INTERVAL_MS: u64 = 1000;

/// Whether a device of vendor `vendor_id` is worth opening: a Native
/// Instruments device, or one of a vendor on the allow-list.
pub open spec fn interesting(allow: Seq<u16>, vendor_id: u16) -> bool {
    vendor_id == NATIVE_INSTRUMENTS_VID || allow.contains(vendor_id)
}

/// The devices of `present` to open: the interesting ones not open yet, each
/// once, in the order they first appear.
pub open spec fn to_open(allow: Seq<u16>, open: Seq<DeviceIdentifier>, present: Seq<DeviceIdentifier>) -> Seq<
    DeviceIdentifier,
>
    decreases present.len(),
{
    if present.len() == 0 {
        Seq::empty()
    } else {
        let earlier = to_open(allow, open, present.drop_last());
        let d = present.last();
        if interesting(allow, d.vendor_id) && !open.contains(d) && !earlier.contains(d) {
            earlier.push(d)
        } else {
            earlier
        }
    }
}

/// The open devices that are no longer present, in the order they were
/// opened.
pub open spec fn departed(open: Seq<DeviceIdentifier>, present: Seq<DeviceIdentifier>) -> Seq<
    DeviceIdentifier,
> {
    open.filter(|d: DeviceIdentifier| !present.contains(d))
}

/// What one poll asks for.
#[derive(Debug)]
pub struct PollPlan {
    /// Devices to open, and to start a reader for.
    pub to_open: Vec<DeviceIdentifier>,
    /// Devices whose reader is to be stopped and joined.
    pub departed: Vec<DeviceIdentifier>,
}

/// The monitor's knowledge: the vendors it watches besides Native
/// Instruments, and the devices that have a running reader.
pub struct DeviceMonitor {
    allow: Vec<u16>,
    open: Vec<DeviceIdentifier>,
}

impl DeviceMonitor {
    pub closed spec fn allow_list(&self) -> Seq<u16> {
        self.allow@
    }

    /// The devices that have a running reader, in the order they were
    /// opened.
    pub closed spec fn open_devices(&self) -> Seq<DeviceIdentifier> {
        self.open@
    }

    /// No device has two readers.
    pub open spec fn well_formed(&self) -> bool {
        self.open_devices().no_duplicates()
    }

    /// A monitor with no open device, watching the vendors of `allow`.
    pub fn new(allow: Vec<u16>) -> (r: DeviceMonitor)
        ensures
            r.well_formed(),
            r.allow_list() == allow@,
            r.open_devices() == Seq::<DeviceIdentifier>::empty(),
    {
        let r = DeviceMonitor { allow, open: Vec::new() };
        assert(r.open@.no_duplicates());
        r
    }

    /// A monitor watching M-Audio, Focusrite and Arturia devices besides
    /// Native Instruments ones.
    pub fn with_default_vendors() -> (r: DeviceMonitor)
        ensures
            r.well_formed(),
            r.allow_list() == seq![M_AUDIO_VID, FOCUSRITE_VID, ARTURIA_VID],
            r.open_devices() == Seq::<DeviceIdentifier>::empty(),
    {
        DeviceMonitor::new(vec![M_AUDIO_VID, FOCUSRITE_VID, ARTURIA_VID])
    }

    pub fn is_interesting(&self, vendor_id: u16) -> (r: bool)
        ensures
            r == interesting(self.allow_list(), vendor_id),
    {
        if vendor_id == NATIVE_INSTRUMENTS_VID {
            return true;
        }
        let mut i: usize = 0;
        while i < self.allow.len()
            invariant
                i <= self.allow@.len(),
                forall|j: int| 0 <= j < i ==> self.allow@[j] != vendor_id,
            decreases self.allow@.len() - i,
        {
            if self.allow[i] == vendor_id {
                return true;
            }
            i = i + 1;
        }
        false
    }

    pub fn is_open(&self, id: DeviceIdentifier) -> (r: bool)
        ensures
            r == self.open_devices().contains(id),
    {
        contains_id(&self.open, id)
    }

    /// A hotplug arrival: whether to open the device.
    pub fn device_arrived(&self, id: DeviceIdentifier) -> (r: bool)
        ensures
            r == (interesting(self.allow_list(), id.vendor_id) && !self.open_devices().contains(id)),
    {
        self.is_interesting(id.vendor_id) && !self.is_open(id)
    }

    /// A hotplug departure: whether the device has a reader to stop.
    pub fn device_left(&self, id: DeviceIdentifier) -> (r: bool)
        ensures
            r == self.open_devices().contains(id),
    {
        self.is_open(id)
    }

    /// Compares the devices present now with the open ones.
    pub fn poll(&self, present: &Vec<DeviceIdentifier>) -> (r: PollPlan)
        ensures
            r.to_open@ == to_open(self.allow_list(), self.open_devices(), present@),
            r.departed@ == departed(self.open_devices(), present@),
    {
        let mut fresh: Vec<DeviceIdentifier> = Vec::new();
        let mut i: usize = 0;
        while i < present.len()
            invariant
                i <= present@.len(),
                fresh@ == to_open(self.allow@, self.open@, present@.subrange(0, i as int)),
            decreases present@.len() - i,
        {
            let d = present[i];
            proof {
                let upto = present@.subrange(0, i + 1);
                assert(upto.drop_last() =~= present@.subrange(0, i as int));
                assert(upto.last() == d);
            }
            if self.is_interesting(d.vendor_id) && !self.is_open(d) && !contains_id(&fresh, d) {
                fresh.push(d);
            }
            i = i + 1;
        }
        assert(present@.subrange(0, i as int) =~= present@);
        let mut gone: Vec<DeviceIdentifier> = Vec::new();
        let mut k: usize = 0;
        while k < self.open.len()
            invariant
                k <= self.open@.len(),
                gone@ == departed(self.open@.subrange(0, k as int), present@),
            decreases self.open@.len() - k,
        {
            let d = self.open[k];
            proof {
                reveal(Seq::filter);
                let upto = self.open@.subrange(0, k + 1);
                assert(upto.drop_last() =~= self.open@.subrange(0, k as int));
                assert(upto.last() == d);
            }
            if !contains_id(present, d) {
                gone.push(d);
            }
            k = k + 1;
        }
        assert(self.open@.subrange(0, k as int) =~= self.open@);
        PollPlan { to_open: fresh, departed: gone }
    }

    /// Records that a reader was started for `id`.
    pub fn mark_opened(&mut self, id: DeviceIdentifier)
        requires
            old(self).well_formed(),
        ensures
            final(self).well_formed(),
            final(self).allow_list() == old(self).allow_list(),
            final(self).open_devices() == if old(self).open_devices().contains(id) {
                old(self).open_devices()
            } else {
                old(self).open_devices().push(id)
            },
    {
        if !contains_id(&self.open, id) {
            self.open.push(id);
        }
    }

    /// Records that the reader of `id` was stopped and joined.
    pub fn mark_closed(&mut self, id: DeviceIdentifier)
        requires
            old(self).well_formed(),
        ensures
            final(self).well_formed(),
            final(self).allow_list() == old(self).allow_list(),
            final(self).open_devices() == old(self).open_devices().filter(
                |d: DeviceIdentifier| d != id,
            ),
    {
        let ghost before = self.open@;
        let mut kept: Vec<DeviceIdentifier> = Vec::new();
        let mut k: usize = 0;
        while k < self.open.len()
            invariant
                k <= self.open@.len(),
                self.open@ == before,
                before.no_duplicates(),
                kept@ == before.subrange(0, k as int).filter(|d: DeviceIdentifier| d != id),
            decreases self.open@.len() - k,
        {
            let d = self.open[k];
            proof {
                reveal(Seq::filter);
                let upto = before.subrange(0, k + 1);
                assert(upto.drop_last() =~= before.subrange(0, k as int));
                assert(upto.last() == d);
            }
            if d != id {
                kept.push(d);
            }
            k = k + 1;
        }
        assert(before.subrange(0, k as int) =~= before);
        proof {
            before.filter_lemma(|d: DeviceIdentifier| d != id);
            lemma_filter_no_duplicates(before, id);
        }
        self.open = kept;
    }
}

/// Removing an element keeps a sequence free of duplicates.
proof fn lemma_filter_no_duplicates(s: Seq<DeviceIdentifier>, id: DeviceIdentifier)
    requires
        s.no_duplicates(),
    ensures
        s.filter(|d: DeviceIdentifier| d != id).no_duplicates(),
    decreases s.len(),
{
    reveal(Seq::filter);
    if s.len() > 0 {
        let rest = s.drop_last();
        assert(rest.no_duplicates());
        lemma_filter_no_duplicates(rest, id);
        let pred = |d: DeviceIdentifier| d != id;
        rest.filter_lemma(pred);
        let t = rest.filter(pred);
        assert(!rest.contains(s.last())) by {
            if rest.contains(s.last()) {
                let j = choose|j: int| 0 <= j < rest.len() && rest[j] == s.last();
                assert(s[j] == s[s.len() - 1]);
            }
        }
        if pred(s.last()) {
            if t.contains(s.last()) {
                rest.lemma_filter_contains_rev(pred, s.last());
            }
            assert(!t.contains(s.last()));
            let u = t.push(s.last());
            assert forall|a: int, b: int| 0 <= a < u.len() && 0 <= b < u.len() && a != b implies u[a]
                != u[b] by {
                if a < t.len() && b < t.len() {
                } else if a < t.len() {
                    assert(t.contains(t[a]));
                } else {
                    assert(t.contains(t[b]));
                }
            }
        }
    }
}

fn contains_id(v: &Vec<DeviceIdentifier>, id: DeviceIdentifier) -> (r: bool)
    ensures
        r == v@.contains(id),
{
    let mut i: usize = 0;
    while i < v.len()
        invariant
            i <= v@.len(),
            forall|j: int| 0 <= j < i ==> v@[j] != id,
        decreases v@.len() - i,
    {
        if v[i] == id {
            assert(v@[i as int] == id);
            return true;
        }
        i = i + 1;
    }
    false
}

} // verus!
