//! The registry of known devices: at most one entry per identifier, kept in
//! the order the devices were first added.

use crate::device::{
    state_ok, DeviceIdentifier, DeviceState, DeviceStateView, ManagedDevice, ManagedDeviceView,
};
use vstd::prelude::*;

verus! {

/// Whether some entry of `s` has identifier `id`.
pub open spec fn has_id(s: Seq<ManagedDeviceView>, id: DeviceIdentifier) -> bool {
    exists|i: int| 0 <= i < s.len() && #[trigger] s[i].id == id
}

/// No two entries of `s` share an identifier.
pub open spec fn unique_ids(s: Seq<ManagedDeviceView>) -> bool {
    forall|i: int, j: int|
        0 <= i < s.len() && 0 <= j < s.len() && #[trigger] s[i].id == #[trigger] s[j].id ==> i
            == j
}

/// Every error state of `s` carries a diagnostic.
pub open spec fn states_ok(s: Seq<ManagedDeviceView>) -> bool {
    forall|i: int| 0 <= i < s.len() ==> state_ok(#[trigger] s[i].state)
}

/// `s` after adding a device: a new, active entry at the end, unless the
/// identifier is already known, in which case nothing changes.
pub open spec fn spec_add(s: Seq<ManagedDeviceView>, id: DeviceIdentifier, name: Seq<char>) -> Seq<
    ManagedDeviceView,
> {
    if has_id(s, id) {
        s
    } else {
        s.push(ManagedDeviceView { id, name, state: DeviceStateView::Active })
    }
}

/// `s` without the entry of `id`.
pub open spec fn spec_remove(s: Seq<ManagedDeviceView>, id: DeviceIdentifier) -> Seq<
    ManagedDeviceView,
> {
    s.filter(|e: ManagedDeviceView| e.id != id)
}

/// `s` with the state of the entry of `id`, if there is one, replaced.
pub open spec fn spec_update(
    s: Seq<ManagedDeviceView>,
    id: DeviceIdentifier,
    state: DeviceStateView,
) -> Seq<ManagedDeviceView> {
    s.map_values(
        |e: ManagedDeviceView|
            if e.id == id {
                ManagedDeviceView { id: e.id, name: e.name, state }
            } else {
                e
            },
    )
}

/// The entries of `s` that are active.
pub open spec fn spec_active(s: Seq<ManagedDeviceView>) -> Seq<ManagedDeviceView> {
    s.filter(|e: ManagedDeviceView| e.state == DeviceStateView::Active)
}

/// The entries of `s` that are disconnected.
pub open spec fn spec_disconnected(s: Seq<ManagedDeviceView>) -> Seq<ManagedDeviceView> {
    s.filter(|e: ManagedDeviceView| e.state == DeviceStateView::Disconnected)
}

/// The entries of `s` that are in an error state.
pub open spec fn spec_errored(s: Seq<ManagedDeviceView>) -> Seq<ManagedDeviceView> {
    s.filter(|e: ManagedDeviceView| e.state is Error)
}

/// The entry of `id` in `s`, if there is one.
pub open spec fn spec_get(s: Seq<ManagedDeviceView>, id: DeviceIdentifier) -> Option<
    ManagedDeviceView,
> {
    if has_id(s, id) {
        Some(s[choose|i: int| 0 <= i < s.len() && #[trigger] s[i].id == id])
    } else {
        None
    }
}

/// The views of a list of devices.
pub open spec fn device_views(v: Seq<ManagedDevice>) -> Seq<ManagedDeviceView> {
    v.map_values(|d: ManagedDevice| d@)
}

/// The known devices. Every operation is a short computation on this value;
/// callers that share it between threads hold it under one lock.
#[derive(Debug)]
pub struct DeviceRegistry {
    devices: Vec<ManagedDevice>,
}

impl View for DeviceRegistry {
    type V = Seq<ManagedDeviceView>;

    closed spec fn view(&self) -> Seq<ManagedDeviceView> {
        device_views(self.devices@)
    }
}

impl DeviceRegistry {
    /// At most one entry per identifier, and every error state carries a
    /// diagnostic.
    pub open spec fn well_formed(&self) -> bool {
        &&& unique_ids(self@)
        &&& states_ok(self@)
    }

    pub fn new() -> (r: DeviceRegistry)
        ensures
            r@ == Seq::<ManagedDeviceView>::empty(),
            r.well_formed(),
    {
        let r = DeviceRegistry { devices: Vec::new() };
        assert(r@ =~= Seq::<ManagedDeviceView>::empty());
        r
    }

    /// The index of the entry of `id`, if there is one.
    fn find(&self, id: DeviceIdentifier) -> (r: Option<usize>)
        ensures
            match r {
                Some(i) => i < self@.len() && self@[i as int].id == id,
                None => !has_id(self@, id),
            },
    {
        let mut i: usize = 0;
        while i < self.devices.len()
            invariant
                i <= self@.len(),
                self@.len() == self.devices@.len(),
                forall|j: int| 0 <= j < i ==> (#[trigger] self@[j]).id != id,
            decreases self@.len() - i,
        {
            let d = &self.devices[i];
            assert(self@[i as int] == d@);
            if d.vendor_id == id.vendor_id && d.product_id == id.product_id {
                return Some(i);
            }
            i = i + 1;
        }
        None
    }

    /// Adds an active device under `vendor_id:product_id`, named `name`.
    /// Returns false, and changes nothing, when the identifier is already
    /// known: an entry is never overwritten.
    pub fn add_device(&mut self, vendor_id: u16, product_id: u16, name: String) -> (inserted: bool)
        requires
            old(self).well_formed(),
        ensures
            inserted == !has_id(old(self)@, DeviceIdentifier { vendor_id, product_id }),
            final(self)@ == spec_add(
                old(self)@,
                DeviceIdentifier { vendor_id, product_id },
                name@,
            ),
            final(self).well_formed(),
    {
        let id = DeviceIdentifier { vendor_id, product_id };
        if self.find(id).is_some() {
            return false;
        }
        let ghost before = self@;
        let device = ManagedDevice { name, vendor_id, product_id, state: DeviceState::Active };
        self.devices.push(device);
        assert(self@ =~= before.push(device@));
        true
    }
}

/// Removing the entry at `i`, the only one with its identifier, is removing
/// that identifier.
proof fn lemma_remove_at(s: Seq<ManagedDeviceView>, i: int, id: DeviceIdentifier)
    requires
        0 <= i < s.len(),
        s[i].id == id,
        forall|j: int| 0 <= j < s.len() && j != i ==> (#[trigger] s[j]).id != id,
    ensures
        spec_remove(s, id) == s.remove(i),
    decreases s.len(),
{
    reveal(Seq::filter);
    let rest = s.drop_last();
    if i == s.len() - 1 {
        lemma_remove_absent(rest, id);
        assert(s.remove(i) =~= rest);
    } else {
        assert forall|j: int| 0 <= j < rest.len() && j != i implies (#[trigger] rest[j]).id
            != id by {
            assert(rest[j] == s[j]);
        }
        lemma_remove_at(rest, i, id);
        assert(s.remove(i) =~= rest.remove(i).push(s.last()));
    }
}

/// Removing an identifier that no entry has changes nothing.
proof fn lemma_remove_absent(s: Seq<ManagedDeviceView>, id: DeviceIdentifier)
    requires
        forall|j: int| 0 <= j < s.len() ==> (#[trigger] s[j]).id != id,
    ensures
        spec_remove(s, id) == s,
    decreases s.len(),
{
    reveal(Seq::filter);
    if s.len() > 0 {
        let rest = s.drop_last();
        assert forall|j: int| 0 <= j < rest.len() implies (#[trigger] rest[j]).id != id by {
            assert(rest[j] == s[j]);
        }
        lemma_remove_absent(rest, id);
        assert(rest.push(s.last()) =~= s);
    }
}

/// A filtered sequence keeps entries in their order, so distinct
/// identifiers stay distinct.
proof fn lemma_remove_keeps_unique(s: Seq<ManagedDeviceView>, id: DeviceIdentifier)
    requires
        unique_ids(s),
    ensures
        unique_ids(spec_remove(s, id)),
        !has_id(spec_remove(s, id), id),
    decreases s.len(),
{
    reveal(Seq::filter);
    let t = spec_remove(s, id);
    if s.len() > 0 {
        let rest = s.drop_last();
        assert forall|i: int, j: int|
            0 <= i < rest.len() && 0 <= j < rest.len() && #[trigger] rest[i].id
                == #[trigger] rest[j].id implies i == j by {
            assert(rest[i] == s[i] && rest[j] == s[j]);
        }
        lemma_remove_keeps_unique(rest, id);
        let tr = spec_remove(rest, id);
        if s.last().id != id {
            assert(t == tr.push(s.last()));
            let pred = |e: ManagedDeviceView| e.id != id;
            assert forall|i: int, j: int|
                0 <= i < t.len() && 0 <= j < t.len() && #[trigger] t[i].id == #[trigger] t[j].id
                    implies i == j by {
                if i < tr.len() && j == tr.len() {
                    assert(tr.contains(tr[i]));
                    rest.lemma_filter_contains_rev(pred, tr[i]);
                    let a = choose|a: int| 0 <= a < rest.len() && rest[a] == tr[i];
                    assert(s[a] == rest[a]);
                    assert(s[a].id == s[s.len() - 1].id);
                } else if j < tr.len() && i == tr.len() {
                    assert(tr.contains(tr[j]));
                    rest.lemma_filter_contains_rev(pred, tr[j]);
                    let a = choose|a: int| 0 <= a < rest.len() && rest[a] == tr[j];
                    assert(s[a] == rest[a]);
                    assert(s[a].id == s[s.len() - 1].id);
                }
            }
        } else {
            assert(t == tr);
        }
    }
}

impl DeviceRegistry {
    /// Removes the device `vendor_id:product_id`. Returns whether it was
    /// known.
    pub fn remove_device(&mut self, vendor_id: u16, product_id: u16) -> (removed: bool)
        requires
            old(self).well_formed(),
        ensures
            removed == has_id(old(self)@, DeviceIdentifier { vendor_id, product_id }),
            final(self)@ == spec_remove(old(self)@, DeviceIdentifier { vendor_id, product_id }),
            final(self).well_formed(),
    {
        let id = DeviceIdentifier { vendor_id, product_id };
        proof {
            lemma_remove_keeps_unique(self@, id);
        }
        match self.find(id) {
            Some(i) => {
                let ghost before = self@;
                proof {
                    lemma_remove_at(before, i as int, id);
                }
                self.devices.remove(i);
                assert(self@ =~= before.remove(i as int));
                true
            },
            None => {
                proof {
                    lemma_remove_absent(self@, id);
                }
                false
            },
        }
    }

    /// Sets the state of the device `vendor_id:product_id`. Returns whether
    /// it was known; an unknown device is left out, and nothing changes.
    pub fn update_device_state(
        &mut self,
        vendor_id: u16,
        product_id: u16,
        state: DeviceState,
    ) -> (updated: bool)
        requires
            old(self).well_formed(),
            state.well_formed(),
        ensures
            updated == has_id(old(self)@, DeviceIdentifier { vendor_id, product_id }),
            final(self)@ == spec_update(
                old(self)@,
                DeviceIdentifier { vendor_id, product_id },
                state@,
            ),
            final(self).well_formed(),
    {
        let id = DeviceIdentifier { vendor_id, product_id };
        let ghost before = self@;
        let ghost new_state = state@;
        match self.find(id) {
            Some(i) => {
                let mut device = self.devices.remove(i);
                device.state = state;
                self.devices.insert(i, device);
                assert(self@ =~= spec_update(before, id, new_state));
                true
            },
            None => {
                assert(before =~= spec_update(before, id, new_state));
                false
            },
        }
    }

    /// Whether the device `vendor_id:product_id` is known.
    pub fn device_exists(&self, vendor_id: u16, product_id: u16) -> (r: bool)
        ensures
            r == has_id(self@, DeviceIdentifier { vendor_id, product_id }),
    {
        self.find(DeviceIdentifier { vendor_id, product_id }).is_some()
    }

    /// The entry of the device `vendor_id:product_id`, if known.
    pub fn get_device(&self, vendor_id: u16, product_id: u16) -> (r: Option<ManagedDevice>)
        requires
            self.well_formed(),
        ensures
            match r {
                Some(d) => spec_get(self@, DeviceIdentifier { vendor_id, product_id }) == Some(
                    d@,
                ),
                None => spec_get(self@, DeviceIdentifier { vendor_id, product_id }) is None,
            },
    {
        let id = DeviceIdentifier { vendor_id, product_id };
        match self.find(id) {
            Some(i) => {
                let d = self.devices[i].clone();
                assert(self@[i as int] == self.devices@[i as int]@);
                Some(d)
            },
            None => None,
        }
    }

    /// Every known device, in the order they were added.
    pub fn get_all_devices(&self) -> (r: Vec<ManagedDevice>)
        ensures
            device_views(r@) == self@,
    {
        let mut out: Vec<ManagedDevice> = Vec::new();
        let mut i: usize = 0;
        while i < self.devices.len()
            invariant
                i <= self.devices@.len(),
                device_views(out@) == device_views(self.devices@).subrange(0, i as int),
            decreases self.devices@.len() - i,
        {
            let ghost earlier = device_views(out@);
            let d = self.devices[i].clone();
            out.push(d);
            assert(device_views(out@) =~= earlier.push(d@));
            assert(device_views(out@) =~= device_views(self.devices@).subrange(0, i + 1));
            i = i + 1;
        }
        assert(device_views(self.devices@).subrange(0, i as int) =~= self@);
        out
    }

    /// The known devices that are active, in the order they were added.
    pub fn get_active_devices(&self) -> (r: Vec<ManagedDevice>)
        ensures
            device_views(r@) == spec_active(self@),
    {
        let mut out: Vec<ManagedDevice> = Vec::new();
        let mut i: usize = 0;
        while i < self.devices.len()
            invariant
                i <= self.devices@.len(),
                device_views(out@) == spec_active(self@.subrange(0, i as int)),
            decreases self.devices@.len() - i,
        {
            let ghost earlier = device_views(out@);
            proof {
                reveal(Seq::filter);
                let upto = self@.subrange(0, i + 1);
                assert(upto.drop_last() =~= self@.subrange(0, i as int));
                assert(upto.last() == self.devices@[i as int]@);
            }
            if self.devices[i].state.is_active() {
                let d = self.devices[i].clone();
                out.push(d);
                assert(device_views(out@) =~= earlier.push(d@));
            }
            i = i + 1;
        }
        assert(self@.subrange(0, i as int) =~= self@);
        out
    }

    /// How many devices are known, and how many are in each state.
    pub fn status_summary(&self) -> (r: RegistryStatus)
        ensures
            r.total == self@.len(),
            r.active == spec_active(self@).len(),
            r.disconnected == spec_disconnected(self@).len(),
            r.errors == spec_errored(self@).len(),
    {
        let mut status = RegistryStatus { total: 0, active: 0, disconnected: 0, errors: 0 };
        let mut i: usize = 0;
        while i < self.devices.len()
            invariant
                i <= self.devices@.len(),
                status.total == i,
                status.active == spec_active(self@.subrange(0, i as int)).len(),
                status.disconnected == spec_disconnected(self@.subrange(0, i as int)).len(),
                status.errors == spec_errored(self@.subrange(0, i as int)).len(),
            decreases self.devices@.len() - i,
        {
            proof {
                reveal(Seq::filter);
                let upto = self@.subrange(0, i + 1);
                assert(upto.drop_last() =~= self@.subrange(0, i as int));
                assert(upto.last() == self.devices@[i as int]@);
                self@.subrange(0, i as int).lemma_filter_len(
                    |e: ManagedDeviceView| e.state == DeviceStateView::Active,
                );
                self@.subrange(0, i as int).lemma_filter_len(
                    |e: ManagedDeviceView| e.state == DeviceStateView::Disconnected,
                );
                self@.subrange(0, i as int).lemma_filter_len(
                    |e: ManagedDeviceView| e.state is Error,
                );
            }
            match &self.devices[i].state {
                DeviceState::Active => {
                    status.active = status.active + 1;
                },
                DeviceState::Disconnected => {
                    status.disconnected = status.disconnected + 1;
                },
                DeviceState::Error(_) => {
                    status.errors = status.errors + 1;
                },
            }
            status.total = status.total + 1;
            i = i + 1;
        }
        assert(self@.subrange(0, i as int) =~= self@);
        status
    }
}

/// `s` after a device reports `state`: the state of its entry replaced, or a
/// new entry named `name` at the end when it is unknown.
pub open spec fn spec_record(
    s: Seq<ManagedDeviceView>,
    id: DeviceIdentifier,
    name: Seq<char>,
    state: DeviceStateView,
) -> Seq<ManagedDeviceView> {
    if has_id(s, id) {
        spec_update(s, id, state)
    } else {
        s.push(ManagedDeviceView { id, name, state })
    }
}

impl DeviceRegistry {
    /// Sets the state of the device `vendor_id:product_id`, adding it under
    /// `name` when it is unknown.
    pub fn record_device_state(
        &mut self,
        vendor_id: u16,
        product_id: u16,
        name: String,
        state: DeviceState,
    )
        requires
            old(self).well_formed(),
            state.well_formed(),
        ensures
            final(self)@ == spec_record(
                old(self)@,
                DeviceIdentifier { vendor_id, product_id },
                name@,
                state@,
            ),
            final(self).well_formed(),
    {
        let id = DeviceIdentifier { vendor_id, product_id };
        if self.find(id).is_some() {
            self.update_device_state(vendor_id, product_id, state);
        } else {
            let ghost before = self@;
            let device = ManagedDevice { name, vendor_id, product_id, state };
            self.devices.push(device);
            assert(self@ =~= before.push(device@));
        }
    }
}

/// The state of an entry after a scan that found the devices `present`: a
/// present device is active, an active one that is missing is
/// disconnected, any other keeps its state.
pub open spec fn presence_state(e: ManagedDeviceView, present: Seq<DeviceIdentifier>) -> DeviceStateView {
    if present.contains(e.id) {
        DeviceStateView::Active
    } else if e.state == DeviceStateView::Active {
        DeviceStateView::Disconnected
    } else {
        e.state
    }
}

pub open spec fn spec_reconcile(s: Seq<ManagedDeviceView>, present: Seq<DeviceIdentifier>) -> Seq<
    ManagedDeviceView,
> {
    s.map_values(
        |e: ManagedDeviceView|
            ManagedDeviceView { id: e.id, name: e.name, state: presence_state(e, present) },
    )
}

impl DeviceRegistry {
    /// Brings every entry in line with a scan that found the devices
    /// `present`; no entry is added or removed.
    pub fn reconcile_presence(&mut self, present: &Vec<DeviceIdentifier>)
        requires
            old(self).well_formed(),
        ensures
            final(self)@ == spec_reconcile(old(self)@, present@),
            final(self).well_formed(),
    {
        let ghost before = self@;
        let mut i: usize = 0;
        while i < self.devices.len()
            invariant
                i <= self@.len(),
                self@.len() == before.len(),
                self@.len() == self.devices@.len(),
                forall|j: int| 0 <= j < i ==> #[trigger] self@[j] == spec_reconcile(before, present@)[j],
                forall|j: int| i <= j < self@.len() ==> #[trigger] self@[j] == before[j],
            decreases self@.len() - i,
        {
            let id = self.devices[i].id();
            let is_present = contains_device(present, id);
            let active = self.devices[i].state.is_active();
            let ghost e = before[i as int];
            assert(self@[i as int] == e);
            if is_present && !active {
                let ghost prev = self.devices@;
                let mut d = self.devices.remove(i);
                d.state = DeviceState::Active;
                let ghost dv = d;
                self.devices.insert(i, d);
                assert(self.devices@ =~= prev.update(i as int, dv));
                assert(self@ =~= device_views(prev).update(i as int, dv@));
            } else if !is_present && active {
                let ghost prev = self.devices@;
                let mut d = self.devices.remove(i);
                d.state = DeviceState::Disconnected;
                let ghost dv = d;
                self.devices.insert(i, d);
                assert(self.devices@ =~= prev.update(i as int, dv));
                assert(self@ =~= device_views(prev).update(i as int, dv@));
            }
            assert(self@[i as int] == spec_reconcile(before, present@)[i as int]);
            i = i + 1;
        }
        assert(self@ =~= spec_reconcile(before, present@));
        proof {
            let t = self@;
            assert forall|a: int, b: int|
                0 <= a < t.len() && 0 <= b < t.len() && #[trigger] t[a].id == #[trigger] t[b].id
                    implies a == b by {
                assert(t[a].id == before[a].id && t[b].id == before[b].id);
            }
        }
    }
}

fn contains_device(v: &Vec<DeviceIdentifier>, id: DeviceIdentifier) -> (r: bool)
    ensures
        r == v@.contains(id),
{
    let mut i: usize = 0;
    while i < v.len()
        invariant
            i <= v@.len(),
            forall|j: int| 0 <= j < i ==> v@[j] != id,
        decreases v@.len() - i,
    {
        if v[i] == id {
            assert(v@[i as int] == id);
            return true;
        }
        i = i + 1;
    }
    false
}

/// One registry operation, in terms of plain values.
pub enum RegistryOp {
    Add { id: DeviceIdentifier, name: Seq<char> },
    Remove { id: DeviceIdentifier },
    Update { id: DeviceIdentifier, state: DeviceStateView },
}

pub open spec fn apply_op(s: Seq<ManagedDeviceView>, op: RegistryOp) -> Seq<ManagedDeviceView> {
    match op {
        RegistryOp::Add { id, name } => spec_add(s, id, name),
        RegistryOp::Remove { id } => spec_remove(s, id),
        RegistryOp::Update { id, state } => spec_update(s, id, state),
    }
}

/// `s` after the operations `ops`, first to last.
pub open spec fn apply_ops(s: Seq<ManagedDeviceView>, ops: Seq<RegistryOp>) -> Seq<
    ManagedDeviceView,
>
    decreases ops.len(),
{
    if ops.len() == 0 {
        s
    } else {
        apply_op(apply_ops(s, ops.drop_last()), ops.last())
    }
}

proof fn lemma_op_keeps_ids_unique(s: Seq<ManagedDeviceView>, op: RegistryOp)
    requires
        unique_ids(s),
    ensures
        unique_ids(apply_op(s, op)),
{
    match op {
        RegistryOp::Add { id, name } => {
            let t = spec_add(s, id, name);
            if !has_id(s, id) {
                assert forall|i: int, j: int|
                    0 <= i < t.len() && 0 <= j < t.len() && #[trigger] t[i].id
                        == #[trigger] t[j].id implies i == j by {
                    if i < s.len() && j < s.len() {
                        assert(t[i] == s[i] && t[j] == s[j]);
                    } else if i < s.len() {
                        assert(t[i] == s[i]);
                    } else if j < s.len() {
                        assert(t[j] == s[j]);
                    }
                }
            }
        },
        RegistryOp::Remove { id } => {
            lemma_remove_keeps_unique(s, id);
        },
        RegistryOp::Update { id, state } => {
            let t = spec_update(s, id, state);
            assert forall|i: int, j: int|
                0 <= i < t.len() && 0 <= j < t.len() && #[trigger] t[i].id == #[trigger] t[j].id
                    implies i == j by {
                assert(t[i].id == s[i].id && t[j].id == s[j].id);
            }
        },
    }
}

/// Whatever additions, removals and state updates are applied, no two
/// entries of the registry share an identifier.
pub proof fn lemma_ops_keep_ids_unique(s: Seq<ManagedDeviceView>, ops: Seq<RegistryOp>)
    requires
        unique_ids(s),
    ensures
        unique_ids(apply_ops(s, ops)),
    decreases ops.len(),
{
    if ops.len() > 0 {
        lemma_ops_keep_ids_unique(s, ops.drop_last());
        lemma_op_keeps_ids_unique(apply_ops(s, ops.drop_last()), ops.last());
    }
}

/// Adding an identifier a second time changes nothing: one entry stays for
/// it, under the name it had.
pub proof fn lemma_add_twice(
    s: Seq<ManagedDeviceView>,
    id: DeviceIdentifier,
    first_name: Seq<char>,
    second_name: Seq<char>,
)
    requires
        unique_ids(s),
    ensures
        spec_add(spec_add(s, id, first_name), id, second_name) == spec_add(s, id, first_name),
        unique_ids(spec_add(s, id, first_name)),
        has_id(spec_add(s, id, first_name), id),
        spec_get(spec_add(s, id, first_name), id) matches Some(e) && e.name == if has_id(s, id) {
            spec_get(s, id)->0.name
        } else {
            first_name
        },
{
    let t = spec_add(s, id, first_name);
    lemma_op_keeps_ids_unique(s, RegistryOp::Add { id, name: first_name });
    if !has_id(s, id) {
        assert(t[s.len() as int].id == id);
    }
    assert(has_id(t, id));
}

/// How many devices a registry knows, and how many are in each state.
#[derive(Clone, Copy, Debug, PartialEq, Eq, Structural)]
pub struct RegistryStatus {
    pub total: usize,
    pub active: usize,
    pub disconnected: usize,
    pub errors: usize,
}

} // verus!
