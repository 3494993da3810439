//! Device identity and lifecycle state.

use vstd::prelude::*;

verus! {

/// A device's (vendor id, product id) pair: the key of every device lookup.
#[derive(Clone, Copy, Debug, PartialEq, Eq, Structural, Hash)]
pub struct DeviceIdentifier {
    pub vendor_id: u16,
    pub product_id: u16,
}

impl DeviceIdentifier {
    pub fn new(vendor_id: u16, product_id: u16) -> (r: DeviceIdentifier)
        ensures
            r.vendor_id == vendor_id,
            r.product_id == product_id,
    {
        DeviceIdentifier { vendor_id, product_id }
    }
}

/// The vendor id of Native Instruments.
pub const NATIVE_INSTRUMENTS_VID: u16 = 0x17CC;

/// The vendor ids of other MIDI hardware makers whose devices are watched:
/// M-Audio, Focusrite and Arturia.
pub const M_AUDIO_VID: u16 = 0x0763;

pub const FOCUSRITE_VID: u16 = 0x1235;

pub const ARTURIA_VID: u16 = 0x1BCF;

/// The product id of the Maschine Jam.
pub const MASCHINE_JAM_PID: u16 = 0x1500;

pub open spec fn spec_is_native_instruments(vendor_id: u16) -> bool {
    vendor_id == NATIVE_INSTRUMENTS_VID
}

/// The devices worth opening: Native Instruments hardware and that of the
/// other watched vendors.
pub open spec fn spec_is_interesting(vendor_id: u16) -> bool {
    ||| vendor_id == NATIVE_INSTRUMENTS_VID
    ||| vendor_id == M_AUDIO_VID
    ||| vendor_id == FOCUSRITE_VID
    ||| vendor_id == ARTURIA_VID
}

pub fn is_native_instruments_device(vendor_id: u16, product_id: u16) -> (r: bool)
    ensures
        r == spec_is_native_instruments(vendor_id),
{
    vendor_id == NATIVE_INSTRUMENTS_VID
}

pub fn is_interesting_device(vendor_id: u16, product_id: u16) -> (r: bool)
    ensures
        r == spec_is_interesting(vendor_id),
{
    is_native_instruments_device(vendor_id, product_id) || vendor_id == M_AUDIO_VID || vendor_id
        == FOCUSRITE_VID || vendor_id == ARTURIA_VID
}

/// The lifecycle state of a managed device.
#[derive(Debug, PartialEq, Eq)]
pub enum DeviceState {
    Active,
    Disconnected,
    /// An I/O failure, with its diagnostic.
    Error(String),
}

impl View for DeviceState {
    type V = DeviceStateView;

    open spec fn view(&self) -> DeviceStateView {
        match self {
            DeviceState::Active => DeviceStateView::Active,
            DeviceState::Disconnected => DeviceStateView::Disconnected,
            DeviceState::Error(m) => DeviceStateView::Error(m@),
        }
    }
}

impl Clone for DeviceState {
    fn clone(&self) -> (r: DeviceState)
        ensures
            r@ == self@,
    {
        match self {
            DeviceState::Active => DeviceState::Active,
            DeviceState::Disconnected => DeviceState::Disconnected,
            DeviceState::Error(m) => DeviceState::Error(m.clone()),
        }
    }
}

impl DeviceState {

    /// An error state carries a diagnostic.
    pub open spec fn well_formed(&self) -> bool {
        state_ok(self@)
    }

    pub fn is_active(&self) -> (r: bool)
        ensures
            r == (self@ == DeviceStateView::Active),
    {
        match self {
            DeviceState::Active => true,
            _ => false,
        }
    }
}

/// An error state carries a diagnostic.
pub open spec fn state_ok(st: DeviceStateView) -> bool {
    st matches DeviceStateView::Error(m) ==> m.len() > 0
}

/// The mathematical form of a `DeviceState`.
pub enum DeviceStateView {
    Active,
    Disconnected,
    Error(Seq<char>),
}

/// A device known to the registry.
#[derive(Debug)]
pub struct ManagedDevice {
    pub name: String,
    pub vendor_id: u16,
    pub product_id: u16,
    pub state: DeviceState,
}

/// The mathematical form of a `ManagedDevice`.
pub struct ManagedDeviceView {
    pub id: DeviceIdentifier,
    pub name: Seq<char>,
    pub state: DeviceStateView,
}

impl View for ManagedDevice {
    type V = ManagedDeviceView;

    open spec fn view(&self) -> ManagedDeviceView {
        ManagedDeviceView { id: self.spec_id(), name: self.name@, state: self.state@ }
    }
}

impl Clone for ManagedDevice {
    fn clone(&self) -> (r: ManagedDevice)
        ensures
            r@ == self@,
    {
        ManagedDevice {
            name: self.name.clone(),
            vendor_id: self.vendor_id,
            product_id: self.product_id,
            state: self.state.clone(),
        }
    }
}

impl ManagedDevice {
    pub open spec fn spec_id(&self) -> DeviceIdentifier {
        DeviceIdentifier { vendor_id: self.vendor_id, product_id: self.product_id }
    }

    pub fn id(&self) -> (r: DeviceIdentifier)
        ensures
            r == self.spec_id(),
    {
        DeviceIdentifier { vendor_id: self.vendor_id, product_id: self.product_id }
    }
}

} // verus!
