//! Backend and instrument descriptions: what a USB device exposes, and how
//! an instrument is reached.

use vstd::prelude::*;

verus! {

#[derive(Clone, Copy, Debug, PartialEq, Eq, Structural)]
pub enum LibUsbInterfaceSupportedClass {
    HID,
    UNSUPPORTED,
}

#[derive(Clone, Copy, Debug, PartialEq, Eq, Structural)]
pub enum LibUsbEndpointDirection {
    IN,
    OUT,
}

#[derive(Clone, Copy, Debug, PartialEq, Eq, Structural)]
pub enum LibUsbTransferType {
    Control,
    Isochronous,
    Bulk,
    Interrupt,
}

#[derive(Clone, Copy, Debug, PartialEq, Eq, Structural)]
pub struct LibUsbEndpointDetails {
    pub address: u8,
    pub direction: LibUsbEndpointDirection,
    pub transfer_type: LibUsbTransferType,
}

/// One interface setting of a device, with its endpoints in descriptor
/// order.
#[derive(Clone, Debug)]
pub struct LibUsbInterfaceDetails {
    pub number: u8,
    pub device_class: LibUsbInterfaceSupportedClass,
    pub endpoints: Vec<LibUsbEndpointDetails>,
}

/// A device as its active configuration describes it, interfaces in
/// descriptor order.
#[derive(Clone, Debug)]
pub struct LibUsbDeviceDetails {
    pub vendor_id: u16,
    pub product_id: u16,
    pub interfaces: Vec<LibUsbInterfaceDetails>,
}

impl LibUsbDeviceDetails {
    pub fn new() -> (r: LibUsbDeviceDetails)
        ensures
            r.vendor_id == 0,
            r.product_id == 0,
            r.interfaces@.len() == 0,
    {
        LibUsbDeviceDetails { vendor_id: 0, product_id: 0, interfaces: Vec::new() }
    }
}

/// An endpoint that input reports can be read from: interrupt, device to
/// host.
pub open spec fn is_interrupt_in(ep: LibUsbEndpointDetails) -> bool {
    ep.direction == LibUsbEndpointDirection::IN && ep.transfer_type
        == LibUsbTransferType::Interrupt
}

/// The address of the first interrupt IN endpoint of `eps`.
pub open spec fn first_interrupt_in(eps: Seq<LibUsbEndpointDetails>) -> Option<u8>
    decreases eps.len(),
{
    if eps.len() == 0 {
        None
    } else if is_interrupt_in(eps[0]) {
        Some(eps[0].address)
    } else {
        first_interrupt_in(eps.drop_first())
    }
}

/// The interface number and endpoint address of the first interrupt IN
/// endpoint, searching the interfaces in order.
pub open spec fn first_input_endpoint(ifaces: Seq<LibUsbInterfaceDetails>) -> Option<(u8, u8)>
    decreases ifaces.len(),
{
    if ifaces.len() == 0 {
        None
    } else {
        match first_interrupt_in(ifaces[0].endpoints@) {
            Some(address) => Some((ifaces[0].number, address)),
            None => first_input_endpoint(ifaces.drop_first()),
        }
    }
}

fn find_in_endpoints(eps: &Vec<LibUsbEndpointDetails>) -> (r: Option<u8>)
    ensures
        r == first_interrupt_in(eps@),
{
    let mut i: usize = 0;
    assert(eps@.subrange(0, eps@.len() as int) =~= eps@);
    while i < eps.len()
        invariant
            i <= eps@.len(),
            first_interrupt_in(eps@) == first_interrupt_in(eps@.subrange(i as int, eps@.len() as int)),
        decreases eps@.len() - i,
    {
        let ep = eps[i];
        let ghost rest = eps@.subrange(i as int, eps@.len() as int);
        assert(rest[0] == ep);
        assert(rest.drop_first() =~= eps@.subrange(i + 1, eps@.len() as int));
        if ep.direction == LibUsbEndpointDirection::IN && ep.transfer_type
            == LibUsbTransferType::Interrupt {
            return Some(ep.address);
        }
        i = i + 1;
    }
    None
}

/// Finds where input reports are read: the first interrupt IN endpoint
/// across all interfaces, in descriptor order, with its interface number.
pub fn find_interrupt_endpoint(details: &LibUsbDeviceDetails) -> (r: Option<(u8, u8)>)
    ensures
        r == first_input_endpoint(details.interfaces@),
{
    let ifaces = &details.interfaces;
    let mut i: usize = 0;
    assert(ifaces@.subrange(0, ifaces@.len() as int) =~= ifaces@);
    while i < ifaces.len()
        invariant
            i <= ifaces@.len(),
            ifaces@ == details.interfaces@,
            first_input_endpoint(ifaces@) == first_input_endpoint(
                ifaces@.subrange(i as int, ifaces@.len() as int),
            ),
        decreases ifaces@.len() - i,
    {
        let iface = &ifaces[i];
        let ghost rest = ifaces@.subrange(i as int, ifaces@.len() as int);
        assert(rest[0] == *iface);
        assert(rest.drop_first() =~= ifaces@.subrange(i + 1, ifaces@.len() as int));
        match find_in_endpoints(&iface.endpoints) {
            Some(address) => {
                return Some((iface.number, address));
            },
            None => {},
        }
        i = i + 1;
    }
    None
}

pub struct BackendLibUsb {}

impl BackendLibUsb {
    pub fn new() -> (r: BackendLibUsb) {
        BackendLibUsb {  }
    }
}

pub enum AccessorFallbackPolicy {
    AllowFallback(),
    TerminateOnFailure(),
}

pub struct AccessorWatchdogPolicy {
    pub retry_attempts: u8,
    pub fallback_policy: AccessorFallbackPolicy,
}

pub enum BackendAccessorDeviceDetails {
    BackendLibUsbDeviceDetails(LibUsbDeviceDetails),
    BackendDummyDeviceDetails(),
}

pub struct AccessorDetails {
    pub watchdog_policy: AccessorWatchdogPolicy,
    pub backend_device_details: BackendAccessorDeviceDetails,
}

pub struct ForeignInstrumentDetails {
    pub name: String,
    pub accessor_details_list: Vec<AccessorDetails>,
}

/// The backend an instrument is reached through.
pub enum BackendAccessor {
    AccessorLibUsb(BackendLibUsb),
    AccessorDummy(),
}

/// Which kind of backend an accessor is, without its contents.
#[derive(Clone, Copy, Debug, PartialEq, Eq, Structural, Hash)]
pub enum BackendKind {
    LibUsb,
    Dummy,
}

impl BackendAccessor {
    /// The backend that reaches a device so described.
    pub fn new(device_details: &BackendAccessorDeviceDetails) -> (r: BackendAccessor)
        ensures
            device_details is BackendLibUsbDeviceDetails <==> r is AccessorLibUsb,
    {
        match device_details {
            BackendAccessorDeviceDetails::BackendLibUsbDeviceDetails(_d) => {
                BackendAccessor::AccessorLibUsb(BackendLibUsb::new())
            },
            BackendAccessorDeviceDetails::BackendDummyDeviceDetails() => {
                BackendAccessor::AccessorDummy()
            },
        }
    }

    /// The kind of this backend: accessors of one kind share a backend.
    pub fn get_discriminant(&self) -> (r: BackendKind)
        ensures
            r == BackendKind::LibUsb <==> self is AccessorLibUsb,
    {
        match self {
            BackendAccessor::AccessorLibUsb(_) => BackendKind::LibUsb,
            BackendAccessor::AccessorDummy() => BackendKind::Dummy,
        }
    }
}

/// The Komplete Kontrol S25: one dummy accessor, tried once.
pub fn details() -> (r: ForeignInstrumentDetails)
    ensures
        r.accessor_details_list@.len() == 1,
        r.accessor_details_list@[0].watchdog_policy.retry_attempts == 1,
        r.accessor_details_list@[0].watchdog_policy.fallback_policy is TerminateOnFailure,
        r.accessor_details_list@[0].backend_device_details is BackendDummyDeviceDetails,
        r.name@ == seq!['K', 'o', 'm', 'p', 'l', 'e', 't', 'e', ' ', 'K', 'o', 'n', 't', 'r', 'o', 'l', ' ', 'S', '2', '5'],
{
    let name = String::from_str("Komplete Kontrol S25");
    proof {
        reveal_strlit("Komplete Kontrol S25");
        assert(name@ =~= seq!['K', 'o', 'm', 'p', 'l', 'e', 't', 'e', ' ', 'K', 'o', 'n', 't', 'r', 'o', 'l', ' ', 'S', '2', '5']);
    }
    ForeignInstrumentDetails {
        name,
        accessor_details_list: vec![
            AccessorDetails {
                watchdog_policy: AccessorWatchdogPolicy {
                    retry_attempts: 1,
                    fallback_policy: AccessorFallbackPolicy::TerminateOnFailure(),
                },
                backend_device_details: BackendAccessorDeviceDetails::BackendDummyDeviceDetails(),
            },
        ],
    }
}

} // verus!
