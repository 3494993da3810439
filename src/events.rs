//! The events that device readers and the monitor put on the event bus.

use vstd::prelude::*;

verus! {

/// A device lifecycle or input event.
#[derive(Clone, Debug)]
pub enum HidEvent {
    DeviceConnected { vendor_id: u16, product_id: u16 },
    DeviceDisconnected { vendor_id: u16, product_id: u16 },
    InputReport { vendor_id: u16, product_id: u16, data: Vec<u8> },
    Error { vendor_id: u16, product_id: u16, error: String },
}

/// The events of the rusb backend: the same as those of any backend.
pub type RusbHidEvent = HidEvent;

} // verus!
