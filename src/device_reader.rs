//! The decisions of a device reader: one worker per open device, reading
//! with a short timeout until it is stopped or the device fails.

use crate::device::DeviceIdentifier;
use crate::events::HidEvent;
use vstd::prelude::*;

verus! {

/// The timeout of one read, in milliseconds.
pub const READ_TIMEOUT_MS: u64 = 100;

/// The size of the buffer one read fills.
pub const REPORT_BUFFER_LEN: usize = 64;

/// What one read of a device gave.
#[derive(Debug)]
pub enum ReadOutcome {
    /// The bytes read; possibly none.
    Data(Vec<u8>),
    /// The timeout passed with nothing read.
    Timeout,
    /// Any other failure: the device is gone.
    Failed,
}

/// What a reader does after a read.
#[derive(Debug)]
pub enum ReaderAction {
    /// Read again.
    Continue,
    /// Put the event on the bus, then read again.
    Emit(HidEvent),
    /// Put the event on the bus and end the reader.
    Finish(HidEvent),
}

/// A reader's answer to a read: a report for bytes, nothing for a timeout or
/// an empty read, a disconnection (and the end) for a failure. A reader
/// never reconnects by itself.
pub open spec fn reader_decision(id: DeviceIdentifier, outcome: ReadOutcome) -> ReaderAction {
    match outcome {
        ReadOutcome::Data(data) => if data@.len() > 0 {
            ReaderAction::Emit(
                HidEvent::InputReport {
                    vendor_id: id.vendor_id,
                    product_id: id.product_id,
                    data,
                },
            )
        } else {
            ReaderAction::Continue
        },
        ReadOutcome::Timeout => ReaderAction::Continue,
        ReadOutcome::Failed => ReaderAction::Finish(
            HidEvent::DeviceDisconnected { vendor_id: id.vendor_id, product_id: id.product_id },
        ),
    }
}

/// Decides what the reader of device `id` does after a read.
pub fn reader_step(id: DeviceIdentifier, outcome: ReadOutcome) -> (r: ReaderAction)
    ensures
        r == reader_decision(id, outcome),
{
    match outcome {
        ReadOutcome::Data(data) => {
            if data.len() > 0 {
                ReaderAction::Emit(
                    HidEvent::InputReport {
                        vendor_id: id.vendor_id,
                        product_id: id.product_id,
                        data,
                    },
                )
            } else {
                ReaderAction::Continue
            }
        },
        ReadOutcome::Timeout => ReaderAction::Continue,
        ReadOutcome::Failed => ReaderAction::Finish(
            HidEvent::DeviceDisconnected { vendor_id: id.vendor_id, product_id: id.product_id },
        ),
    }
}

} // verus!
