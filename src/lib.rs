//! Bridge between USB/HID control surfaces and MIDI: a verified core of
//! pattern matching, translation, device bookkeeping and the decisions of
//! the reader, monitor and coordinator loops.

pub mod backend;
pub mod bridge;
pub mod device;
pub mod device_monitor;
pub mod device_reader;
pub mod device_registry;
pub mod events;
pub mod instruments;
pub mod midi;
pub mod midi_mapping;
pub mod usb_midi_mapper;
