//! MIDI messages, the control surface messages they are made from, and how
//! the one becomes the other.

use crate::device::{MASCHINE_JAM_PID, NATIVE_INSTRUMENTS_VID};
use std::collections::HashMap;
use vstd::prelude::*;

verus! {

broadcast use vstd::std_specs::hash::group_hash_axioms;

/// A MIDI channel voice message.
#[derive(Clone, Copy, Debug, PartialEq, Eq, Structural)]
pub enum MidiMessage {
    NoteOn { channel: u8, note: u8, velocity: u8 },
    NoteOff { channel: u8, note: u8, velocity: u8 },
    ControlChange { channel: u8, controller: u8, value: u8 },
    ProgramChange { channel: u8, program: u8 },
    PitchBend { channel: u8, value: u16 },
    Aftertouch { channel: u8, pressure: u8 },
}

/// The status byte of a channel message: the message kind in the high
/// nibble, the low four bits of the channel in the low nibble.
pub open spec fn status_byte(kind: u8, channel: u8) -> u8 {
    (kind + channel % 16) as u8
}

/// The wire encoding of a message.
pub open spec fn message_bytes(m: MidiMessage) -> Seq<u8> {
    match m {
        MidiMessage::NoteOn { channel, note, velocity } => seq![
            status_byte(0x90, channel),
            note,
            velocity,
        ],
        MidiMessage::NoteOff { channel, note, velocity } => seq![
            status_byte(0x80, channel),
            note,
            velocity,
        ],
        MidiMessage::ControlChange { channel, controller, value } => seq![
            status_byte(0xB0, channel),
            controller,
            value,
        ],
        MidiMessage::ProgramChange { channel, program } => seq![
            status_byte(0xC0, channel),
            program,
        ],
        MidiMessage::PitchBend { channel, value } => seq![
            status_byte(0xE0, channel),
            (value % 128) as u8,
            ((value / 128) % 128) as u8,
        ],
        MidiMessage::Aftertouch { channel, pressure } => seq![
            status_byte(0xD0, channel),
            pressure,
        ],
    }
}

fn status(kind: u8, channel: u8) -> (r: u8)
    requires
        0x80 <= kind <= 0xE0,
        kind % 16 == 0,
    ensures
        r == status_byte(kind, channel),
{
    kind + channel % 16
}

impl MidiMessage {
    pub fn to_bytes(&self) -> (r: Vec<u8>)
        ensures
            r@ == message_bytes(*self),
    {
        match self {
            MidiMessage::NoteOn { channel, note, velocity } => {
                vec![status(0x90, *channel), *note, *velocity]
            },
            MidiMessage::NoteOff { channel, note, velocity } => {
                vec![status(0x80, *channel), *note, *velocity]
            },
            MidiMessage::ControlChange { channel, controller, value } => {
                vec![status(0xB0, *channel), *controller, *value]
            },
            MidiMessage::ProgramChange { channel, program } => {
                vec![status(0xC0, *channel), *program]
            },
            MidiMessage::PitchBend { channel, value } => {
                let lsb = (*value % 128) as u8;
                let msb = ((*value / 128) % 128) as u8;
                vec![status(0xE0, *channel), lsb, msb]
            },
            MidiMessage::Aftertouch { channel, pressure } => {
                vec![status(0xD0, *channel), *pressure]
            },
        }
    }
}

/// A message from a control surface, as a parser reads it from raw reports.
#[derive(Clone, Copy, Debug, PartialEq, Eq, Structural)]
pub enum UsbMessage {
    Button { button_id: u8, pressed: bool },
    Knob { knob_id: u8, value: u8 },
    Fader { fader_id: u8, value: u8 },
    Pad { pad_id: u8, velocity: u8, pressed: bool },
    SmartStrip { strip_id: u8, value: u8 },
    Encoder { encoder_id: u8, delta: i8 },
}

/// A control of a surface: its kind and its number.
#[derive(Clone, Copy, Debug, PartialEq, Eq, Structural)]
pub enum ControlKey {
    Button(u8),
    Knob(u8),
    Fader(u8),
    Pad(u8),
    Strip(u8),
    Encoder(u8),
}

impl ControlKey {
    /// The key under which a control is stored: the kind in the high byte,
    /// the number in the low byte.
    pub open spec fn spec_code(self) -> u16 {
        match self {
            ControlKey::Button(i) => i as u16,
            ControlKey::Knob(i) => (0x100 + i) as u16,
            ControlKey::Fader(i) => (0x200 + i) as u16,
            ControlKey::Pad(i) => (0x300 + i) as u16,
            ControlKey::Strip(i) => (0x400 + i) as u16,
            ControlKey::Encoder(i) => (0x500 + i) as u16,
        }
    }

    pub fn code(&self) -> (r: u16)
        ensures
            r == self.spec_code(),
    {
        match self {
            ControlKey::Button(i) => *i as u16,
            ControlKey::Knob(i) => 0x100 + *i as u16,
            ControlKey::Fader(i) => 0x200 + *i as u16,
            ControlKey::Pad(i) => 0x300 + *i as u16,
            ControlKey::Strip(i) => 0x400 + *i as u16,
            ControlKey::Encoder(i) => 0x500 + *i as u16,
        }
    }
}

/// Distinct controls are stored under distinct keys.
pub proof fn lemma_code_injective(a: ControlKey, b: ControlKey)
    ensures
        a.spec_code() == b.spec_code() ==> a == b,
{
}

/// What a control is mapped to.
#[derive(Clone, Copy, Debug, PartialEq, Eq, Structural)]
pub enum MidiControlMapping {
    Note { note: u8, velocity: u8 },
    ControlChange { controller: u8 },
    ProgramChange { program: u8 },
    PitchBend,
    Aftertouch,
}

/// The controls of one surface mapped to MIDI, on one channel.
#[derive(Clone, Debug)]
pub struct MidiMapping {
    pub channel: u8,
    /// Keyed by `ControlKey::code`.
    pub mappings: HashMap<u16, MidiControlMapping>,
}

impl MidiMapping {
    /// What `key` is mapped to, if anything.
    pub open spec fn control(&self, key: ControlKey) -> Option<MidiControlMapping> {
        if self.mappings@.contains_key(key.spec_code()) {
            Some(self.mappings@[key.spec_code()])
        } else {
            None
        }
    }

    /// The whole mapping, as a lookup.
    pub open spec fn controls(&self) -> spec_fn(ControlKey) -> Option<MidiControlMapping> {
        |k: ControlKey| self.control(k)
    }

    pub fn new(channel: u8) -> (r: MidiMapping)
        ensures
            r.channel == channel,
            forall|k: ControlKey| #[trigger] r.control(k) is None,
    {
        MidiMapping { channel, mappings: HashMap::new() }
    }

    /// Maps `key` to `m`, replacing what it was mapped to before.
    pub fn insert(&mut self, key: ControlKey, m: MidiControlMapping)
        ensures
            final(self).channel == old(self).channel,
            final(self).control(key) == Some(m),
            forall|k: ControlKey|
                k != key ==> #[trigger] final(self).control(k) == old(self).control(k),
    {
        let c = key.code();
        self.mappings.insert(c, m);
        assert forall|k: ControlKey| k != key implies #[trigger] self.control(k) == old(
            self,
        ).control(k) by {
            lemma_code_injective(k, key);
        }
    }

    pub fn get(&self, key: ControlKey) -> (r: Option<MidiControlMapping>)
        ensures
            r == self.control(key),
    {
        let c = key.code();
        match self.mappings.get(&c) {
            Some(m) => Some(*m),
            None => None,
        }
    }
}

/// The control change value an encoder step is sent as: the step's two's
/// complement byte plus 64, held at 255.
pub open spec fn encoder_value(delta: i8) -> u8 {
    let raw: int = if delta < 0 {
        delta + 256
    } else {
        delta as int
    };
    if raw + 64 > 255 {
        255
    } else {
        (raw + 64) as u8
    }
}

/// How the Native Instruments surfaces turn a control message into MIDI,
/// given what its control is mapped to.
pub open spec fn ni_translate(
    usb_msg: UsbMessage,
    channel: u8,
    control: spec_fn(ControlKey) -> Option<MidiControlMapping>,
) -> Option<MidiMessage> {
    match usb_msg {
        UsbMessage::Button { button_id, pressed } => match control(
            ControlKey::Button(button_id),
        ) {
            Some(MidiControlMapping::Note { note, velocity }) => Some(
                MidiMessage::NoteOn {
                    channel,
                    note,
                    velocity: if pressed {
                        velocity
                    } else {
                        0
                    },
                },
            ),
            Some(MidiControlMapping::ControlChange { controller }) => Some(
                MidiMessage::ControlChange {
                    channel,
                    controller,
                    value: if pressed {
                        127
                    } else {
                        0
                    },
                },
            ),
            _ => None,
        },
        UsbMessage::Knob { knob_id, value } => match control(ControlKey::Knob(knob_id)) {
            Some(MidiControlMapping::ControlChange { controller }) => Some(
                MidiMessage::ControlChange { channel, controller, value },
            ),
            _ => None,
        },
        UsbMessage::Pad { pad_id, velocity, pressed } => match control(
            ControlKey::Pad(pad_id),
        ) {
            Some(MidiControlMapping::Note { note, .. }) => Some(
                MidiMessage::NoteOn {
                    channel,
                    note,
                    velocity: if pressed {
                        velocity
                    } else {
                        0
                    },
                },
            ),
            _ => None,
        },
        UsbMessage::Fader { fader_id, value } => match control(
            ControlKey::Fader(fader_id),
        ) {
            Some(MidiControlMapping::ControlChange { controller }) => Some(
                MidiMessage::ControlChange { channel, controller, value },
            ),
            Some(MidiControlMapping::PitchBend) => Some(
                MidiMessage::PitchBend { channel, value: (value * 128) as u16 },
            ),
            _ => None,
        },
        UsbMessage::SmartStrip { strip_id, value } => match control(
            ControlKey::Strip(strip_id),
        ) {
            Some(MidiControlMapping::ControlChange { controller }) => Some(
                MidiMessage::ControlChange { channel, controller, value },
            ),
            _ => None,
        },
        UsbMessage::Encoder { encoder_id, delta } => match control(
            ControlKey::Encoder(encoder_id),
        ) {
            Some(MidiControlMapping::ControlChange { controller }) => Some(
                MidiMessage::ControlChange { channel, controller, value: encoder_value(delta) },
            ),
            _ => None,
        },
    }
}

/// The default mapping of the Maschine Jam (0x17cc:0x1500), built up to a
/// number of pads and knobs: three transport buttons, pads on notes from 36,
/// knobs on controllers from 0x10, and the smart strip on pitch bend.
pub open spec fn jam_default_upto(key: ControlKey, pads: int, knobs: int, strip: bool) -> Option<
    MidiControlMapping,
> {
    match key {
        ControlKey::Button(i) => if i == 0 {
            Some(MidiControlMapping::ControlChange { controller: 0x7B })
        } else if i == 1 {
            Some(MidiControlMapping::ControlChange { controller: 0x7C })
        } else if i == 2 {
            Some(MidiControlMapping::ControlChange { controller: 0x7D })
        } else {
            None
        },
        ControlKey::Pad(i) => if i < pads {
            Some(MidiControlMapping::Note { note: (36 + i) as u8, velocity: 100 })
        } else {
            None
        },
        ControlKey::Knob(i) => if i < knobs {
            Some(MidiControlMapping::ControlChange { controller: (0x10 + i) as u8 })
        } else {
            None
        },
        ControlKey::Strip(i) => if strip && i == 0 {
            Some(MidiControlMapping::PitchBend)
        } else {
            None
        },
        _ => None,
    }
}

/// The default mapping of a Native Instruments device: the Maschine Jam's,
/// and nothing for any other device.
pub open spec fn ni_default_control(vid: u16, pid: u16, key: ControlKey) -> Option<
    MidiControlMapping,
> {
    if vid == NATIVE_INSTRUMENTS_VID && pid == MASCHINE_JAM_PID {
        jam_default_upto(key, 16, 8, true)
    } else {
        None
    }
}

/// A strategy for turning control messages into MIDI.
pub trait UsbToMidiTranslator {
    spec fn spec_translate(&self, usb_msg: UsbMessage, mapping: MidiMapping) -> Option<
        MidiMessage,
    >;

    spec fn spec_default_channel(&self, device_vid: u16, device_pid: u16) -> u8;

    spec fn spec_default_control(&self, device_vid: u16, device_pid: u16, key: ControlKey) -> Option<
        MidiControlMapping,
    >;

    fn translate(&self, usb_msg: &UsbMessage, mapping: &MidiMapping) -> (r: Option<MidiMessage>)
        ensures
            r == self.spec_translate(*usb_msg, *mapping),
    ;

    fn get_default_mapping(&self, device_vid: u16, device_pid: u16) -> (r: MidiMapping)
        ensures
            r.channel == self.spec_default_channel(device_vid, device_pid),
            forall|k: ControlKey| #[trigger]
                r.control(k) == self.spec_default_control(device_vid, device_pid, k),
    ;
}

/// The translator for Native Instruments devices.
pub struct NativeInstrumentsTranslator;

impl UsbToMidiTranslator for NativeInstrumentsTranslator {
    open spec fn spec_translate(&self, usb_msg: UsbMessage, mapping: MidiMapping) -> Option<
        MidiMessage,
    > {
        ni_translate(usb_msg, mapping.channel, mapping.controls())
    }

    open spec fn spec_default_channel(&self, device_vid: u16, device_pid: u16) -> u8 {
        0
    }

    open spec fn spec_default_control(
        &self,
        device_vid: u16,
        device_pid: u16,
        key: ControlKey,
    ) -> Option<MidiControlMapping> {
        ni_default_control(device_vid, device_pid, key)
    }

    fn translate(&self, usb_msg: &UsbMessage, mapping: &MidiMapping) -> (r: Option<MidiMessage>) {
        let channel = mapping.channel;
        match usb_msg {
            UsbMessage::Button { button_id, pressed } => {
                match mapping.get(ControlKey::Button(*button_id)) {
                    Some(MidiControlMapping::Note { note, velocity }) => {
                        let midi_velocity = if *pressed {
                            velocity
                        } else {
                            0
                        };
                        Some(MidiMessage::NoteOn { channel, note, velocity: midi_velocity })
                    },
                    Some(MidiControlMapping::ControlChange { controller }) => {
                        let value = if *pressed {
                            127
                        } else {
                            0
                        };
                        Some(MidiMessage::ControlChange { channel, controller, value })
                    },
                    _ => None,
                }
            },
            UsbMessage::Knob { knob_id, value } => {
                match mapping.get(ControlKey::Knob(*knob_id)) {
                    Some(MidiControlMapping::ControlChange { controller }) => {
                        Some(MidiMessage::ControlChange { channel, controller, value: *value })
                    },
                    _ => None,
                }
            },
            UsbMessage::Pad { pad_id, velocity, pressed } => {
                match mapping.get(ControlKey::Pad(*pad_id)) {
                    Some(MidiControlMapping::Note { note, .. }) => {
                        let midi_velocity = if *pressed {
                            *velocity
                        } else {
                            0
                        };
                        Some(MidiMessage::NoteOn { channel, note, velocity: midi_velocity })
                    },
                    _ => None,
                }
            },
            UsbMessage::Fader { fader_id, value } => {
                match mapping.get(ControlKey::Fader(*fader_id)) {
                    Some(MidiControlMapping::ControlChange { controller }) => {
                        Some(MidiMessage::ControlChange { channel, controller, value: *value })
                    },
                    Some(MidiControlMapping::PitchBend) => {
                        // a 7-bit value widened to the 14-bit range
                        let pitch_value = (*value as u16) * 128;
                        Some(MidiMessage::PitchBend { channel, value: pitch_value })
                    },
                    _ => None,
                }
            },
            UsbMessage::SmartStrip { strip_id, value } => {
                match mapping.get(ControlKey::Strip(*strip_id)) {
                    Some(MidiControlMapping::ControlChange { controller }) => {
                        Some(MidiMessage::ControlChange { channel, controller, value: *value })
                    },
                    _ => None,
                }
            },
            UsbMessage::Encoder { encoder_id, delta } => {
                match mapping.get(ControlKey::Encoder(*encoder_id)) {
                    Some(MidiControlMapping::ControlChange { controller }) => {
                        // the step as a byte, centred at 64
                        let raw: u8 = if *delta < 0 {
                            (*delta as i16 + 256) as u8
                        } else {
                            *delta as u8
                        };
                        let value = raw.saturating_add(64);
                        Some(MidiMessage::ControlChange { channel, controller, value })
                    },
                    _ => None,
                }
            },
        }
    }

    fn get_default_mapping(&self, device_vid: u16, device_pid: u16) -> (r: MidiMapping) {
        let mut mapping = MidiMapping::new(0);
        if device_vid == NATIVE_INSTRUMENTS_VID && device_pid == MASCHINE_JAM_PID {
            // transport: stop, play, record
            mapping.insert(
                ControlKey::Button(0),
                MidiControlMapping::ControlChange { controller: 0x7B },
            );
            mapping.insert(
                ControlKey::Button(1),
                MidiControlMapping::ControlChange { controller: 0x7C },
            );
            mapping.insert(
                ControlKey::Button(2),
                MidiControlMapping::ControlChange { controller: 0x7D },
            );
            // pads from C2
            for i in 0..16u8
                invariant
                    mapping.channel == 0,
                    forall|k: ControlKey| #[trigger]
                        mapping.control(k) == jam_default_upto(k, i as int, 0, false),
            {
                mapping.insert(
                    ControlKey::Pad(i),
                    MidiControlMapping::Note { note: 36 + i, velocity: 100 },
                );
            }
            // knobs on controllers 16 to 23
            for i in 0..8u8
                invariant
                    mapping.channel == 0,
                    forall|k: ControlKey| #[trigger]
                        mapping.control(k) == jam_default_upto(k, 16, i as int, false),
            {
                mapping.insert(
                    ControlKey::Knob(i),
                    MidiControlMapping::ControlChange { controller: 0x10 + i },
                );
            }
            mapping.insert(ControlKey::Strip(0), MidiControlMapping::PitchBend);
        }
        mapping
    }
}

} // verus!
