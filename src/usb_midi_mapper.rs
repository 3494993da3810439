//! The Maschine Jam: reading its raw reports as control messages, and its
//! MIDI mapping.

use crate::device::{is_native_instruments_device, MASCHINE_JAM_PID, NATIVE_INSTRUMENTS_VID};
use crate::events::RusbHidEvent;
use crate::midi::{
    ni_translate, ControlKey, MidiControlMapping, MidiMapping, MidiMessage,
    NativeInstrumentsTranslator, UsbMessage, UsbToMidiTranslator,
};
use std::collections::HashMap;
use vstd::prelude::*;

verus! {

broadcast use vstd::std_specs::hash::group_hash_axioms;

/// What a parser remembers between reports: whether each button position
/// was last seen pressed, and the last value seen at each position.
pub struct JamParserState {
    pub buttons: Map<u8, bool>,
    pub last: Map<u8, u8>,
}

/// Position 5 carries the buttons, with these observed values.
pub open spec fn is_button_value(position: int, value: u8) -> bool {
    position == 5 && (value == 0x00 || value == 0x10 || value == 0x20 || value == 0x30 || value
        == 0x40 || value == 0x50 || value == 0x60)
}

/// Positions 7 to 15 carry knobs and faders.
pub open spec fn is_knob_position(position: int) -> bool {
    7 <= position <= 15
}

pub open spec fn was_pressed(st: JamParserState, id: u8) -> bool {
    st.buttons.contains_key(id) && st.buttons[id]
}

/// Whether the byte at `position` changes the state of its button.
pub open spec fn button_changes(st: JamParserState, position: int, value: u8) -> bool {
    is_button_value(position, value) && (value != 0) != was_pressed(st, position as u8)
}

/// Whether the byte at `position` is a new value of a knob.
pub open spec fn knob_changes(st: JamParserState, position: int, value: u8) -> bool {
    let id = position as u8;
    &&& st.last.contains_key(id)
    &&& value != st.last[id]
    &&& value != 0
    &&& is_knob_position(position)
}

/// The messages that the byte `value` at data position `position` gives.
pub open spec fn position_messages(st: JamParserState, position: int, value: u8) -> Seq<
    UsbMessage,
> {
    let id = position as u8;
    let button = if button_changes(st, position, value) {
        seq![UsbMessage::Button { button_id: id, pressed: value != 0 }]
    } else {
        Seq::empty()
    };
    let knob = if knob_changes(st, position, value) {
        seq![UsbMessage::Knob { knob_id: id, value }]
    } else {
        Seq::empty()
    };
    button + knob
}

/// The parser state after the byte `value` at data position `position`.
pub open spec fn position_state(st: JamParserState, position: int, value: u8) -> JamParserState {
    let id = position as u8;
    JamParserState {
        buttons: if button_changes(st, position, value) {
            st.buttons.insert(id, value != 0)
        } else {
            st.buttons
        },
        last: st.last.insert(id, value),
    }
}

/// The messages and state after the first `n` data positions of `data`
/// (data position `p` is byte `p + 1`, after the header).
pub open spec fn parse_positions(st: JamParserState, data: Seq<u8>, n: int) -> (
    Seq<UsbMessage>,
    JamParserState,
)
    decreases n,
{
    if n <= 0 {
        (Seq::empty(), st)
    } else {
        let (msgs, mid) = parse_positions(st, data, n - 1);
        (msgs + position_messages(mid, n - 1, data[n]), position_state(mid, n - 1, data[n]))
    }
}

/// The length of a Maschine Jam input report, header included.
pub const JAM_REPORT_LEN: usize = 17;

/// A report is read when it has the full length and header 0x01; its 16
/// data bytes are read in order. Any other report gives nothing and leaves
/// the state alone.
pub open spec fn parse_report(st: JamParserState, data: Seq<u8>) -> (
    Seq<UsbMessage>,
    JamParserState,
) {
    if data.len() < JAM_REPORT_LEN || data[0] != 0x01 {
        (Seq::empty(), st)
    } else {
        parse_positions(st, data, 16)
    }
}

/// Reads Maschine Jam input reports as control messages, remembering
/// button states and last values to report changes only.
pub struct MaschineJamParser {
    button_states: HashMap<u8, bool>,
    last_values: HashMap<u8, u8>,
}

impl View for MaschineJamParser {
    type V = JamParserState;

    closed spec fn view(&self) -> JamParserState {
        JamParserState { buttons: self.button_states@, last: self.last_values@ }
    }
}

impl MaschineJamParser {
    pub fn new() -> (r: MaschineJamParser)
        ensures
            r@.buttons == Map::<u8, bool>::empty(),
            r@.last == Map::<u8, u8>::empty(),
    {
        MaschineJamParser { button_states: HashMap::new(), last_values: HashMap::new() }
    }

    /// Reads one raw report; returns the button presses and releases and the
    /// knob changes it shows, in position order.
    pub fn parse_usb_data(&mut self, data: &[u8]) -> (r: Vec<UsbMessage>)
        ensures
            (r@, final(self)@) == parse_report(old(self)@, data@),
    {
        let mut messages: Vec<UsbMessage> = Vec::new();
        if data.len() < JAM_REPORT_LEN || data[0] != 0x01 {
            return messages;
        }
        let ghost start = self@;
        let mut position: usize = 0;
        while position < 16
            invariant
                data@.len() >= JAM_REPORT_LEN,
                position <= 16,
                (messages@, self@) == parse_positions(start, data@, position as int),
            decreases 16 - position,
        {
            let value = data[position + 1];
            let button_id = position as u8;
            let ghost before = self@;
            let ghost earlier = messages@;
            if self.is_button_byte(position, value) {
                let was_pressed = match self.button_states.get(&button_id) {
                    Some(p) => *p,
                    None => false,
                };
                let is_pressed = value != 0;
                if is_pressed != was_pressed {
                    self.button_states.insert(button_id, is_pressed);
                    messages.push(UsbMessage::Button { button_id, pressed: is_pressed });
                }
            }
            let ghost after_button = messages@;
            match self.last_values.get(&button_id) {
                Some(last) => {
                    let last_value = *last;
                    if value != last_value && value != 0 {
                        // knob and fader positions coincide: such a change
                        // is read as a knob
                        if self.is_knob_byte(position, value) {
                            messages.push(UsbMessage::Knob { knob_id: button_id, value });
                        } else if self.is_fader_byte(position, value) {
                            messages.push(UsbMessage::Fader { fader_id: button_id, value });
                        }
                    }
                },
                None => {},
            }
            self.last_values.insert(button_id, value);
            proof {
                let p = position as int;
                assert(button_id == p as u8);
                assert(messages@ =~= earlier + position_messages(before, p, value));
                assert(self@ == position_state(before, p, value));
            }
            position = position + 1;
        }
        messages
    }

    /// Whether the byte at data position `position` carries buttons.
    fn is_button_byte(&self, position: usize, value: u8) -> (r: bool)
        ensures
            r == is_button_value(position as int, value),
    {
        position == 5 && (value == 0x00 || value == 0x10 || value == 0x20 || value == 0x30
            || value == 0x40 || value == 0x50 || value == 0x60)
    }

    /// Whether the byte at data position `position` carries a knob.
    fn is_knob_byte(&self, position: usize, value: u8) -> (r: bool)
        ensures
            r == is_knob_position(position as int),
    {
        position >= 7 && position <= 15
    }

    /// Whether the byte at data position `position` carries a fader.
    fn is_fader_byte(&self, position: usize, value: u8) -> (r: bool)
        ensures
            r == is_knob_position(position as int),
    {
        position >= 7 && position <= 15
    }
}

/// The Maschine Jam's MIDI mapping, built up to a number of knobs and pads:
/// transport buttons at positions 5 to 8, knobs on controllers from 0x10,
/// pads on notes from 36.
pub open spec fn jam_control_upto(key: ControlKey, knobs: int, pads: int) -> Option<
    MidiControlMapping,
> {
    match key {
        ControlKey::Button(i) => if i == 5 {
            Some(MidiControlMapping::ControlChange { controller: 0x7B })
        } else if i == 6 {
            Some(MidiControlMapping::ControlChange { controller: 0x7C })
        } else if i == 7 {
            Some(MidiControlMapping::ControlChange { controller: 0x7D })
        } else if i == 8 {
            Some(MidiControlMapping::ControlChange { controller: 0x7E })
        } else {
            None
        },
        ControlKey::Knob(i) => if i < knobs {
            Some(MidiControlMapping::ControlChange { controller: (0x10 + i) as u8 })
        } else {
            None
        },
        ControlKey::Pad(i) => if i < pads {
            Some(MidiControlMapping::Note { note: (36 + i) as u8, velocity: 100 })
        } else {
            None
        },
        _ => None,
    }
}

pub open spec fn jam_control(key: ControlKey) -> Option<MidiControlMapping> {
    jam_control_upto(key, 8, 16)
}

/// The MIDI messages that control messages of the Maschine Jam give: each
/// one translated on channel 0 with the Jam's mapping, those without a
/// mapping left out.
pub open spec fn jam_midi(msgs: Seq<UsbMessage>) -> Seq<MidiMessage> {
    msgs.filter_map(|m: UsbMessage| ni_translate(m, 0, |k: ControlKey| jam_control(k)))
}

/// The MIDI mapping of the Maschine Jam.
pub struct MaschineJamMidiMapping {
    pub mapping: MidiMapping,
}

impl MaschineJamMidiMapping {
    pub fn new() -> (r: MaschineJamMidiMapping)
        ensures
            r.mapping.channel == 0,
            forall|k: ControlKey| #[trigger] r.mapping.control(k) == jam_control(k),
    {
        let mut mapping = MidiMapping::new(0);
        // transport: stop, play, record, loop
        mapping.insert(ControlKey::Button(5), MidiControlMapping::ControlChange { controller: 0x7B });
        mapping.insert(ControlKey::Button(6), MidiControlMapping::ControlChange { controller: 0x7C });
        mapping.insert(ControlKey::Button(7), MidiControlMapping::ControlChange { controller: 0x7D });
        mapping.insert(ControlKey::Button(8), MidiControlMapping::ControlChange { controller: 0x7E });
        // knobs on controllers 16 to 23
        for i in 0..8u8
            invariant
                mapping.channel == 0,
                forall|k: ControlKey| #[trigger] mapping.control(k) == jam_control_upto(k, i as int, 0),
        {
            mapping.insert(
                ControlKey::Knob(i),
                MidiControlMapping::ControlChange { controller: 0x10 + i },
            );
        }
        // pads from C2
        for i in 0..16u8
            invariant
                mapping.channel == 0,
                forall|k: ControlKey| #[trigger] mapping.control(k) == jam_control_upto(k, 8, i as int),
        {
            mapping.insert(ControlKey::Pad(i), MidiControlMapping::Note { note: 36 + i, velocity: 100 });
        }
        MaschineJamMidiMapping { mapping }
    }
}

/// Turns the raw reports of one Maschine Jam into MIDI messages.
pub struct MaschineJamMidiBridge {
    parser: MaschineJamParser,
    mapping: MaschineJamMidiMapping,
    translator: NativeInstrumentsTranslator,
}

impl View for MaschineJamMidiBridge {
    type V = JamParserState;

    closed spec fn view(&self) -> JamParserState {
        self.parser@
    }
}

impl MaschineJamMidiBridge {
    /// The bridge translates with the Jam's mapping.
    pub closed spec fn well_formed(&self) -> bool {
        &&& self.mapping.mapping.channel == 0
        &&& forall|k: ControlKey| #[trigger] self.mapping.mapping.control(k) == jam_control(k)
    }

    pub fn new() -> (r: MaschineJamMidiBridge)
        ensures
            r.well_formed(),
            r@.buttons == Map::<u8, bool>::empty(),
            r@.last == Map::<u8, u8>::empty(),
    {
        MaschineJamMidiBridge {
            parser: MaschineJamParser::new(),
            mapping: MaschineJamMidiMapping::new(),
            translator: NativeInstrumentsTranslator,
        }
    }

    /// Reads one raw report and returns the MIDI messages it gives, in order.
    pub fn process_usb_data(&mut self, data: &[u8]) -> (r: Vec<MidiMessage>)
        requires
            old(self).well_formed(),
        ensures
            final(self).well_formed(),
            final(self)@ == parse_report(old(self)@, data@).1,
            r@ == jam_midi(parse_report(old(self)@, data@).0),
    {
        let usb_messages = self.parser.parse_usb_data(data);
        let mut out: Vec<MidiMessage> = Vec::new();
        proof {
            assert(self.mapping.mapping.controls() =~= |k: ControlKey| jam_control(k));
        }
        let mut i: usize = 0;
        while i < usb_messages.len()
            invariant
                self.well_formed(),
                i <= usb_messages@.len(),
                self.mapping.mapping.controls() == |k: ControlKey| jam_control(k),
                out@ == jam_midi(usb_messages@.subrange(0, i as int)),
            decreases usb_messages@.len() - i,
        {
            let m = usb_messages[i];
            let translated = self.translator.translate(&m, &self.mapping.mapping);
            proof {
                let upto = usb_messages@.subrange(0, i + 1);
                assert(upto.drop_last() =~= usb_messages@.subrange(0, i as int));
                assert(upto.last() == m);
            }
            match translated {
                Some(midi) => {
                    out.push(midi);
                },
                None => {},
            }
            i = i + 1;
        }
        assert(usb_messages@.subrange(0, i as int) =~= usb_messages@);
        out
    }
}

/// Whether a device is a Maschine Jam.
pub open spec fn is_jam(vendor_id: u16, product_id: u16) -> bool {
    vendor_id == NATIVE_INSTRUMENTS_VID && product_id == MASCHINE_JAM_PID
}

/// Feeds the events of the rusb backend to a Maschine Jam bridge: a bridge
/// starts fresh when a Jam connects and is dropped when it leaves.
pub struct MidiEnabledRusbHidEventHandler {
    midi_bridge: Option<MaschineJamMidiBridge>,
}

impl View for MidiEnabledRusbHidEventHandler {
    type V = Option<JamParserState>;

    closed spec fn view(&self) -> Option<JamParserState> {
        match self.midi_bridge {
            Some(b) => Some(b@),
            None => None,
        }
    }
}

/// The parser state of a freshly made bridge.
pub open spec fn fresh_parser() -> JamParserState {
    JamParserState { buttons: Map::empty(), last: Map::empty() }
}

/// The parser state of a Maschine Jam event handler after `event`: fresh
/// when a Jam connects, gone when it leaves, advanced by a report while
/// there is one.
pub open spec fn handler_next(st: Option<JamParserState>, event: RusbHidEvent) -> Option<
    JamParserState,
> {
    match event {
        RusbHidEvent::DeviceConnected { vendor_id, product_id } => if is_jam(
            vendor_id,
            product_id,
        ) {
            Some(fresh_parser())
        } else {
            st
        },
        RusbHidEvent::DeviceDisconnected { vendor_id, product_id } => if is_jam(
            vendor_id,
            product_id,
        ) {
            None
        } else {
            st
        },
        RusbHidEvent::InputReport { data, .. } => match st {
            Some(s) => Some(parse_report(s, data@).1),
            None => None,
        },
        RusbHidEvent::Error { .. } => st,
    }
}

/// The MIDI messages a Maschine Jam event handler sends for `event`: those
/// of a report, while there is a parser.
pub open spec fn handler_output(st: Option<JamParserState>, event: RusbHidEvent) -> Seq<
    MidiMessage,
> {
    match event {
        RusbHidEvent::InputReport { data, .. } => match st {
            Some(s) => jam_midi(parse_report(s, data@).0),
            None => Seq::empty(),
        },
        _ => Seq::empty(),
    }
}

impl MidiEnabledRusbHidEventHandler {
    pub closed spec fn well_formed(&self) -> bool {
        self.midi_bridge matches Some(b) ==> b.well_formed()
    }

    pub fn new() -> (r: MidiEnabledRusbHidEventHandler)
        ensures
            r.well_formed(),
            r@ is None,
    {
        MidiEnabledRusbHidEventHandler { midi_bridge: None }
    }

    /// Starts a fresh bridge.
    pub fn with_midi_bridge(&mut self)
        ensures
            final(self).well_formed(),
            final(self)@ == Some(fresh_parser()),
    {
        let bridge = MaschineJamMidiBridge::new();
        self.midi_bridge = Some(bridge);
        assert(self@ == Some(fresh_parser()));
    }

    /// Handles one event; returns the MIDI messages to send, in order.
    pub fn handle_event(&mut self, event: RusbHidEvent) -> (r: Vec<MidiMessage>)
        requires
            old(self).well_formed(),
        ensures
            final(self).well_formed(),
            final(self)@ == handler_next(old(self)@, event),
            r@ == handler_output(old(self)@, event),
    {
        match event {
            RusbHidEvent::DeviceConnected { vendor_id, product_id } => {
                if is_native_instruments_device(vendor_id, product_id) && product_id
                    == MASCHINE_JAM_PID {
                    self.with_midi_bridge();
                }
                Vec::new()
            },
            RusbHidEvent::DeviceDisconnected { vendor_id, product_id } => {
                if is_native_instruments_device(vendor_id, product_id) && product_id
                    == MASCHINE_JAM_PID {
                    self.midi_bridge = None;
                }
                Vec::new()
            },
            RusbHidEvent::InputReport { data, .. } => {
                match &mut self.midi_bridge {
                    Some(bridge) => bridge.process_usb_data(data.as_slice()),
                    None => Vec::new(),
                }
            },
            RusbHidEvent::Error { .. } => Vec::new(),
        }
    }
}

} // verus!
