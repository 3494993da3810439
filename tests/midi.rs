use foreigninstruments::midi::{
    ControlKey, MidiControlMapping, MidiMapping, MidiMessage, NativeInstrumentsTranslator,
    UsbMessage, UsbToMidiTranslator,
};

#[test]
fn message_encodings() {
    assert_eq!(MidiMessage::NoteOn { channel: 1, note: 60, velocity: 64 }.to_bytes(), vec![0x91, 60, 64]);
    assert_eq!(MidiMessage::NoteOff { channel: 0, note: 60, velocity: 0 }.to_bytes(), vec![0x80, 60, 0]);
    assert_eq!(
        MidiMessage::ControlChange { channel: 15, controller: 7, value: 100 }.to_bytes(),
        vec![0xBF, 7, 100]
    );
    assert_eq!(MidiMessage::ProgramChange { channel: 18, program: 5 }.to_bytes(), vec![0xC2, 5]);
    assert_eq!(MidiMessage::Aftertouch { channel: 3, pressure: 9 }.to_bytes(), vec![0xD3, 9]);
    assert_eq!(MidiMessage::PitchBend { channel: 0, value: 0x2000 }.to_bytes(), vec![0xE0, 0x00, 0x40]);
    assert_eq!(MidiMessage::PitchBend { channel: 17, value: 300 }.to_bytes(), vec![0xE1, 44, 2]);
    assert_eq!(MidiMessage::PitchBend { channel: 0, value: 0xFFFF }.to_bytes(), vec![0xE0, 0x7F, 0x7F]);
}

#[test]
fn default_mapping_of_the_jam() {
    let t = NativeInstrumentsTranslator;
    let m = t.get_default_mapping(0x17CC, 0x1500);
    assert_eq!(m.channel, 0);
    assert_eq!(m.get(ControlKey::Button(1)), Some(MidiControlMapping::ControlChange { controller: 0x7C }));
    assert_eq!(m.get(ControlKey::Pad(15)), Some(MidiControlMapping::Note { note: 51, velocity: 100 }));
    assert_eq!(m.get(ControlKey::Pad(16)), None);
    assert_eq!(m.get(ControlKey::Knob(7)), Some(MidiControlMapping::ControlChange { controller: 0x17 }));
    assert_eq!(m.get(ControlKey::Strip(0)), Some(MidiControlMapping::PitchBend));
    assert_eq!(m.get(ControlKey::Button(3)), None);
    let other = t.get_default_mapping(0x17CC, 0x1501);
    assert_eq!(other.get(ControlKey::Button(0)), None);
    assert_eq!(other.mappings.len(), 0);
}

#[test]
fn translate_buttons_pads_knobs() {
    let t = NativeInstrumentsTranslator;
    let m = t.get_default_mapping(0x17CC, 0x1500);
    assert_eq!(
        t.translate(&UsbMessage::Button { button_id: 0, pressed: true }, &m),
        Some(MidiMessage::ControlChange { channel: 0, controller: 0x7B, value: 127 })
    );
    assert_eq!(
        t.translate(&UsbMessage::Button { button_id: 0, pressed: false }, &m),
        Some(MidiMessage::ControlChange { channel: 0, controller: 0x7B, value: 0 })
    );
    assert_eq!(
        t.translate(&UsbMessage::Pad { pad_id: 2, velocity: 90, pressed: true }, &m),
        Some(MidiMessage::NoteOn { channel: 0, note: 38, velocity: 90 })
    );
    assert_eq!(
        t.translate(&UsbMessage::Pad { pad_id: 2, velocity: 90, pressed: false }, &m),
        Some(MidiMessage::NoteOn { channel: 0, note: 38, velocity: 0 })
    );
    assert_eq!(
        t.translate(&UsbMessage::Knob { knob_id: 3, value: 9 }, &m),
        Some(MidiMessage::ControlChange { channel: 0, controller: 0x13, value: 9 })
    );
    assert_eq!(t.translate(&UsbMessage::Knob { knob_id: 9, value: 9 }, &m), None);
    assert_eq!(t.translate(&UsbMessage::Fader { fader_id: 0, value: 9 }, &m), None);
}

#[test]
fn translate_note_button_strip_fader_encoder() {
    let t = NativeInstrumentsTranslator;
    let mut m = MidiMapping::new(2);
    m.insert(ControlKey::Button(4), MidiControlMapping::Note { note: 40, velocity: 99 });
    m.insert(ControlKey::Fader(1), MidiControlMapping::PitchBend);
    m.insert(ControlKey::Fader(2), MidiControlMapping::ControlChange { controller: 8 });
    m.insert(ControlKey::Strip(0), MidiControlMapping::ControlChange { controller: 9 });
    m.insert(ControlKey::Encoder(0), MidiControlMapping::ControlChange { controller: 10 });
    m.insert(ControlKey::Pad(0), MidiControlMapping::ControlChange { controller: 11 });
    assert_eq!(
        t.translate(&UsbMessage::Button { button_id: 4, pressed: true }, &m),
        Some(MidiMessage::NoteOn { channel: 2, note: 40, velocity: 99 })
    );
    assert_eq!(
        t.translate(&UsbMessage::Button { button_id: 4, pressed: false }, &m),
        Some(MidiMessage::NoteOn { channel: 2, note: 40, velocity: 0 })
    );
    assert_eq!(
        t.translate(&UsbMessage::Fader { fader_id: 1, value: 64 }, &m),
        Some(MidiMessage::PitchBend { channel: 2, value: 8192 })
    );
    assert_eq!(
        t.translate(&UsbMessage::Fader { fader_id: 2, value: 5 }, &m),
        Some(MidiMessage::ControlChange { channel: 2, controller: 8, value: 5 })
    );
    assert_eq!(
        t.translate(&UsbMessage::SmartStrip { strip_id: 0, value: 77 }, &m),
        Some(MidiMessage::ControlChange { channel: 2, controller: 9, value: 77 })
    );
    let enc = |delta: i8| t.translate(&UsbMessage::Encoder { encoder_id: 0, delta }, &m);
    assert_eq!(enc(10), Some(MidiMessage::ControlChange { channel: 2, controller: 10, value: 74 }));
    assert_eq!(enc(127), Some(MidiMessage::ControlChange { channel: 2, controller: 10, value: 191 }));
    assert_eq!(enc(-1), Some(MidiMessage::ControlChange { channel: 2, controller: 10, value: 255 }));
    assert_eq!(enc(-128), Some(MidiMessage::ControlChange { channel: 2, controller: 10, value: 192 }));
    assert_eq!(t.translate(&UsbMessage::Pad { pad_id: 0, velocity: 1, pressed: true }, &m), None);
}

#[test]
fn mapping_insert_replaces() {
    let mut m = MidiMapping::new(0);
    m.insert(ControlKey::Knob(1), MidiControlMapping::PitchBend);
    m.insert(ControlKey::Knob(1), MidiControlMapping::Aftertouch);
    assert_eq!(m.get(ControlKey::Knob(1)), Some(MidiControlMapping::Aftertouch));
    assert_eq!(m.get(ControlKey::Button(1)), None);
    assert_eq!(ControlKey::Knob(1).code(), 0x101);
    assert_ne!(ControlKey::Button(1).code(), ControlKey::Knob(1).code());
}
