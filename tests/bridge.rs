use foreigninstruments::backend::{
    details, find_interrupt_endpoint, BackendAccessor, BackendAccessorDeviceDetails, BackendKind,
    LibUsbDeviceDetails, LibUsbEndpointDetails, LibUsbEndpointDirection, LibUsbInterfaceDetails,
    LibUsbInterfaceSupportedClass, LibUsbTransferType, AccessorFallbackPolicy,
};
use foreigninstruments::bridge::{
    translate_hid_to_midi, translate_maschine_jam_to_midi, BridgeCoordinator, TranslatorStrategy,
};
use foreigninstruments::device::{DeviceIdentifier, DeviceState};
use foreigninstruments::device_reader::{reader_step, ReadOutcome, ReaderAction};
use foreigninstruments::events::HidEvent;
use foreigninstruments::instruments::{Accessor, DummyInstrument, Instrument};
use foreigninstruments::midi::{MidiMessage, UsbMessage};
use foreigninstruments::midi_mapping::{MidiMapping, MidiMappingConfig, PatternByte};
use foreigninstruments::usb_midi_mapper::{
    MaschineJamMidiBridge, MaschineJamParser, MidiEnabledRusbHidEventHandler,
};

fn jam_report(position5: u8, position7: u8) -> Vec<u8> {
    let mut r = vec![0u8; 17];
    r[0] = 0x01;
    r[6] = position5;
    r[8] = position7;
    r
}

#[test]
fn arrival_then_read_failure_disconnects() {
    let mut c = BridgeCoordinator::new(TranslatorStrategy::HidReports);
    assert!(c.registry.get_device(0x17cc, 0x1500).is_none());
    c.handle_event(HidEvent::DeviceConnected { vendor_id: 0x17cc, product_id: 0x1500 });
    let d = c.registry.get_device(0x17cc, 0x1500).unwrap();
    assert_eq!(d.state, DeviceState::Active);
    assert_eq!(d.name, "Device 17cc:1500");
    let id = DeviceIdentifier::new(0x17cc, 0x1500);
    match reader_step(id, ReadOutcome::Failed) {
        ReaderAction::Finish(event) => {
            c.handle_event(event);
        }
        other => panic!("unexpected {:?}", other),
    }
    assert_eq!(c.registry.get_device(0x17cc, 0x1500).unwrap().state, DeviceState::Disconnected);
    assert_eq!(c.registry.get_all_devices().len(), 1);
}

#[test]
fn error_event_records_diagnostic() {
    let mut c = BridgeCoordinator::new(TranslatorStrategy::HidReports);
    c.handle_event(HidEvent::Error { vendor_id: 1, product_id: 2, error: String::new() });
    let d = c.registry.get_device(1, 2).unwrap();
    assert_eq!(d.state, DeviceState::Error("I/O error".to_string()));
    assert_eq!(d.name, "Device 0001:0002");
    c.handle_event(HidEvent::Error { vendor_id: 1, product_id: 2, error: "pipe".to_string() });
    assert_eq!(c.registry.get_device(1, 2).unwrap().state, DeviceState::Error("pipe".to_string()));
}

#[test]
fn reader_steps() {
    let id = DeviceIdentifier::new(1, 2);
    assert!(matches!(reader_step(id, ReadOutcome::Timeout), ReaderAction::Continue));
    assert!(matches!(reader_step(id, ReadOutcome::Data(vec![])), ReaderAction::Continue));
    match reader_step(id, ReadOutcome::Data(vec![7, 8])) {
        ReaderAction::Emit(HidEvent::InputReport { vendor_id: 1, product_id: 2, data }) => {
            assert_eq!(data, vec![7, 8])
        }
        other => panic!("unexpected {:?}", other),
    }
}

#[test]
fn interleaved_devices_keep_their_order() {
    let rules = MidiMappingConfig {
        mapping: vec![
            MidiMapping {
                vendor_id: Some(1),
                product_id: None,
                usb_pattern: vec![PatternByte::Wildcard],
                midi_message: vec![0xA1],
            },
            MidiMapping {
                vendor_id: Some(2),
                product_id: None,
                usb_pattern: vec![PatternByte::Exact(1)],
                midi_message: vec![0xB1],
            },
            MidiMapping {
                vendor_id: Some(2),
                product_id: None,
                usb_pattern: vec![PatternByte::Exact(2)],
                midi_message: vec![0xB2],
            },
        ],
    };
    let mut c = BridgeCoordinator::new(TranslatorStrategy::Rules(rules));
    let report = |v: u16, b: u8| HidEvent::InputReport { vendor_id: v, product_id: 0, data: vec![b] };
    let events = vec![report(2, 1), report(1, 0), report(1, 5), report(2, 2), report(1, 9)];
    let mut out = Vec::new();
    for e in events {
        out.extend(c.handle_event(e));
    }
    assert_eq!(out, vec![vec![0xB1], vec![0xA1], vec![0xA1], vec![0xB2], vec![0xA1]]);
    let second: Vec<Vec<u8>> = out.iter().filter(|m| m[0] >= 0xB0).cloned().collect();
    assert_eq!(second, vec![vec![0xB1], vec![0xB2]]);
}

#[test]
fn hid_report_layout() {
    assert_eq!(translate_maschine_jam_to_midi(&[0x01, 5, 1]), Some(vec![0x90, 5, 0x7F]));
    assert_eq!(translate_maschine_jam_to_midi(&[0x01, 5, 0]), Some(vec![0x80, 5, 0x00]));
    assert_eq!(translate_maschine_jam_to_midi(&[0x02, 7, 99]), Some(vec![0xB0, 7, 99]));
    assert_eq!(translate_maschine_jam_to_midi(&[0x02, 7]), None);
    assert_eq!(translate_maschine_jam_to_midi(&[0x03, 7, 1]), None);
    assert_eq!(translate_hid_to_midi(0x17cc, 0x1500, &[0x02, 1, 2]), Some(vec![0xB0, 1, 2]));
    assert_eq!(translate_hid_to_midi(0x17cc, 0x1501, &[0x02, 1, 2]), None);
    let mut c = BridgeCoordinator::new(TranslatorStrategy::HidReports);
    let out = c.handle_event(HidEvent::InputReport { vendor_id: 0x17cc, product_id: 0x1500, data: vec![1, 3, 1] });
    assert_eq!(out, vec![vec![0x90, 3, 0x7F]]);
}

#[test]
fn jam_parser_reads_buttons_and_knobs() {
    let mut p = MaschineJamParser::new();
    assert_eq!(p.parse_usb_data(&jam_report(0x10, 0x00)), vec![UsbMessage::Button { button_id: 5, pressed: true }]);
    assert_eq!(p.parse_usb_data(&jam_report(0x10, 0x00)), vec![]);
    assert_eq!(
        p.parse_usb_data(&jam_report(0x00, 0x33)),
        vec![
            UsbMessage::Button { button_id: 5, pressed: false },
            UsbMessage::Knob { knob_id: 7, value: 0x33 },
        ]
    );
    assert_eq!(p.parse_usb_data(&jam_report(0x00, 0x00)), vec![]);
    assert_eq!(p.parse_usb_data(&[0x02; 17]), vec![]);
    assert_eq!(p.parse_usb_data(&[0x01; 16]), vec![]);
    assert_eq!(p.parse_usb_data(&jam_report(0x70, 0x00)), vec![]);
}

#[test]
fn jam_bridge_and_handler() {
    let mut b = MaschineJamMidiBridge::new();
    assert_eq!(
        b.process_usb_data(&jam_report(0x10, 0)),
        vec![MidiMessage::ControlChange { channel: 0, controller: 0x7B, value: 127 }]
    );
    let mut h = MidiEnabledRusbHidEventHandler::new();
    let input = || HidEvent::InputReport { vendor_id: 0x17cc, product_id: 0x1500, data: jam_report(0x10, 0) };
    assert!(h.handle_event(input()).is_empty());
    h.handle_event(HidEvent::DeviceConnected { vendor_id: 0x17cc, product_id: 0x1500 });
    assert_eq!(
        h.handle_event(input()),
        vec![MidiMessage::ControlChange { channel: 0, controller: 0x7B, value: 127 }]
    );
    h.handle_event(HidEvent::DeviceDisconnected { vendor_id: 0x17cc, product_id: 0x1500 });
    assert!(h.handle_event(input()).is_empty());
    let mut c = BridgeCoordinator::new(TranslatorStrategy::MaschineJam(MidiEnabledRusbHidEventHandler::new()));
    c.handle_event(HidEvent::DeviceConnected { vendor_id: 0x17cc, product_id: 0x1500 });
    assert_eq!(c.handle_event(input()), vec![vec![0xB0, 0x7B, 127]]);
}

fn ep(address: u8, direction: LibUsbEndpointDirection, transfer_type: LibUsbTransferType) -> LibUsbEndpointDetails {
    LibUsbEndpointDetails { address, direction, transfer_type }
}

#[test]
fn first_interrupt_in_endpoint_across_interfaces() {
    let mut d = LibUsbDeviceDetails::new();
    assert_eq!(find_interrupt_endpoint(&d), None);
    d.interfaces.push(LibUsbInterfaceDetails {
        number: 0,
        device_class: LibUsbInterfaceSupportedClass::UNSUPPORTED,
        endpoints: vec![
            ep(0x01, LibUsbEndpointDirection::OUT, LibUsbTransferType::Interrupt),
            ep(0x82, LibUsbEndpointDirection::IN, LibUsbTransferType::Bulk),
        ],
    });
    assert_eq!(find_interrupt_endpoint(&d), None);
    d.interfaces.push(LibUsbInterfaceDetails {
        number: 2,
        device_class: LibUsbInterfaceSupportedClass::HID,
        endpoints: vec![
            ep(0x03, LibUsbEndpointDirection::OUT, LibUsbTransferType::Interrupt),
            ep(0x84, LibUsbEndpointDirection::IN, LibUsbTransferType::Interrupt),
            ep(0x85, LibUsbEndpointDirection::IN, LibUsbTransferType::Interrupt),
        ],
    });
    d.interfaces.push(LibUsbInterfaceDetails {
        number: 3,
        device_class: LibUsbInterfaceSupportedClass::HID,
        endpoints: vec![ep(0x86, LibUsbEndpointDirection::IN, LibUsbTransferType::Interrupt)],
    });
    assert_eq!(find_interrupt_endpoint(&d), Some((2, 0x84)));
}

#[test]
fn instrument_details_and_backends() {
    let k = details();
    assert_eq!(k.name, "Komplete Kontrol S25");
    assert_eq!(k.accessor_details_list.len(), 1);
    assert_eq!(k.accessor_details_list[0].watchdog_policy.retry_attempts, 1);
    assert!(matches!(k.accessor_details_list[0].watchdog_policy.fallback_policy, AccessorFallbackPolicy::TerminateOnFailure()));
    let dummy = BackendAccessor::new(&k.accessor_details_list[0].backend_device_details);
    assert_eq!(dummy.get_discriminant(), BackendKind::Dummy);
    let usb = BackendAccessor::new(&BackendAccessorDeviceDetails::BackendLibUsbDeviceDetails(LibUsbDeviceDetails::new()));
    assert_eq!(usb.get_discriminant(), BackendKind::LibUsb);
    let inst = DummyInstrument::new();
    assert_eq!(inst.get_name(), "Dummy Instrument");
    assert_eq!(inst.get_accessor().ok().map(|a| a.initialize().ok()), Some(Some(true)));
}
