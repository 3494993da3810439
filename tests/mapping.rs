use foreigninstruments::device::DeviceIdentifier;
use foreigninstruments::midi_mapping::{
    ConfigError, MidiMapping, MidiMappingConfig, PatternByte, PatternValue, RawMapping,
};

fn rule(vendor: Option<u16>, product: Option<u16>, pattern: Vec<PatternByte>, msg: Vec<u8>) -> MidiMapping {
    MidiMapping { vendor_id: vendor, product_id: product, usb_pattern: pattern, midi_message: msg }
}

fn jam() -> DeviceIdentifier {
    DeviceIdentifier::new(0x17cc, 0x1500)
}

fn button_range_rule() -> MidiMapping {
    rule(
        None,
        None,
        vec![
            PatternByte::Exact(0x01),
            PatternByte::Wildcard,
            PatternByte::Wildcard,
            PatternByte::Wildcard,
            PatternByte::Wildcard,
            PatternByte::Range { min: 0x10, max: 0x60 },
        ],
        vec![0xB0, 0x7B, 0x7F],
    )
}

#[test]
fn button_report_in_range_fires_once() {
    let config = MidiMappingConfig { mapping: vec![button_range_rule()] };
    let mut report = vec![0u8; 17];
    report[0] = 0x01;
    report[5] = 0x10;
    let out = config.translate(&report, jam());
    assert_eq!(out, vec![vec![0xB0, 0x7B, 0x7F]]);
    report[5] = 0x70;
    let out = config.translate(&report, jam());
    assert!(out.is_empty());
}

#[test]
fn short_report_never_matches() {
    let r = button_range_rule();
    for len in 0..6 {
        let report = vec![0x01u8, 0, 0, 0, 0, 0x10][..len].to_vec();
        assert!(!r.matches(&report, jam()));
    }
    assert!(r.matches(&[0x01, 0, 0, 0, 0, 0x10], jam()));
}

#[test]
fn range_accepts_bounds_only() {
    let p = PatternByte::Range { min: 10, max: 20 };
    assert!(p.matches(10));
    assert!(p.matches(20));
    assert!(!p.matches(21));
    assert!(!p.matches(9));
    let top = PatternByte::Range { min: 0, max: 255 };
    assert!(top.matches(255));
    assert!(PatternByte::Exact(7).matches(7));
    assert!(!PatternByte::Exact(7).matches(8));
    assert!(PatternByte::Wildcard.matches(0));
}

#[test]
fn translate_fires_all_matching_rules_in_order() {
    let config = MidiMappingConfig {
        mapping: vec![
            rule(Some(0x17cc), None, vec![PatternByte::Exact(1)], vec![1]),
            rule(Some(0x1235), None, vec![PatternByte::Exact(1)], vec![2]),
            rule(None, Some(0x1500), vec![], vec![3]),
            rule(None, None, vec![PatternByte::Exact(2)], vec![4]),
            rule(None, None, vec![PatternByte::Wildcard, PatternByte::Exact(9)], vec![5]),
        ],
    };
    let out = config.translate(&[1, 9], jam());
    assert_eq!(out, vec![vec![1], vec![3], vec![5]]);
    let other = DeviceIdentifier::new(0x1235, 0x0001);
    assert_eq!(config.translate(&[1], other), vec![vec![2]]);
    assert!(config.translate(&[3], other).is_empty());
}

#[test]
fn empty_pattern_matches_any_report_of_its_device() {
    let r = rule(Some(0x17cc), Some(0x1500), vec![], vec![0x90, 60, 1]);
    assert!(r.matches(&[], jam()));
    assert!(r.matches(&[5, 6, 7], jam()));
    assert!(!r.matches(&[5], DeviceIdentifier::new(0x17cc, 0x1501)));
}

fn raw(pattern: Vec<PatternValue>) -> RawMapping {
    RawMapping { vendor_id: None, product_id: None, usb_pattern: pattern, midi_message: vec![0x90, 1, 2] }
}

#[test]
fn inverted_range_fails_whole_load() {
    let file = vec![
        raw(vec![PatternValue::Integer(1)]),
        raw(vec![PatternValue::Table { min: Some(10), max: Some(5) }]),
    ];
    assert_eq!(MidiMappingConfig::load(&file).err(), Some(ConfigError::InvertedRange));
}

#[test]
fn load_reads_every_pattern_kind() {
    let file = vec![RawMapping {
        vendor_id: Some(0x17cc),
        product_id: None,
        usb_pattern: vec![
            PatternValue::Integer(255),
            PatternValue::Text("any".to_string()),
            PatternValue::Table { min: Some(0), max: Some(0x60) },
        ],
        midi_message: vec![0xB0, 1, 2],
    }];
    let config = MidiMappingConfig::load(&file).unwrap();
    assert_eq!(config.mapping.len(), 1);
    let r = &config.mapping[0];
    assert_eq!(r.vendor_id, Some(0x17cc));
    assert_eq!(r.product_id, None);
    assert_eq!(r.midi_message, vec![0xB0, 1, 2]);
    assert_eq!(
        r.usb_pattern,
        vec![PatternByte::Exact(255), PatternByte::Wildcard, PatternByte::Range { min: 0, max: 0x60 }]
    );
}

#[test]
fn load_reports_each_error_kind() {
    let cases = vec![
        (PatternValue::Integer(256), ConfigError::ByteOutOfRange),
        (PatternValue::Integer(-1), ConfigError::ByteOutOfRange),
        (PatternValue::Text("all".to_string()), ConfigError::InvalidFormat),
        (PatternValue::Other, ConfigError::InvalidFormat),
        (PatternValue::Table { min: None, max: Some(3) }, ConfigError::MissingMin),
        (PatternValue::Table { min: Some(3), max: None }, ConfigError::MissingMax),
        (PatternValue::Table { min: Some(3), max: Some(300) }, ConfigError::InvalidRange),
        (PatternValue::Table { min: Some(-3), max: Some(30) }, ConfigError::InvalidRange),
    ];
    for (value, expected) in cases {
        assert_eq!(PatternByte::from_value(&value), Err(expected));
        let file = vec![raw(vec![PatternValue::Integer(1), value])];
        assert_eq!(MidiMappingConfig::load(&file).err(), Some(expected));
    }
}

#[test]
fn load_reports_first_error_in_file_order() {
    let file = vec![
        raw(vec![PatternValue::Integer(1), PatternValue::Other]),
        raw(vec![PatternValue::Integer(300)]),
    ];
    assert_eq!(MidiMappingConfig::load(&file).err(), Some(ConfigError::InvalidFormat));
    assert_eq!(MidiMappingConfig::load(&vec![]).map(|c| c.mapping.len()), Ok(0));
}
