use foreigninstruments::device::{is_interesting_device, DeviceIdentifier, DeviceState};
use foreigninstruments::device_registry::DeviceRegistry;

fn ids(reg: &DeviceRegistry) -> Vec<(u16, u16)> {
    reg.get_all_devices().iter().map(|d| (d.vendor_id, d.product_id)).collect()
}

#[test]
fn adding_twice_keeps_one_entry_and_first_name() {
    let mut reg = DeviceRegistry::new();
    assert!(reg.add_device(0x17cc, 0x1500, "Maschine Jam".to_string()));
    assert!(!reg.add_device(0x17cc, 0x1500, "Other".to_string()));
    let all = reg.get_all_devices();
    assert_eq!(all.len(), 1);
    assert_eq!(all[0].name, "Maschine Jam");
    assert_eq!(all[0].state, DeviceState::Active);
}

#[test]
fn operation_sequence_never_duplicates() {
    let mut reg = DeviceRegistry::new();
    reg.add_device(1, 1, "a".to_string());
    reg.add_device(1, 2, "b".to_string());
    reg.add_device(1, 1, "c".to_string());
    assert!(reg.remove_device(1, 1));
    assert!(!reg.remove_device(1, 1));
    reg.add_device(1, 1, "d".to_string());
    reg.update_device_state(1, 2, DeviceState::Disconnected);
    reg.add_device(1, 2, "e".to_string());
    reg.record_device_state(1, 3, "f".to_string(), DeviceState::Active);
    reg.record_device_state(1, 3, "g".to_string(), DeviceState::Disconnected);
    assert_eq!(ids(&reg), vec![(1, 2), (1, 1), (1, 3)]);
    let mut seen = ids(&reg);
    seen.sort();
    seen.dedup();
    assert_eq!(seen.len(), 3);
    assert_eq!(reg.get_device(1, 3).unwrap().name, "f");
    assert_eq!(reg.get_device(1, 3).unwrap().state, DeviceState::Disconnected);
}

#[test]
fn update_of_unknown_device_changes_nothing() {
    let mut reg = DeviceRegistry::new();
    reg.add_device(5, 6, "x".to_string());
    assert!(!reg.update_device_state(7, 8, DeviceState::Disconnected));
    assert_eq!(ids(&reg), vec![(5, 6)]);
    assert!(reg.update_device_state(5, 6, DeviceState::Error("stalled".to_string())));
    assert_eq!(reg.get_device(5, 6).unwrap().state, DeviceState::Error("stalled".to_string()));
    assert!(reg.get_device(7, 8).is_none());
    assert!(reg.device_exists(5, 6));
    assert!(!reg.device_exists(6, 5));
}

#[test]
fn active_list_and_status_counts() {
    let mut reg = DeviceRegistry::new();
    reg.add_device(1, 1, "a".to_string());
    reg.add_device(1, 2, "b".to_string());
    reg.add_device(1, 3, "c".to_string());
    reg.add_device(1, 4, "d".to_string());
    reg.update_device_state(1, 2, DeviceState::Disconnected);
    reg.update_device_state(1, 3, DeviceState::Error("gone".to_string()));
    let active: Vec<u16> = reg.get_active_devices().iter().map(|d| d.product_id).collect();
    assert_eq!(active, vec![1, 4]);
    let s = reg.status_summary();
    assert_eq!((s.total, s.active, s.disconnected, s.errors), (4, 2, 1, 1));
    let empty = DeviceRegistry::new().status_summary();
    assert_eq!((empty.total, empty.active, empty.disconnected, empty.errors), (0, 0, 0, 0));
}

#[test]
fn presence_scan_reconciles_states() {
    let mut reg = DeviceRegistry::new();
    reg.add_device(1, 1, "a".to_string());
    reg.add_device(1, 2, "b".to_string());
    reg.add_device(1, 3, "c".to_string());
    reg.update_device_state(1, 2, DeviceState::Disconnected);
    reg.update_device_state(1, 3, DeviceState::Error("e".to_string()));
    reg.reconcile_presence(&vec![DeviceIdentifier::new(1, 2)]);
    let states: Vec<DeviceState> = reg.get_all_devices().into_iter().map(|d| d.state).collect();
    assert_eq!(
        states,
        vec![DeviceState::Disconnected, DeviceState::Active, DeviceState::Error("e".to_string())]
    );
}

#[test]
fn interesting_vendors() {
    assert!(is_interesting_device(0x17cc, 0));
    assert!(is_interesting_device(0x0763, 1));
    assert!(is_interesting_device(0x1235, 1));
    assert!(is_interesting_device(0x1bcf, 1));
    assert!(!is_interesting_device(0x046d, 1));
}
