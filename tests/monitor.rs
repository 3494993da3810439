use foreigninstruments::device::DeviceIdentifier;
use foreigninstruments::device_monitor::DeviceMonitor;

fn id(v: u16, p: u16) -> DeviceIdentifier {
    DeviceIdentifier::new(v, p)
}

#[test]
fn poll_opens_new_interesting_devices_once() {
    let m = DeviceMonitor::with_default_vendors();
    let present = vec![id(0x046d, 1), id(0x17cc, 0x1500), id(0x1235, 2), id(0x17cc, 0x1500)];
    let plan = m.poll(&present);
    assert_eq!(plan.to_open, vec![id(0x17cc, 0x1500), id(0x1235, 2)]);
    assert!(plan.departed.is_empty());
}

#[test]
fn poll_reports_departures_of_open_devices() {
    let mut m = DeviceMonitor::with_default_vendors();
    m.mark_opened(id(0x17cc, 0x1500));
    m.mark_opened(id(0x1bcf, 3));
    m.mark_opened(id(0x17cc, 0x1500));
    let plan = m.poll(&vec![id(0x1bcf, 3), id(0x0763, 4)]);
    assert_eq!(plan.to_open, vec![id(0x0763, 4)]);
    assert_eq!(plan.departed, vec![id(0x17cc, 0x1500)]);
    m.mark_closed(id(0x17cc, 0x1500));
    assert!(!m.is_open(id(0x17cc, 0x1500)));
    assert!(m.is_open(id(0x1bcf, 3)));
    assert!(m.poll(&vec![id(0x1bcf, 3)]).departed.is_empty());
}

#[test]
fn hotplug_decisions() {
    let mut m = DeviceMonitor::new(vec![0x0001]);
    assert!(m.device_arrived(id(0x0001, 9)));
    assert!(m.device_arrived(id(0x17cc, 9)));
    assert!(!m.device_arrived(id(0x1235, 9)));
    m.mark_opened(id(0x0001, 9));
    assert!(!m.device_arrived(id(0x0001, 9)));
    assert!(m.device_left(id(0x0001, 9)));
    assert!(!m.device_left(id(0x17cc, 9)));
}
