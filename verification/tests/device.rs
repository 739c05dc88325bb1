use goxlr_updater::device::{
    describe_device, list_devices, serial_wanted, version_wanted, Device, DeviceLocal,
    DeviceProbe, DeviceType, HandleRegistry,
};
use goxlr_updater::version::VersionNumber;

fn local(bus: u8, address: u8, identifier: Option<&str>) -> DeviceLocal {
    DeviceLocal {
        bus_number: bus,
        address,
        identifier: identifier.map(|text| text.to_string()),
    }
}

fn probe(kind: Option<DeviceType>, serial: Option<&str>, version: Option<VersionNumber>) -> DeviceProbe {
    DeviceProbe {
        kind,
        serial: serial.map(|text| text.to_string()),
        version,
    }
}

#[test]
fn a_device_that_answers_is_offered() {
    let found = describe_device(
        local(1, 4, Some("usb-1")),
        probe(Some(DeviceType::Mini), Some("S210500771CQK"), Some(VersionNumber(1, 2, 0, 54))),
    );
    assert_eq!(
        found,
        Some(Device {
            device_type: DeviceType::Mini,
            device_serial: "S210500771CQK".to_string(),
            version: VersionNumber(1, 2, 0, 54),
            goxlr_device: local(1, 4, Some("usb-1")),
        })
    );
}

#[test]
fn a_device_without_serial_is_left_out() {
    let version = Some(VersionNumber(1, 0, 0, 0));
    assert_eq!(
        describe_device(local(1, 1, None), probe(Some(DeviceType::Full), Some(""), version)),
        None
    );
    assert_eq!(
        describe_device(local(1, 1, None), probe(Some(DeviceType::Full), None, version)),
        None
    );
}

#[test]
fn a_device_of_no_known_model_is_left_out() {
    let version = Some(VersionNumber(1, 0, 0, 0));
    assert_eq!(
        describe_device(local(1, 1, None), probe(Some(DeviceType::Unknown), Some("S1"), version)),
        None
    );
    assert_eq!(
        describe_device(local(1, 1, None), probe(None, Some("S1"), version)),
        None
    );
    assert_eq!(
        describe_device(local(1, 1, None), probe(Some(DeviceType::Full), Some("S1"), None)),
        None
    );
}

#[test]
fn the_list_keeps_the_order_of_the_scan() {
    let version = Some(VersionNumber(1, 0, 0, 0));
    let devices = list_devices(vec![
        (local(1, 1, None), probe(Some(DeviceType::Full), Some("A"), version)),
        (local(1, 2, None), probe(Some(DeviceType::Full), Some(""), version)),
        (local(1, 3, None), probe(Some(DeviceType::Mini), Some("B"), version)),
        (local(1, 4, None), probe(None, None, None)),
        (local(2, 1, Some("x")), probe(Some(DeviceType::Mini), Some("C"), version)),
    ]);
    let serials: Vec<&str> = devices.iter().map(|d| d.device_serial.as_str()).collect();
    assert_eq!(serials, vec!["A", "B", "C"]);
    assert_eq!(devices[2].goxlr_device, local(2, 1, Some("x")));
    assert!(list_devices(vec![]).is_empty());
}

#[test]
fn connections_are_compared_field_by_field() {
    let here = local(1, 4, Some("usb-1"));
    assert!(here.same_connection(&local(1, 4, Some("usb-1"))));
    assert!(!here.same_connection(&local(2, 4, Some("usb-1"))));
    assert!(!here.same_connection(&local(1, 5, Some("usb-1"))));
    assert!(!here.same_connection(&local(1, 4, Some("usb-2"))));
    assert!(!here.same_connection(&local(1, 4, None)));
    assert!(local(1, 4, None).same_connection(&local(1, 4, None)));
    assert_eq!(here.duplicate(), here);
}

#[test]
fn a_connection_keeps_its_slot() {
    let mut registry = HandleRegistry::new();
    assert_eq!(registry.len(), 0);
    assert_eq!(registry.find(&local(1, 1, None)), None);
    assert_eq!(registry.register(local(1, 1, None)), (0, true));
    assert_eq!(registry.register(local(1, 2, Some("a"))), (1, true));
    assert_eq!(registry.register(local(1, 1, None)), (0, false));
    assert_eq!(registry.register(local(1, 2, Some("a"))), (1, false));
    assert_eq!(registry.register(local(1, 2, Some("b"))), (2, true));
    assert_eq!(registry.len(), 3);
    assert_eq!(registry.find(&local(1, 2, Some("a"))), Some(1));
    assert_eq!(registry.find(&local(1, 2, None)), None);
}

#[test]
fn only_known_models_are_asked_further() {
    assert!(serial_wanted(Some(DeviceType::Full)));
    assert!(serial_wanted(Some(DeviceType::Mini)));
    assert!(!serial_wanted(Some(DeviceType::Unknown)));
    assert!(!serial_wanted(None));
    let serial = Some("S1".to_string());
    assert!(version_wanted(Some(DeviceType::Full), &serial));
    assert!(!version_wanted(Some(DeviceType::Unknown), &serial));
    assert!(!version_wanted(None, &serial));
    assert!(!version_wanted(Some(DeviceType::Mini), &Some(String::new())));
    assert!(!version_wanted(Some(DeviceType::Mini), &None));
}
