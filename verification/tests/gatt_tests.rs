use bluper::consts::{
    PERIPHERAL_APPEARANCE, RID_KEYBD, RID_MOUSE, UUID_BAS_SERVICE, UUID_BATTERY_LEVEL,
    UUID_DIS_SERVICE, UUID_HID_REPORT, UUID_HID_REPORT_MAP, UUID_HID_SERVICE,
};
use bluper::gatt::{
    build_advertised_services, build_battery_service, build_device_information_service,
    short_uuid, AttributePermission, CharacteristicProperty,
};
use bluper::hid::{build_hid_service, report_descriptor};
use uuid::Uuid;

#[test]
fn short_uuid_uses_the_bluetooth_base() {
    assert_eq!(short_uuid(0x2A4D), 0x00002A4D_0000_1000_8000_00805F9B34FB);
    assert_eq!(short_uuid(0), 0x00000000_0000_1000_8000_00805F9B34FB);
    assert_eq!(short_uuid(0xFFFF), 0x0000FFFF_0000_1000_8000_00805F9B34FB);
}

#[test]
fn short_uuid_agrees_with_the_uuid_crate() {
    for short in [0x1812u16, 0x180F, 0x180A, 0x2A4A, 0x2A4C, 0x2A4E, 0x2A4B, 0x2A4D, 0x2A19] {
        let built = Uuid::from_fields(short.into(), 0, 0x1000, b"\x80\x00\x00\x80\x5F\x9B\x34\xFB");
        assert_eq!(short_uuid(short), built.as_u128());
        assert_eq!(Uuid::from_u128(short_uuid(short)), built);
    }
    let parsed = Uuid::parse_str("00002a19-0000-1000-8000-00805f9b34fb").unwrap();
    assert_eq!(short_uuid(UUID_BATTERY_LEVEL), parsed.as_u128());
}

#[test]
fn report_descriptor_declares_both_reports() {
    let map = report_descriptor();
    assert_eq!(map.len(), 99);
    assert_eq!(&map[0..8], &[0x05, 0x01, 0x09, 0x02, 0xA1, 0x01, 0x85, RID_MOUSE]);
    assert_eq!(&map[52..54], &[0xC0, 0xC0]);
    assert_eq!(&map[54..62], &[0x05, 0x01, 0x09, 0x06, 0xA1, 0x01, 0x85, RID_KEYBD]);
    assert_eq!(map[98], 0xC0);
    assert_eq!(map.iter().filter(|b| **b == 0x85).count(), 2);
}

#[test]
fn hid_service_has_five_characteristics() {
    let (service, input) = build_hid_service();
    assert_eq!(input, short_uuid(UUID_HID_REPORT));
    assert_eq!(service.uuid, short_uuid(UUID_HID_SERVICE));
    assert!(service.primary);
    assert_eq!(service.characteristics.len(), 5);
    let info = &service.characteristics[0];
    assert_eq!(info.value, Some(vec![0x11, 0x01, 0x00, 0x00]));
    assert_eq!(info.properties, vec![CharacteristicProperty::Read]);
    assert_eq!(info.permissions, vec![AttributePermission::Readable]);
    let control = &service.characteristics[1];
    assert_eq!(control.value, None);
    assert_eq!(control.properties, vec![CharacteristicProperty::Write]);
    assert_eq!(control.permissions, vec![AttributePermission::WriteEncryptionRequired]);
    let mode = &service.characteristics[2];
    assert_eq!(mode.value, Some(vec![0x01]));
    let map = &service.characteristics[3];
    assert_eq!(map.uuid, short_uuid(UUID_HID_REPORT_MAP));
    assert_eq!(map.value, Some(report_descriptor()));
    let report = &service.characteristics[4];
    assert_eq!(report.uuid, input);
    assert_eq!(
        report.properties,
        vec![CharacteristicProperty::Read, CharacteristicProperty::NotifyEncryptionRequired]
    );
    assert_eq!(report.value, None);
}

#[test]
fn battery_service_starts_at_zero() {
    let service = build_battery_service();
    assert_eq!(service.uuid, short_uuid(UUID_BAS_SERVICE));
    assert_eq!(service.characteristics.len(), 1);
    assert_eq!(service.characteristics[0].uuid, short_uuid(UUID_BATTERY_LEVEL));
    assert_eq!(service.characteristics[0].value, Some(vec![0]));
}

#[test]
fn device_information_carries_the_name() {
    let service = build_device_information_service("Bluper");
    assert_eq!(service.uuid, short_uuid(UUID_DIS_SERVICE));
    assert_eq!(service.characteristics.len(), 2);
    assert_eq!(service.characteristics[0].value, Some(b"Bluper".to_vec()));
    assert_eq!(service.characteristics[1].value, Some(b"Bluper".to_vec()));
    assert_eq!(service.characteristics[0].uuid, short_uuid(0x2A29));
    assert_eq!(service.characteristics[1].uuid, short_uuid(0x2A24));
}

#[test]
fn advertised_services_are_the_three_services() {
    assert_eq!(
        build_advertised_services(),
        vec![short_uuid(0x1812), short_uuid(0x180F), short_uuid(0x180A)]
    );
    assert_eq!(PERIPHERAL_APPEARANCE, 0x03C0);
}
