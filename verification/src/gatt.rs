//! The fixed GATT surface of the device, described as plain data: the types
//! of a service description, the battery service and the device-information
//! service. The HID service is built where its reports are defined.
//!
//! Nothing here talks to a Bluetooth stack. The descriptions are handed to
//! whatever registers them; identifiers are 128-bit UUIDs held as integers.

use vstd::prelude::*;
use vstd::string::*;

use crate::consts::{
    UUID_BAS_SERVICE, UUID_BATTERY_LEVEL, UUID_DIS_SERVICE, UUID_HID_SERVICE, UUID_MFG_NAME,
    UUID_MODEL_NUM,
};

verus! {

/// The Bluetooth base UUID, `00000000-0000-1000-8000-00805F9B34FB`.
pub const BLUETOOTH_BASE_UUID: u128 = 0x0000_0000_0000_1000_8000_0080_5F9B_34FB;

/// The weight of a 16-bit identifier inside a 128-bit UUID: it occupies bits
/// 96 to 111.
pub const SHORT_UUID_UNIT: u128 = 0x0000_0001_0000_0000_0000_0000_0000_0000;

/// The 128-bit UUID that a 16-bit assigned number stands for:
/// `0000xxxx-0000-1000-8000-00805F9B34FB`.
pub open spec fn bluetooth_uuid(short: u16) -> u128 {
    (short * SHORT_UUID_UNIT + BLUETOOTH_BASE_UUID) as u128
}

/// Expands a 16-bit assigned number to its full UUID.
pub fn short_uuid(short: u16) -> (uuid: u128)
    ensures
        uuid == bluetooth_uuid(short),
{
    (short as u128) * SHORT_UUID_UNIT + BLUETOOTH_BASE_UUID
}

/// Distinct assigned numbers stand for distinct UUIDs.
pub proof fn lemma_bluetooth_uuid_injective(a: u16, b: u16)
    requires
        bluetooth_uuid(a) == bluetooth_uuid(b),
    ensures
        a == b,
{
}

/// What a client may do with a characteristic.
#[derive(Clone, Copy, Debug, PartialEq, Eq, Structural)]
pub enum CharacteristicProperty {
    Broadcast,
    Read,
    WriteWithoutResponse,
    Write,
    AuthenticatedSignedWrites,
    Notify,
    NotifyEncryptionRequired,
    Indicate,
    IndicateEncryptionRequired,
    ExtendedProperties,
}

/// Under which conditions an attribute may be read or written.
#[derive(Clone, Copy, Debug, PartialEq, Eq, Structural)]
pub enum AttributePermission {
    Readable,
    Writeable,
    ReadEncryptionRequired,
    WriteEncryptionRequired,
}

/// One characteristic of a service.
#[derive(Debug, PartialEq, Eq)]
pub struct Characteristic {
    pub uuid: u128,
    pub properties: Vec<CharacteristicProperty>,
    pub permissions: Vec<AttributePermission>,
    /// The static value, where the characteristic has one.
    pub value: Option<Vec<u8>>,
}

/// One GATT service.
#[derive(Debug, PartialEq, Eq)]
pub struct Service {
    pub uuid: u128,
    pub primary: bool,
    pub characteristics: Vec<Characteristic>,
}

/// A characteristic as a mathematical value.
pub struct CharacteristicModel {
    pub uuid: u128,
    pub properties: Seq<CharacteristicProperty>,
    pub permissions: Seq<AttributePermission>,
    pub value: Option<Seq<u8>>,
}

/// A service as a mathematical value.
pub struct ServiceModel {
    pub uuid: u128,
    pub primary: bool,
    pub characteristics: Seq<CharacteristicModel>,
}

impl View for Characteristic {
    type V = CharacteristicModel;

    open spec fn view(&self) -> CharacteristicModel {
        CharacteristicModel {
            uuid: self.uuid,
            properties: self.properties@,
            permissions: self.permissions@,
            value: match self.value {
                Some(bytes) => Some(bytes@),
                None => None,
            },
        }
    }
}

impl View for Service {
    type V = ServiceModel;

    open spec fn view(&self) -> ServiceModel {
        ServiceModel {
            uuid: self.uuid,
            primary: self.primary,
            characteristics: Seq::new(
                self.characteristics@.len(),
                |i: int| self.characteristics@[i]@,
            ),
        }
    }
}

/// The battery service: one level characteristic that can be read and that
/// notifies, with level zero until a reading is applied.
pub open spec fn battery_service() -> ServiceModel {
    ServiceModel {
        uuid: bluetooth_uuid(UUID_BAS_SERVICE),
        primary: true,
        characteristics: seq![
            CharacteristicModel {
                uuid: bluetooth_uuid(UUID_BATTERY_LEVEL),
                properties: seq![
                    CharacteristicProperty::Read,
                    CharacteristicProperty::NotifyEncryptionRequired,
                ],
                permissions: seq![AttributePermission::ReadEncryptionRequired],
                value: Some(seq![0u8]),
            },
        ],
    }
}

/// The device-information service: manufacturer name and model number, both
/// the bytes of the device name.
pub open spec fn device_information_service(name: Seq<u8>) -> ServiceModel {
    ServiceModel {
        uuid: bluetooth_uuid(UUID_DIS_SERVICE),
        primary: true,
        characteristics: seq![
            CharacteristicModel {
                uuid: bluetooth_uuid(UUID_MFG_NAME),
                properties: seq![CharacteristicProperty::Read],
                permissions: seq![AttributePermission::Readable],
                value: Some(name),
            },
            CharacteristicModel {
                uuid: bluetooth_uuid(UUID_MODEL_NUM),
                properties: seq![CharacteristicProperty::Read],
                permissions: seq![AttributePermission::Readable],
                value: Some(name),
            },
        ],
    }
}

/// The UUIDs that the device advertises: its three services.
pub open spec fn advertised_services() -> Seq<u128> {
    seq![
        bluetooth_uuid(UUID_HID_SERVICE),
        bluetooth_uuid(UUID_BAS_SERVICE),
        bluetooth_uuid(UUID_DIS_SERVICE),
    ]
}

/// A vector of one element.
pub(crate) fn list_of_one<T>(a: T) -> (v: Vec<T>)
    ensures
        v@ == seq![a],
{
    let v = vec![a];
    assert(v@ =~= seq![a]);
    v
}

/// A vector of two elements.
pub(crate) fn list_of_two<T>(a: T, b: T) -> (v: Vec<T>)
    ensures
        v@ == seq![a, b],
{
    let v = vec![a, b];
    assert(v@ =~= seq![a, b]);
    v
}

/// Builds the battery service.
pub fn build_battery_service() -> (service: Service)
    ensures
        service@ == battery_service(),
{
    let level = Characteristic {
        uuid: short_uuid(UUID_BATTERY_LEVEL),
        properties: list_of_two(
            CharacteristicProperty::Read,
            CharacteristicProperty::NotifyEncryptionRequired,
        ),
        permissions: list_of_one(AttributePermission::ReadEncryptionRequired),
        value: Some(list_of_one(0)),
    };
    let service = Service {
        uuid: short_uuid(UUID_BAS_SERVICE),
        primary: true,
        characteristics: vec![level],
    };
    assert(service@.characteristics =~= battery_service().characteristics);
    service
}

/// Builds the device-information service for a device of the given name.
pub fn build_device_information_service(device_name: &str) -> (service: Service)
    ensures
        service@ == device_information_service(device_name.spec_bytes()),
{
    let manufacturer = Characteristic {
        uuid: short_uuid(UUID_MFG_NAME),
        properties: list_of_one(CharacteristicProperty::Read),
        permissions: list_of_one(AttributePermission::Readable),
        value: Some(device_name.as_bytes_vec()),
    };
    let model = Characteristic {
        uuid: short_uuid(UUID_MODEL_NUM),
        properties: list_of_one(CharacteristicProperty::Read),
        permissions: list_of_one(AttributePermission::Readable),
        value: Some(device_name.as_bytes_vec()),
    };
    let service = Service {
        uuid: short_uuid(UUID_DIS_SERVICE),
        primary: true,
        characteristics: vec![manufacturer, model],
    };
    assert(service@.characteristics =~= device_information_service(
        device_name.spec_bytes(),
    ).characteristics);
    service
}

/// The service UUIDs to advertise.
pub fn build_advertised_services() -> (uuids: Vec<u128>)
    ensures
        uuids@ == advertised_services(),
{
    let uuids = vec![
        short_uuid(UUID_HID_SERVICE),
        short_uuid(UUID_BAS_SERVICE),
        short_uuid(UUID_DIS_SERVICE),
    ];
    assert(uuids@ =~= advertised_services());
    uuids
}

} // verus!
