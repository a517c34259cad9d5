use beacon_searcher::decoder::{
    decode, decode_frame, i8_from_byte, is_ibeacon, u16_from_be, u32_from_be, frame_uuid_text,
    APPLE_COMPANY_ID, IBEACON_DATA_LEN, IBEACON_FRAME_LEN, IBEACON_TYPE,
};
use std::collections::HashMap;

const UUID_BYTES: [u8; 16] = [
    0xE2, 0xC5, 0x6D, 0xB5, 0xDF, 0xFB, 0x48, 0xD2, 0xB0, 0x60, 0xD0, 0xF5, 0xA7, 0x10, 0x96, 0xE0,
];

fn frame(uuid: &[u8; 16], major: [u8; 2], minor: [u8; 2], tx_power: u8) -> Vec<u8> {
    let mut data = vec![0x02, 0x15];
    data.extend_from_slice(uuid);
    data.extend_from_slice(&major);
    data.extend_from_slice(&minor);
    data.push(tx_power);
    data
}

fn sample_frame() -> Vec<u8> {
    frame(&UUID_BYTES, [0x00, 0x01], [0x00, 0x02], 0xC5)
}

fn advertisement(company: u16, data: Vec<u8>) -> HashMap<u16, Vec<u8>> {
    let mut map = HashMap::new();
    map.insert(company, data);
    map
}

#[test]
fn constants_describe_the_frame() {
    assert_eq!(APPLE_COMPANY_ID, 0x004C);
    assert_eq!(IBEACON_TYPE, 0x02);
    assert_eq!(IBEACON_DATA_LEN, 0x15);
    assert_eq!(IBEACON_FRAME_LEN, 23);
    assert_eq!(sample_frame().len(), IBEACON_FRAME_LEN);
}

#[test]
fn empty_advertisement_decodes_to_nothing() {
    let map: HashMap<u16, Vec<u8>> = HashMap::new();
    assert!(decode("PeripheralId(AA:BB)", &map).is_none());
}

#[test]
fn other_company_decodes_to_nothing() {
    let map = advertisement(0x0006, sample_frame());
    assert!(decode("PeripheralId(AA:BB)", &map).is_none());
    let map = advertisement(0x4C00, sample_frame());
    assert!(decode("PeripheralId(AA:BB)", &map).is_none());
}

#[test]
fn wrong_length_decodes_to_nothing() {
    let mut short = sample_frame();
    short.pop();
    assert_eq!(short.len(), 22);
    assert!(decode("PeripheralId(AA:BB)", &advertisement(0x004C, short)).is_none());
    let mut long = sample_frame();
    long.push(0x00);
    assert_eq!(long.len(), 24);
    assert!(decode("PeripheralId(AA:BB)", &advertisement(0x004C, long)).is_none());
}

#[test]
fn payloads_shorter_than_the_markers_decode_to_nothing() {
    assert!(decode("PeripheralId(AA:BB)", &advertisement(0x004C, vec![])).is_none());
    assert!(decode("PeripheralId(AA:BB)", &advertisement(0x004C, vec![0x02])).is_none());
    assert!(decode("PeripheralId(AA:BB)", &advertisement(0x004C, vec![0x02, 0x15])).is_none());
}

#[test]
fn wrong_type_marker_decodes_to_nothing() {
    let mut data = sample_frame();
    data[0] = 0x03;
    assert!(decode("PeripheralId(AA:BB)", &advertisement(0x004C, data)).is_none());
}

#[test]
fn wrong_length_marker_decodes_to_nothing() {
    let mut data = sample_frame();
    data[1] = 0x16;
    assert!(decode("PeripheralId(AA:BB)", &advertisement(0x004C, data)).is_none());
}

#[test]
fn non_ibeacon_payload_decodes_to_nothing() {
    let map = advertisement(0x004C, vec![0x01, 0x02, 0x03]);
    assert!(decode("AA:BB", &map).is_none());
}

#[test]
fn proximity_uuid_is_rendered_hyphenated() {
    let map = advertisement(0x004C, sample_frame());
    let beacon = decode("AA:BB", &map).unwrap();
    assert_eq!(beacon.proximity_uuid, "e2c56db5-dffb-48d2-b060-d0f5a71096e0");
    assert_eq!(beacon.proximity_uuid.len(), 36);
}

#[test]
fn major_and_minor_are_big_endian() {
    let map = advertisement(0x004C, sample_frame());
    let beacon = decode("AA:BB", &map).unwrap();
    assert_eq!(beacon.major, 1);
    assert_eq!(beacon.minor, 2);
    let map = advertisement(0x004C, frame(&UUID_BYTES, [0x12, 0x34], [0xFF, 0xFE], 0x00));
    let beacon = decode("AA:BB", &map).unwrap();
    assert_eq!(beacon.major, 0x1234);
    assert_eq!(beacon.minor, 0xFFFE);
}

#[test]
fn tx_power_is_twos_complement() {
    let map = advertisement(0x004C, sample_frame());
    let beacon = decode("AA:BB", &map).unwrap();
    assert_eq!(beacon.tx_power, -59);
}

#[test]
fn decode_is_repeatable() {
    let map = advertisement(0x004C, sample_frame());
    let first = decode("PeripheralId(AA:BB)", &map).unwrap();
    let second = decode("PeripheralId(AA:BB)", &map).unwrap();
    assert_eq!(first.peripheral_id, second.peripheral_id);
    assert_eq!(first.proximity_uuid, second.proximity_uuid);
    assert_eq!(first.major, second.major);
    assert_eq!(first.minor, second.minor);
    assert_eq!(first.tx_power, second.tx_power);
}

#[test]
fn decode_ignores_other_companies() {
    let mut map = advertisement(0x004C, sample_frame());
    let alone = decode("PeripheralId(AA:BB)", &map).unwrap();
    map.insert(0x0006, vec![0x01, 0x09, 0x20]);
    map.insert(0x00E0, vec![]);
    let among = decode("PeripheralId(AA:BB)", &map).unwrap();
    assert_eq!(alone.peripheral_id, among.peripheral_id);
    assert_eq!(alone.proximity_uuid, among.proximity_uuid);
    assert_eq!(alone.major, among.major);
    assert_eq!(alone.minor, among.minor);
    assert_eq!(alone.tx_power, among.tx_power);
}

#[test]
fn decode_normalizes_the_device_id() {
    let map = advertisement(0x004C, sample_frame());
    assert_eq!(decode("PeripheralId(AA:BB)", &map).unwrap().peripheral_id, "AA:BB");
    assert_eq!(decode("AA:BB", &map).unwrap().peripheral_id, "");
}

#[test]
fn decode_frame_agrees_with_decode() {
    let data = sample_frame();
    let beacon = decode_frame("PeripheralId(11:22)", &data).unwrap();
    assert_eq!(beacon.peripheral_id, "11:22");
    assert_eq!(beacon.proximity_uuid, "e2c56db5-dffb-48d2-b060-d0f5a71096e0");
    assert_eq!(beacon.major, 1);
    assert_eq!(beacon.minor, 2);
    assert_eq!(beacon.tx_power, -59);
    assert!(decode_frame("PeripheralId(11:22)", &data[..22]).is_none());
}

#[test]
fn is_ibeacon_tests_length_and_markers() {
    assert!(is_ibeacon(&sample_frame()));
    assert!(!is_ibeacon(&[]));
    assert!(!is_ibeacon(&[0x02]));
    assert!(!is_ibeacon(&[0x02, 0x15]));
    assert!(!is_ibeacon(&[0u8; 23]));
    let mut data = sample_frame();
    data[1] = 0x14;
    assert!(!is_ibeacon(&data));
}

#[test]
fn big_endian_readers() {
    assert_eq!(u16_from_be(0x00, 0x01), 1);
    assert_eq!(u16_from_be(0x01, 0x00), 256);
    assert_eq!(u16_from_be(0xFF, 0xFF), 65535);
    assert_eq!(u32_from_be(0x00, 0x00, 0x00, 0x2A), 42);
    assert_eq!(u32_from_be(0xE2, 0xC5, 0x6D, 0xB5), 0xE2C56DB5);
    assert_eq!(u32_from_be(0xFF, 0xFF, 0xFF, 0xFF), u32::MAX);
}

#[test]
fn signed_byte_reader() {
    assert_eq!(i8_from_byte(0x00), 0);
    assert_eq!(i8_from_byte(0x7F), 127);
    assert_eq!(i8_from_byte(0x80), -128);
    assert_eq!(i8_from_byte(0xC5), -59);
    assert_eq!(i8_from_byte(0xFF), -1);
}

#[test]
fn uuid_text_keeps_leading_zeros() {
    let data = frame(&[0, 0, 0, 0x2A, 0, 0x0C, 0, 0x05, 0x0C, 0x03, 0x09, 0x38, 0x36, 0x2B, 0x08, 0x09], [0, 0], [0, 0], 0);
    assert_eq!(frame_uuid_text(&data), "0000002a-000c-0005-0c03-0938362b0809");
    let data = frame(&[0xFF; 16], [0, 0], [0, 0], 0);
    assert_eq!(frame_uuid_text(&data), "ffffffff-ffff-ffff-ffff-ffffffffffff");
}
