//! The iBeacon manufacturer-data frame and its fields.

use crate::model::{BeaconInfo, BeaconView};
use crate::peripheral::{capture_id, peripheral_id_of};
use crate::uuid_text::{field_bytes, hyphenated, lemma_hyphenated_shape, uuid_text_from_fields};
use std::collections::HashMap;
use vstd::arithmetic::div_mod::lemma_fundamental_div_mod_converse;
use vstd::prelude::*;
use vstd::slice::slice_subrange;

verus! {

/// Company identifier under which iBeacon frames are advertised.
pub const APPLE_COMPANY_ID: u16 = 0x004C;

/// First byte of an iBeacon frame: the frame type.
pub const IBEACON_TYPE: u8 = 0x02;

/// Second byte of an iBeacon frame: the number of bytes that follow.
pub const IBEACON_DATA_LEN: u8 = 0x15;

/// Length of a whole iBeacon frame in bytes.
pub const IBEACON_FRAME_LEN: usize = 23;

/// A payload is an iBeacon frame when it is exactly 23 bytes long and
/// starts with the type marker and the data-length marker.
pub open spec fn is_ibeacon_frame(data: Seq<u8>) -> bool {
    &&& data.len() == IBEACON_FRAME_LEN
    &&& data[0] == IBEACON_TYPE
    &&& data[1] == IBEACON_DATA_LEN
}

/// The number that two bytes spell, most significant byte first.
pub open spec fn be16(hi: u8, lo: u8) -> int {
    hi as int * 0x100 + lo as int
}

/// The number that four bytes spell, most significant byte first.
pub open spec fn be32(b0: u8, b1: u8, b2: u8, b3: u8) -> int {
    b0 as int * 0x100_0000 + b1 as int * 0x1_0000 + b2 as int * 0x100 + b3 as int
}

/// The number that a byte stands for when read as two's complement.
pub open spec fn signed_byte(b: u8) -> int {
    if b < 0x80 {
        b as int
    } else {
        b as int - 0x100
    }
}

/// The sixteen bytes of the proximity UUID inside a frame.
pub open spec fn frame_uuid_bytes(data: Seq<u8>) -> Seq<u8> {
    data.subrange(2, 18)
}

/// The record that an iBeacon frame `data`, sent by the device whose handle
/// prints as `device_id`, decodes to.
pub open spec fn frame_record(device_id: Seq<char>, data: Seq<u8>) -> BeaconView {
    BeaconView {
        peripheral_id: peripheral_id_of(device_id),
        proximity_uuid: hyphenated(frame_uuid_bytes(data)),
        major: be16(data[18], data[19]),
        minor: be16(data[20], data[21]),
        tx_power: signed_byte(data[22]),
    }
}

/// What decoding one payload gives: the record of an iBeacon frame, nothing
/// for any other payload.
pub open spec fn decode_frame_spec(device_id: Seq<char>, data: Seq<u8>) -> Option<BeaconView> {
    if is_ibeacon_frame(data) {
        Some(frame_record(device_id, data))
    } else {
        None
    }
}

/// What decoding an advertisement gives: the record of the payload stored
/// under the Apple company identifier if that payload is an iBeacon frame,
/// nothing otherwise.
pub open spec fn decode_spec(device_id: Seq<char>, manufacturer_data: Map<u16, Vec<u8>>) -> Option<
    BeaconView,
> {
    if manufacturer_data.contains_key(APPLE_COMPANY_ID) {
        decode_frame_spec(device_id, manufacturer_data[APPLE_COMPANY_ID]@)
    } else {
        None
    }
}

/// The value of an optional record.
pub open spec fn option_view(r: Option<BeaconInfo>) -> Option<BeaconView> {
    match r {
        Some(b) => Some(b@),
        None => None,
    }
}

/// Decoding is a function of the device's printed handle and of the bytes
/// stored under the Apple company identifier: advertisements that agree on
/// those decode to the same record, whatever else they hold.
pub proof fn lemma_decode_deterministic(
    device_id: Seq<char>,
    first: Map<u16, Vec<u8>>,
    second: Map<u16, Vec<u8>>,
)
    requires
        first.contains_key(APPLE_COMPANY_ID) == second.contains_key(APPLE_COMPANY_ID),
        first.contains_key(APPLE_COMPANY_ID) ==> first[APPLE_COMPANY_ID]@
            == second[APPLE_COMPANY_ID]@,
    ensures
        decode_spec(device_id, first) == decode_spec(device_id, second),
{
}

/// Tells whether `data` is an iBeacon frame. The length is tested first, so
/// payloads of any length are handled.
pub fn is_ibeacon(data: &[u8]) -> (r: bool)
    ensures
        r == is_ibeacon_frame(data@),
{
    data.len() == IBEACON_FRAME_LEN && data[0] == IBEACON_TYPE && data[1] == IBEACON_DATA_LEN
}

/// Reads two bytes as a big-endian unsigned number.
pub fn u16_from_be(hi: u8, lo: u8) -> (r: u16)
    ensures
        r == be16(hi, lo),
{
    hi as u16 * 0x100 + lo as u16
}

/// Reads four bytes as a big-endian unsigned number.
pub fn u32_from_be(b0: u8, b1: u8, b2: u8, b3: u8) -> (r: u32)
    ensures
        r == be32(b0, b1, b2, b3),
{
    b0 as u32 * 0x100_0000 + b1 as u32 * 0x1_0000 + b2 as u32 * 0x100 + b3 as u32
}

/// Reads a byte as a signed two's-complement number.
pub fn i8_from_byte(b: u8) -> (r: i8)
    ensures
        r == signed_byte(b),
{
    if b < 0x80 {
        b as i8
    } else {
        (b as i16 - 0x100) as i8
    }
}

/// Splitting a big-endian number into its bytes gives back the bytes it was
/// read from.
proof fn lemma_be32_bytes(b0: u8, b1: u8, b2: u8, b3: u8)
    ensures
        be32(b0, b1, b2, b3) / 0x100_0000 == b0,
        be32(b0, b1, b2, b3) / 0x1_0000 % 0x100 == b1,
        be32(b0, b1, b2, b3) / 0x100 % 0x100 == b2,
        be32(b0, b1, b2, b3) % 0x100 == b3,
{
    let d = be32(b0, b1, b2, b3);
    let top3 = b0 as int * 0x1_0000 + b1 as int * 0x100 + b2 as int;
    let top2 = b0 as int * 0x100 + b1 as int;
    lemma_fundamental_div_mod_converse(d, 0x100_0000, b0 as int, d - b0 as int * 0x100_0000);
    lemma_fundamental_div_mod_converse(d, 0x1_0000, top2, b2 as int * 0x100 + b3 as int);
    lemma_fundamental_div_mod_converse(d, 0x100, top3, b3 as int);
    lemma_fundamental_div_mod_converse(top2, 0x100, b0 as int, b1 as int);
    lemma_fundamental_div_mod_converse(top3, 0x100, top2, b2 as int);
}

/// Renders the proximity UUID of an iBeacon frame. The four UUID fields are
/// read in big-endian order; should the UUID not be constructible the text
/// is empty, which does not happen for a frame.
pub fn frame_uuid_text(data: &[u8]) -> (text: String)
    requires
        is_ibeacon_frame(data@),
    ensures
        text@ == hyphenated(frame_uuid_bytes(data@)),
        text@.len() == 36,
{
    let d1 = u32_from_be(data[2], data[3], data[4], data[5]);
    let d2 = u16_from_be(data[6], data[7]);
    let d3 = u16_from_be(data[8], data[9]);
    let d4 = slice_subrange(data, 10, 18);
    proof {
        lemma_be32_bytes(data[2], data[3], data[4], data[5]);
        lemma_hyphenated_shape(frame_uuid_bytes(data@));
        assert(field_bytes(d1, d2, d3, d4@) =~= frame_uuid_bytes(data@));
    }
    match uuid_text_from_fields(d1, d2, d3, d4) {
        Ok(text) => text,
        Err(_) => String::new(),
    }
}

/// Decodes one manufacturer-data payload sent by the device whose handle
/// prints as `device_id`. A payload that is not an iBeacon frame gives nothing.
pub fn decode_frame(device_id: &str, data: &[u8]) -> (r: Option<BeaconInfo>)
    ensures
        option_view(r) == decode_frame_spec(device_id@, data@),
        r is Some <==> is_ibeacon_frame(data@),
        r is Some ==> r->0.proximity_uuid@.len() == 36,
{
    if !is_ibeacon(data) {
        return None;
    }
    let peripheral_id = capture_id(device_id);
    let proximity_uuid = frame_uuid_text(data);
    let major = u16_from_be(data[18], data[19]);
    let minor = u16_from_be(data[20], data[21]);
    let tx_power = i8_from_byte(data[22]);
    Some(BeaconInfo { peripheral_id, proximity_uuid, major: major as u32, minor: minor as u32, tx_power })
}

/// Decodes one advertisement: looks up the payload stored under the Apple
/// company identifier and decodes it. An advertisement without such a
/// payload, or whose payload is not an iBeacon frame, gives nothing.
pub fn decode(device_id: &str, manufacturer_data: &HashMap<u16, Vec<u8>>) -> (r: Option<BeaconInfo>)
    ensures
        option_view(r) == decode_spec(device_id@, manufacturer_data@),
        r is Some <==> manufacturer_data@.contains_key(APPLE_COMPANY_ID) && is_ibeacon_frame(
            manufacturer_data@[APPLE_COMPANY_ID]@,
        ),
        r is Some ==> r->0.proximity_uuid@.len() == 36,
{
    broadcast use vstd::std_specs::hash::group_hash_axioms;

    match manufacturer_data.get(&APPLE_COMPANY_ID) {
        Some(data) => decode_frame(device_id, data.as_slice()),
        None => None,
    }
}

} // verus!
