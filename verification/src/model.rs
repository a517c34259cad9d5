//! The record that describes one decoded beacon, the rows that display it
//! and their text form.

use crate::decimal::{decimal, push_decimal, push_signed_decimal, signed_decimal};
use crate::peripheral::option_text;
use crate::registry::{accepts, after_accept, BeaconRegistry};
use vstd::prelude::*;
use vstd::string::StringExecFns;

verus! {

/// One decoded iBeacon advertisement.
#[derive(Debug, Clone)]
pub struct BeaconInfo {
    /// Identifier of the device that sent the advertisement.
    pub peripheral_id: String,
    /// Proximity UUID in its canonical hyphenated text form.
    pub proximity_uuid: String,
    pub major: u32,
    pub minor: u32,
    /// Calibrated signal strength at one metre.
    pub tx_power: i8,
}

/// The mathematical value of a [`BeaconInfo`].
pub struct BeaconView {
    pub peripheral_id: Seq<char>,
    pub proximity_uuid: Seq<char>,
    pub major: int,
    pub minor: int,
    pub tx_power: int,
}

impl View for BeaconInfo {
    type V = BeaconView;

    open spec fn view(&self) -> BeaconView {
        BeaconView {
            peripheral_id: self.peripheral_id@,
            proximity_uuid: self.proximity_uuid@,
            major: self.major as int,
            minor: self.minor as int,
            tx_power: self.tx_power as int,
        }
    }
}

/// What one row of the beacon table shows. A cell whose value could not be
/// read holds nothing.
#[derive(Debug, Clone)]
pub struct RowData {
    pub peripheral_id: Option<String>,
    pub proximity_uuid: Option<String>,
    pub major: Option<u32>,
    pub minor: Option<u32>,
    pub tx_power: Option<i8>,
}

/// One line of a row's text: the label, the value and the line's ending; no
/// text at all for a cell that holds nothing.
pub open spec fn field_text(label: Seq<char>, value: Option<Seq<char>>, ending: Seq<char>) -> Seq<
    char,
> {
    match value {
        Some(v) => label + v + ending,
        None => Seq::empty(),
    }
}

/// The decimal text of an optional unsigned number.
pub open spec fn option_decimal(n: Option<u32>) -> Option<Seq<char>> {
    match n {
        Some(n) => Some(decimal(n as nat)),
        None => None,
    }
}

/// The decimal text of an optional signed number.
pub open spec fn option_signed_decimal(n: Option<i8>) -> Option<Seq<char>> {
    match n {
        Some(n) => Some(signed_decimal(n as int)),
        None => None,
    }
}

/// The text of a row: one `Label: value` line per cell, in the order of the
/// columns, each but the last ended by a comma, a space and a line break.
pub open spec fn row_text(row: RowData) -> Seq<char> {
    field_text("Peripheral ID: "@, option_text(row.peripheral_id), ", \n"@) + field_text(
        "Proximity UUID: "@,
        option_text(row.proximity_uuid),
        ", \n"@,
    ) + field_text("Major: "@, option_decimal(row.major), ", \n"@) + field_text(
        "Minor: "@,
        option_decimal(row.minor),
        ", \n"@,
    ) + field_text("TX Power: "@, option_signed_decimal(row.tx_power), Seq::empty())
}

/// Renders a row as text, one `Label: value` line per cell that holds a value.
pub fn get_row_data_string(row: &RowData) -> (string: String)
    ensures
        string@ == row_text(*row),
{
    let mut string = String::new();
    let ghost empty = string@;
    if let Some(value) = &row.peripheral_id {
        string.append("Peripheral ID: ");
        string.append(value.as_str());
        string.append(", \n");
    }
    let ghost one = string@;
    assert(one =~= empty + field_text("Peripheral ID: "@, option_text(row.peripheral_id), ", \n"@));
    if let Some(value) = &row.proximity_uuid {
        string.append("Proximity UUID: ");
        string.append(value.as_str());
        string.append(", \n");
    }
    let ghost two = string@;
    assert(two =~= one + field_text("Proximity UUID: "@, option_text(row.proximity_uuid), ", \n"@));
    if let Some(value) = row.major {
        string.append("Major: ");
        push_decimal(&mut string, value);
        string.append(", \n");
    }
    let ghost three = string@;
    assert(three =~= two + field_text("Major: "@, option_decimal(row.major), ", \n"@));
    if let Some(value) = row.minor {
        string.append("Minor: ");
        push_decimal(&mut string, value);
        string.append(", \n");
    }
    let ghost four = string@;
    assert(four =~= three + field_text("Minor: "@, option_decimal(row.minor), ", \n"@));
    if let Some(value) = row.tx_power {
        string.append("TX Power: ");
        push_signed_decimal(&mut string, value);
    }
    assert(string@ =~= four + field_text(
        "TX Power: "@,
        option_signed_decimal(row.tx_power),
        Seq::empty(),
    ));
    string
}

/// Offers a decoded beacon for display. The beacon comes back, to be shown
/// as a new row, when its device has not been seen in this session; the
/// device is then remembered. A beacon of a device already seen is dropped.
pub fn add_item(ids: &mut BeaconRegistry, beacon: BeaconInfo) -> (row: Option<BeaconInfo>)
    ensures
        row is Some <==> accepts(old(ids).seen(), beacon.peripheral_id@),
        row is Some ==> row->0 == beacon,
        final(ids).seen() == after_accept(old(ids).seen(), beacon.peripheral_id@),
{
    if ids.accept(&beacon) {
        Some(beacon)
    } else {
        None
    }
}

} // verus!
