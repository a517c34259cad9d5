//! The canonical text form of a UUID, and the call that produces it.

use vstd::prelude::*;

verus! {

/// The lower-case hexadecimal digit of a value below sixteen.
pub open spec fn hex_digit(n: int) -> char {
    "0123456789abcdef"@[n]
}

/// The two hexadecimal digits of a byte, high nibble first.
pub open spec fn hex_pair(b: u8) -> Seq<char> {
    seq![hex_digit(b as int / 16), hex_digit(b as int % 16)]
}

/// The hexadecimal digits of a run of bytes, two per byte, in order.
pub open spec fn hex_text(bytes: Seq<u8>) -> Seq<char>
    decreases bytes.len(),
{
    if bytes.len() == 0 {
        Seq::empty()
    } else {
        hex_text(bytes.drop_last()) + hex_pair(bytes.last())
    }
}

/// The canonical text of sixteen UUID bytes: thirty-two lower-case
/// hexadecimal digits in groups of 8, 4, 4, 4 and 12, joined by hyphens.
pub open spec fn hyphenated(bytes: Seq<u8>) -> Seq<char> {
    hex_text(bytes.subrange(0, 4)) + seq!['-'] + hex_text(bytes.subrange(4, 6)) + seq!['-']
        + hex_text(bytes.subrange(6, 8)) + seq!['-'] + hex_text(bytes.subrange(8, 10)) + seq!['-']
        + hex_text(bytes.subrange(10, 16))
}

/// Every byte gives two digits.
pub proof fn lemma_hex_text_len(bytes: Seq<u8>)
    ensures
        hex_text(bytes).len() == 2 * bytes.len(),
    decreases bytes.len(),
{
    if bytes.len() > 0 {
        lemma_hex_text_len(bytes.drop_last());
    }
}

/// The canonical text of sixteen bytes is thirty-six characters long and
/// has its hyphens at positions 8, 13, 18 and 23.
pub proof fn lemma_hyphenated_shape(bytes: Seq<u8>)
    requires
        bytes.len() == 16,
    ensures
        hyphenated(bytes).len() == 36,
        hyphenated(bytes)[8] == '-',
        hyphenated(bytes)[13] == '-',
        hyphenated(bytes)[18] == '-',
        hyphenated(bytes)[23] == '-',
{
    lemma_hex_text_len(bytes.subrange(0, 4));
    lemma_hex_text_len(bytes.subrange(4, 6));
    lemma_hex_text_len(bytes.subrange(6, 8));
    lemma_hex_text_len(bytes.subrange(8, 10));
    lemma_hex_text_len(bytes.subrange(10, 16));
}

/// The sixteen bytes of a UUID given by its fields: the first three fields
/// most significant byte first, then the bytes of the fourth as they are.
pub open spec fn field_bytes(d1: u32, d2: u16, d3: u16, d4: Seq<u8>) -> Seq<u8> {
    seq![
        (d1 as int / 0x100_0000) as u8,
        (d1 as int / 0x1_0000 % 0x100) as u8,
        (d1 as int / 0x100 % 0x100) as u8,
        (d1 as int % 0x100) as u8,
        (d2 as int / 0x100) as u8,
        (d2 as int % 0x100) as u8,
        (d3 as int / 0x100) as u8,
        (d3 as int % 0x100) as u8,
    ] + d4
}

/// The error of `uuid::Uuid::from_fields`, carried through unread.
#[verifier::external_type_specification]
#[verifier::external_body]
pub struct ExUuidError(uuid::Error);

/// Builds a UUID with `uuid::Uuid::from_fields` and renders it through its
/// `Display` impl (`to_string`).
///
/// Trusted: `from_fields` fails exactly when `d4` is not eight bytes long, and
/// otherwise holds the fields in big-endian order followed by `d4`; the
/// rendering is the hyphenated lower-case form of those sixteen bytes.
#[verifier::external_body]
pub(crate) fn uuid_text_from_fields(d1: u32, d2: u16, d3: u16, d4: &[u8]) -> (r: Result<
    String,
    uuid::Error,
>)
    ensures
        r is Ok <==> d4@.len() == 8,
        r is Ok ==> r->Ok_0@ == hyphenated(field_bytes(d1, d2, d3, d4@)),
{
    match uuid::Uuid::from_fields(d1, d2, d3, d4) {
        Ok(id) => Ok(id.to_string()),
        Err(e) => Err(e),
    }
}

} // verus!
