use vstd::prelude::*;

verus! {

/// The lowercase hexadecimal digit (as an ASCII byte) for a nibble value.
pub open spec fn hex_digit(n: u8) -> u8
    recommends
        n < 16,
{
    if n < 10 {
        (48 + n) as u8
    } else {
        (87 + n) as u8
    }
}

/// The two-digit lowercase hexadecimal encoding of a byte,
/// most-significant nibble first.
pub open spec fn hex_pair(b: u8) -> Seq<u8> {
    seq![hex_digit(b / 16), hex_digit(b % 16)]
}

/// Converts a byte to its two lowercase hexadecimal ASCII characters,
/// most-significant nibble first.
pub fn u8_to_hex(byte: u8) -> (r: [u8; 2])
    ensures
        r@ == hex_pair(byte),
{
    assert(byte >> 4 == byte / 16 && byte >> 4 < 16) by (bit_vector);
    assert(byte & 0x0f == byte % 16 && byte & 0x0f < 16) by (bit_vector);
    let hi = byte >> 4;
    let lo = byte & 0x0f;
    let d0 = if hi < 10 { 48 + hi } else { 87 + hi };
    let d1 = if lo < 10 { 48 + lo } else { 87 + lo };
    let r = [d0, d1];
    assert(r@ =~= hex_pair(byte));
    r
}

} // verus!
