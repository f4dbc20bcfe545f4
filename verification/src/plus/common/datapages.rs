use vstd::prelude::*;

verus! {

/// The first page number left to manufacturers.
pub const MANUFACTURER_SPECIFIC_FIRST: u8 = 112;

/// The last page number left to manufacturers.
pub const MANUFACTURER_SPECIFIC_LAST: u8 = 127;

/// Whether `page_number` lies in the range left to manufacturers.
pub open spec fn in_manufacturer_specific_range(page_number: u8) -> bool {
    MANUFACTURER_SPECIFIC_FIRST <= page_number <= MANUFACTURER_SPECIFIC_LAST
}

/// The 16-bit value whose low byte is `lo` and whose high byte is `hi`.
pub open spec fn u16_of_le(lo: u8, hi: u8) -> u16 {
    (lo + 256 * hi) as u16
}

/// The 24-bit value with the bytes `b0`, `b1`, `b2`, lowest first.
pub open spec fn u24_of_le(b0: u8, b1: u8, b2: u8) -> u32 {
    (b0 + 256 * b1 + 65536 * b2) as u32
}

pub fn u16_from_le(lo: u8, hi: u8) -> (v: u16)
    ensures
        v == u16_of_le(lo, hi),
{
    lo as u16 + 256 * (hi as u16)
}

pub fn u24_from_le(b0: u8, b1: u8, b2: u8) -> (v: u32)
    ensures
        v == u24_of_le(b0, b1, b2),
        v < 0x100_0000,
{
    b0 as u32 + 256 * (b1 as u32) + 65536 * (b2 as u32)
}

/// Byte `index` of `v`, counted from the lowest.
pub open spec fn le_byte(v: u32, index: nat) -> u8 {
    if index == 0 {
        (v % 256) as u8
    } else if index == 1 {
        ((v / 256) % 256) as u8
    } else {
        ((v / 65536) % 256) as u8
    }
}

pub fn low_byte(v: u32) -> (b: u8)
    ensures
        b == le_byte(v, 0),
{
    (v % 256) as u8
}

pub fn middle_byte(v: u32) -> (b: u8)
    ensures
        b == le_byte(v, 1),
{
    ((v / 256) % 256) as u8
}

pub fn high_byte(v: u32) -> (b: u8)
    ensures
        b == le_byte(v, 2),
{
    ((v / 65536) % 256) as u8
}

/// Splitting a value into bytes and joining them again gives the value back,
/// and the other way round.
pub proof fn lemma_le_bytes_round_trip(v: u32, b0: u8, b1: u8, b2: u8)
    ensures
        v < 0x1_0000 ==> u16_of_le(le_byte(v, 0), le_byte(v, 1)) == v,
        v < 0x100_0000 ==> u24_of_le(le_byte(v, 0), le_byte(v, 1), le_byte(v, 2)) == v,
        le_byte(u16_of_le(b0, b1) as u32, 0) == b0,
        le_byte(u16_of_le(b0, b1) as u32, 1) == b1,
        le_byte(u24_of_le(b0, b1, b2), 0) == b0,
        le_byte(u24_of_le(b0, b1, b2), 1) == b1,
        le_byte(u24_of_le(b0, b1, b2), 2) == b2,
{
}

} // verus!
