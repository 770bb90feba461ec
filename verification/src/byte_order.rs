use vstd::prelude::*;
use zerocopy::byteorder::big_endian::{I16, U16};

verus! {

/// The unsigned value of two bytes read most significant first.
pub open spec fn be_u16(hi: u8, lo: u8) -> u16 {
    (hi as int * 256 + lo as int) as u16
}

/// The two's-complement value of two bytes read most significant first.
pub open spec fn be_i16(hi: u8, lo: u8) -> i16 {
    let u = hi as int * 256 + lo as int;
    (if u >= 0x8000 { u - 0x10000 } else { u }) as i16
}

/// The 16-bit pattern that stands for `v` in two's complement, as a number.
pub open spec fn i16_bits(v: i16) -> int {
    if v < 0 { v + 0x10000 } else { v as int }
}

/// `zerocopy::byteorder::U16<BigEndian>::from_bytes` followed by `get`:
/// the bytes are taken as they stand, most significant first, and read
/// back as a native `u16`.
#[verifier::external_body]
pub(crate) fn u16_from_be_bytes(bytes: [u8; 2]) -> (v: u16)
    ensures
        v == be_u16(bytes[0], bytes[1]),
{
    U16::from_bytes(bytes).get()
}

/// `zerocopy::byteorder::I16<BigEndian>::from_bytes` followed by `get`:
/// the bytes are read most significant first as a two's-complement `i16`.
#[verifier::external_body]
pub(crate) fn i16_from_be_bytes(bytes: [u8; 2]) -> (v: i16)
    ensures
        v == be_i16(bytes[0], bytes[1]),
{
    I16::from_bytes(bytes).get()
}

/// `zerocopy::byteorder::U16<BigEndian>::new` followed by `to_bytes`:
/// the value laid out most significant byte first.
#[verifier::external_body]
pub(crate) fn u16_to_be_bytes(v: u16) -> (bytes: [u8; 2])
    ensures
        bytes[0] as int * 256 + bytes[1] as int == v as int,
{
    U16::new(v).to_bytes()
}

/// `zerocopy::byteorder::I16<BigEndian>::new` followed by `to_bytes`:
/// the two's-complement bit pattern of the value, most significant byte first.
#[verifier::external_body]
pub(crate) fn i16_to_be_bytes(v: i16) -> (bytes: [u8; 2])
    ensures
        bytes[0] as int * 256 + bytes[1] as int == i16_bits(v),
{
    I16::new(v).to_bytes()
}

} // verus!
