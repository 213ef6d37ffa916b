//! The 8-bit checksum that protects every 16-bit word exchanged with the sensor.

use crc_all::Crc;
use vstd::prelude::*;

verus! {

/// Generator polynomial of the sensor's CRC-8, without its leading term.
pub const POLYNOMIAL: u8 = 0x31;

/// Width of the checksum in bits.
pub const WIDTH: usize = 8;

/// Register value before the first byte is fed in.
pub const INITIAL: u8 = 0xff;

/// Value xor-ed onto the register after the last byte.
pub const XOR_OUT: u8 = 0x00;

/// Whether bytes and result are bit-reflected.
pub const REFLECT: bool = false;

/// The CRC that `crc_all::Crc::<u8>` yields for `data` when it is built with
/// the given polynomial, width, initial value, final xor and reflection flag.
pub uninterp spec fn crc8_value(
    poly: u8,
    width: usize,
    init: u8,
    xorout: u8,
    reflect: bool,
    data: Seq<u8>,
) -> u8;

/// The sensor's checksum of `bytes`: CRC-8 with polynomial 0x31, initial value
/// 0xFF, no reflection and no final xor.
pub open spec fn checksum_of(bytes: Seq<u8>) -> u8 {
    crc8_value(POLYNOMIAL, WIDTH, INITIAL, XOR_OUT, REFLECT, bytes)
}

/// Trusted: builds a fresh `crc_all::Crc::<u8>` with the given parameters and
/// feeds it `data` once with `Crc::update`, which returns the finished CRC.
/// The result depends on the six arguments alone; the contract gives it the
/// name `crc8_value` and claims nothing else about it. A width outside 1..=8
/// makes the constructor shift out of range, so it is excluded.
#[verifier::external_body]
fn crc8(poly: u8, width: usize, init: u8, xorout: u8, reflect: bool, data: &[u8]) -> (crc: u8)
    requires
        1 <= width <= 8,
    ensures
        crc == crc8_value(poly, width, init, xorout, reflect, data@),
{
    Crc::<u8>::new(poly, width, init, xorout, reflect).update(data)
}

/// Computes the sensor's checksum over `bytes`. The result is a function of
/// the bytes alone: equal byte sequences have equal checksums, on every call.
pub fn checksum(bytes: &[u8]) -> (crc: u8)
    ensures
        crc == checksum_of(bytes@),
{
    crc8(POLYNOMIAL, WIDTH, INITIAL, XOR_OUT, REFLECT, bytes)
}

} // verus!
