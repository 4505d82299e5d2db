//! Checksum primitives of the packet framing.
//!
//! The vehicle firmware fixes the two table-driven checksum algorithms; this
//! crate does not re-derive them.  The `crc` crate computes them, and the
//! contracts only name the results: `crc8_of` and `crc16_of` stand for
//! whatever the fixed algorithms return for a byte sequence, which is a
//! function of the bytes alone.

use vstd::prelude::*;

verus! {

/// The 8-bit checksum of a byte sequence under the fixed header algorithm.
pub uninterp spec fn crc8_of(data: Seq<u8>) -> u8;

/// The 16-bit checksum of a byte sequence under the fixed trailer algorithm.
pub uninterp spec fn crc16_of(data: Seq<u8>) -> u16;

/// Relies on `crc::Crc::<u8>::checksum` with a fixed catalog algorithm: the
/// result is a function of the input bytes alone.
#[verifier::external_body]
pub(crate) fn crc8(data: &Vec<u8>) -> (r: u8)
    ensures
        r == crc8_of(data@),
{
    crc::Crc::<u8>::new(&crc::CRC_8_MAXIM_DOW).checksum(data.as_slice())
}

/// Relies on `crc::Crc::<u16>::checksum` with a fixed catalog algorithm: the
/// result is a function of the input bytes alone.
#[verifier::external_body]
pub(crate) fn crc16(data: &Vec<u8>) -> (r: u16)
    ensures
        r == crc16_of(data@),
{
    crc::Crc::<u16>::new(&crc::CRC_16_XMODEM).checksum(data.as_slice())
}

} // verus!
