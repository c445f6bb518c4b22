//! The CRC checksum of the `crc_all` crate, as the USB protocol uses it.

use vstd::prelude::*;

verus! {

/// The checksum that `crc_all::Crc::<u8>` gives for `data` when it is made with the
/// parameters `poly`, `width`, `init`, `xorout` and `reflect` and fed `data` at once.
pub uninterp spec fn crc8_of(poly: u8, width: usize, init: u8, xorout: u8, reflect: bool, data: Seq<u8>) -> u8;

/// Computes a CRC of at most 8 bits over `data` with `crc_all::Crc::<u8>`: makes a fresh
/// digest with `Crc::<u8>::new(poly, width, init, xorout, reflect)`, feeds it `data`
/// with `update` and reads the checksum with `finish`.
///
/// Claimed of the crate: the result depends on the five parameters and the bytes alone,
/// and `new` does not panic when `width` is between 1 and 8 (its shift by
/// `8 - width` stays below 8). Which value the checksum has is not stated.
#[verifier::external_body]
pub(crate) fn crc8(poly: u8, width: usize, init: u8, xorout: u8, reflect: bool, data: &[u8]) -> (c: u8)
    requires
        1 <= width <= 8,
    ensures
        c == crc8_of(poly, width, init, xorout, reflect, data@),
{
    let mut crc = crc_all::Crc::<u8>::new(poly, width, init, xorout, reflect);
    crc.update(data);
    crc.finish()
}

} // verus!
