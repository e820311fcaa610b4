//! The checksum of ZIP archives, computed by the `crc` crate.

use crate::crc_calculator::{is_deterministic, CrcCalculator};
use crc::{Crc, CRC_32_ISO_HDLC};
use vstd::prelude::*;

verus! {

/// The CRC-32/ISO-HDLC checksum of `data`: what the `crc` crate computes for
/// the algorithm `CRC_32_ISO_HDLC`. The library does not say how; it only
/// names the result.
pub uninterp spec fn crc32_iso_hdlc(data: Seq<u8>) -> u32;

/// Computes CRC-32/ISO-HDLC, the checksum that the ZIP format asks for.
pub struct CrcCalculatorAdapter {}

impl CrcCalculator for CrcCalculatorAdapter {
    fn calculate_crc32(&self, data: &[u8]) -> (crc: u32)
        ensures
            crc == crc32_iso_hdlc(data@),
    {
        crc32_iso_hdlc_digest(data)
    }
}

/// Calls the `crc` crate: `Crc::<u32>::new` for the algorithm
/// `CRC_32_ISO_HDLC`, then `Crc::digest`, `Digest::update` with `data`, and
/// `Digest::finalize`. Nothing here is proved. The contract claims that the
/// result is a function of the bytes of `data` alone, and gives that function
/// its name: the digest starts from the initial value of the algorithm, reads
/// `data` and nothing else, and keeps no state from one call to the next.
#[verifier::external_body]
fn crc32_iso_hdlc_digest(data: &[u8]) -> (crc: u32)
    ensures
        crc == crc32_iso_hdlc(data@),
{
    let crc = Crc::<u32>::new(&CRC_32_ISO_HDLC);
    let mut digest = crc.digest();
    digest.update(data);
    digest.finalize()
}

/// The checksum of the adapter depends on the bytes alone: two calls on equal
/// bytes agree, whatever was computed in between.
pub proof fn lemma_crc_calculator_adapter_is_deterministic(calculator: &CrcCalculatorAdapter)
    ensures
        is_deterministic(calculator),
{
}

} // verus!
