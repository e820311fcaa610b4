//! Checksums: what the archive asks of a calculator, and the calculator that
//! archives are built with.

pub mod crc_calculator_adapter;

use vstd::prelude::*;

verus! {

/// Computes 32-bit checksums of byte sequences.
pub trait CrcCalculator {
    /// The checksum of `data`.
    fn calculate_crc32(&self, data: &[u8]) -> u32;
}

/// A boxed calculator answers as the calculator in the box does.
impl<T: CrcCalculator + ?Sized> CrcCalculator for Box<T> {
    fn calculate_crc32(&self, data: &[u8]) -> (crc: u32)
        ensures
            call_ensures(T::calculate_crc32, (&**self, data), crc),
    {
        (**self).calculate_crc32(data)
    }
}

/// Whether `crc` is a checksum that `calculator` can return for `data`.
pub open spec fn may_checksum<C: CrcCalculator>(calculator: &C, data: Seq<u8>, crc: u32) -> bool {
    exists|bytes: &[u8]|
        bytes@ == data && #[trigger] call_ensures(C::calculate_crc32, (calculator, bytes), crc)
}

/// A calculator is deterministic when the bytes alone decide the checksum:
/// neither an earlier call nor anything else has a say in it.
pub open spec fn is_deterministic<C: CrcCalculator>(calculator: &C) -> bool {
    forall|data: Seq<u8>, first: u32, second: u32|
        #[trigger] may_checksum(calculator, data, first) && #[trigger] may_checksum(
            calculator,
            data,
            second,
        ) ==> first == second
}

/// A deterministic calculator stays deterministic in a box.
pub proof fn lemma_boxed_calculator_is_deterministic<T: CrcCalculator>(boxed: &Box<T>)
    requires
        is_deterministic::<T>(&**boxed),
    ensures
        is_deterministic(boxed),
{
    assert forall|data: Seq<u8>, first: u32, second: u32|
        #[trigger] may_checksum(boxed, data, first) && #[trigger] may_checksum(
            boxed,
            data,
            second,
        ) implies first == second by {
        assert(may_checksum::<T>(&**boxed, data, first));
        assert(may_checksum::<T>(&**boxed, data, second));
    }
}

} // verus!
