//! The archive: its entries, its layout, and the factory that builds it.

pub mod zip_blob_factory;
pub mod zip_file_entry;
pub mod zip_layout;

use vstd::prelude::*;

verus! {

/// Why there is no archive.
#[derive(Debug, Clone, Copy, PartialEq, Eq, Structural)]
pub enum ZipError {
    /// A field of the calendar time is outside what the packed timestamp can
    /// hold.
    ClockFieldOutOfRange,
    /// A file name is longer than 65535 bytes, the most that its 16-bit
    /// length field can record.
    NameTooLong,
    /// Two files have the same name.
    DuplicateName,
    /// The local sections or the central directory are larger than the
    /// 32-bit size and offset fields can record.
    SizeOverflow,
}

/// Builds the bytes of a ZIP archive from named file bodies.
pub trait ZipBlobFactory {
    /// The archive of the files of `directory_mapping`, in their order, or
    /// the reason why there is none.
    fn create_zip_binary(&self, directory_mapping: Vec<(String, Vec<u8>)>) -> Result<
        Vec<u8>,
        ZipError,
    >;
}

} // verus!
