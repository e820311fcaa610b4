//! Assembles ZIP archives in memory, storing every file without compression.
//!
//! [`generate_zip_binary`] builds the archive of a list of named file bodies.
//! What the bytes of an archive are is stated in [`zip_file::zip_layout`],
//! and the executable code is proved to produce exactly those bytes.

pub mod crc_calculator;
pub mod date_time_converter;
pub mod date_time_retriever;
pub mod joined;
pub mod little_endian;
pub mod zip_file;

use crate::crc_calculator::crc_calculator_adapter::{crc32_iso_hdlc, CrcCalculatorAdapter};
use crate::date_time_converter::dos_date_time_calculator_adapter::DosDateTimeCalculatorAdapter;
use crate::date_time_converter::{dos_date_of, dos_time_of, SystemTime};
use crate::zip_file::zip_blob_factory::{rejection, ZipBlobFactoryAdapter};
use crate::zip_file::zip_file_entry::ZipFileEntryView;
use crate::zip_file::zip_layout::{file_views, local_sections_size_before, zip_binary, FileView};
use crate::zip_file::{ZipBlobFactory, ZipError};
use vstd::prelude::*;

verus! {

/// The entries of `files` with their CRC-32/ISO-HDLC checksums and one
/// timestamp for all, each placed behind the local sections of those before
/// it.
pub open spec fn stamped_entries(files: Seq<FileView>, dos_time: u16, dos_date: u16) -> Seq<
    ZipFileEntryView,
> {
    Seq::new(
        files.len(),
        |i: int|
            ZipFileEntryView {
                body: files[i].1,
                crc: crc32_iso_hdlc(files[i].1),
                file_name: files[i].0,
                dos_time,
                dos_date,
                entry_offset: local_sections_size_before(files, i) as u32,
            },
    )
}

/// Why there is no archive of the files with this time, if there is none. A
/// time that cannot be packed as it is comes before what is wrong with the
/// files.
pub open spec fn generation_rejection(files: Seq<FileView>, date_time: SystemTime) -> Option<
    ZipError,
> {
    if !date_time.fits_dos_fields() {
        Some(ZipError::ClockFieldOutOfRange)
    } else {
        rejection(files)
    }
}

/// The ZIP archive of the files of `directory_mapping`, each a name with a
/// body, in the order in which they are given and all stamped with
/// `date_time`; or the reason why there is none. The same files and the same
/// time give the same bytes.
pub fn generate_zip_binary(directory_mapping: Vec<(String, Vec<u8>)>, date_time: SystemTime) -> (result:
    Result<Vec<u8>, ZipError>)
    ensures
        match result {
            Ok(zip_blob) => {
                &&& generation_rejection(file_views(directory_mapping@), date_time) is None
                &&& zip_blob@ == zip_binary(
                    stamped_entries(
                        file_views(directory_mapping@),
                        dos_time_of(date_time.hours, date_time.minutes, date_time.seconds) as u16,
                        dos_date_of(date_time.day, date_time.month, date_time.year) as u16,
                    ),
                )
            },
            Err(error) => generation_rejection(file_views(directory_mapping@), date_time) == Some(
                error,
            ),
        },
{
    if !date_time.is_packable() {
        return Err(ZipError::ClockFieldOutOfRange);
    }
    let ghost files = file_views(directory_mapping@);
    let ghost dos_time = dos_time_of(date_time.hours, date_time.minutes, date_time.seconds) as u16;
    let ghost dos_date = dos_date_of(date_time.day, date_time.month, date_time.year) as u16;

    let zip_blob_factory = ZipBlobFactoryAdapter {
        crc_calculator: CrcCalculatorAdapter {},
        date_time_retriever: DosDateTimeCalculatorAdapter { date_time },
    };

    let result = zip_blob_factory.create_zip_binary(directory_mapping);
    proof {
        if result is Ok {
            let zip_blob = result->Ok_0@;
            let entries = choose|entries: Seq<ZipFileEntryView>|
                #[trigger] zip_blob_factory.may_lay_out(files, entries) && zip_blob == zip_binary(
                    entries,
                );
            assert(entries =~= stamped_entries(files, dos_time, dos_date));
        }
    }
    result
}

} // verus!
