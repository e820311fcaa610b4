//! One archived file, and the two headers that describe it in the archive.

use crate::joined::{lemma_part_of_part, lemma_parts_of_four};
use crate::little_endian::{
    lemma_u16_le_round_trip, lemma_u32_le_round_trip, u16_from_le, u16_le, u16_to_le_bytes,
    u32_from_le, u32_le, u32_to_le_bytes,
};
use vstd::prelude::*;
use vstd::utf8::encode_utf8;

verus! {

/// Bytes of a local file header that come before the file name.
pub const LOCAL_FILE_HEADER_BASE_SIZE: usize = 30;

/// Bytes of a central directory header that come before the file name.
pub const CENTRAL_DIRECTORY_HEADER_BASE_SIZE: usize = 46;

/// The longest file name, in bytes, that the 16-bit length field can record.
pub const MAX_FILE_NAME_SIZE: usize = 0xFFFF;

/// The longest body, in bytes, that the 32-bit size fields can record.
pub const MAX_BODY_SIZE: usize = 0xFFFF_FFFF;

/// One file of the archive: its content and what the headers say of it.
pub struct ZipFileEntry {
    /// The content, stored as it is.
    pub body: Vec<u8>,
    /// The checksum of `body`.
    pub crc: u32,
    /// The path of the file inside the archive, with `/` between directories.
    pub file_name: String,
    /// The modification time, packed the MS-DOS way.
    pub dos_time: u16,
    /// The modification date, packed the MS-DOS way.
    pub dos_date: u16,
    /// Where the local file header starts, counted from the start of the archive.
    pub entry_offset: u32,
}

/// An entry as plain mathematical values.
pub struct ZipFileEntryView {
    pub body: Seq<u8>,
    pub crc: u32,
    pub file_name: Seq<char>,
    pub dos_time: u16,
    pub dos_date: u16,
    pub entry_offset: u32,
}

impl View for ZipFileEntry {
    type V = ZipFileEntryView;

    open spec fn view(&self) -> ZipFileEntryView {
        ZipFileEntryView {
            body: self.body@,
            crc: self.crc,
            file_name: self.file_name@,
            dos_time: self.dos_time,
            dos_date: self.dos_date,
            entry_offset: self.entry_offset,
        }
    }
}

/// Signature, version needed to extract (1.0), no flags, method "stored".
pub open spec fn local_file_archive_details() -> Seq<u8> {
    seq![0x50u8, 0x4B, 0x03, 0x04] + u16_le(10) + u16_le(0) + u16_le(0)
}

/// Signature, version made by (6.3), version needed to extract (1.0), no
/// flags, method "stored".
pub open spec fn central_directory_archive_details() -> Seq<u8> {
    seq![0x50u8, 0x4B, 0x01, 0x02] + u16_le(63) + u16_le(10) + u16_le(0) + u16_le(0)
}

impl ZipFileEntryView {
    /// The file name as it is written into the archive: its UTF-8 bytes.
    pub open spec fn name_bytes(self) -> Seq<u8> {
        encode_utf8(self.file_name)
    }

    /// Whether the name and the body are short enough for their length fields.
    pub open spec fn fits_format(self) -> bool {
        &&& self.name_bytes().len() <= MAX_FILE_NAME_SIZE
        &&& self.body.len() <= MAX_BODY_SIZE
    }

    /// The size of the local file header: 30 bytes and the name.
    pub open spec fn local_file_header_size(self) -> nat {
        LOCAL_FILE_HEADER_BASE_SIZE as nat + self.name_bytes().len()
    }

    /// The size of the central directory header: 46 bytes and the name.
    pub open spec fn central_directory_header_size(self) -> nat {
        CENTRAL_DIRECTORY_HEADER_BASE_SIZE as nat + self.name_bytes().len()
    }

    /// The bytes that the entry takes before the central directory: its local
    /// file header and its body.
    pub open spec fn local_section_size(self) -> nat {
        self.local_file_header_size() + self.body.len()
    }

    /// Modification time, then modification date.
    pub open spec fn modified_time_section(self) -> Seq<u8> {
        u16_le(self.dos_time) + u16_le(self.dos_date)
    }

    /// Checksum, compressed size, uncompressed size. Both sizes are the
    /// length of the body, since the body is stored as it is.
    pub open spec fn crc_and_size_section(self) -> Seq<u8> {
        u32_le(self.crc) + u32_le(self.body.len() as u32) + u32_le(self.body.len() as u32)
    }

    /// Length of the name, length of the extra field (none), the name.
    pub open spec fn local_file_name_section(self) -> Seq<u8> {
        u16_le(self.name_bytes().len() as u16) + u16_le(0) + self.name_bytes()
    }

    /// Length of the name, of the extra field (none) and of the comment
    /// (none), number of the disk (0), internal attributes (none), external
    /// attributes (none), offset of the local file header, the name.
    pub open spec fn central_directory_details_section(self) -> Seq<u8> {
        u16_le(self.name_bytes().len() as u16) + u16_le(0) + u16_le(0) + u16_le(0) + u16_le(0)
            + u32_le(0) + u32_le(self.entry_offset) + self.name_bytes()
    }

    /// The header that stands in front of the body.
    pub open spec fn local_file_header(self) -> Seq<u8> {
        local_file_archive_details() + self.modified_time_section() + self.crc_and_size_section()
            + self.local_file_name_section()
    }

    /// The header that stands for the entry in the central directory.
    pub open spec fn central_directory_header(self) -> Seq<u8> {
        central_directory_archive_details() + self.modified_time_section()
            + self.crc_and_size_section() + self.central_directory_details_section()
    }
}

impl ZipFileEntry {
    /// The size of the local file header in bytes.
    pub fn get_local_file_header_size(&self) -> (size: usize)
        requires
            self@.local_file_header_size() <= usize::MAX,
        ensures
            size == 30 + self@.name_bytes().len(),
            size == self@.local_file_header_size(),
    {
        let base_header_size: usize = LOCAL_FILE_HEADER_BASE_SIZE;
        let file_name_size: usize = self.file_name.as_str().as_bytes().len();

        base_header_size + file_name_size
    }

    /// The local file header.
    pub fn get_local_file_header(&self) -> (header: Vec<u8>)
        requires
            self@.fits_format(),
        ensures
            header@ == self@.local_file_header(),
            header@.len() == self@.local_file_header_size(),
    {
        let mut local_file_header: Vec<u8> = Vec::with_capacity(self.get_local_file_header_size());

        let mut local_file_archive_details_section = self.get_local_file_archive_details_section();
        let mut modified_time_header_section = self.get_modified_time_header_section();
        let mut crc_and_size_header_section = self.get_crc_and_size_header_section();
        let mut local_file_name_header_section = self.get_local_file_name_header_section();

        local_file_header.append(&mut local_file_archive_details_section);
        local_file_header.append(&mut modified_time_header_section);
        local_file_header.append(&mut crc_and_size_header_section);
        local_file_header.append(&mut local_file_name_header_section);

        local_file_header
    }

    /// The fixed bytes that open a local file header.
    pub fn get_local_file_archive_details_section(&self) -> (section: Vec<u8>)
        ensures
            section@ == local_file_archive_details(),
            section@.len() == 10,
    {
        let archive_details_section: Vec<u8> = vec![
            0x50, 0x4B, 0x03, 0x04,     // local file header signature
            0x0A, 0x00,                 // version needed to extract
            0x00, 0x00,                 // general purpose bit flag
            0x00, 0x00,                 // compression method
        ];
        assert(archive_details_section@ =~= local_file_archive_details());

        archive_details_section
    }

    /// Modification time and date, as both headers hold them.
    pub fn get_modified_time_header_section(&self) -> (section: Vec<u8>)
        ensures
            section@ == self@.modified_time_section(),
            section@.len() == 4,
    {
        let mut last_modified_time = u16_to_le_bytes(self.dos_time);
        let mut last_modified_date = u16_to_le_bytes(self.dos_date);

        last_modified_time.append(&mut last_modified_date);

        last_modified_time
    }

    /// Checksum and sizes, as both headers hold them.
    pub fn get_crc_and_size_header_section(&self) -> (section: Vec<u8>)
        requires
            self@.body.len() <= MAX_BODY_SIZE,
        ensures
            section@ == self@.crc_and_size_section(),
            section@.len() == 12,
    {
        let mut crc_and_size_header_section: Vec<u8> = Vec::with_capacity(12);

        let mut crc = u32_to_le_bytes(self.crc);
        let mut compressed_size = u32_to_le_bytes(self.get_total_file_size());
        let mut uncompressed_size = u32_to_le_bytes(self.get_total_file_size());

        crc_and_size_header_section.append(&mut crc);
        crc_and_size_header_section.append(&mut compressed_size);
        crc_and_size_header_section.append(&mut uncompressed_size);

        crc_and_size_header_section
    }

    /// The size of the file: the length of its body. The file name is no part
    /// of it.
    pub fn get_total_file_size(&self) -> (size: u32)
        requires
            self@.body.len() <= MAX_BODY_SIZE,
        ensures
            size == self@.body.len(),
    {
        let body_size: u32 = self.body.len() as u32;

        body_size
    }

    /// The end of a local file header: what it says of the name, and the name.
    pub fn get_local_file_name_header_section(&self) -> (section: Vec<u8>)
        requires
            self@.name_bytes().len() <= MAX_FILE_NAME_SIZE,
        ensures
            section@ == self@.local_file_name_section(),
            section@.len() == 4 + self@.name_bytes().len(),
    {
        let name_bytes = self.file_name.as_str().as_bytes();
        let mut local_file_name_header_section: Vec<u8> = Vec::with_capacity(4 + name_bytes.len());

        let name_length: u16 = name_bytes.len() as u16;
        let mut file_name_length = u16_to_le_bytes(name_length);

        let mut extra_field_length: Vec<u8> = vec![0x00, 0x00];
        assert(extra_field_length@ =~= u16_le(0));

        let mut file_name = vstd::slice::slice_to_vec(name_bytes);

        local_file_name_header_section.append(&mut file_name_length);
        local_file_name_header_section.append(&mut extra_field_length);
        local_file_name_header_section.append(&mut file_name);

        local_file_name_header_section
    }

    /// The size of the central directory header in bytes.
    pub fn get_central_directory_header_size(&self) -> (size: usize)
        requires
            self@.central_directory_header_size() <= usize::MAX,
        ensures
            size == 46 + self@.name_bytes().len(),
            size == self@.central_directory_header_size(),
    {
        let base_header_size: usize = CENTRAL_DIRECTORY_HEADER_BASE_SIZE;

        base_header_size + self.file_name.as_str().as_bytes().len()
    }

    /// The central directory header.
    pub fn get_central_directory_header(&self) -> (header: Vec<u8>)
        requires
            self@.fits_format(),
        ensures
            header@ == self@.central_directory_header(),
            header@.len() == self@.central_directory_header_size(),
    {
        let mut central_directory_header: Vec<u8> = Vec::with_capacity(
            self.get_central_directory_header_size(),
        );

        let mut central_directory_archive_header_section =
            self.get_central_directory_archive_details_section();
        let mut modified_time_header_section = self.get_modified_time_header_section();
        let mut crc_and_size_header_section = self.get_crc_and_size_header_section();
        let mut central_directory_details_header_section =
            self.get_central_directory_details_header_section();

        central_directory_header.append(&mut central_directory_archive_header_section);
        central_directory_header.append(&mut modified_time_header_section);
        central_directory_header.append(&mut crc_and_size_header_section);
        central_directory_header.append(&mut central_directory_details_header_section);

        central_directory_header
    }

    /// The fixed bytes that open a central directory header.
    pub fn get_central_directory_archive_details_section(&self) -> (section: Vec<u8>)
        ensures
            section@ == central_directory_archive_details(),
            section@.len() == 12,
    {
        let archive_details_section: Vec<u8> = vec![
            0x50, 0x4B, 0x01, 0x02,     // central directory header signature
            0x3F, 0x00,                 // version made by
            0x0A, 0x00,                 // version needed to extract
            0x00, 0x00,                 // general purpose bit flag
            0x00, 0x00,                 // compression method
        ];
        assert(archive_details_section@ =~= central_directory_archive_details());

        archive_details_section
    }

    /// The end of a central directory header: what it says of the name and of
    /// the place of the entry, and the name.
    pub fn get_central_directory_details_header_section(&self) -> (section: Vec<u8>)
        requires
            self@.name_bytes().len() <= MAX_FILE_NAME_SIZE,
        ensures
            section@ == self@.central_directory_details_section(),
            section@.len() == 18 + self@.name_bytes().len(),
    {
        let name_bytes = self.file_name.as_str().as_bytes();
        let mut name_header_section: Vec<u8> = Vec::with_capacity(18 + name_bytes.len());

        let name_length: u16 = name_bytes.len() as u16;
        let mut file_name_length = u16_to_le_bytes(name_length);
        let mut extra_field_length: Vec<u8> = vec![0x00, 0x00];
        let mut file_comment_length: Vec<u8> = vec![0x00, 0x00];
        let mut disk_number_start: Vec<u8> = vec![0x00, 0x00];
        let mut internal_file_attributes: Vec<u8> = vec![0x00, 0x00];
        let mut external_file_attributes: Vec<u8> = vec![0x00, 0x00, 0x00, 0x00];
        let mut relative_offset = u32_to_le_bytes(self.entry_offset);
        let mut file_name = vstd::slice::slice_to_vec(name_bytes);
        assert(extra_field_length@ =~= u16_le(0));
        assert(file_comment_length@ =~= u16_le(0));
        assert(disk_number_start@ =~= u16_le(0));
        assert(internal_file_attributes@ =~= u16_le(0));
        assert(external_file_attributes@ =~= u32_le(0));

        name_header_section.append(&mut file_name_length);
        name_header_section.append(&mut extra_field_length);
        name_header_section.append(&mut file_comment_length);
        name_header_section.append(&mut disk_number_start);
        name_header_section.append(&mut internal_file_attributes);
        name_header_section.append(&mut external_file_attributes);
        name_header_section.append(&mut relative_offset);
        name_header_section.append(&mut file_name);

        name_header_section
    }
}

/// Where the fields stand in the bytes that open a local file header.
proof fn lemma_local_file_archive_details_fields()
    ensures
        local_file_archive_details().len() == 10,
        local_file_archive_details().subrange(0, 4) == seq![0x50u8, 0x4B, 0x03, 0x04],
        local_file_archive_details().subrange(4, 6) == u16_le(10),
        local_file_archive_details().subrange(6, 8) == u16_le(0),
        local_file_archive_details().subrange(8, 10) == u16_le(0),
{
    let details = local_file_archive_details();
    assert(details.subrange(0, 4) =~= seq![0x50u8, 0x4B, 0x03, 0x04]);
    assert(details.subrange(4, 6) =~= u16_le(10));
    assert(details.subrange(6, 8) =~= u16_le(0));
    assert(details.subrange(8, 10) =~= u16_le(0));
}

/// Where the fields stand in the bytes that open a central directory header.
proof fn lemma_central_directory_archive_details_fields()
    ensures
        central_directory_archive_details().len() == 12,
        central_directory_archive_details().subrange(0, 4) == seq![0x50u8, 0x4B, 0x01, 0x02],
        central_directory_archive_details().subrange(4, 6) == u16_le(63),
        central_directory_archive_details().subrange(6, 8) == u16_le(10),
        central_directory_archive_details().subrange(8, 10) == u16_le(0),
        central_directory_archive_details().subrange(10, 12) == u16_le(0),
{
    let details = central_directory_archive_details();
    assert(details.subrange(0, 4) =~= seq![0x50u8, 0x4B, 0x01, 0x02]);
    assert(details.subrange(4, 6) =~= u16_le(63));
    assert(details.subrange(6, 8) =~= u16_le(10));
    assert(details.subrange(8, 10) =~= u16_le(0));
    assert(details.subrange(10, 12) =~= u16_le(0));
}

/// Where the fields stand in the sections that both headers share.
proof fn lemma_shared_section_fields(entry: ZipFileEntryView)
    ensures
        entry.modified_time_section().len() == 4,
        entry.modified_time_section().subrange(0, 2) == u16_le(entry.dos_time),
        entry.modified_time_section().subrange(2, 4) == u16_le(entry.dos_date),
        entry.crc_and_size_section().len() == 12,
        entry.crc_and_size_section().subrange(0, 4) == u32_le(entry.crc),
        entry.crc_and_size_section().subrange(4, 8) == u32_le(entry.body.len() as u32),
        entry.crc_and_size_section().subrange(8, 12) == u32_le(entry.body.len() as u32),
{
    let time = entry.modified_time_section();
    assert(time.subrange(0, 2) =~= u16_le(entry.dos_time));
    assert(time.subrange(2, 4) =~= u16_le(entry.dos_date));
    let sizes = entry.crc_and_size_section();
    assert(sizes.subrange(0, 4) =~= u32_le(entry.crc));
    assert(sizes.subrange(4, 8) =~= u32_le(entry.body.len() as u32));
    assert(sizes.subrange(8, 12) =~= u32_le(entry.body.len() as u32));
}

/// Where the fields stand in the end of a local file header.
proof fn lemma_local_file_name_section_fields(entry: ZipFileEntryView)
    ensures
        ({
            let section = entry.local_file_name_section();
            &&& section.len() == 4 + entry.name_bytes().len()
            &&& section.subrange(0, 2) == u16_le(entry.name_bytes().len() as u16)
            &&& section.subrange(2, 4) == u16_le(0)
            &&& section.subrange(4, section.len() as int) == entry.name_bytes()
        }),
{
    let section = entry.local_file_name_section();
    assert(section.subrange(0, 2) =~= u16_le(entry.name_bytes().len() as u16));
    assert(section.subrange(2, 4) =~= u16_le(0));
    assert(section.subrange(4, section.len() as int) =~= entry.name_bytes());
}

/// Where the fields stand in the end of a central directory header.
proof fn lemma_central_directory_details_section_fields(entry: ZipFileEntryView)
    ensures
        ({
            let section = entry.central_directory_details_section();
            &&& section.len() == 18 + entry.name_bytes().len()
            &&& section.subrange(0, 2) == u16_le(entry.name_bytes().len() as u16)
            &&& section.subrange(2, 4) == u16_le(0)
            &&& section.subrange(4, 6) == u16_le(0)
            &&& section.subrange(6, 8) == u16_le(0)
            &&& section.subrange(8, 10) == u16_le(0)
            &&& section.subrange(10, 14) == u32_le(0)
            &&& section.subrange(14, 18) == u32_le(entry.entry_offset)
            &&& section.subrange(18, section.len() as int) == entry.name_bytes()
        }),
{
    let section = entry.central_directory_details_section();
    assert(section.subrange(0, 2) =~= u16_le(entry.name_bytes().len() as u16));
    assert(section.subrange(2, 4) =~= u16_le(0));
    assert(section.subrange(4, 6) =~= u16_le(0));
    assert(section.subrange(6, 8) =~= u16_le(0));
    assert(section.subrange(8, 10) =~= u16_le(0));
    assert(section.subrange(10, 14) =~= u32_le(0));
    assert(section.subrange(14, 18) =~= u32_le(entry.entry_offset));
    assert(section.subrange(18, section.len() as int) =~= entry.name_bytes());
}

/// Where the fields of a local file header stand.
pub proof fn lemma_local_file_header_fields(entry: ZipFileEntryView)
    ensures
        ({
            let header = entry.local_file_header();
            &&& header.len() == 30 + entry.name_bytes().len()
            &&& header.subrange(0, 4) == seq![0x50u8, 0x4B, 0x03, 0x04]
            &&& header.subrange(4, 6) == u16_le(10)
            &&& header.subrange(6, 8) == u16_le(0)
            &&& header.subrange(8, 10) == u16_le(0)
            &&& header.subrange(10, 12) == u16_le(entry.dos_time)
            &&& header.subrange(12, 14) == u16_le(entry.dos_date)
            &&& header.subrange(14, 18) == u32_le(entry.crc)
            &&& header.subrange(18, 22) == u32_le(entry.body.len() as u32)
            &&& header.subrange(22, 26) == u32_le(entry.body.len() as u32)
            &&& header.subrange(26, 28) == u16_le(entry.name_bytes().len() as u16)
            &&& header.subrange(28, 30) == u16_le(0)
            &&& header.subrange(30, header.len() as int) == entry.name_bytes()
        }),
{
    let header = entry.local_file_header();
    let details = local_file_archive_details();
    let time = entry.modified_time_section();
    let sizes = entry.crc_and_size_section();
    let name = entry.local_file_name_section();
    lemma_local_file_archive_details_fields();
    lemma_shared_section_fields(entry);
    lemma_local_file_name_section_fields(entry);
    lemma_parts_of_four(details, time, sizes, name);
    lemma_part_of_part(header, details, 0, 0, 4);
    lemma_part_of_part(header, details, 0, 4, 6);
    lemma_part_of_part(header, details, 0, 6, 8);
    lemma_part_of_part(header, details, 0, 8, 10);
    lemma_part_of_part(header, time, 10, 0, 2);
    lemma_part_of_part(header, time, 10, 2, 4);
    lemma_part_of_part(header, sizes, 14, 0, 4);
    lemma_part_of_part(header, sizes, 14, 4, 8);
    lemma_part_of_part(header, sizes, 14, 8, 12);
    lemma_part_of_part(header, name, 26, 0, 2);
    lemma_part_of_part(header, name, 26, 2, 4);
    lemma_part_of_part(header, name, 26, 4, name.len() as int);
}

/// Where the fields of a central directory header stand.
pub proof fn lemma_central_directory_header_fields(entry: ZipFileEntryView)
    ensures
        ({
            let header = entry.central_directory_header();
            &&& header.len() == 46 + entry.name_bytes().len()
            &&& header.subrange(0, 4) == seq![0x50u8, 0x4B, 0x01, 0x02]
            &&& header.subrange(4, 6) == u16_le(63)
            &&& header.subrange(6, 8) == u16_le(10)
            &&& header.subrange(8, 10) == u16_le(0)
            &&& header.subrange(10, 12) == u16_le(0)
            &&& header.subrange(12, 14) == u16_le(entry.dos_time)
            &&& header.subrange(14, 16) == u16_le(entry.dos_date)
            &&& header.subrange(16, 20) == u32_le(entry.crc)
            &&& header.subrange(20, 24) == u32_le(entry.body.len() as u32)
            &&& header.subrange(24, 28) == u32_le(entry.body.len() as u32)
            &&& header.subrange(28, 30) == u16_le(entry.name_bytes().len() as u16)
            &&& header.subrange(30, 32) == u16_le(0)
            &&& header.subrange(32, 34) == u16_le(0)
            &&& header.subrange(34, 36) == u16_le(0)
            &&& header.subrange(36, 38) == u16_le(0)
            &&& header.subrange(38, 42) == u32_le(0)
            &&& header.subrange(42, 46) == u32_le(entry.entry_offset)
            &&& header.subrange(46, header.len() as int) == entry.name_bytes()
        }),
{
    let header = entry.central_directory_header();
    let details = central_directory_archive_details();
    let time = entry.modified_time_section();
    let sizes = entry.crc_and_size_section();
    let name = entry.central_directory_details_section();
    lemma_central_directory_archive_details_fields();
    lemma_shared_section_fields(entry);
    lemma_central_directory_details_section_fields(entry);
    lemma_parts_of_four(details, time, sizes, name);
    lemma_part_of_part(header, details, 0, 0, 4);
    lemma_part_of_part(header, details, 0, 4, 6);
    lemma_part_of_part(header, details, 0, 6, 8);
    lemma_part_of_part(header, details, 0, 8, 10);
    lemma_part_of_part(header, details, 0, 10, 12);
    lemma_part_of_part(header, time, 12, 0, 2);
    lemma_part_of_part(header, time, 12, 2, 4);
    lemma_part_of_part(header, sizes, 16, 0, 4);
    lemma_part_of_part(header, sizes, 16, 4, 8);
    lemma_part_of_part(header, sizes, 16, 8, 12);
    lemma_part_of_part(header, name, 28, 0, 2);
    lemma_part_of_part(header, name, 28, 2, 4);
    lemma_part_of_part(header, name, 28, 4, 6);
    lemma_part_of_part(header, name, 28, 6, 8);
    lemma_part_of_part(header, name, 28, 8, 10);
    lemma_part_of_part(header, name, 28, 10, 14);
    lemma_part_of_part(header, name, 28, 14, 18);
    lemma_part_of_part(header, name, 28, 18, name.len() as int);
}

/// What the local file header of an entry that fits the format says can be
/// read back: the sizes are the length of the body, and the name length is
/// the length of the name.
pub proof fn lemma_local_file_header_reads_back(entry: ZipFileEntryView)
    requires
        entry.fits_format(),
    ensures
        u32_from_le(entry.local_file_header().subrange(18, 22)) == entry.body.len(),
        u32_from_le(entry.local_file_header().subrange(22, 26)) == entry.body.len(),
        u16_from_le(entry.local_file_header().subrange(26, 28)) == entry.name_bytes().len(),
{
    lemma_local_file_header_fields(entry);
    lemma_u32_le_round_trip(entry.body.len() as u32);
    lemma_u16_le_round_trip(entry.name_bytes().len() as u16);
}

/// What the central directory header of an entry that fits the format says
/// can be read back: the sizes are the length of the body, the name length
/// is the length of the name, and the offset is the offset of the entry.
pub proof fn lemma_central_directory_header_reads_back(entry: ZipFileEntryView)
    requires
        entry.fits_format(),
    ensures
        u32_from_le(entry.central_directory_header().subrange(20, 24)) == entry.body.len(),
        u32_from_le(entry.central_directory_header().subrange(24, 28)) == entry.body.len(),
        u16_from_le(entry.central_directory_header().subrange(28, 30))
            == entry.name_bytes().len(),
        u32_from_le(entry.central_directory_header().subrange(42, 46)) == entry.entry_offset,
{
    lemma_central_directory_header_fields(entry);
    lemma_u32_le_round_trip(entry.body.len() as u32);
    lemma_u16_le_round_trip(entry.name_bytes().len() as u16);
    lemma_u32_le_round_trip(entry.entry_offset);
}

} // verus!
