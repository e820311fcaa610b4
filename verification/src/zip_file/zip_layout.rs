//! The archive as a sequence of bytes: the local sections of the entries, the
//! central directory, and the record that ends it.

use crate::joined::{
    lemma_part_of_part, lemma_part_of_start, lemma_parts_of_four, lemma_parts_of_three,
};
use crate::little_endian::{u16_from_le, u16_le, u32_from_le, u32_le};
use crate::zip_file::zip_file_entry::{ZipFileEntry, ZipFileEntryView};
use vstd::prelude::*;
use vstd::utf8::encode_utf8;

verus! {

/// A file to archive: its name and its body.
pub type FileView = (Seq<char>, Seq<u8>);

/// The files that are handed to the factory, as plain values.
pub open spec fn file_views(files: Seq<(String, Vec<u8>)>) -> Seq<FileView> {
    files.map_values(|file: (String, Vec<u8>)| (file.0@, file.1@))
}

/// The entries of an archive, as plain values.
pub open spec fn entry_views(entries: Seq<ZipFileEntry>) -> Seq<ZipFileEntryView> {
    entries.map_values(|entry: ZipFileEntry| entry@)
}

/// The files that the entries archive.
pub open spec fn files_of(entries: Seq<ZipFileEntryView>) -> Seq<FileView> {
    entries.map_values(|entry: ZipFileEntryView| (entry.file_name, entry.body))
}

/// The bytes that a file takes before the central directory: its local file
/// header and its body.
pub open spec fn file_local_section_size(file: FileView) -> nat {
    30 + encode_utf8(file.0).len() + file.1.len()
}

/// The bytes that a file takes in the central directory.
pub open spec fn file_central_directory_header_size(file: FileView) -> nat {
    46 + encode_utf8(file.0).len()
}

/// The size of the local sections of the first `count` files together.
pub open spec fn local_sections_size_before(files: Seq<FileView>, count: int) -> nat
    decreases count,
{
    if count <= 0 {
        0
    } else {
        local_sections_size_before(files, count - 1) + file_local_section_size(files[count - 1])
    }
}

/// The size of the local sections of all files together: where the central
/// directory starts.
pub open spec fn local_sections_size(files: Seq<FileView>) -> nat {
    local_sections_size_before(files, files.len() as int)
}

/// The size of the central directory headers of the first `count` files
/// together.
pub open spec fn central_directory_size_before(files: Seq<FileView>, count: int) -> nat
    decreases count,
{
    if count <= 0 {
        0
    } else {
        central_directory_size_before(files, count - 1) + file_central_directory_header_size(
            files[count - 1],
        )
    }
}

/// The size of the central directory.
pub open spec fn central_directory_size(files: Seq<FileView>) -> nat {
    central_directory_size_before(files, files.len() as int)
}

/// Whether each entry starts where the local sections of the entries before
/// it end, the first one at the start of the archive.
pub open spec fn has_sequential_offsets(entries: Seq<ZipFileEntryView>) -> bool {
    forall|i: int|
        0 <= i < entries.len() ==> (#[trigger] entries[i]).entry_offset
            == local_sections_size_before(files_of(entries), i)
}

/// The local sections of the first `count` entries: for each entry its local
/// file header, then its body.
pub open spec fn local_sections_before(entries: Seq<ZipFileEntryView>, count: int) -> Seq<u8>
    decreases count,
{
    if count <= 0 {
        Seq::empty()
    } else {
        local_sections_before(entries, count - 1) + entries[count - 1].local_file_header()
            + entries[count - 1].body
    }
}

/// The local sections of all entries.
pub open spec fn local_sections(entries: Seq<ZipFileEntryView>) -> Seq<u8> {
    local_sections_before(entries, entries.len() as int)
}

/// The central directory headers of the first `count` entries.
pub open spec fn central_directory_before(entries: Seq<ZipFileEntryView>, count: int) -> Seq<u8>
    decreases count,
{
    if count <= 0 {
        Seq::empty()
    } else {
        central_directory_before(entries, count - 1) + entries[count
            - 1].central_directory_header()
    }
}

/// The central directory: one header for each entry, in the order of the
/// local sections.
pub open spec fn central_directory(entries: Seq<ZipFileEntryView>) -> Seq<u8> {
    central_directory_before(entries, entries.len() as int)
}

/// The number of entries as the end record holds it: in 16 bits, so without
/// its multiples of 65536.
pub open spec fn record_count(entries: Seq<ZipFileEntryView>) -> u16 {
    (entries.len() % 65536) as u16
}

/// Signature, number of this disk (0), disk where the central directory
/// starts (0).
pub open spec fn end_of_central_directory_disk_info() -> Seq<u8> {
    seq![0x50u8, 0x4B, 0x05, 0x06] + u16_le(0) + u16_le(0)
}

/// The record that ends the archive: disk information, the number of entries
/// on this disk and in all (the same: there is one disk), the size of the
/// central directory, the offset at which it starts, and the length of the
/// comment (none).
pub open spec fn end_of_central_directory_record(entries: Seq<ZipFileEntryView>) -> Seq<u8> {
    end_of_central_directory_disk_info() + u16_le(record_count(entries)) + u16_le(
        record_count(entries),
    ) + u32_le(central_directory_size(files_of(entries)) as u32) + u32_le(
        local_sections_size(files_of(entries)) as u32,
    ) + u16_le(0)
}

/// The archive: local sections, central directory, end record.
pub open spec fn zip_binary(entries: Seq<ZipFileEntryView>) -> Seq<u8> {
    local_sections(entries) + central_directory(entries) + end_of_central_directory_record(
        entries,
    )
}

/// The sizes grow with the number of files counted.
pub proof fn lemma_sizes_grow(files: Seq<FileView>, fewer: int, more: int)
    requires
        fewer <= more,
    ensures
        local_sections_size_before(files, fewer) <= local_sections_size_before(files, more),
        central_directory_size_before(files, fewer) <= central_directory_size_before(files, more),
    decreases more - fewer,
{
    if fewer < more {
        lemma_sizes_grow(files, fewer, more - 1);
    }
}

/// Both headers are as long as their size says.
pub proof fn lemma_header_lengths(entry: ZipFileEntryView)
    ensures
        entry.local_file_header().len() == entry.local_file_header_size(),
        entry.central_directory_header().len() == entry.central_directory_header_size(),
{
}

/// The local sections and the central directory are as long as the sizes of
/// their files say.
pub proof fn lemma_section_lengths(entries: Seq<ZipFileEntryView>, count: int)
    requires
        0 <= count <= entries.len(),
    ensures
        local_sections_before(entries, count).len() == local_sections_size_before(
            files_of(entries),
            count,
        ),
        central_directory_before(entries, count).len() == central_directory_size_before(
            files_of(entries),
            count,
        ),
    decreases count,
{
    if count > 0 {
        lemma_section_lengths(entries, count - 1);
        lemma_header_lengths(entries[count - 1]);
    }
}

/// The archive is as long as its local sections, its central directory and
/// the 22 bytes of its end record together.
pub proof fn lemma_zip_binary_length(entries: Seq<ZipFileEntryView>)
    ensures
        zip_binary(entries).len() == local_sections_size(files_of(entries))
            + central_directory_size(files_of(entries)) + 22,
{
    lemma_section_lengths(entries, entries.len() as int);
}

/// The local sections of more entries start with the local sections of fewer.
pub proof fn lemma_local_sections_start(entries: Seq<ZipFileEntryView>, fewer: int, more: int)
    requires
        0 <= fewer <= more <= entries.len(),
    ensures
        local_sections_before(entries, fewer).is_prefix_of(local_sections_before(entries, more)),
    decreases more - fewer,
{
    if fewer < more {
        lemma_local_sections_start(entries, fewer, more - 1);
    }
}

/// The central directory of more entries starts with that of fewer.
pub proof fn lemma_central_directory_start(entries: Seq<ZipFileEntryView>, fewer: int, more: int)
    requires
        0 <= fewer <= more <= entries.len(),
    ensures
        central_directory_before(entries, fewer).is_prefix_of(
            central_directory_before(entries, more),
        ),
    decreases more - fewer,
{
    if fewer < more {
        lemma_central_directory_start(entries, fewer, more - 1);
    }
}

/// The offset of an entry is where its local file header stands in the
/// archive, and its body follows the header.
pub proof fn lemma_entry_offset_locates_local_section(entries: Seq<ZipFileEntryView>, i: int)
    requires
        has_sequential_offsets(entries),
        0 <= i < entries.len(),
    ensures
        ({
            let header_start: int = entries[i].entry_offset as int;
            let body_start: int = header_start + entries[i].local_file_header_size();
            let body_end: int = body_start + entries[i].body.len();
            &&& body_end <= zip_binary(entries).len()
            &&& zip_binary(entries).subrange(header_start, body_start)
                == entries[i].local_file_header()
            &&& zip_binary(entries).subrange(body_start, body_end) == entries[i].body
        }),
{
    let header_start: int = entries[i].entry_offset as int;
    let body_start: int = header_start + entries[i].local_file_header_size();
    let body_end: int = body_start + entries[i].body.len();
    let before = local_sections_before(entries, i);
    let header = entries[i].local_file_header();
    let body = entries[i].body;
    let through = local_sections_before(entries, i + 1);
    let sections = local_sections(entries);
    let archive = zip_binary(entries);

    assert(through == before + header + body);
    lemma_section_lengths(entries, i);
    lemma_header_lengths(entries[i]);
    assert(before.len() == header_start);
    assert(header.len() == body_start - header_start);
    lemma_parts_of_three(before, header, body);

    lemma_local_sections_start(entries, i + 1, entries.len() as int);
    lemma_parts_of_three(
        sections,
        central_directory(entries),
        end_of_central_directory_record(entries),
    );
    assert(through.is_prefix_of(archive)) by {
        assert(through.is_prefix_of(sections));
        assert(sections.is_prefix_of(archive));
        assert(through =~= archive.subrange(0, through.len() as int));
    }
    lemma_part_of_start(archive, through, header_start, body_start);
    lemma_part_of_start(archive, through, body_start, body_end);
}

/// The central directory starts where the local sections end, and the header
/// of an entry stands in it behind the headers of the entries before.
pub proof fn lemma_central_directory_header_location(entries: Seq<ZipFileEntryView>, i: int)
    requires
        0 <= i < entries.len(),
    ensures
        ({
            let start: int = (local_sections_size(files_of(entries))
                + central_directory_size_before(files_of(entries), i)) as int;
            let end: int = start + entries[i].central_directory_header_size();
            &&& end <= zip_binary(entries).len()
            &&& zip_binary(entries).subrange(start, end) == entries[i].central_directory_header()
        }),
{
    let sections = local_sections(entries);
    let directory = central_directory(entries);
    let record = end_of_central_directory_record(entries);
    let before = central_directory_before(entries, i);
    let header = entries[i].central_directory_header();
    let through = central_directory_before(entries, i + 1);
    let from: int = before.len() as int;
    let to: int = from + header.len();

    lemma_section_lengths(entries, entries.len() as int);
    lemma_section_lengths(entries, i);
    lemma_header_lengths(entries[i]);
    assert(through == before + header);
    lemma_central_directory_start(entries, i + 1, entries.len() as int);
    assert(through.subrange(from, to) =~= header);
    lemma_part_of_start(directory, through, from, to);
    lemma_parts_of_three(sections, directory, record);
    let directory_start: int = sections.len() as int;
    let directory_end: int = directory_start + directory.len();
    assert(zip_binary(entries).subrange(directory_start + from, directory_start + to)
        =~= directory.subrange(from, to)) by {
        assert(zip_binary(entries).subrange(directory_start, directory_end) == directory);
        assert(directory.subrange(from, to) =~= zip_binary(entries).subrange(
            directory_start,
            directory_end,
        ).subrange(from, to));
    }
}

/// The end record stands behind the central directory and ends the archive.
pub proof fn lemma_end_record_location(entries: Seq<ZipFileEntryView>)
    ensures
        ({
            let start: int = (local_sections_size(files_of(entries)) + central_directory_size(
                files_of(entries),
            )) as int;
            &&& zip_binary(entries).len() == start + 22
            &&& zip_binary(entries).subrange(start, start + 22) == end_of_central_directory_record(
                entries,
            )
        }),
{
    lemma_section_lengths(entries, entries.len() as int);
    lemma_parts_of_three(
        local_sections(entries),
        central_directory(entries),
        end_of_central_directory_record(entries),
    );
    assert(end_of_central_directory_record(entries).len() == 22);
}

/// Where the fields of the end record stand, and what they read back: the
/// number of entries without its multiples of 65536, and, where they fit 32
/// bits, the size of the central directory and the offset at which it
/// starts.
pub proof fn lemma_end_record_fields(entries: Seq<ZipFileEntryView>)
    ensures
        ({
            let record = end_of_central_directory_record(entries);
            let files = files_of(entries);
            &&& record.len() == 22
            &&& record.subrange(0, 4) == seq![0x50u8, 0x4B, 0x05, 0x06]
            &&& record.subrange(4, 6) == u16_le(0)
            &&& record.subrange(6, 8) == u16_le(0)
            &&& record.subrange(8, 10) == u16_le(record_count(entries))
            &&& record.subrange(10, 12) == u16_le(record_count(entries))
            &&& record.subrange(12, 16) == u32_le(central_directory_size(files) as u32)
            &&& record.subrange(16, 20) == u32_le(local_sections_size(files) as u32)
            &&& record.subrange(20, 22) == u16_le(0)
            &&& u16_from_le(record.subrange(8, 10)) == entries.len() % 65536
            &&& u16_from_le(record.subrange(10, 12)) == entries.len() % 65536
            &&& central_directory_size(files) <= u32::MAX ==> u32_from_le(record.subrange(12, 16))
                == central_directory_size(files)
            &&& local_sections_size(files) <= u32::MAX ==> u32_from_le(record.subrange(16, 20))
                == local_sections_size(files)
        }),
{
    let record = end_of_central_directory_record(entries);
    let files = files_of(entries);
    let disk_info = end_of_central_directory_disk_info();
    let count = u16_le(record_count(entries));
    let size = u32_le(central_directory_size(files) as u32);
    let offset = u32_le(local_sections_size(files) as u32);
    let comment = u16_le(0);
    let counted = disk_info + count + count + size;
    assert(disk_info.subrange(0, 4) =~= seq![0x50u8, 0x4B, 0x05, 0x06]);
    assert(disk_info.subrange(4, 6) =~= u16_le(0));
    assert(disk_info.subrange(6, 8) =~= u16_le(0));
    lemma_parts_of_four(disk_info, count, count, size);
    lemma_parts_of_three(counted, offset, comment);
    assert(record == counted + offset + comment);
    lemma_part_of_part(record, counted, 0, 0, 8);
    lemma_part_of_part(record, counted, 0, 8, 10);
    lemma_part_of_part(record, counted, 0, 10, 12);
    lemma_part_of_part(record, counted, 0, 12, 16);
    lemma_part_of_part(record, disk_info, 0, 0, 4);
    lemma_part_of_part(record, disk_info, 0, 4, 6);
    lemma_part_of_part(record, disk_info, 0, 6, 8);
}

/// The first entry starts at the start of the archive, and every other entry
/// where the local section of the entry before it ends.
pub proof fn lemma_entry_offset_follows(entries: Seq<ZipFileEntryView>, i: int)
    requires
        has_sequential_offsets(entries),
        0 <= i < entries.len(),
    ensures
        i == 0 ==> entries[i].entry_offset == 0,
        i > 0 ==> entries[i].entry_offset == entries[i - 1].entry_offset + entries[i
            - 1].local_file_header_size() + entries[i - 1].body.len(),
{
}

/// The entries do not overlap, and their offsets strictly increase: an entry
/// starts no earlier than where the local section of an earlier entry ends.
pub proof fn lemma_entry_offsets_increase(entries: Seq<ZipFileEntryView>, earlier: int, later: int)
    requires
        has_sequential_offsets(entries),
        0 <= earlier < later < entries.len(),
    ensures
        entries[earlier].entry_offset + entries[earlier].local_file_header_size()
            + entries[earlier].body.len() <= entries[later].entry_offset,
        entries[earlier].entry_offset < entries[later].entry_offset,
{
    lemma_sizes_grow(files_of(entries), earlier + 1, later);
}

/// The archive of a single entry: the local file header at the start, the
/// central directory header behind the body, the end record behind that,
/// each with its signature.
pub proof fn lemma_single_entry_layout(entry: ZipFileEntryView)
    requires
        entry.entry_offset == 0,
    ensures
        ({
            let archive = zip_binary(seq![entry]);
            let directory_start: int = (30 + entry.name_bytes().len() + entry.body.len()) as int;
            let record_start: int = directory_start + 46 + entry.name_bytes().len();
            &&& archive.len() == record_start + 22
            &&& archive.subrange(0, 4) == seq![0x50u8, 0x4B, 0x03, 0x04]
            &&& archive.subrange(directory_start, directory_start + 4) == seq![
                0x50u8,
                0x4B,
                0x01,
                0x02,
            ]
            &&& archive.subrange(record_start, record_start + 4) == seq![
                0x50u8,
                0x4B,
                0x05,
                0x06,
            ]
        }),
{
    let entries = seq![entry];
    let archive = zip_binary(entries);
    let directory_start: int = (30 + entry.name_bytes().len() + entry.body.len()) as int;
    let record_start: int = directory_start + 46 + entry.name_bytes().len();
    assert(files_of(entries)[0] == (entry.file_name, entry.body));
    assert(local_sections_size_before(files_of(entries), 0) == 0);
    assert(central_directory_size_before(files_of(entries), 0) == 0);
    assert(has_sequential_offsets(entries));
    lemma_entry_offset_locates_local_section(entries, 0);
    lemma_central_directory_header_location(entries, 0);
    lemma_end_record_location(entries);
    lemma_header_lengths(entry);
    let local_header = archive.subrange(0, 30 + entry.name_bytes().len() as int);
    let central_header = archive.subrange(directory_start, record_start);
    let record = archive.subrange(record_start, record_start + 22);
    assert(archive.subrange(0, 4) =~= local_header.subrange(0, 4));
    assert(local_header.subrange(0, 4) =~= seq![0x50u8, 0x4B, 0x03, 0x04]);
    assert(archive.subrange(directory_start, directory_start + 4) =~= central_header.subrange(
        0,
        4,
    ));
    assert(central_header.subrange(0, 4) =~= seq![0x50u8, 0x4B, 0x01, 0x02]);
    assert(archive.subrange(record_start, record_start + 4) =~= record.subrange(0, 4));
    assert(record.subrange(0, 4) =~= seq![0x50u8, 0x4B, 0x05, 0x06]);
}

} // verus!
