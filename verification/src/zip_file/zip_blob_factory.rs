//! The factory: it checks the files, gives each its entry and its place, and
//! writes the archive.

use crate::crc_calculator::{is_deterministic, may_checksum, CrcCalculator};
use crate::date_time_converter::{
    is_fixed, may_tell_date, may_tell_time, DosDateTimeCalculator,
};
use crate::little_endian::{u16_le, u16_to_le_bytes, u32_le, u32_to_le_bytes};
use crate::zip_file::zip_file_entry::{ZipFileEntry, ZipFileEntryView, MAX_FILE_NAME_SIZE};
use crate::zip_file::zip_layout::{
    central_directory_before, central_directory_size, central_directory_size_before,
    end_of_central_directory_disk_info, end_of_central_directory_record, entry_views, file_views,
    files_of, has_sequential_offsets, lemma_sizes_grow, local_sections_before,
    local_sections_size, local_sections_size_before, record_count, zip_binary, FileView,
};
use crate::zip_file::{ZipBlobFactory, ZipError};
use vstd::prelude::*;
use vstd::utf8::encode_utf8;

verus! {

/// Whether some file has a name that its length field cannot record.
pub open spec fn has_long_name(files: Seq<FileView>) -> bool {
    exists|i: int|
        0 <= i < files.len() && encode_utf8((#[trigger] files[i]).0).len() > MAX_FILE_NAME_SIZE
}

/// Whether two files have the same name.
pub open spec fn has_duplicate_name(files: Seq<FileView>) -> bool {
    exists|i: int, j: int|
        0 <= i < j < files.len() && (#[trigger] files[i]).0 == (#[trigger] files[j]).0
}

/// Whether the local sections or the central directory are larger than a
/// 32-bit field can record.
pub open spec fn exceeds_size_fields(files: Seq<FileView>) -> bool {
    local_sections_size(files) > u32::MAX || central_directory_size(files) > u32::MAX
}

/// Why the files cannot be archived, if they cannot. A name that is too long
/// is reported before a name that occurs twice, and that before a size that
/// is too large.
pub open spec fn rejection(files: Seq<FileView>) -> Option<ZipError> {
    if has_long_name(files) {
        Some(ZipError::NameTooLong)
    } else if has_duplicate_name(files) {
        Some(ZipError::DuplicateName)
    } else if exceeds_size_fields(files) {
        Some(ZipError::SizeOverflow)
    } else {
        None
    }
}

/// Builds archives with the checksums of `crc_calculator` and the timestamps
/// of `date_time_retriever`. The files are archived in the order in which
/// they are given.
pub struct ZipBlobFactoryAdapter<C: CrcCalculator, D: DosDateTimeCalculator> {
    pub crc_calculator: C,
    pub date_time_retriever: D,
}

impl<C: CrcCalculator, D: DosDateTimeCalculator> ZipBlobFactoryAdapter<C, D> {
    /// Whether `entry` is what the factory can make of the file `name` with
    /// `body`, placed at `offset`: the file, the place, a checksum that the
    /// calculator gives to the body, and a time and a date that the
    /// retriever tells.
    pub open spec fn may_create(
        &self,
        name: Seq<char>,
        body: Seq<u8>,
        offset: int,
        entry: ZipFileEntryView,
    ) -> bool {
        &&& entry.file_name == name
        &&& entry.body == body
        &&& entry.entry_offset == offset
        &&& may_checksum(&self.crc_calculator, body, entry.crc)
        &&& may_tell_time(&self.date_time_retriever, entry.dos_time)
        &&& may_tell_date(&self.date_time_retriever, entry.dos_date)
    }

    /// Whether `entries` are what the factory can make of `files`: one entry
    /// for each file, in the same order, each placed behind the local
    /// sections of those before it.
    pub open spec fn may_lay_out(
        &self,
        files: Seq<FileView>,
        entries: Seq<ZipFileEntryView>,
    ) -> bool {
        &&& entries.len() == files.len()
        &&& forall|i: int|
            0 <= i < files.len() ==> self.may_create(
                files[i].0,
                files[i].1,
                local_sections_size_before(files, i) as int,
                #[trigger] entries[i],
            )
    }

    /// Whether `zip_blob` is an archive that the factory can make of `files`:
    /// the archive of entries that it can make of them.
    pub open spec fn may_build(&self, files: Seq<FileView>, zip_blob: Seq<u8>) -> bool {
        exists|entries: Seq<ZipFileEntryView>|
            #[trigger] self.may_lay_out(files, entries) && zip_blob == zip_binary(entries)
    }

    /// The entries that the factory makes archive the files in their order,
    /// each placed where the local sections of those before it end.
    pub proof fn lemma_lay_out_is_sequential(
        &self,
        files: Seq<FileView>,
        entries: Seq<ZipFileEntryView>,
    )
        requires
            self.may_lay_out(files, entries),
        ensures
            files_of(entries) == files,
            has_sequential_offsets(entries),
    {
        assert(files_of(entries) =~= files);
    }

    /// The entries that the factory makes of files that it does not reject
    /// fit the format.
    pub proof fn lemma_laid_out_entries_fit(
        &self,
        files: Seq<FileView>,
        entries: Seq<ZipFileEntryView>,
    )
        requires
            rejection(files) is None,
            self.may_lay_out(files, entries),
        ensures
            forall|i: int| 0 <= i < entries.len() ==> (#[trigger] entries[i]).fits_format(),
    {
        assert forall|i: int| 0 <= i < entries.len() implies (#[trigger] entries[i]).fits_format() by {
            assert(entries[i].file_name == files[i].0);
            assert(entries[i].body == files[i].1);
            lemma_sizes_grow(files, i + 1, files.len() as int);
        }
    }

    /// Building twice gives the same bytes: where the calculator is
    /// deterministic and the retriever is fixed, the files alone decide the
    /// archive.
    pub proof fn lemma_build_is_repeatable(
        &self,
        files: Seq<FileView>,
        first: Seq<u8>,
        second: Seq<u8>,
    )
        requires
            is_deterministic(&self.crc_calculator),
            is_fixed(&self.date_time_retriever),
            self.may_build(files, first),
            self.may_build(files, second),
        ensures
            first == second,
    {
        let first_entries = choose|entries: Seq<ZipFileEntryView>|
            #[trigger] self.may_lay_out(files, entries) && first == zip_binary(entries);
        let second_entries = choose|entries: Seq<ZipFileEntryView>|
            #[trigger] self.may_lay_out(files, entries) && second == zip_binary(entries);
        assert forall|i: int| 0 <= i < files.len() implies first_entries[i]
            == second_entries[i] by {
            assert(first_entries[i].body =~= second_entries[i].body);
            assert(first_entries[i].file_name =~= second_entries[i].file_name);
        }
        assert(first_entries =~= second_entries);
    }

    /// The entries of the files, or the reason why the files cannot be
    /// archived.
    pub fn create_zip_file_entries(&self, directory_mapping: Vec<(String, Vec<u8>)>) -> (result:
        Result<Vec<ZipFileEntry>, ZipError>)
        ensures
            match result {
                Ok(zip_file_entries) => {
                    &&& rejection(file_views(directory_mapping@)) is None
                    &&& self.may_lay_out(
                        file_views(directory_mapping@),
                        entry_views(zip_file_entries@),
                    )
                    &&& forall|i: int|
                        0 <= i < zip_file_entries@.len() ==> {
                            &&& (#[trigger] zip_file_entries@[i])@.fits_format()
                            &&& zip_file_entries@[i].entry_offset
                                + zip_file_entries@[i]@.local_section_size() <= u32::MAX
                            &&& self.may_create(
                                file_views(directory_mapping@)[i].0,
                                file_views(directory_mapping@)[i].1,
                                local_sections_size_before(file_views(directory_mapping@), i) as int,
                                zip_file_entries@[i]@,
                            )
                        }
                },
                Err(error) => rejection(file_views(directory_mapping@)) == Some(error),
            },
    {
        if has_name_too_long(&directory_mapping) {
            return Err(ZipError::NameTooLong);
        }
        if has_name_twice(&directory_mapping) {
            return Err(ZipError::DuplicateName);
        }
        if !sizes_fit(&directory_mapping) {
            return Err(ZipError::SizeOverflow);
        }
        let ghost files = file_views(directory_mapping@);
        let mut zip_file_entries: Vec<ZipFileEntry> = Vec::new();

        let mut file_header_offset: u32 = 0;

        for file in iter: directory_mapping
            invariant
                files == file_views(iter.seq()),
                !has_long_name(files),
                !exceeds_size_fields(files),
                zip_file_entries@.len() == iter.index(),
                file_header_offset == local_sections_size_before(files, iter.index() as int),
                forall|i: int|
                    0 <= i < iter.index() ==> self.may_create(
                        files[i].0,
                        files[i].1,
                        local_sections_size_before(files, i) as int,
                        (#[trigger] zip_file_entries@[i])@,
                    ),
        {
            let ghost index = iter.index() as int;
            let ghost entries_before = zip_file_entries@;
            let (file_name, file_body) = file;
            proof {
                assert(files[index] == (file_name@, file_body@));
                lemma_sizes_grow(files, index + 1, files.len() as int);
            }
            let zip_entry = self.create_zip_file_entry(file_name, file_body, file_header_offset);
            file_header_offset += self.get_zip_file_size(&zip_entry);
            zip_file_entries.push(zip_entry);
            proof {
                assert forall|i: int| 0 <= i < index + 1 implies self.may_create(
                    files[i].0,
                    files[i].1,
                    local_sections_size_before(files, i) as int,
                    (#[trigger] zip_file_entries@[i])@,
                ) by {
                    if i < index {
                        assert(zip_file_entries@[i] == entries_before[i]);
                    }
                }
            }
        }
        proof {
            let entries = entry_views(zip_file_entries@);
            assert forall|i: int| 0 <= i < files.len() implies self.may_create(
                files[i].0,
                files[i].1,
                local_sections_size_before(files, i) as int,
                #[trigger] entries[i],
            ) by {
                assert(entries[i] == zip_file_entries@[i]@);
            }
            self.lemma_laid_out_entries_fit(files, entries);
            assert forall|i: int| 0 <= i < zip_file_entries@.len() implies {
                &&& (#[trigger] zip_file_entries@[i])@.fits_format()
                &&& zip_file_entries@[i].entry_offset + zip_file_entries@[i]@.local_section_size()
                    <= u32::MAX
            } by {
                assert(entries[i] == zip_file_entries@[i]@);
                lemma_sizes_grow(files, i + 1, files.len() as int);
            }
        }

        Ok(zip_file_entries)
    }

    /// The entry of one file, placed at `header_offset`.
    pub fn create_zip_file_entry(
        &self,
        zip_file_name: String,
        file_body: Vec<u8>,
        header_offset: u32,
    ) -> (entry: ZipFileEntry)
        ensures
            self.may_create(zip_file_name@, file_body@, header_offset as int, entry@),
    {
        let file_crc = self.calculate_file_crc(file_body.as_slice());

        ZipFileEntry {
            body: file_body,
            crc: file_crc,
            file_name: zip_file_name,
            dos_time: self.date_time_retriever.get_current_dos_time(),
            dos_date: self.date_time_retriever.get_current_dos_date(),
            entry_offset: header_offset,
        }
    }

    /// The checksum of a body, as the calculator of the factory gives it.
    pub fn calculate_file_crc(&self, file_contents: &[u8]) -> (crc: u32)
        ensures
            may_checksum(&self.crc_calculator, file_contents@, crc),
    {
        self.crc_calculator.calculate_crc32(file_contents)
    }

    /// The size of the local section of an entry: of its local file header
    /// and its body.
    pub fn get_zip_file_size(&self, zip_file: &ZipFileEntry) -> (size: u32)
        requires
            zip_file@.local_section_size() <= u32::MAX,
        ensures
            size == zip_file@.local_section_size(),
    {
        let local_file_header_size: u32 = zip_file.get_local_file_header_size() as u32;
        let body_size: u32 = zip_file.body.len() as u32;

        local_file_header_size + body_size
    }

    /// The record that ends the archive of `zip_file_entries`.
    pub fn get_end_of_central_directory_record(&self, zip_file_entries: &[ZipFileEntry]) -> (record:
        Vec<u8>)
        requires
            !exceeds_size_fields(files_of(entry_views(zip_file_entries@))),
        ensures
            record@ == end_of_central_directory_record(entry_views(zip_file_entries@)),
            record@.len() == 22,
    {
        let mut end_of_central_directory_record: Vec<u8> = Vec::with_capacity(22);

        let mut disk_info_section: Vec<u8> = vec![
            0x50, 0x4B, 0x05, 0x06,     //end of central directory signature
            0x00, 0x00,                 //number of this disk
            0x00, 0x00,                 //disk where central directory starts
        ];
        assert(disk_info_section@ =~= end_of_central_directory_disk_info());

        let mut total_number_of_central_directory_records =
            self.get_number_of_central_directory_records_section(zip_file_entries);
        let mut number_of_central_directory_records_on_disk =
            self.get_number_of_central_directory_records_section(zip_file_entries);
        let mut size_of_central_directory_section = self.get_size_of_central_directory_section(
            zip_file_entries,
        );
        let mut central_directory_start_section = self.get_central_directory_start_offset_section(
            zip_file_entries,
        );

        let mut comment_length: Vec<u8> = vec![0x00, 0x00];
        assert(comment_length@ =~= u16_le(0));

        end_of_central_directory_record.append(&mut disk_info_section);
        end_of_central_directory_record.append(&mut total_number_of_central_directory_records);
        end_of_central_directory_record.append(&mut number_of_central_directory_records_on_disk);
        end_of_central_directory_record.append(&mut size_of_central_directory_section);
        end_of_central_directory_record.append(&mut central_directory_start_section);
        end_of_central_directory_record.append(&mut comment_length);

        end_of_central_directory_record
    }

    /// The number of entries, as the end record holds it twice.
    pub fn get_number_of_central_directory_records_section(
        &self,
        zip_file_entries: &[ZipFileEntry],
    ) -> (section: Vec<u8>)
        ensures
            section@ == u16_le(record_count(entry_views(zip_file_entries@))),
            section@ == u16_le((zip_file_entries@.len() % 65536) as u16),
            section@.len() == 2,
    {
        let number_of_central_directory_records: u16 = (zip_file_entries.len() % 65536) as u16;

        u16_to_le_bytes(number_of_central_directory_records)
    }

    /// The size of the central directory, as the end record holds it.
    pub fn get_size_of_central_directory_section(&self, zip_file_entries: &[ZipFileEntry]) -> (section:
        Vec<u8>)
        requires
            central_directory_size(files_of(entry_views(zip_file_entries@))) <= u32::MAX,
        ensures
            section@ == u32_le(
                central_directory_size(files_of(entry_views(zip_file_entries@))) as u32,
            ),
            section@.len() == 4,
    {
        let ghost files = files_of(entry_views(zip_file_entries@));
        let mut size_of_central_directory: u32 = 0;

        let mut index: usize = 0;
        while index < zip_file_entries.len()
            invariant
                index <= zip_file_entries@.len(),
                files == files_of(entry_views(zip_file_entries@)),
                central_directory_size(files) <= u32::MAX,
                size_of_central_directory == central_directory_size_before(files, index as int),
            decreases zip_file_entries@.len() - index,
        {
            let zip_file_entry = &zip_file_entries[index];
            proof {
                lemma_sizes_grow(files, index + 1, files.len() as int);
            }
            size_of_central_directory += zip_file_entry.get_central_directory_header_size() as u32;
            index += 1;
        }

        u32_to_le_bytes(size_of_central_directory)
    }

    /// The offset at which the central directory starts, as the end record
    /// holds it: the size of all local sections.
    pub fn get_central_directory_start_offset_section(
        &self,
        zip_file_entries: &[ZipFileEntry],
    ) -> (section: Vec<u8>)
        requires
            local_sections_size(files_of(entry_views(zip_file_entries@))) <= u32::MAX,
        ensures
            section@ == u32_le(
                local_sections_size(files_of(entry_views(zip_file_entries@))) as u32,
            ),
            section@.len() == 4,
    {
        let ghost files = files_of(entry_views(zip_file_entries@));
        let mut start_offset: u32 = 0;

        let mut index: usize = 0;
        while index < zip_file_entries.len()
            invariant
                index <= zip_file_entries@.len(),
                files == files_of(entry_views(zip_file_entries@)),
                local_sections_size(files) <= u32::MAX,
                start_offset == local_sections_size_before(files, index as int),
            decreases zip_file_entries@.len() - index,
        {
            let zip_file_entry = &zip_file_entries[index];
            proof {
                lemma_sizes_grow(files, index + 1, files.len() as int);
            }
            start_offset += zip_file_entry.get_local_file_header_size() as u32;
            start_offset += zip_file_entry.body.len() as u32;
            index += 1;
        }

        u32_to_le_bytes(start_offset)
    }
}

/// Whether some file has a name of more than 65535 bytes.
fn has_name_too_long(directory_mapping: &Vec<(String, Vec<u8>)>) -> (found: bool)
    ensures
        found == has_long_name(file_views(directory_mapping@)),
{
    let ghost files = file_views(directory_mapping@);
    let mut index: usize = 0;
    while index < directory_mapping.len()
        invariant
            index <= directory_mapping@.len(),
            files == file_views(directory_mapping@),
            forall|i: int|
                0 <= i < index ==> encode_utf8((#[trigger] files[i]).0).len()
                    <= MAX_FILE_NAME_SIZE,
        decreases directory_mapping@.len() - index,
    {
        if directory_mapping[index].0.as_str().as_bytes().len() > MAX_FILE_NAME_SIZE {
            assert(encode_utf8(files[index as int].0).len() > MAX_FILE_NAME_SIZE);
            return true;
        }
        index += 1;
    }
    false
}

/// Whether two files have the same name.
fn has_name_twice(directory_mapping: &Vec<(String, Vec<u8>)>) -> (found: bool)
    ensures
        found == has_duplicate_name(file_views(directory_mapping@)),
{
    let ghost files = file_views(directory_mapping@);
    let mut later: usize = 0;
    while later < directory_mapping.len()
        invariant
            later <= directory_mapping@.len(),
            files == file_views(directory_mapping@),
            forall|i: int, j: int|
                0 <= i < j < later ==> (#[trigger] files[i]).0 != (#[trigger] files[j]).0,
        decreases directory_mapping@.len() - later,
    {
        let mut earlier: usize = 0;
        while earlier < later
            invariant
                earlier <= later < directory_mapping@.len(),
                files == file_views(directory_mapping@),
                forall|i: int| 0 <= i < earlier ==> (#[trigger] files[i]).0 != files[later as int].0,
            decreases later - earlier,
        {
            if directory_mapping[earlier].0 == directory_mapping[later].0 {
                assert(files[earlier as int].0 == files[later as int].0);
                return true;
            }
            earlier += 1;
        }
        later += 1;
    }
    false
}

/// Whether the local sections and the central directory of the files are
/// within what 32-bit fields can record. No name is longer than 65535 bytes.
fn sizes_fit(directory_mapping: &Vec<(String, Vec<u8>)>) -> (fit: bool)
    requires
        !has_long_name(file_views(directory_mapping@)),
    ensures
        fit == !exceeds_size_fields(file_views(directory_mapping@)),
{
    let ghost files = file_views(directory_mapping@);
    let mut local_total: u32 = 0;
    let mut central_total: u32 = 0;
    let mut index: usize = 0;
    while index < directory_mapping.len()
        invariant
            index <= directory_mapping@.len(),
            files == file_views(directory_mapping@),
            !has_long_name(files),
            local_total == local_sections_size_before(files, index as int),
            central_total == central_directory_size_before(files, index as int),
        decreases directory_mapping@.len() - index,
    {
        let name_size: usize = directory_mapping[index].0.as_str().as_bytes().len();
        let body_size: usize = directory_mapping[index].1.len();
        proof {
            assert(encode_utf8(files[index as int].0).len() <= MAX_FILE_NAME_SIZE);
            lemma_sizes_grow(files, index + 1, files.len() as int);
        }
        let local_header_size: u32 = 30 + name_size as u32;
        let central_header_size: u32 = 46 + name_size as u32;
        if local_header_size > u32::MAX - local_total {
            return false;
        }
        let room_for_body: u32 = u32::MAX - local_total - local_header_size;
        if body_size > room_for_body as usize {
            return false;
        }
        if central_header_size > u32::MAX - central_total {
            return false;
        }
        local_total += local_header_size + body_size as u32;
        central_total += central_header_size;
        index += 1;
    }
    true
}

impl<C: CrcCalculator, D: DosDateTimeCalculator> ZipBlobFactory for ZipBlobFactoryAdapter<C, D> {
    fn create_zip_binary(&self, directory_mapping: Vec<(String, Vec<u8>)>) -> (result: Result<
        Vec<u8>,
        ZipError,
    >)
        ensures
            match result {
                Ok(zip_blob) => {
                    &&& rejection(file_views(directory_mapping@)) is None
                    &&& self.may_build(file_views(directory_mapping@), zip_blob@)
                },
                Err(error) => rejection(file_views(directory_mapping@)) == Some(error),
            },
    {
        let ghost files = file_views(directory_mapping@);
        let zip_file_entries = match self.create_zip_file_entries(directory_mapping) {
            Ok(zip_file_entries) => zip_file_entries,
            Err(error) => {
                return Err(error);
            },
        };
        let ghost entries = entry_views(zip_file_entries@);

        let mut zip_blob: Vec<u8> = Vec::new();
        let mut central_directory_records: Vec<u8> = Vec::new();
        proof {
            self.lemma_lay_out_is_sequential(files, entries);
        }
        let mut end_of_central_directory_record = self.get_end_of_central_directory_record(
            zip_file_entries.as_slice(),
        );

        for file_entry in iter: zip_file_entries
            invariant
                entries == entry_views(iter.seq()),
                forall|i: int| 0 <= i < iter.seq().len() ==> (#[trigger] iter.seq()[i])@.fits_format(),
                zip_blob@ == local_sections_before(entries, iter.index() as int),
                central_directory_records@ == central_directory_before(
                    entries,
                    iter.index() as int,
                ),
        {
            proof {
                assert(entries[iter.index() as int] == file_entry@);
            }
            let mut local_file_header = file_entry.get_local_file_header();
            let mut central_directory_header = file_entry.get_central_directory_header();
            let mut file_body = file_entry.body;
            zip_blob.append(&mut local_file_header);
            zip_blob.append(&mut file_body);
            central_directory_records.append(&mut central_directory_header);
        }

        zip_blob.append(&mut central_directory_records);
        zip_blob.append(&mut end_of_central_directory_record);

        Ok(zip_blob)
    }
}

} // verus!
