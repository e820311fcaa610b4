use doggy_bag::zip_file::zip_file_entry::ZipFileEntry;

#[test]
fn zip_file_entry_header_size_with_short_file_name() {
    let file_entry = ZipFileEntry {
        body: vec![1, 2, 3],
        crc: 0,
        file_name: String::from("yow"),
        dos_time: 0,
        dos_date: 0,
        entry_offset: 0,
    };

    let header_size = file_entry.get_local_file_header_size();

    assert_eq!(header_size, 33);
}

#[test]
fn zip_file_entry_header_size_with_long_file_name() {
    let file_entry = ZipFileEntry {
        body: vec![1, 2, 3],
        crc: 0,
        file_name: String::from("Capoo The BugCat Makes His Move"),
        dos_time: 0,
        dos_date: 0,
        entry_offset: 0,
    };

    let header_size = file_entry.get_local_file_header_size();

    assert_eq!(header_size, 61);
}

#[test]
fn zip_file_entry_local_file_header_signature() {
    let file_entry = ZipFileEntry {
        body: vec![1, 2, 3],
        crc: 0,
        file_name: String::from("Capoo"),
        dos_time: 0,
        dos_date: 0,
        entry_offset: 0,
    };

    let local_file_header = file_entry.get_local_file_header();

    assert_eq!([0x50, 0x4B, 0x03, 0x04], &local_file_header[0..4]);
}

#[test]
fn zip_file_entry_local_file_header_minimum_version() {
    let file_entry = ZipFileEntry {
        body: vec![1, 2, 3],
        crc: 0,
        file_name: String::from("Capoo"),
        dos_time: 0,
        dos_date: 0,
        entry_offset: 0,
    };

    let local_file_header = file_entry.get_local_file_header();

    assert_eq!([0x0A, 0x00], &local_file_header[4..6]);
}

#[test]
fn zip_file_entry_local_file_header_general_purpose_bit_flag() {
    let file_entry = ZipFileEntry {
        body: vec![1, 2, 3],
        crc: 0,
        file_name: String::from("Capoo"),
        dos_time: 0,
        dos_date: 0,
        entry_offset: 0,
    };

    let local_file_header = file_entry.get_local_file_header();

    assert_eq!([0x00, 0x00], &local_file_header[6..8]);
}

#[test]
fn zip_file_entry_local_file_header_compression_method() {
    let file_entry = ZipFileEntry {
        body: vec![1, 2, 3],
        crc: 0,
        file_name: String::from("Capoo"),
        dos_time: 0,
        dos_date: 0,
        entry_offset: 0,
    };

    let local_file_header = file_entry.get_local_file_header();

    assert_eq!([0x00, 0x00], &local_file_header[8..10]);
}

#[test]
fn zip_file_entry_local_file_header_modified_time() {
    let file_entry = ZipFileEntry {
        body: vec![1, 2, 3],
        crc: 0,
        file_name: String::from("Capoo"),
        dos_time: 0x5611,
        dos_date: 0,
        entry_offset: 0,
    };

    let local_file_header = file_entry.get_local_file_header();

    assert_eq!([0x11, 0x56], &local_file_header[10..12]);
}

#[test]
fn zip_file_entry_local_file_header_modified_date() {
    let file_entry = ZipFileEntry {
        body: vec![1, 2, 3],
        crc: 0,
        file_name: String::from("Capoo"),
        dos_time: 0,
        dos_date: 0x88AC,
        entry_offset: 0,
    };

    let local_file_header = file_entry.get_local_file_header();

    assert_eq!([0xAC, 0x88], &local_file_header[12..14]);
}

#[test]
fn zip_file_entry_local_file_header_crc() {
    let file_entry = ZipFileEntry {
        body: vec![1, 2, 3],
        crc: 0x11223344,
        file_name: String::from("Capoo"),
        dos_time: 0,
        dos_date: 0x88AC,
        entry_offset: 0,
    };

    let local_file_header = file_entry.get_local_file_header();

    assert_eq!([0x44, 0x33, 0x22, 0x11], &local_file_header[14..18]);
}

#[test]
fn zip_file_entry_local_file_header_compressed_size() {
    let file_entry = ZipFileEntry {
        body: vec![1, 2, 3],
        crc: 0,
        file_name: String::from("Capoo"),
        dos_time: 0,
        dos_date: 0,
        entry_offset: 0,
    };

    let local_file_header = file_entry.get_local_file_header();

    assert_eq!([0x03, 0x00, 0x00, 0x00], &local_file_header[18..22]);
}

#[test]
fn zip_file_entry_local_file_header_uncompressed_size() {
    let file_entry = ZipFileEntry {
        body: vec![1, 2, 3, 4],
        crc: 0,
        file_name: String::from("Capoo The BugCat"),
        dos_time: 0,
        dos_date: 0,
        entry_offset: 0,
    };

    let local_file_header = file_entry.get_local_file_header();

    assert_eq!([0x04, 0x00, 0x00, 0x00], &local_file_header[22..26]);
}

#[test]
fn zip_file_entry_local_file_header_file_name_length() {
    let file_entry = ZipFileEntry {
        body: vec![1, 2, 3, 4],
        crc: 0,
        file_name: String::from("FoamCat/CafeIsGood.txt"),
        dos_time: 0,
        dos_date: 0,
        entry_offset: 0,
    };

    let local_file_header = file_entry.get_local_file_header();

    assert_eq!([0x16, 0x00], &local_file_header[26..28]);
}

#[test]
fn zip_file_entry_local_file_header_extra_field_length() {
    let file_entry = ZipFileEntry {
        body: vec![1, 2, 3],
        crc: 0,
        file_name: String::from("FoamCat"),
        dos_time: 0,
        dos_date: 0,
        entry_offset: 0,
    };

    let local_file_header = file_entry.get_local_file_header();

    assert_eq!([0x00, 0x00], &local_file_header[28..30]);
}

#[test]
fn zip_file_entry_local_file_header_file_name() {
    let given_file_name = String::from("This is a test file name.png");

    let file_entry = ZipFileEntry {
        body: vec![1, 2, 3],
        crc: 0,
        file_name: given_file_name.clone(),
        dos_time: 0,
        dos_date: 0,
        entry_offset: 0,
    };

    let local_file_header = file_entry.get_local_file_header();

    assert_eq!(given_file_name.into_bytes(), &local_file_header[30..local_file_header.len()]);
}

#[test]
fn central_directory_header_size_with_small_file_name() {
    let file_entry = ZipFileEntry {
        body: vec![1, 2, 3],
        crc: 0,
        file_name: String::from("yo"),
        dos_time: 0,
        dos_date: 0,
        entry_offset: 0,
    };

    let header_size = file_entry.get_central_directory_header_size();

    assert_eq!(header_size, 48);
}

#[test]
fn central_directory_header_size_with_large_file_name() {
    let file_entry = ZipFileEntry {
        body: vec![1, 2, 3],
        crc: 0,
        file_name: String::from("This Is An Exceedingly Long File Name With Many Characters.txt"),
        dos_time: 0,
        dos_date: 0,
        entry_offset: 0,
    };

    let header_size = file_entry.get_central_directory_header_size();

    assert_eq!(header_size, 108);
}

#[test]
fn central_directory_header_signature() {
    let file_entry = ZipFileEntry {
        body: vec![1, 2, 3],
        crc: 0,
        file_name: String::from("This Is An Exceedingly Long File Name With Many Characters.txt"),
        dos_time: 0,
        dos_date: 0,
        entry_offset: 0,
    };

    let central_directory_header = file_entry.get_central_directory_header();

    assert_eq!([0x50, 0x4B, 0x01, 0x02], &central_directory_header[0..4]);
}

#[test]
fn central_directory_header_version_made_by() {
    let file_entry = ZipFileEntry {
        body: vec![1, 2, 3],
        crc: 0,
        file_name: String::from("Ba"),
        dos_time: 0,
        dos_date: 0,
        entry_offset: 0,
    };

    let central_directory_header = file_entry.get_central_directory_header();

    assert_eq!([0x3F, 0x00], &central_directory_header[4..6]);
}

#[test]
fn central_directory_header_version_needed_to_extract() {
    let file_entry = ZipFileEntry {
        body: vec![1, 2, 3],
        crc: 0,
        file_name: String::from("Ba"),
        dos_time: 0,
        dos_date: 0,
        entry_offset: 0,
    };

    let central_directory_header = file_entry.get_central_directory_header();

    assert_eq!([0x0A, 0x00], &central_directory_header[6..8]);
}

#[test]
fn central_directory_header_general_purpose_bit_flag() {
    let file_entry = ZipFileEntry {
        body: vec![1, 2, 3],
        crc: 0,
        file_name: String::from("Ba"),
        dos_time: 0,
        dos_date: 0,
        entry_offset: 0,
    };

    let central_directory_header = file_entry.get_central_directory_header();

    assert_eq!([0x00, 0x00], &central_directory_header[8..10]);
}

#[test]
fn central_directory_header_compression_method() {
    let file_entry = ZipFileEntry {
        body: vec![1, 2, 3],
        crc: 0,
        file_name: String::from("Ba"),
        dos_time: 0,
        dos_date: 0,
        entry_offset: 0,
    };

    let central_directory_header = file_entry.get_central_directory_header();

    assert_eq!([0x00, 0x00], &central_directory_header[10..12]);
}

#[test]
fn central_directory_header_modified_time() {
    let file_entry = ZipFileEntry {
        body: vec![1, 2, 3],
        crc: 0,
        file_name: String::from("Ba"),
        dos_time: 0xFF84,
        dos_date: 0,
        entry_offset: 0,
    };

    let central_directory_header = file_entry.get_central_directory_header();

    assert_eq!([0x84, 0xFF], &central_directory_header[12..14]);
}

#[test]
fn central_directory_header_modified_date() {
    let file_entry = ZipFileEntry {
        body: vec![1, 2, 3],
        crc: 0,
        file_name: String::from("Ba"),
        dos_time: 0,
        dos_date: 0xFEEB,
        entry_offset: 0,
    };

    let central_directory_header = file_entry.get_central_directory_header();

    assert_eq!([0xEB, 0xFE], &central_directory_header[14..16]);
}

#[test]
fn central_directory_header_crc() {
    let file_entry = ZipFileEntry {
        body: vec![1, 2, 3],
        crc: 0xBEAD1234,
        file_name: String::from("Ba"),
        dos_time: 0,
        dos_date: 0,
        entry_offset: 0,
    };

    let central_directory_header = file_entry.get_central_directory_header();

    assert_eq!([0x34, 0x12, 0xAD, 0xBE], &central_directory_header[16..20]);
}

#[test]
fn central_directory_header_compressed_size() {
    let file_entry = ZipFileEntry {
        body: vec![1, 2, 3],
        crc: 0,
        file_name: String::from("Ba"),
        dos_time: 0,
        dos_date: 0,
        entry_offset: 0,
    };

    let central_directory_header = file_entry.get_central_directory_header();

    assert_eq!([0x03, 0x00, 0x00, 0x00], &central_directory_header[20..24]);
}

#[test]
fn central_directory_header_uncompressed_size() {
    let file_entry = ZipFileEntry {
        body: vec![1, 2, 3, 4, 5],
        crc: 0,
        file_name: String::from("Foam Cat"),
        dos_time: 0,
        dos_date: 0,
        entry_offset: 0,
    };

    let central_directory_header = file_entry.get_central_directory_header();

    assert_eq!([0x05, 0x00, 0x00, 0x00], &central_directory_header[24..28]);
}

#[test]
fn central_directory_header_file_name_length() {
    let file_entry = ZipFileEntry {
        body: vec![1, 2, 3, 4, 5],
        crc: 0,
        file_name: String::from("Foam Cat"),
        dos_time: 0,
        dos_date: 0,
        entry_offset: 0,
    };

    let central_directory_header = file_entry.get_central_directory_header();

    assert_eq!([0x08, 0x00], &central_directory_header[28..30]);
}

#[test]
fn central_directory_header_extra_field_length() {
    let file_entry = ZipFileEntry {
        body: vec![1, 2, 3, 4, 5],
        crc: 0,
        file_name: String::from("Foam Cat"),
        dos_time: 0,
        dos_date: 0,
        entry_offset: 0,
    };

    let central_directory_header = file_entry.get_central_directory_header();

    assert_eq!([0x00, 0x00], &central_directory_header[30..32]);
}

#[test]
fn central_directory_header_file_comment_length() {
    let file_entry = ZipFileEntry {
        body: vec![1, 2, 3],
        crc: 0,
        file_name: String::from("Foam"),
        dos_time: 0,
        dos_date: 0,
        entry_offset: 0,
    };

    let central_directory_header = file_entry.get_central_directory_header();

    assert_eq!([0x00, 0x00], &central_directory_header[32..34]);
}

#[test]
fn central_directory_header_disk_number_start() {
    let file_entry = ZipFileEntry {
        body: vec![1, 2, 3],
        crc: 0,
        file_name: String::from("Foam"),
        dos_time: 0,
        dos_date: 0,
        entry_offset: 0,
    };

    let central_directory_header = file_entry.get_central_directory_header();

    assert_eq!([0x00, 0x00], &central_directory_header[34..36]);
}

#[test]
fn central_directory_header_internal_file_attributes() {
    let file_entry = ZipFileEntry {
        body: vec![1, 2, 3],
        crc: 0,
        file_name: String::from("Foam"),
        dos_time: 0,
        dos_date: 0,
        entry_offset: 0,
    };

    let central_directory_header = file_entry.get_central_directory_header();

    assert_eq!([0x00, 0x00], &central_directory_header[36..38]);
}

#[test]
fn central_directory_header_external_file_attributes() {
    let file_entry = ZipFileEntry {
        body: vec![1, 2, 3],
        crc: 0,
        file_name: String::from("Foam"),
        dos_time: 0,
        dos_date: 0,
        entry_offset: 0,
    };

    let central_directory_header = file_entry.get_central_directory_header();

    assert_eq!([0x00, 0x00, 0x00, 0x00], &central_directory_header[38..42]);
}

#[test]
fn central_directory_header_relative_offset() {
    let file_entry = ZipFileEntry {
        body: vec![1, 2, 3],
        crc: 0,
        file_name: String::from("Foam"),
        dos_time: 0,
        dos_date: 0,
        entry_offset: 0x7712AB32,
    };

    let central_directory_header = file_entry.get_central_directory_header();

    assert_eq!([0x32, 0xAB, 0x12, 0x77], &central_directory_header[42..46]);
}

#[test]
fn central_directory_header_file_name() {
    let given_name = String::from("Foam Cat Takes Over the World");

    let file_entry = ZipFileEntry {
        body: vec![1, 2, 3],
        crc: 0,
        file_name: given_name.clone(),
        dos_time: 0,
        dos_date: 0,
        entry_offset: 0x7712AB32,
    };

    let central_directory_header = file_entry.get_central_directory_header();

    assert_eq!(given_name.into_bytes(), &central_directory_header[46..central_directory_header.len()]);
}
