use ntfs::attribute::NtfsAttributeType;
use ntfs::error::NtfsError;
use ntfs::helpers::ReadOnlyCursor;
use ntfs::indexes::NtfsFileNameIndex;
use ntfs::io::SeekFrom;
use ntfs::ntfs::Ntfs;
use ntfs::structured_values::{NtfsFileName, NtfsFileNamespace, NtfsStandardInformation};
use ntfs::traits::NtfsReadSeek;
use ntfs::utf16::NtfsString;

const SECTOR_SIZE: usize = 512;
const RECORD_SIZE: usize = 1024;
const INDEX_RECORD_SIZE: usize = 4096;
const MFT_LCN: usize = 4;
const UPCASE_LCN: usize = 100;
const SUBDIRS_ALLOCATION_LCN: usize = 400;
const SPARSE_LCN: usize = 520;
const THOUSAND_LCN: usize = 530;
const TOTAL_SECTORS: usize = 4095;
const NT_TIMESTAMP_2021_01_01: u64 = 132539328000000000u64;
const TIMESTAMP: u64 = 133000000000000000u64;

const MFT: u64 = 0;
const VOLUME: u64 = 3;
const ROOT: u64 = 5;
const UPCASE: u64 = 10;
const MANY_SUBDIRS: u64 = 11;
const FILE_WITH_12345: u64 = 12;
const EMPTY_FILE: u64 = 13;
const THOUSAND_BYTES_FILE: u64 = 14;
const SPARSE_FILE: u64 = 15;
const LISTED_FILE: u64 = 6;
const LISTED_FILE_EXTENSION: u64 = 7;

fn put_u16(buf: &mut [u8], offset: usize, value: u16) {
    buf[offset..offset + 2].copy_from_slice(&value.to_le_bytes());
}

fn put_u32(buf: &mut [u8], offset: usize, value: u32) {
    buf[offset..offset + 4].copy_from_slice(&value.to_le_bytes());
}

fn put_u64(buf: &mut [u8], offset: usize, value: u64) {
    buf[offset..offset + 8].copy_from_slice(&value.to_le_bytes());
}

fn align8(n: usize) -> usize {
    (n + 7) / 8 * 8
}

fn utf16(s: &str) -> Vec<u8> {
    s.encode_utf16().flat_map(|u| u.to_le_bytes()).collect()
}

fn file_reference(record: u64) -> u64 {
    record | (record << 48)
}

fn boot_sector(image: &mut [u8]) {
    image[3..11].copy_from_slice(b"NTFS    ");
    put_u16(image, 11, SECTOR_SIZE as u16);
    image[13] = 1;
    put_u64(image, 40, TOTAL_SECTORS as u64);
    put_u64(image, 48, MFT_LCN as u64);
    put_u64(image, 56, 8);
    image[64] = (-10i8) as u8;
    image[68] = (-12i8) as u8;
    put_u64(image, 72, 0x1234_5678_9abc_def0);
    image[510] = 0x55;
    image[511] = 0xAA;
}

/// Protects each sector of a record by its Update Sequence Array at `usa_offset`.
fn apply_fixup(record: &mut [u8], usa_offset: usize) {
    let sectors = record.len() / SECTOR_SIZE;
    put_u16(record, 4, usa_offset as u16);
    put_u16(record, 6, (sectors + 1) as u16);
    let usn = [0x01u8, 0x00];
    record[usa_offset..usa_offset + 2].copy_from_slice(&usn);
    for sector in 0..sectors {
        let end_of_sector = (sector + 1) * SECTOR_SIZE - 2;
        let saved = [record[end_of_sector], record[end_of_sector + 1]];
        let entry = usa_offset + 2 + 2 * sector;
        record[entry..entry + 2].copy_from_slice(&saved);
        record[end_of_sector..end_of_sector + 2].copy_from_slice(&usn);
    }
}

fn resident_attribute(ty: u32, name: &str, value: &[u8]) -> Vec<u8> {
    let name = utf16(name);
    let value_offset = align8(24 + name.len());
    let length = align8(value_offset + value.len());
    let mut a = vec![0u8; length];
    put_u32(&mut a, 0, ty);
    put_u32(&mut a, 4, length as u32);
    a[8] = 0;
    a[9] = (name.len() / 2) as u8;
    put_u16(&mut a, 10, 24);
    put_u32(&mut a, 16, value.len() as u32);
    put_u16(&mut a, 20, value_offset as u16);
    a[24..24 + name.len()].copy_from_slice(&name);
    a[value_offset..value_offset + value.len()].copy_from_slice(value);
    a
}

fn non_resident_attribute(ty: u32, name: &str, data_runs: &[u8], clusters: u64, data_size: u64) -> Vec<u8> {
    let name = utf16(name);
    let runs_offset = align8(64 + name.len());
    let length = align8(runs_offset + data_runs.len() + 1);
    let mut a = vec![0u8; length];
    put_u32(&mut a, 0, ty);
    put_u32(&mut a, 4, length as u32);
    a[8] = 1;
    a[9] = (name.len() / 2) as u8;
    put_u16(&mut a, 10, 64);
    put_u64(&mut a, 16, 0);
    put_u64(&mut a, 24, clusters.saturating_sub(1));
    put_u16(&mut a, 32, runs_offset as u16);
    put_u64(&mut a, 40, clusters * SECTOR_SIZE as u64);
    put_u64(&mut a, 48, data_size);
    put_u64(&mut a, 56, data_size);
    a[64..64 + name.len()].copy_from_slice(&name);
    a[runs_offset..runs_offset + data_runs.len()].copy_from_slice(data_runs);
    a
}

fn standard_information() -> Vec<u8> {
    let mut v = vec![0u8; 72];
    for i in 0..4 {
        put_u64(&mut v, 8 * i, TIMESTAMP);
    }
    put_u32(&mut v, 32, 0x20);
    put_u32(&mut v, 48, 7);
    put_u32(&mut v, 52, 0x100);
    put_u64(&mut v, 56, 4096);
    put_u64(&mut v, 64, 0x1234);
    v
}

fn file_name_value(name: &str, parent: u64, size: u64, is_directory: bool) -> Vec<u8> {
    let name16 = utf16(name);
    let mut v = vec![0u8; 66 + name16.len()];
    put_u64(&mut v, 0, file_reference(parent));
    for i in 0..4 {
        put_u64(&mut v, 8 + 8 * i, TIMESTAMP);
    }
    put_u64(&mut v, 40, size);
    put_u64(&mut v, 48, size);
    put_u32(&mut v, 56, if is_directory { 0x1000_0000 } else { 0x20 });
    v[64] = (name16.len() / 2) as u8;
    v[65] = 3;
    v[66..].copy_from_slice(&name16);
    v
}

fn file_record(sequence_number: u16, flags: u16, attributes: &[Vec<u8>]) -> Vec<u8> {
    let mut record = vec![0u8; RECORD_SIZE];
    record[0..4].copy_from_slice(b"FILE");
    put_u16(&mut record, 16, sequence_number);
    put_u16(&mut record, 18, 1);
    put_u16(&mut record, 20, 56);
    put_u16(&mut record, 22, flags);
    put_u32(&mut record, 28, RECORD_SIZE as u32);
    let mut offset = 56;
    for (instance, attribute) in attributes.iter().enumerate() {
        let mut attribute = attribute.clone();
        put_u16(&mut attribute, 14, instance as u16);
        record[offset..offset + attribute.len()].copy_from_slice(&attribute);
        offset += attribute.len();
    }
    put_u32(&mut record, offset, 0xFFFF_FFFF);
    put_u32(&mut record, 24, (offset + 8) as u32);
    put_u16(&mut record, 40, attributes.len() as u16);
    apply_fixup(&mut record, 48);
    record
}

/// An Index Entry of a file name index, optionally pointing to a sub-node.
fn index_entry(key: Option<(&str, u64, u64)>, subnode_vcn: Option<u64>) -> Vec<u8> {
    let (reference, key_bytes) = match key {
        Some((name, record, parent)) => (file_reference(record), file_name_value(name, parent, 0, true)),
        None => (0, Vec::new()),
    };
    let mut length = 16 + align8(key_bytes.len());
    if subnode_vcn.is_some() {
        length += 8;
    }
    let mut e = vec![0u8; length];
    put_u64(&mut e, 0, reference);
    put_u16(&mut e, 8, length as u16);
    put_u16(&mut e, 10, key_bytes.len() as u16);
    let mut flags = 0u8;
    if key.is_none() {
        flags |= 0x02;
    }
    if let Some(vcn) = subnode_vcn {
        flags |= 0x01;
        put_u64(&mut e, length - 8, vcn);
    }
    e[12] = flags;
    e[16..16 + key_bytes.len()].copy_from_slice(&key_bytes);
    e
}

fn index_root_value(entries: &[u8], is_large: bool) -> Vec<u8> {
    let mut v = vec![0u8; 32 + entries.len()];
    put_u32(&mut v, 0, 0x30);
    put_u32(&mut v, 4, 1);
    put_u32(&mut v, 8, INDEX_RECORD_SIZE as u32);
    v[12] = (INDEX_RECORD_SIZE / SECTOR_SIZE) as u8;
    put_u32(&mut v, 16, 16);
    put_u32(&mut v, 20, (16 + entries.len()) as u32);
    put_u32(&mut v, 24, (16 + entries.len()) as u32);
    v[28] = if is_large { 1 } else { 0 };
    v[32..].copy_from_slice(entries);
    v
}

fn index_record(vcn: u64, entries: &[u8], has_subnodes: bool) -> Vec<u8> {
    let mut r = vec![0u8; INDEX_RECORD_SIZE];
    r[0..4].copy_from_slice(b"INDX");
    put_u64(&mut r, 16, vcn);
    put_u32(&mut r, 24, 40);
    put_u32(&mut r, 28, (40 + entries.len()) as u32);
    put_u32(&mut r, 32, (INDEX_RECORD_SIZE - 24) as u32);
    r[36] = if has_subnodes { 1 } else { 0 };
    r[64..64 + entries.len()].copy_from_slice(entries);
    apply_fixup(&mut r, 40);
    r
}

/// The names of the 512 sub-directories of "many_subdirs", in index order.
fn subdir_names() -> Vec<String> {
    let mut names: Vec<String> = (1..=512).map(|i| format!("{}", i)).collect();
    names.sort_unstable();
    names
}

/// The Index Records of "many_subdirs": an inner node at VCN 0 whose entries separate 13 leaves.
fn subdir_index_records() -> Vec<Vec<u8>> {
    let names = subdir_names();
    let clusters_per_record = (INDEX_RECORD_SIZE / SECTOR_SIZE) as u64;
    let mut inner = Vec::new();
    let mut leaves = Vec::new();
    let mut start = 0;
    let mut leaf = 1u64;
    while start < names.len() {
        let end = usize::min(start + 40, names.len());
        let mut entries = Vec::new();
        for (i, name) in names[start..end].iter().enumerate() {
            entries.extend(index_entry(Some((name, 100 + (start + i) as u64, MANY_SUBDIRS)), None));
        }
        entries.extend(index_entry(None, None));
        leaves.push(index_record(leaf * clusters_per_record, &entries, false));
        if end < names.len() {
            inner.extend(index_entry(Some((&names[end], 100 + end as u64, MANY_SUBDIRS)), Some(leaf * clusters_per_record)));
            start = end + 1;
        } else {
            inner.extend(index_entry(None, Some(leaf * clusters_per_record)));
            start = end;
        }
        leaf += 1;
    }
    let mut records = vec![index_record(0, &inner, true)];
    records.extend(leaves);
    records
}

/// A filesystem with 512-byte clusters and a Master File Table of 16 records at LCN 4, holding
/// the $MFT, the $Volume (labeled "mylabel", NTFS 3.1), the root directory, an $UpCase table
/// that maps a..z to A..Z, the directory "many_subdirs" with 512 sub-directories in a large index,
/// and the files "file-with-12345", "empty-file", "1000-bytes-file" and "sparse-file".
fn test_image() -> Vec<u8> {
    let mut image = vec![0u8; TOTAL_SECTORS * SECTOR_SIZE];
    boot_sector(&mut image);
    let mut records: Vec<(u64, Vec<u8>)> = Vec::new();

    let mft_runs = [0x11, 32, MFT_LCN as u8, 0x00];
    records.push((
        MFT,
        file_record(1, 0x01, &[
            resident_attribute(0x10, "", &standard_information()),
            resident_attribute(0x30, "", &file_name_value("$MFT", ROOT, 16384, false)),
            non_resident_attribute(0x80, "", &mft_runs, 32, 16384),
        ]),
    ));

    let mut volume_information = vec![0u8; 12];
    volume_information[8] = 3;
    volume_information[9] = 1;
    records.push((
        VOLUME,
        file_record(3, 0x01, &[
            resident_attribute(0x10, "", &standard_information()),
            resident_attribute(0x30, "", &file_name_value("$Volume", ROOT, 0, false)),
            resident_attribute(0x60, "", &utf16("mylabel")),
            resident_attribute(0x70, "", &volume_information),
        ]),
    ));

    let mut root_entries = Vec::new();
    for (name, record) in [
        ("1000-bytes-file", THOUSAND_BYTES_FILE),
        ("empty-file", EMPTY_FILE),
        ("file-with-12345", FILE_WITH_12345),
        ("many_subdirs", MANY_SUBDIRS),
        ("sparse-file", SPARSE_FILE),
    ] {
        root_entries.extend(index_entry(Some((name, record, ROOT)), None));
    }
    root_entries.extend(index_entry(None, None));
    records.push((
        ROOT,
        file_record(5, 0x03, &[
            resident_attribute(0x10, "", &standard_information()),
            resident_attribute(0x30, "", &file_name_value(".", ROOT, 0, true)),
            resident_attribute(0x90, "$I30", &index_root_value(&root_entries, false)),
        ]),
    ));

    let upcase_runs = [0x12, 0x00, 0x01, UPCASE_LCN as u8, 0x00];
    records.push((UPCASE, file_record(10, 0x01, &[non_resident_attribute(0x80, "", &upcase_runs, 256, 131072)])));

    let subdir_records = subdir_index_records();
    let allocation_clusters = (subdir_records.len() * INDEX_RECORD_SIZE / SECTOR_SIZE) as u64;
    let allocation_runs = [
        0x21,
        allocation_clusters as u8,
        (SUBDIRS_ALLOCATION_LCN & 0xFF) as u8,
        (SUBDIRS_ALLOCATION_LCN >> 8) as u8,
        0x00,
    ];
    records.push((
        MANY_SUBDIRS,
        file_record(11, 0x03, &[
            resident_attribute(0x10, "", &standard_information()),
            resident_attribute(0x30, "", &file_name_value("many_subdirs", ROOT, 0, true)),
            resident_attribute(0x90, "$I30", &index_root_value(&index_entry(None, Some(0)), true)),
            non_resident_attribute(
                0xA0,
                "$I30",
                &allocation_runs,
                allocation_clusters,
                allocation_clusters * SECTOR_SIZE as u64,
            ),
        ]),
    ));
    for (i, record) in subdir_records.iter().enumerate() {
        let start = SUBDIRS_ALLOCATION_LCN * SECTOR_SIZE + i * INDEX_RECORD_SIZE;
        image[start..start + INDEX_RECORD_SIZE].copy_from_slice(record);
    }

    let mut object_id = vec![0u8; 64];
    for (i, b) in object_id.iter_mut().enumerate() {
        *b = i as u8;
    }
    records.push((
        FILE_WITH_12345,
        file_record(12, 0x01, &[
            resident_attribute(0x10, "", &standard_information()),
            resident_attribute(0x30, "", &file_name_value("file-with-12345", ROOT, 5, false)),
            resident_attribute(0x40, "", &object_id),
            resident_attribute(0x80, "", b"12345"),
        ]),
    ));

    records.push((
        EMPTY_FILE,
        file_record(13, 0x01, &[
            resident_attribute(0x10, "", &standard_information()),
            resident_attribute(0x30, "", &file_name_value("empty-file", ROOT, 0, false)),
            resident_attribute(0x80, "", b""),
        ]),
    ));

    let thousand_runs = [0x21, 2, (THOUSAND_LCN & 0xFF) as u8, (THOUSAND_LCN >> 8) as u8, 0x00];
    records.push((
        THOUSAND_BYTES_FILE,
        file_record(14, 0x01, &[
            resident_attribute(0x10, "", &standard_information()),
            resident_attribute(0x30, "", &file_name_value("1000-bytes-file", ROOT, 1000, false)),
            non_resident_attribute(0x80, "", &thousand_runs, 2, 1000),
        ]),
    ));
    let thousand_start = THOUSAND_LCN * SECTOR_SIZE;
    image[thousand_start..thousand_start + 1000].copy_from_slice(&b"12345".repeat(200));

    // One cluster of data, 975 sparse clusters, and one more cluster of data.
    let sparse_runs = [
        0x21, 1, (SPARSE_LCN & 0xFF) as u8, (SPARSE_LCN >> 8) as u8,
        0x02, 0xCF, 0x03,
        0x11, 1, 1,
        0x00,
    ];
    records.push((
        SPARSE_FILE,
        file_record(15, 0x01, &[
            resident_attribute(0x10, "", &standard_information()),
            resident_attribute(0x30, "", &file_name_value("sparse-file", ROOT, 500005, false)),
            non_resident_attribute(0x80, "", &sparse_runs, 977, 500005),
        ]),
    ));
    let sparse_start = SPARSE_LCN * SECTOR_SIZE;
    image[sparse_start..sparse_start + 5].copy_from_slice(b"12345");
    let sparse_tail = (SPARSE_LCN + 1) * SECTOR_SIZE + (500000 - 976 * SECTOR_SIZE);
    image[sparse_tail..sparse_tail + 5].copy_from_slice(b"11111");

    // Record 6 keeps its $DATA attribute in record 7 and lists both through an $ATTRIBUTE_LIST.
    let mut attribute_list = Vec::new();
    for (ty, record) in [(0x10u32, LISTED_FILE), (0x80u32, LISTED_FILE_EXTENSION)] {
        let mut entry = vec![0u8; 32];
        put_u32(&mut entry, 0, ty);
        put_u16(&mut entry, 4, 32);
        entry[7] = 26;
        put_u64(&mut entry, 16, file_reference(record));
        attribute_list.extend(entry);
    }
    records.push((
        LISTED_FILE,
        file_record(6, 0x01, &[
            resident_attribute(0x10, "", &standard_information()),
            resident_attribute(0x20, "", &attribute_list),
        ]),
    ));
    records.push((LISTED_FILE_EXTENSION, file_record(7, 0x01, &[resident_attribute(0x80, "", b"abc")])));

    let mft_start = MFT_LCN * SECTOR_SIZE;
    for (number, record) in records {
        let start = mft_start + number as usize * RECORD_SIZE;
        image[start..start + RECORD_SIZE].copy_from_slice(&record);
    }

    let table_start = UPCASE_LCN * SECTOR_SIZE;
    for character in 0..65536usize {
        let upper = if (b'a' as usize..=b'z' as usize).contains(&character) {
            character - 32
        } else {
            character
        };
        put_u16(&mut image, table_start + 2 * character, upper as u16);
    }
    image
}

#[test]
fn test_basics() {
    let image = test_image();
    let mut testfs1 = ReadOnlyCursor::new(&image);
    let ntfs = Ntfs::new(&mut testfs1).unwrap();
    assert_eq!(ntfs.cluster_size(), 512);
    assert_eq!(ntfs.sector_size(), 512);
    assert_eq!(ntfs.size(), 2096640);
}

#[test]
fn test_upcase_table() {
    let image = test_image();
    let mut testfs1 = ReadOnlyCursor::new(&image);
    let ntfs = Ntfs::new(&mut testfs1).unwrap();
    let upcase_table = ntfs::upcase_table::UpcaseTable::read(&ntfs, &mut testfs1).unwrap();

    // Prove that at least the lowercase English characters are mapped to their uppercase equivalents.
    for (lowercase, uppercase) in (b'a'..=b'z').zip(b'A'..=b'Z') {
        assert_eq!(upcase_table.u16_to_uppercase(lowercase as u16), uppercase as u16);
    }
}

#[test]
fn test_volume_info() {
    let image = test_image();
    let mut testfs1 = ReadOnlyCursor::new(&image);
    let ntfs = Ntfs::new(&mut testfs1).unwrap();
    let volume_info = ntfs.volume_info(&mut testfs1).unwrap();
    assert_eq!(volume_info.major_version(), 3);
    assert_eq!(volume_info.minor_version(), 1);
}

#[test]
fn test_volume_name() {
    let image = test_image();
    let mut testfs1 = ReadOnlyCursor::new(&image);
    let ntfs = Ntfs::new(&mut testfs1).unwrap();
    let volume_name = ntfs.volume_name(&mut testfs1).unwrap().unwrap();
    assert_eq!(volume_name.name_length(), 14);
    assert!(volume_name.name().eq_str("mylabel"));
}

#[test]
fn test_file_name() {
    let image = test_image();
    let mut testfs1 = ReadOnlyCursor::new(&image);
    let ntfs = Ntfs::new(&mut testfs1).unwrap();
    let mft = ntfs.file(&mut testfs1, MFT).unwrap();
    let mut mft_attributes = mft.attributes_raw();

    // Check the FileName attribute of the MFT.
    mft_attributes.next().unwrap().unwrap();
    let attribute = mft_attributes.next().unwrap().unwrap();
    assert_eq!(attribute.ty().unwrap(), NtfsAttributeType::FileName);
    assert_eq!(attribute.attribute_length(), 104);
    assert!(attribute.is_resident());
    assert_eq!(attribute.name_length(), 0);
    assert_eq!(attribute.value_length(), 74);

    // Check the actual "file name" of the MFT.
    let file_name = attribute.structured_value::<_, NtfsFileName>(&mut testfs1).unwrap();

    let creation_time = file_name.creation_time();
    assert!(creation_time.nt_timestamp() > NT_TIMESTAMP_2021_01_01);
    assert_eq!(creation_time, file_name.modification_time());
    assert_eq!(creation_time, file_name.mft_record_modification_time());
    assert_eq!(creation_time, file_name.access_time());

    let allocated_size = file_name.allocated_size();
    assert!(allocated_size > 0);
    assert_eq!(allocated_size, file_name.data_size());

    assert_eq!(file_name.name_length(), 8);

    // Test various ways to compare the same string.
    assert!(file_name.name().eq_str("$MFT"));
    assert_eq!(file_name.name().to_string_lossy(), String::from("$MFT"));
    assert!(file_name.name() == NtfsString(&[b'$', 0, b'M', 0, b'F', 0, b'T', 0]));
}

#[test]
fn test_standard_information() {
    let image = test_image();
    let mut testfs1 = ReadOnlyCursor::new(&image);
    let ntfs = Ntfs::new(&mut testfs1).unwrap();
    let mft = ntfs.file(&mut testfs1, MFT).unwrap();
    let mut mft_attributes = mft.attributes_raw();

    // Check the StandardInformation attribute of the MFT.
    let attribute = mft_attributes.next().unwrap().unwrap();
    assert_eq!(attribute.ty().unwrap(), NtfsAttributeType::StandardInformation);
    assert_eq!(attribute.attribute_length(), 96);
    assert!(attribute.is_resident());
    assert_eq!(attribute.name_length(), 0);
    assert_eq!(attribute.value_length(), 72);

    // Try to read the actual information.
    let _standard_info = attribute.resident_structured_value::<NtfsStandardInformation>().unwrap();
}

#[test]
fn standard_information_fields() {
    let image = test_image();
    let mut fs = ReadOnlyCursor::new(&image);
    let ntfs = Ntfs::new(&mut fs).unwrap();
    let file = ntfs.file(&mut fs, FILE_WITH_12345).unwrap();
    let info = file.info().unwrap();
    assert_eq!(info.creation_time().nt_timestamp(), TIMESTAMP);
    assert_eq!(info.access_time().nt_timestamp(), TIMESTAMP);
    assert_eq!(info.file_attributes().bits(), 0x20);
    assert_eq!(info.owner_id(), Some(7));
    assert_eq!(info.security_id(), Some(0x100));
    assert_eq!(info.quota_charged(), Some(4096));
    assert_eq!(info.usn(), Some(0x1234));
    assert_eq!(info.version(), 0);
}

#[test]
fn object_id_guids() {
    let image = test_image();
    let mut fs = ReadOnlyCursor::new(&image);
    let ntfs = Ntfs::new(&mut fs).unwrap();
    let file = ntfs.file(&mut fs, FILE_WITH_12345).unwrap();
    let mut attributes = file.attributes_raw();
    attributes.next().unwrap().unwrap();
    attributes.next().unwrap().unwrap();
    let attribute = attributes.next().unwrap().unwrap();
    assert_eq!(attribute.ty().unwrap(), NtfsAttributeType::ObjectId);
    let object_id = attribute.resident_structured_value::<ntfs::structured_values::NtfsObjectId>().unwrap();
    assert_eq!(object_id.object_id().data1(), 0x0302_0100);
    assert_eq!(object_id.object_id().data2(), 0x0504);
    assert_eq!(object_id.birth_volume_id().unwrap().data4(), [24, 25, 26, 27, 28, 29, 30, 31]);
    assert_eq!(object_id.birth_object_id().unwrap().data1(), 0x2322_2120);
    assert_eq!(object_id.domain_id().unwrap().data3(), 0x3736);
}

#[test]
fn read_upcase_table_stores_table() {
    let image = test_image();
    let mut fs = ReadOnlyCursor::new(&image);
    let mut ntfs = Ntfs::new(&mut fs).unwrap();
    assert!(ntfs.upcase_table().is_none());
    ntfs.read_upcase_table(&mut fs).unwrap();
    let table = ntfs.upcase_table().unwrap();
    assert_eq!(table.u16_to_uppercase(b'q' as u16), b'Q' as u16);
    assert_eq!(table.u16_to_uppercase(b'Q' as u16), b'Q' as u16);
    assert_eq!(table.u16_to_uppercase(0x00e4), 0x00e4);
}

#[test]
fn file_lookup_through_mft() {
    let image = test_image();
    let mut fs = ReadOnlyCursor::new(&image);
    let ntfs = Ntfs::new(&mut fs).unwrap();
    let mft = ntfs.file(&mut fs, 0).unwrap();
    assert_eq!(mft.file_record_number(), 0);
    assert_eq!(mft.position().value(), Some(2048));
    assert_eq!(mft.sequence_number(), 1);
    let upcase = ntfs.file(&mut fs, 10).unwrap();
    assert_eq!(upcase.position().value(), Some(2048 + 10 * 1024));
    assert_eq!(upcase.sequence_number(), 10);
    assert_eq!(upcase.hard_link_count(), 1);
    assert!(!upcase.is_directory());
    assert_eq!(upcase.allocated_size(), 1024);
}

#[test]
fn file_record_beyond_mft_data() {
    let image = test_image();
    let mut fs = ReadOnlyCursor::new(&image);
    let ntfs = Ntfs::new(&mut fs).unwrap();
    // The Master File Table holds 16 records; record 20 lies past its only Data Run.
    assert!(ntfs.file(&mut fs, 20).is_err());
    // An overflowing offset is refused before anything is read.
    assert!(matches!(
        ntfs.file(&mut fs, u64::MAX),
        Err(NtfsError::InvalidFileRecordNumber { file_record_number: u64::MAX })
    ));
}

#[test]
fn empty_record_has_no_file_signature() {
    let image = test_image();
    let mut fs = ReadOnlyCursor::new(&image);
    let ntfs = Ntfs::new(&mut fs).unwrap();
    // Record 1 of the Master File Table is all zeros.
    assert!(matches!(ntfs.file(&mut fs, 1), Err(NtfsError::InvalidFileSignature { .. })));
}

#[test]
fn test_index_find() {
    let image = test_image();
    let mut testfs1 = ReadOnlyCursor::new(&image);
    let mut ntfs = Ntfs::new(&mut testfs1).unwrap();
    ntfs.read_upcase_table(&mut testfs1).unwrap();
    let root_dir = ntfs.root_directory(&mut testfs1).unwrap();

    // Find the "many_subdirs" subdirectory.
    let root_dir_index = root_dir.directory_index(&mut testfs1).unwrap();
    let mut root_dir_finder = root_dir_index.finder();
    let entry = NtfsFileNameIndex::find(&mut root_dir_finder, &ntfs, &mut testfs1, "many_subdirs")
        .unwrap()
        .unwrap();
    let subdir = entry.to_file(&ntfs, &mut testfs1).unwrap();

    // Prove that we can find all 512 indexed subdirectories.
    let subdir_index = subdir.directory_index(&mut testfs1).unwrap();
    let mut subdir_finder = subdir_index.finder();

    for i in 1..=512 {
        let dir_name = format!("{}", i);
        let entry = NtfsFileNameIndex::find(&mut subdir_finder, &ntfs, &mut testfs1, &dir_name)
            .unwrap()
            .unwrap();
        let entry_name = entry.key().unwrap().unwrap();
        assert!(entry_name.name().eq_str(dir_name.as_str()));
    }
}

#[test]
fn test_index_iter() {
    let image = test_image();
    let mut testfs1 = ReadOnlyCursor::new(&image);
    let mut ntfs = Ntfs::new(&mut testfs1).unwrap();
    ntfs.read_upcase_table(&mut testfs1).unwrap();
    let root_dir = ntfs.root_directory(&mut testfs1).unwrap();

    // Find the "many_subdirs" subdirectory.
    let root_dir_index = root_dir.directory_index(&mut testfs1).unwrap();
    let mut root_dir_finder = root_dir_index.finder();
    let entry = NtfsFileNameIndex::find(&mut root_dir_finder, &ntfs, &mut testfs1, "many_subdirs")
        .unwrap()
        .unwrap();
    let subdir = entry.to_file(&ntfs, &mut testfs1).unwrap();

    // Prove that we can iterate through all 512 indexed subdirectories in order.
    // Keep in mind that subdirectories are ordered like "1", "10", "100", "101", ...
    // We can create the same order by adding them to a vector and sorting that vector.
    let mut dir_names = Vec::with_capacity(512);
    for i in 1..=512 {
        dir_names.push(format!("{}", i));
    }

    dir_names.sort_unstable();

    let subdir_index = subdir.directory_index(&mut testfs1).unwrap();
    let mut subdir_iter = subdir_index.entries();

    for dir_name in dir_names {
        let entry = subdir_iter.next(&mut testfs1).unwrap().unwrap();
        let entry_name = entry.key().unwrap().unwrap();
        assert!(entry_name.name().eq_str(dir_name.as_str()));
    }

    assert!(subdir_iter.next(&mut testfs1).is_none());
}

#[test]
fn index_find_is_case_insensitive_and_reports_missing_names() {
    let image = test_image();
    let mut fs = ReadOnlyCursor::new(&image);
    let mut ntfs = Ntfs::new(&mut fs).unwrap();
    ntfs.read_upcase_table(&mut fs).unwrap();
    let root_dir = ntfs.root_directory(&mut fs).unwrap();
    let index = root_dir.directory_index(&mut fs).unwrap();
    let mut finder = index.finder();
    let entry = NtfsFileNameIndex::find(&mut finder, &ntfs, &mut fs, "MANY_SUBDIRS").unwrap().unwrap();
    assert_eq!(entry.file_reference().file_record_number(), MANY_SUBDIRS);
    assert!(NtfsFileNameIndex::find(&mut finder, &ntfs, &mut fs, "no-such-file").is_none());
    assert!(NtfsFileNameIndex::find(&mut finder, &ntfs, &mut fs, "zzz").is_none());
}

#[test]
fn root_directory_entries_in_order() {
    let image = test_image();
    let mut fs = ReadOnlyCursor::new(&image);
    let ntfs = Ntfs::new(&mut fs).unwrap();
    let root_dir = ntfs.root_directory(&mut fs).unwrap();
    assert!(root_dir.is_directory());
    let index = root_dir.directory_index(&mut fs).unwrap();
    let mut entries = index.entries();
    let mut names = Vec::new();
    while let Some(entry) = entries.next(&mut fs) {
        let entry = entry.unwrap();
        names.push(entry.key().unwrap().unwrap().name().to_string_lossy());
    }
    assert_eq!(names, ["1000-bytes-file", "empty-file", "file-with-12345", "many_subdirs", "sparse-file"]);
    // The iteration stays finished.
    assert!(entries.next(&mut fs).is_none());
}

#[test]
fn directory_index_of_a_file_is_refused() {
    let image = test_image();
    let mut fs = ReadOnlyCursor::new(&image);
    let ntfs = Ntfs::new(&mut fs).unwrap();
    let file = ntfs.file(&mut fs, FILE_WITH_12345).unwrap();
    assert!(matches!(file.directory_index(&mut fs), Err(NtfsError::NotADirectory { .. })));
}

#[test]
fn index_allocation_records_and_vcn_lookup() {
    let image = test_image();
    let mut fs = ReadOnlyCursor::new(&image);
    let ntfs = Ntfs::new(&mut fs).unwrap();
    let subdir = ntfs.file(&mut fs, MANY_SUBDIRS).unwrap();
    let mut attributes = subdir.attributes_raw();
    attributes.next().unwrap().unwrap();
    attributes.next().unwrap().unwrap();
    let root_attribute = attributes.next().unwrap().unwrap();
    let index_root = root_attribute
        .resident_structured_value::<ntfs::structured_values::NtfsIndexRoot>()
        .unwrap();
    assert!(index_root.is_large_index());
    assert_eq!(index_root.index_record_size(), 4096);
    let allocation_attribute = attributes.next().unwrap().unwrap();
    let allocation = allocation_attribute
        .structured_value::<_, ntfs::structured_values::NtfsIndexAllocation>(&mut fs)
        .unwrap();

    let mut records = allocation.records(&index_root);
    let mut count = 0;
    while let Some(record) = records.next(&mut fs) {
        let record = record.unwrap();
        assert_eq!(record.vcn().value(), count * 8);
        assert_eq!(record.has_subnodes(), count == 0);
        count += 1;
    }
    assert_eq!(count, 14);

    let record = allocation.record_from_vcn(&mut fs, 4096, ntfs::types::Vcn(16)).unwrap();
    assert_eq!(record.vcn().value(), 16);
    let mut entries = record.entries::<NtfsFileNameIndex>().unwrap();
    let first = entries.next().unwrap().unwrap();
    assert!(first.key().unwrap().unwrap().name().eq_str(subdir_names()[41].as_str()));
    assert!(matches!(
        allocation.record_from_vcn(&mut fs, 4096, ntfs::types::Vcn(200)),
        Err(NtfsError::VcnOutOfBoundsInIndexAllocation { .. })
    ));
    assert!(matches!(
        allocation.record_from_vcn(&mut fs, 4096, ntfs::types::Vcn(4)),
        Err(NtfsError::InvalidIndexSignature { .. })
    ));
}

#[test]
fn file_name_lookup_by_namespace_and_parent() {
    let image = test_image();
    let mut fs = ReadOnlyCursor::new(&image);
    let ntfs = Ntfs::new(&mut fs).unwrap();
    let file = ntfs.file(&mut fs, FILE_WITH_12345).unwrap();
    let name = file.name(&mut fs, None, None).unwrap().unwrap();
    assert!(name.name().eq_str("file-with-12345"));
    assert!(file.name(&mut fs, Some(NtfsFileNamespace::Win32AndDos), Some(ROOT)).is_some());
    assert!(file.name(&mut fs, Some(NtfsFileNamespace::Dos), None).is_none());
    assert!(file.name(&mut fs, None, Some(MANY_SUBDIRS)).is_none());
}

fn find_file<'n>(ntfs: &'n Ntfs, fs: &mut ReadOnlyCursor, name: &str) -> ntfs::file::NtfsFile<'n> {
    let root_dir = ntfs.root_directory(fs).unwrap();
    let root_dir_index = root_dir.directory_index(fs).unwrap();
    let mut root_dir_finder = root_dir_index.finder();
    let entry = NtfsFileNameIndex::find(&mut root_dir_finder, ntfs, fs, name).unwrap().unwrap();
    entry.to_file(ntfs, fs).unwrap()
}

#[test]
fn resident_test_read_and_seek() {
    let image = test_image();
    let mut testfs1 = ReadOnlyCursor::new(&image);
    let mut ntfs = Ntfs::new(&mut testfs1).unwrap();
    ntfs.read_upcase_table(&mut testfs1).unwrap();

    // Find the "file-with-12345".
    let file = find_file(&ntfs, &mut testfs1, "file-with-12345");

    // Get its data attribute.
    let data_attribute_item = file.data(&mut testfs1, "").unwrap().unwrap();
    let data_attribute = data_attribute_item.to_attribute().unwrap();
    assert!(data_attribute.is_resident());
    assert_eq!(data_attribute.value_length(), 5);

    let mut data_attribute_value = data_attribute.value(&mut testfs1).unwrap();
    assert_eq!(data_attribute_value.stream_position(), 0);
    assert_eq!(data_attribute_value.len(), 5);

    // TEST READING
    let data_position_before = data_attribute_value.data_position().value().unwrap();

    // We have a 6 bytes buffer, but the file is only 5 bytes long.
    // The last byte should be untouched.
    let mut buf = [0xCCu8; 6];
    let bytes_read = data_attribute_value.read(&mut testfs1, &mut buf).unwrap();
    assert_eq!(bytes_read, 5);
    assert_eq!(buf, [b'1', b'2', b'3', b'4', b'5', 0xCC]);

    // The internal position should have stopped directly after the last byte of the file,
    // and must also yield a valid data position.
    assert_eq!(data_attribute_value.stream_position(), 5);

    let data_position_after = data_attribute_value.data_position().value().unwrap();
    assert_eq!(data_position_after, data_position_before.checked_add(5).unwrap());

    // TEST SEEKING
    // A seek to the beginning should yield the data position before the read.
    data_attribute_value.seek(&mut testfs1, SeekFrom::Start(0)).unwrap();
    assert_eq!(data_attribute_value.stream_position(), 0);
    assert_eq!(data_attribute_value.data_position().value().unwrap(), data_position_before);

    // A seek to one byte after the last read byte should yield the data position
    // after the read.
    data_attribute_value.seek(&mut testfs1, SeekFrom::Start(5)).unwrap();
    assert_eq!(data_attribute_value.stream_position(), 5);
    assert_eq!(data_attribute_value.data_position().value().unwrap(), data_position_after);

    // A seek beyond the size of the data must yield no valid data position.
    data_attribute_value.seek(&mut testfs1, SeekFrom::Start(6)).unwrap();
    assert_eq!(data_attribute_value.stream_position(), 6);
    assert_eq!(data_attribute_value.data_position().value(), None);
}

#[test]
fn non_resident_test_read_and_seek() {
    let image = test_image();
    let mut testfs1 = ReadOnlyCursor::new(&image);
    let mut ntfs = Ntfs::new(&mut testfs1).unwrap();
    ntfs.read_upcase_table(&mut testfs1).unwrap();

    // Find the "1000-bytes-file".
    let file = find_file(&ntfs, &mut testfs1, "1000-bytes-file");

    // Get its data attribute.
    let data_attribute_item = file.data(&mut testfs1, "").unwrap().unwrap();
    let data_attribute = data_attribute_item.to_attribute().unwrap();
    assert_eq!(data_attribute.value_length(), 1000);

    let mut data_attribute_value = data_attribute.value(&mut testfs1).unwrap();
    assert_eq!(data_attribute_value.stream_position(), 0);
    assert_eq!(data_attribute_value.len(), 1000);

    // TEST READING
    let data_position_before = data_attribute_value.data_position().value().unwrap();

    // We have a 1001 bytes buffer, but the file is only 1000 bytes long.
    // The last byte should be untouched.
    let mut buf = [0xCCu8; 1001];
    let bytes_read = data_attribute_value.read(&mut testfs1, &mut buf).unwrap();
    assert_eq!(bytes_read, 1000);
    assert_eq!(&buf[..1000], &[b'1', b'2', b'3', b'4', b'5'].repeat(200));
    assert_eq!(buf[1000], 0xCC);

    // The internal position should have stopped directly after the last byte of the file,
    // and must also yield a valid data position.
    assert_eq!(data_attribute_value.stream_position(), 1000);

    let data_position_after = data_attribute_value.data_position().value().unwrap();
    assert_eq!(data_position_after, data_position_before.checked_add(1000).unwrap());

    // TEST SEEKING
    // A seek to the beginning should yield the data position before the read.
    data_attribute_value.seek(&mut testfs1, SeekFrom::Start(0)).unwrap();
    assert_eq!(data_attribute_value.stream_position(), 0);
    assert_eq!(data_attribute_value.data_position().value().unwrap(), data_position_before);

    // A seek to one byte after the last read byte should yield the data position
    // after the read.
    data_attribute_value.seek(&mut testfs1, SeekFrom::Start(1000)).unwrap();
    assert_eq!(data_attribute_value.stream_position(), 1000);
    assert_eq!(data_attribute_value.data_position().value().unwrap(), data_position_after);

    // A seek beyond the allocated size of the data run (1024 bytes) must yield
    // no valid data position.
    data_attribute_value.seek(&mut testfs1, SeekFrom::Start(1026)).unwrap();
    assert_eq!(data_attribute_value.stream_position(), 1026);
    assert_eq!(data_attribute_value.data_position().value(), None);
}

#[test]
fn test_sparse_file() {
    let image = test_image();
    let mut testfs1 = ReadOnlyCursor::new(&image);
    let mut ntfs = Ntfs::new(&mut testfs1).unwrap();
    ntfs.read_upcase_table(&mut testfs1).unwrap();

    // Find the "sparse-file".
    let file = find_file(&ntfs, &mut testfs1, "sparse-file");

    // Get its data attribute.
    let data_attribute_item = file.data(&mut testfs1, "").unwrap().unwrap();
    let data_attribute = data_attribute_item.to_attribute().unwrap();
    assert!(!data_attribute.is_resident());
    assert_eq!(data_attribute.value_length(), 500005);

    // Check its Data Runs.
    // The first one has data, the second one is sparse, the third one has data again.
    let non_resident_value = data_attribute.non_resident_value().unwrap();
    let mut data_runs = non_resident_value.data_runs();

    let first_data_run = data_runs.next().unwrap().unwrap();
    let second_data_run = data_runs.next().unwrap().unwrap();
    let third_data_run = data_runs.next().unwrap().unwrap();
    assert!(data_runs.next().is_none());

    assert!(first_data_run.data_position().value().is_some());
    assert!(second_data_run.data_position().value().is_none());
    assert!(third_data_run.data_position().value().is_some());

    // Read the data and validate it.
    let mut data_attribute_value = data_attribute.value(&mut testfs1).unwrap();
    assert_eq!(data_attribute_value.stream_position(), 0);
    assert_eq!(data_attribute_value.len(), 500005);

    let mut buf = vec![0u8; 500005];
    let bytes_read = data_attribute_value.read(&mut testfs1, &mut buf).unwrap();
    assert_eq!(bytes_read, 500005);
    assert_eq!(buf[..5], [b'1', b'2', b'3', b'4', b'5']);
    assert_eq!(buf[5..500000], [0u8].repeat(499995));
    assert_eq!(buf[500000..500005], [b'1', b'1', b'1', b'1', b'1']);
}

#[test]
fn test_empty_data_attribute() {
    let image = test_image();
    let mut testfs1 = ReadOnlyCursor::new(&image);
    let mut ntfs = Ntfs::new(&mut testfs1).unwrap();
    ntfs.read_upcase_table(&mut testfs1).unwrap();

    // Find the "empty-file".
    let empty_file = find_file(&ntfs, &mut testfs1, "empty-file");

    let data_attribute_item = empty_file.data(&mut testfs1, "").unwrap().unwrap();
    let data_attribute = data_attribute_item.to_attribute().unwrap();
    assert_eq!(data_attribute.value_length(), 0);

    let mut data_attribute_value = data_attribute.value(&mut testfs1).unwrap();
    assert!(data_attribute_value.is_empty());

    let mut buf = [0u8; 5];
    let bytes_read = data_attribute_value.read(&mut testfs1, &mut buf).unwrap();
    assert_eq!(bytes_read, 0);
}

#[test]
fn file_record_used_size() {
    let image = test_image();
    let mut fs = ReadOnlyCursor::new(&image);
    let ntfs = Ntfs::new(&mut fs).unwrap();
    let upcase = ntfs.file(&mut fs, 10).unwrap();
    assert_eq!(upcase.used_size(), upcase.data_size());
    assert!(upcase.used_size() > 0);
    assert!(upcase.used_size() <= upcase.allocated_size());
}

#[test]
fn non_resident_reads_stop_at_the_end() {
    let image = test_image();
    let mut testfs1 = ReadOnlyCursor::new(&image);
    let mut ntfs = Ntfs::new(&mut testfs1).unwrap();
    ntfs.read_upcase_table(&mut testfs1).unwrap();
    let file = find_file(&ntfs, &mut testfs1, "1000-bytes-file");
    let data_attribute_item = file.data(&mut testfs1, "").unwrap().unwrap();
    let data_attribute = data_attribute_item.to_attribute().unwrap();
    let mut value = data_attribute.non_resident_value().unwrap();
    // An empty buffer reads nothing.
    let mut empty: [u8; 0] = [];
    assert_eq!(value.read(&mut testfs1, &mut empty).unwrap(), 0);
    // Seeks within and beyond the value succeed.
    assert_eq!(value.seek(&mut testfs1, SeekFrom::Start(998)).unwrap(), 998);
    let mut buf = [0xCCu8; 8];
    assert_eq!(value.read(&mut testfs1, &mut buf).unwrap(), 2);
    assert_eq!(&buf[..3], &[b'4', b'5', 0xCC]);
    assert_eq!(value.read(&mut testfs1, &mut buf).unwrap(), 0);
    assert_eq!(value.seek(&mut testfs1, SeekFrom::Current(24)).unwrap(), 1024);
    assert_eq!(value.seek(&mut testfs1, SeekFrom::End(-1000)).unwrap(), 0);
    assert_eq!(value.read(&mut testfs1, &mut buf).unwrap(), 8);
    assert_eq!(&buf, b"12345123");
}

#[test]
fn sparse_value_seeks_across_data_runs() {
    let image = test_image();
    let mut testfs1 = ReadOnlyCursor::new(&image);
    let mut ntfs = Ntfs::new(&mut testfs1).unwrap();
    ntfs.read_upcase_table(&mut testfs1).unwrap();
    let file = find_file(&ntfs, &mut testfs1, "sparse-file");
    let data_attribute_item = file.data(&mut testfs1, "").unwrap().unwrap();
    let data_attribute = data_attribute_item.to_attribute().unwrap();
    let mut value = data_attribute.non_resident_value().unwrap();
    // Within the sparse Data Run, bytes read as zeros and have no filesystem position.
    assert_eq!(value.seek(&mut testfs1, SeekFrom::Start(250000)).unwrap(), 250000);
    assert_eq!(value.data_position().value(), None);
    let mut buf = [0xCCu8; 16];
    assert_eq!(value.read(&mut testfs1, &mut buf).unwrap(), 16);
    assert_eq!(buf, [0u8; 16]);
    // Into the last Data Run and up to the end of the value.
    assert_eq!(value.seek(&mut testfs1, SeekFrom::End(-5)).unwrap(), 500000);
    assert!(value.data_position().value().is_some());
    assert_eq!(value.read(&mut testfs1, &mut buf).unwrap(), 5);
    assert_eq!(&buf[..5], b"11111");
    // Back to the first Data Run.
    assert_eq!(value.seek(&mut testfs1, SeekFrom::Start(0)).unwrap(), 0);
    assert_eq!(value.read(&mut testfs1, &mut buf[..5]).unwrap(), 5);
    assert_eq!(&buf[..5], b"12345");
}

#[test]
fn boot_sector_refuses_mft_lcn_zero_and_bad_record_sizes() {
    let mut image = test_image();
    put_u64(&mut image, 48, 0);
    let mut fs = ReadOnlyCursor::new(&image);
    assert!(matches!(Ntfs::new(&mut fs), Err(NtfsError::InvalidMftLcn)));

    let mut image = test_image();
    image[64] = 0;
    let mut fs = ReadOnlyCursor::new(&image);
    assert!(matches!(
        Ntfs::new(&mut fs),
        Err(NtfsError::InvalidRecordSizeInfo { size_info: 0, .. })
    ));

    let mut image = test_image();
    image[64] = (-13i8) as u8;
    let mut fs = ReadOnlyCursor::new(&image);
    assert!(matches!(
        Ntfs::new(&mut fs),
        Err(NtfsError::InvalidRecordSizeInfo { size_info: -13, .. })
    ));

    // A positive field counts clusters.
    let mut image = test_image();
    image[64] = 2;
    let mut fs = ReadOnlyCursor::new(&image);
    let ntfs = Ntfs::new(&mut fs).unwrap();
    assert_eq!(ntfs.file_record_size(), 2 * ntfs.cluster_size());
}

#[test]
fn attribute_list_entries_follow_in_order() {
    let image = test_image();
    let mut fs = ReadOnlyCursor::new(&image);
    let ntfs = Ntfs::new(&mut fs).unwrap();
    let file = ntfs.file(&mut fs, LISTED_FILE).unwrap();
    let mut attributes = file.attributes();

    // The raw $STANDARD_INFORMATION attribute comes first.
    let item = attributes.next(&mut fs).unwrap().unwrap();
    let attribute = item.to_attribute().unwrap();
    assert_eq!(attribute.ty().unwrap(), NtfsAttributeType::StandardInformation);

    // The $ATTRIBUTE_LIST itself is not returned: its entry for this record is skipped, and its
    // entry for record 7 gives the $DATA attribute stored there.
    let item = attributes.next(&mut fs).unwrap().unwrap();
    let attribute = item.to_attribute().unwrap();
    assert_eq!(attribute.ty().unwrap(), NtfsAttributeType::Data);
    let mut value = attribute.value(&mut fs).unwrap();
    let mut buf = [0u8; 3];
    value.read_exact(&mut fs, &mut buf).unwrap();
    assert_eq!(&buf, b"abc");

    assert!(attributes.next(&mut fs).is_none());
}
