use core::cmp::Ordering;

use ntfs::attribute_value::NtfsDataRun;
use ntfs::error::NtfsError;
use ntfs::file_reference::NtfsFileReference;
use ntfs::guid::NtfsGuid;
use ntfs::index_entry::{NtfsIndexEntry, NtfsIndexNodeEntries};
use ntfs::indexes::NtfsFileNameIndex;
use ntfs::structured_values::{
    NtfsIndexRoot, NtfsObjectId, NtfsStandardInformation, NtfsVolumeFlags, NtfsVolumeName,
};
use ntfs::time::NtfsTime;
use ntfs::types::NtfsPosition;
use ntfs::utf16::NtfsString;

const NT_TIMESTAMP_2021_01_01: u64 = 132539328000000000u64;

fn put_u16(buf: &mut [u8], offset: usize, value: u16) {
    buf[offset..offset + 2].copy_from_slice(&value.to_le_bytes());
}

fn put_u32(buf: &mut [u8], offset: usize, value: u32) {
    buf[offset..offset + 4].copy_from_slice(&value.to_le_bytes());
}

fn put_u64(buf: &mut [u8], offset: usize, value: u64) {
    buf[offset..offset + 8].copy_from_slice(&value.to_le_bytes());
}

fn utf16(s: &str) -> Vec<u8> {
    s.encode_utf16().flat_map(|u| u.to_le_bytes()).collect()
}

/// A file name index entry for `name`, referencing `record`, optionally with a sub-node.
fn file_name_entry(name: &str, record: u64, subnode_vcn: Option<u64>, last: bool) -> Vec<u8> {
    let name16 = utf16(name);
    let key_length = if last { 0 } else { 66 + name16.len() };
    let mut length = 16 + (key_length + 7) / 8 * 8;
    if subnode_vcn.is_some() {
        length += 8;
    }
    let mut e = vec![0u8; length];
    put_u64(&mut e, 0, record);
    put_u16(&mut e, 8, length as u16);
    put_u16(&mut e, 10, key_length as u16);
    let mut flags = 0;
    if last {
        flags |= 2;
    } else {
        e[16 + 64] = (name16.len() / 2) as u8;
        e[16 + 65] = 1;
        e[16 + 66..16 + 66 + name16.len()].copy_from_slice(&name16);
    }
    if let Some(vcn) = subnode_vcn {
        flags |= 1;
        put_u64(&mut e, length - 8, vcn);
    }
    e[12] = flags;
    e
}

#[test]
fn test_guid() {
    let guid = NtfsGuid::new(0x67c8770b, 0x44f1, 0x410a, [0xab, 0x9a, 0xf9, 0xb5, 0x44, 0x6f, 0x13, 0xee]);
    let guid_string = guid.to_string();
    assert_eq!(guid_string, "67C8770B-44F1-410A-AB9A-F9B5446F13EE");
}

#[test]
fn guid_text_pads_components_with_spaces() {
    let guid = NtfsGuid::new(0x1, 0x2a, 0x300, [0, 0x0f, 1, 2, 3, 4, 5, 0xff]);
    let text = guid.to_string();
    assert_eq!(text, "       1-  2A- 300- 0 F- 1 2 3 4 5FF");
    assert_eq!(text.chars().count(), 36);
    assert_eq!(guid.data1(), 1);
    assert_eq!(guid.data2(), 0x2a);
    assert_eq!(guid.data3(), 0x300);
    assert_eq!(guid.data4(), [0, 0x0f, 1, 2, 3, 4, 5, 0xff]);
}

#[test]
fn guid_from_bytes_is_little_endian() {
    let bytes: Vec<u8> = (0u8..16).collect();
    let guid = NtfsGuid::from_bytes(&bytes);
    assert_eq!(guid.data1(), 0x0302_0100);
    assert_eq!(guid.data2(), 0x0504);
    assert_eq!(guid.data3(), 0x0706);
    assert_eq!(guid.data4(), [8, 9, 10, 11, 12, 13, 14, 15]);
    assert_eq!(guid.to_string(), " 3020100- 504- 706- 8 9- A B C D E F");
}

#[test]
fn test_chrono_datetime() {
    let dt = chrono::DateTime::parse_from_rfc3339("2013-01-05T18:15:00Z").unwrap();
    let nt = NtfsTime::from_unix_timestamp(dt.timestamp(), dt.timestamp_subsec_nanos()).unwrap();
    assert_eq!(nt.nt_timestamp(), 130018833000000000u64);

    let (seconds, nanos) = nt.unix_timestamp();
    let dt2 = chrono::DateTime::from_timestamp(seconds, nanos).unwrap();
    assert_eq!(dt, dt2);

    // Minimum date/time supported by NT.
    let dt = chrono::DateTime::parse_from_rfc3339("1601-01-01T00:00:00Z").unwrap();
    let nt = NtfsTime::from_unix_timestamp(dt.timestamp(), dt.timestamp_subsec_nanos()).unwrap();
    assert_eq!(nt.nt_timestamp(), 0u64);

    let dt = chrono::DateTime::parse_from_rfc3339("1600-12-31T23:59:59Z").unwrap();
    assert!(NtfsTime::from_unix_timestamp(dt.timestamp(), dt.timestamp_subsec_nanos()).is_err());

    let dt = chrono::DateTime::parse_from_str("+60056-05-28 00:00:00+00", "%Y-%m-%d %T%#z").unwrap();
    assert!(NtfsTime::from_unix_timestamp(dt.timestamp(), dt.timestamp_subsec_nanos()).is_ok());

    let dt = chrono::DateTime::parse_from_str("+60056-05-29 00:00:00+00", "%Y-%m-%d %T%#z").unwrap();
    assert!(NtfsTime::from_unix_timestamp(dt.timestamp(), dt.timestamp_subsec_nanos()).is_err());
}

#[test]
fn test_systemtime() {
    let st = std::time::SystemTime::now();
    let nt = NtfsTime::from_system_time(st).unwrap();
    assert!(nt.nt_timestamp() > NT_TIMESTAMP_2021_01_01);
}

#[test]
fn unix_timestamp_roundtrip_and_bounds() {
    let nt = NtfsTime::from(130018833012345678u64);
    let (seconds, nanos) = nt.unix_timestamp();
    assert_eq!(seconds, 1357409701);
    assert_eq!(nanos, 234567800);
    let back = NtfsTime::from_unix_timestamp(seconds, nanos).unwrap();
    assert_eq!(back, nt);
    // The epoch difference itself.
    assert_eq!(NtfsTime::from_unix_timestamp(0, 0).unwrap().nt_timestamp(), 116_444_736_000_000_000);
    assert_eq!(NtfsTime::from_unix_duration(0, 99).unwrap().nt_timestamp(), 116_444_736_000_000_000);
    assert_eq!(NtfsTime::from_unix_duration(1, 200).unwrap().nt_timestamp(), 116_444_736_010_000_002);
    assert!(matches!(NtfsTime::from_unix_duration(u64::MAX / 10, 0), Err(NtfsError::InvalidTime)));
    assert!(matches!(NtfsTime::from_unix_timestamp(i64::MAX, 0), Err(NtfsError::InvalidTime)));
    assert!(matches!(NtfsTime::from_unix_timestamp(-11_644_473_601, 0), Err(NtfsError::InvalidTime)));
}

#[test]
fn file_reference_parts() {
    let reference = NtfsFileReference::new([0x05, 0x00, 0x00, 0x00, 0x01, 0x00, 0x02, 0x01]);
    assert_eq!(reference.file_record_number(), 0x0000_0001_0000_0005);
    assert_eq!(reference.sequence_number(), 0x0102);
    // The sequence number and the record number make up the whole reference.
    let value = u64::from_le_bytes(reference.0);
    assert_eq!(value, ((reference.sequence_number() as u64) << 48) | reference.file_record_number());
}

#[test]
fn string_orderings() {
    let a = utf16("Alpha");
    let b = utf16("alphabet");
    let c = utf16("beta");
    let sa = NtfsString(&a);
    let sb = NtfsString(&b);
    let sc = NtfsString(&c);
    let ua = sa.u16_iter();
    let ub = sb.u16_iter();
    let uc = sc.u16_iter();

    // Exact comparison: uppercase letters come before lowercase ones; a prefix comes first.
    assert_eq!(NtfsString::cmp_iter(&ua, &ub, None), Ordering::Less);
    assert_eq!(NtfsString::cmp_iter(&ub, &ua, None), Ordering::Greater);
    assert_eq!(NtfsString::cmp_iter(&ub, &uc, None), Ordering::Less);
    assert_eq!(NtfsString::cmp_iter(&ua, &uc, None), Ordering::Less);
    assert_eq!(NtfsString::cmp_iter(&ua, &ua, None), Ordering::Equal);

    // Case-insensitive comparison compares the uppercased strings.
    let mut table: Vec<u16> = (0..=0xFFFFu32).map(|u| u as u16).collect();
    for lower in b'a'..=b'z' {
        table[lower as usize] = (lower - 32) as u16;
    }
    let upper_a: Vec<u16> = ua.iter().map(|&u| table[u as usize]).collect();
    let upper_b: Vec<u16> = ub.iter().map(|&u| table[u as usize]).collect();
    assert_eq!(
        NtfsString::cmp_iter(&ua, &ub, Some(table.as_slice())),
        NtfsString::cmp_iter(&upper_a, &upper_b, None)
    );
    let a2 = utf16("ALPHA");
    let ua2 = NtfsString(&a2).u16_iter();
    assert_eq!(NtfsString::cmp_iter(&ua, &ua2, Some(table.as_slice())), Ordering::Equal);
    assert_eq!(NtfsString::cmp_iter(&ua, &ua2, None), Ordering::Greater);

    assert!(sa == NtfsString(&a));
    assert!(sa != sb);
    assert!(sa.eq_str("Alpha"));
    assert_eq!(sa.partial_cmp_str("Alpha"), Some(Ordering::Equal));
    assert_eq!(sa.partial_cmp_str("Beta"), Some(Ordering::Less));
    assert_eq!(sa.to_string_lossy(), "Alpha");
    assert_eq!(sa.len(), 10);
}

#[test]
fn index_entry_fields() {
    let bytes = file_name_entry("abc", 0x0005_0000_0000_0007, Some(0x1234), false);
    let entry = NtfsIndexEntry::<NtfsFileNameIndex>::new(&bytes, NtfsPosition::new(1000)).unwrap();
    assert_eq!(entry.index_entry_length() as usize, bytes.len());
    assert_eq!(entry.key_length(), 72);
    assert!(entry.has_subnode());
    assert!(!entry.is_last_entry());
    assert_eq!(entry.flags().bits(), 1);
    assert_eq!(entry.subnode_vcn().unwrap().unwrap().value(), 0x1234);
    assert_eq!(entry.file_reference().file_record_number(), 7);
    assert_eq!(entry.file_reference().sequence_number(), 5);
    let key = entry.key().unwrap().unwrap();
    assert!(key.name().eq_str("abc"));
    assert_eq!(entry.position().value(), Some(1000));
}

#[test]
fn index_entry_size_errors() {
    let position = NtfsPosition::new(64);
    assert!(matches!(
        NtfsIndexEntry::<NtfsFileNameIndex>::new(&[0u8; 10], position),
        Err(NtfsError::InvalidIndexEntrySize { expected: 16, actual: 10, .. })
    ));
    let mut bytes = vec![0u8; 24];
    put_u16(&mut bytes, 8, 32);
    assert!(matches!(
        NtfsIndexEntry::<NtfsFileNameIndex>::new(&bytes, position),
        Err(NtfsError::InvalidIndexEntrySize { expected: 32, actual: 24, .. })
    ));
    put_u16(&mut bytes, 8, 12);
    assert!(matches!(
        NtfsIndexEntry::<NtfsFileNameIndex>::new(&bytes, position),
        Err(NtfsError::InvalidIndexEntrySize { expected: 16, actual: 12, .. })
    ));
    // A key that does not fit into the entry.
    put_u16(&mut bytes, 8, 24);
    put_u16(&mut bytes, 10, 100);
    let entry = NtfsIndexEntry::<NtfsFileNameIndex>::new(&bytes, position).unwrap();
    assert!(matches!(
        entry.key(),
        Some(Err(NtfsError::InvalidIndexEntryDataRange { size: 24, .. }))
    ));
    // A sub-node VCN that does not fit behind the header.
    let mut short = vec![0u8; 16];
    put_u16(&mut short, 8, 16);
    short[12] = 1;
    let entry = NtfsIndexEntry::<NtfsFileNameIndex>::new(&short, position).unwrap();
    assert!(matches!(
        entry.subnode_vcn(),
        Some(Err(NtfsError::InvalidIndexEntryDataRange { size: 16, .. }))
    ));
    // The last entry has no key.
    short[12] = 2;
    put_u16(&mut short, 10, 4);
    let entry = NtfsIndexEntry::<NtfsFileNameIndex>::new(&short, position).unwrap();
    assert!(entry.key().is_none());
    assert!(entry.subnode_vcn().is_none());
}

#[test]
fn node_entries_follow_each_other() {
    let mut bytes = file_name_entry("a", 1, None, false);
    let first_length = bytes.len();
    bytes.extend(file_name_entry("b", 2, None, false));
    bytes.extend(file_name_entry("", 0, None, true));
    bytes.extend(file_name_entry("never", 3, None, false));
    let mut entries = NtfsIndexNodeEntries::<NtfsFileNameIndex>::new(&bytes, NtfsPosition::new(500));
    let a = entries.next().unwrap().unwrap();
    assert_eq!(a.position().value(), Some(500));
    let b = entries.next().unwrap().unwrap();
    assert_eq!(b.position().value(), Some(500 + first_length as u64));
    assert!(b.key().unwrap().unwrap().name().eq_str("b"));
    let last = entries.next().unwrap().unwrap();
    assert!(last.is_last_entry());
    // Nothing is read after the last entry.
    assert!(entries.next().is_none());
    assert!(entries.next().is_none());
}

fn index_root_bytes(entries: &[u8], entries_offset: u32, index_size: u32, flags: u8) -> Vec<u8> {
    let mut v = vec![0u8; 32 + entries.len()];
    put_u32(&mut v, 0, 0x30);
    put_u32(&mut v, 8, 4096);
    put_u32(&mut v, 16, entries_offset);
    put_u32(&mut v, 20, index_size);
    put_u32(&mut v, 24, index_size);
    v[28] = flags;
    v[32..].copy_from_slice(entries);
    v
}

#[test]
fn index_root_checks() {
    let entry = file_name_entry("", 0, None, true);
    let position = NtfsPosition::new(4096);
    let bytes = index_root_bytes(&entry, 16, 16 + entry.len() as u32, 1);
    let root = NtfsIndexRoot::new(&bytes, position).unwrap();
    assert!(root.is_large_index());
    assert_eq!(root.index_record_size(), 4096);
    assert_eq!(root.index_data_size(), 32);
    assert_eq!(root.position().value(), Some(4096));
    let mut entries = root.entries::<NtfsFileNameIndex>().unwrap();
    let last = entries.next().unwrap().unwrap();
    assert!(last.is_last_entry());
    assert_eq!(last.position().value(), Some(4096 + 32));

    assert!(matches!(
        NtfsIndexRoot::new(&bytes[..20], position),
        Err(NtfsError::InvalidStructuredValueSize { expected: 16, actual: 20, .. })
    ));
    let bytes = index_root_bytes(&entry, 100, 16, 0);
    assert!(matches!(
        NtfsIndexRoot::new(&bytes, position),
        Err(NtfsError::InvalidIndexRootEntriesOffset { expected: 116, actual: 48, .. })
    ));
    let bytes = index_root_bytes(&entry, 16, 100, 0);
    assert!(matches!(
        NtfsIndexRoot::new(&bytes, position),
        Err(NtfsError::InvalidIndexRootUsedSize { expected: 116, actual: 48, .. })
    ));
    // Entries that start after the used part make an empty node.
    let bytes = index_root_bytes(&entry, 24, 16, 0);
    let root = NtfsIndexRoot::new(&bytes, position).unwrap();
    assert!(root.entries::<NtfsFileNameIndex>().unwrap().next().is_none());
}

#[test]
fn structured_value_sizes() {
    let position = NtfsPosition::new(77);
    assert!(matches!(
        NtfsVolumeName::from_bytes(&[0u8; 1], position),
        Err(NtfsError::InvalidStructuredValueSize { expected: 2, actual: 1, .. })
    ));
    assert!(matches!(
        NtfsVolumeName::from_bytes(&[0u8; 258], position),
        Err(NtfsError::InvalidStructuredValueSize { expected: 256, actual: 258, .. })
    ));
    let label = utf16("data");
    let name = NtfsVolumeName::from_bytes(&label, position).unwrap();
    assert_eq!(name.name_length(), 8);
    assert!(name.name().eq_str("data"));
    assert!(name.clone().name().eq_str("data"));

    assert!(matches!(
        NtfsObjectId::from_bytes(&[0u8; 15], position),
        Err(NtfsError::InvalidStructuredValueSize { expected: 16, actual: 15, .. })
    ));
    let bytes: Vec<u8> = (0u8..40).collect();
    let object_id = NtfsObjectId::from_bytes(&bytes, position).unwrap();
    assert_eq!(object_id.object_id().data1(), 0x0302_0100);
    assert_eq!(object_id.birth_volume_id().unwrap().data1(), 0x1312_1110);
    assert!(object_id.birth_object_id().is_none());
    assert!(object_id.domain_id().is_none());

    assert!(matches!(
        NtfsStandardInformation::from_bytes(&[0u8; 47], position),
        Err(NtfsError::InvalidStructuredValueSize { expected: 48, actual: 47, .. })
    ));
    let mut info = vec![0u8; 48];
    put_u64(&mut info, 0, 42);
    put_u32(&mut info, 36, 9);
    let info = NtfsStandardInformation::from_bytes(&info, position).unwrap();
    assert_eq!(info.creation_time().nt_timestamp(), 42);
    assert_eq!(info.maximum_versions(), 9);
    assert_eq!(info.owner_id(), None);
    assert_eq!(info.usn(), None);
}

/// A 1024-byte record whose Update Sequence Array at offset 48 protects both of its blocks with `usn`.
fn protected_record(usn: u16) -> (Vec<u8>, Vec<u8>) {
    let mut data: Vec<u8> = (0..1024u32).map(|i| (i * 7 % 251) as u8).collect();
    data[0..4].copy_from_slice(b"FILE");
    put_u16(&mut data, 4, 48);
    put_u16(&mut data, 6, 3);
    put_u16(&mut data, 48, usn);
    let original = data.clone();
    for k in 0..2 {
        let sp = 510 + 512 * k;
        data[50 + 2 * k] = data[sp];
        data[51 + 2 * k] = data[sp + 1];
        put_u16(&mut data, sp, usn);
    }
    (original, data)
}

#[test]
fn fixup_undoes_protection() {
    let (original, written) = protected_record(0x2a);
    let mut record = ntfs::record::Record::new(written, NtfsPosition::new(4096));
    record.fixup().unwrap();
    let fixed = record.data();
    for p in 0..1024 {
        if !(50..54).contains(&p) {
            assert_eq!(fixed[p], original[p]);
        }
    }
}

#[test]
fn fixup_detects_a_torn_block() {
    let (_, mut written) = protected_record(0x2a);
    written[1022] = 0x2b;
    let mut record = ntfs::record::Record::new(written, NtfsPosition::new(4096));
    assert!(matches!(
        record.fixup(),
        Err(NtfsError::UpdateSequenceNumberMismatch { expected: [0x2a, 0], actual: [0x2b, 0], .. })
    ));
    let (_, mut written) = protected_record(0x2a);
    put_u16(&mut written, 6, 0);
    let mut record = ntfs::record::Record::new(written, NtfsPosition::new(4096));
    assert!(matches!(
        record.fixup(),
        Err(NtfsError::InvalidUpdateSequenceCount { update_sequence_count: 0, .. })
    ));
}

#[test]
fn positions_add_up() {
    let p = NtfsPosition::new(10);
    assert_eq!(p.add_offset(5).add_offset(7).value(), p.add_offset(12).value());
    assert_eq!(p.add_offset(12).value(), Some(22));
    assert_eq!(NtfsPosition::none().add_offset(12).value(), None);
    // A position that wraps around to zero holds no value.
    assert_eq!(NtfsPosition::new(u64::MAX).add_offset(1).value(), None);
}

#[test]
fn position_text_is_decimal() {
    assert_eq!(NtfsPosition::new(4096).to_string(), "4096");
    assert_eq!(NtfsPosition::new(7).to_string(), "7");
    assert_eq!(NtfsPosition::new(18446744073709551615).to_string(), "18446744073709551615");
    assert_eq!(NtfsPosition::none().to_string(), "<NONE>");
}

#[test]
fn fixup_answers_short_records() {
    // A 10-byte record whose Update Sequence Number ends the record and protects no block.
    let mut data = vec![0u8; 10];
    put_u16(&mut data, 4, 8);
    put_u16(&mut data, 6, 1);
    put_u16(&mut data, 8, 0x1234);
    let mut record = ntfs::record::Record::new(data.clone(), NtfsPosition::new(4096));
    record.fixup().unwrap();
    assert_eq!(record.data(), &data[..]);
    // The Update Sequence Number would end beyond the record.
    put_u16(&mut data, 4, 9);
    let mut record = ntfs::record::Record::new(data, NtfsPosition::new(4096));
    assert!(matches!(
        record.fixup(),
        Err(NtfsError::InvalidUpdateSequenceNumberRange { size: 10, .. })
    ));
    // An 8-byte record holds only the header fields that the fixup reads.
    let mut data = vec![0u8; 8];
    put_u16(&mut data, 4, 6);
    let mut record = ntfs::record::Record::new(data, NtfsPosition::new(4096));
    assert!(matches!(
        record.fixup(),
        Err(NtfsError::InvalidUpdateSequenceCount { update_sequence_count: 0, .. })
    ));
}

#[test]
fn volume_flags_have_their_bits() {
    let flags = [
        (NtfsVolumeFlags::is_dirty(), 0x0001u16),
        (NtfsVolumeFlags::resize_log_file(), 0x0002),
        (NtfsVolumeFlags::upgrade_on_mount(), 0x0004),
        (NtfsVolumeFlags::mounted_on_nt4(), 0x0008),
        (NtfsVolumeFlags::delete_usn_underway(), 0x0010),
        (NtfsVolumeFlags::repair_object_id(), 0x0020),
        (NtfsVolumeFlags::chkdsk_underway(), 0x4000),
        (NtfsVolumeFlags::modified_by_chkdsk(), 0x8000),
    ];
    let all = NtfsVolumeFlags::from_bits_truncate(0xffff);
    assert_eq!(all.bits(), 0xC03F);
    for (flag, bits) in flags {
        assert_eq!(flag.bits(), bits);
        assert!(all.contains(flag));
        assert!(NtfsVolumeFlags::from_bits_truncate(bits).contains(flag));
        assert!(!NtfsVolumeFlags::from_bits_truncate(!bits).contains(flag));
    }
}

#[test]
fn data_run_length_is_its_allocated_size() {
    let run = NtfsDataRun::new(NtfsPosition::new(8192), 4096);
    assert_eq!(run.len(), 4096);
    assert_eq!(run.len(), run.allocated_size());
    let sparse = NtfsDataRun::new(NtfsPosition::none(), 512);
    assert_eq!(sparse.len(), 512);
}
