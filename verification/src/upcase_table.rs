//! The $UpCase table used for case-insensitive comparisons.
use vstd::prelude::*;

use crate::attribute::{
    spec_attribute_name_units, spec_attribute_type_from_code, spec_non_resident_value_of,
    spec_resident_value_bytes, spec_type_code_at, NtfsAttributeType,
};
use crate::attribute_value::{spec_read_bytes, NtfsAttributeValue};
use crate::file::NtfsFile;
use crate::error::{NtfsError, Result};
use crate::file::KnownNtfsFileRecordNumber;
use crate::io::{Read, Seek};
use crate::ntfs::Ntfs;
use crate::traits::NtfsReadSeek;

verus! {

/// The Upcase Table contains an uppercase character for each Unicode character of the Basic Multilingual Plane.
pub const UPCASE_CHARACTER_COUNT: usize = 65536;

/// Hence, the table has a size of 128 KiB.
pub const UPCASE_TABLE_SIZE: u64 = 131072;

/// Manages a table for converting characters to uppercase.
/// This table is used for case-insensitive file name comparisons.
///
/// NTFS stores such a table in the special $UpCase file on every filesystem.
/// As this table is slightly different depending on the Windows version used for creating the filesystem,
/// it is very important to always read the table from the filesystem itself.
/// Hence, this table is not hardcoded into the crate.
#[derive(Debug)]
pub struct UpcaseTable {
    uppercase_characters: Vec<u16>,
}

/// The table of little-endian `u16` values stored in `data`.
pub open spec fn spec_table_from_bytes(data: Seq<u8>) -> Seq<u16> {
    Seq::new(
        (data.len() / 2) as nat,
        |i: int| crate::helpers::spec_u16_le(data, 2 * i),
    )
}

/// Whether `value` is the value, read from its start, of the unnamed $DATA attribute at `offset`
/// of the File Record `file`, and holds at least [`UPCASE_TABLE_SIZE`] bytes: a resident value
/// holds the bytes that the attribute stores, a non-resident one those that its Data Runs describe.
pub open spec fn spec_upcase_data_value(file: NtfsFile, offset: usize, value: NtfsAttributeValue) -> bool {
    let data = file.spec_data();
    &&& spec_attribute_type_from_code(spec_type_code_at(data, offset)) == Some(NtfsAttributeType::Data)
    &&& spec_attribute_name_units(data, offset).len() == 0
    &&& value.spec_stream_position() == 0
    &&& value.spec_len() >= UPCASE_TABLE_SIZE
    &&& value matches NtfsAttributeValue::Resident(v) ==> v.spec_data() == spec_resident_value_bytes(
        data,
        offset as int,
    )
    &&& value is NonResident ==> spec_non_resident_value_of(file, offset, value)
}

/// Entry `c` of the table that the bytes `data` hold is the little-endian `u16` in bytes `2c` and
/// `2c + 1`; the 128 KiB of the $UpCase file give one entry per character of the Basic
/// Multilingual Plane.
pub proof fn lemma_upcase_table_entries(data: Seq<u8>)
    ensures
        spec_table_from_bytes(data).len() == data.len() / 2,
        data.len() == UPCASE_TABLE_SIZE ==> spec_table_from_bytes(data).len() == UPCASE_CHARACTER_COUNT,
        forall|c: int|
            0 <= c < data.len() / 2 ==> #[trigger] spec_table_from_bytes(data)[c] == data[2 * c] as int
                + 256 * data[2 * c + 1] as int,
{
}

impl UpcaseTable {
    /// The uppercase character for each character.
    pub closed spec fn spec_table(&self) -> Seq<u16> {
        self.uppercase_characters@
    }

    /// Creates a table from its on-disk representation: one little-endian `u16` per character.
    pub fn from_bytes(data: &[u8]) -> (r: UpcaseTable)
        ensures
            r.spec_table() == spec_table_from_bytes(data@),
    {
        let len = data.len();
        let count = len / 2;
        let mut uppercase_characters: Vec<u16> = Vec::with_capacity(count);
        let mut i: usize = 0;
        while i < count
            invariant
                i <= count,
                count == data@.len() / 2,
                len == data@.len(),
                uppercase_characters@.len() == i,
                forall|k: int|
                    0 <= k < i ==> uppercase_characters@[k] == crate::helpers::spec_u16_le(
                        data@,
                        2 * k,
                    ),
            decreases count - i,
        {
            uppercase_characters.push(crate::helpers::read_u16_le(data, 2 * i));
            i = i + 1;
        }
        let r = UpcaseTable { uppercase_characters };
        assert(r.spec_table() =~= spec_table_from_bytes(data@));
        r
    }

    /// Reads the $UpCase file from the filesystem: the value of its unnamed $DATA attribute,
    /// which must be [`UPCASE_TABLE_SIZE`] bytes long.
    pub fn read<T>(ntfs: &Ntfs, fs: &mut T) -> (r: Result<Self>) where T: Read + Seek
        ensures
            final(fs).source() == old(fs).source(),
            r matches Ok(t) ==> t.spec_table().len() == UPCASE_CHARACTER_COUNT,
            r matches Ok(t) ==> exists|
                file: NtfsFile,
                offset: usize,
                value: NtfsAttributeValue,
                bytes: Seq<u8>,
            |
                #![trigger spec_upcase_data_value(file, offset, value), spec_read_bytes(value, old(fs).source(), bytes, UPCASE_TABLE_SIZE as int)]
                {
                    &&& spec_upcase_data_value(file, offset, value)
                    &&& bytes.len() == UPCASE_TABLE_SIZE
                    &&& spec_read_bytes(value, old(fs).source(), bytes, UPCASE_TABLE_SIZE as int)
                    &&& t.spec_table() == spec_table_from_bytes(bytes)
                },
    {
        // Lookup the $UpCase file and its $DATA attribute.
        let upcase_file = match ntfs.file(fs, KnownNtfsFileRecordNumber::UpCase as u64) {
            Ok(f) => f,
            Err(e) => return Err(e),
        };
        let unnamed = "";
        proof {
            reveal_strlit("");
        }
        let data_item = match upcase_file.data(fs, unnamed) {
            None => {
                return Err(
                    NtfsError::AttributeNotFound {
                        position: upcase_file.position(),
                        ty: NtfsAttributeType::Data,
                    },
                )
            },
            Some(Err(e)) => return Err(e),
            Some(Ok(item)) => item,
        };
        let data_attribute = match data_item.to_attribute() {
            Ok(a) => a,
            Err(e) => return Err(e),
        };
        if !data_attribute.value_header_fits() {
            return Err(data_attribute.value_header_error());
        }
        let value_length = data_attribute.value_length();
        if value_length != UPCASE_TABLE_SIZE {
            return Err(
                NtfsError::InvalidUpcaseTableSize { expected: UPCASE_TABLE_SIZE, actual: value_length },
            );
        }
        // Read the entire raw data from the $DATA attribute.
        let mut data_value = match data_attribute.value(fs) {
            Ok(v) => v,
            Err(e) => return Err(e),
        };
        let ghost value = data_value;
        let ghost src = fs.source();
        let mut data: Vec<u8> = vec![0u8; UPCASE_TABLE_SIZE as usize];
        match data_value.read_exact(fs, data.as_mut_slice()) {
            Ok(()) => {},
            Err(e) => return Err(e),
        }
        // Store it as `u16` uppercase characters.
        // Any endianness conversion is done here once, which makes `u16_to_uppercase` fast.
        let table = Self::from_bytes(data.as_slice());
        proof {
            assert(value.spec_len() >= UPCASE_TABLE_SIZE);
            assert(spec_upcase_data_value(
                data_item.spec_holding_file(),
                data_item.spec_attribute_offset(),
                value,
            ));
            assert(spec_read_bytes(value, src, data@, UPCASE_TABLE_SIZE as int));
        }
        Ok(table)
    }

    /// Returns the table: the uppercase character for each character.
    pub fn table(&self) -> (r: &[u16])
        ensures
            r@ == self.spec_table(),
    {
        self.uppercase_characters.as_slice()
    }

    /// Returns the uppercase variant of the given UCS-2 character (i.e. a Unicode character
    /// from the Basic Multilingual Plane) based on the stored conversion table.
    /// A character without an uppercase equivalent is returned as-is.
    pub fn u16_to_uppercase(&self, character: u16) -> (r: u16)
        requires
            self.spec_table().len() == UPCASE_CHARACTER_COUNT,
        ensures
            r == self.spec_table()[character as int],
    {
        self.uppercase_characters[character as usize]
    }
}

} // verus!
