//! The root structure describing an NTFS filesystem.
use vstd::prelude::*;

use crate::boot_sector::{
    spec_cluster_size, spec_mft_lcn, spec_parse_boot_sector, spec_record_size, spec_sector_size,
    BiosParameterBlock, BootSector, BOOT_SECTOR_SIGNATURE_OFFSET, BOOT_SECTOR_SIZE,
    MAX_CLUSTER_SIZE, MIN_CLUSTER_SIZE,
};
use crate::attribute::{
    spec_attribute_matches, spec_attribute_type_from_code, spec_non_resident_location,
    spec_raw_visits, spec_resident_value_bytes, spec_type_code_at, NtfsAttributeType,
    ATTRIBUTE_NON_RESIDENT_OFFSET,
};
use crate::attribute_value::non_resident::{
    spec_optimize_seek, spec_run_location, spec_run_remaining, spec_seek_location,
};
use crate::error::{NtfsError, Result};
use crate::helpers::{spec_le8_value, spec_u64_le};
use crate::file::{KnownNtfsFileRecordNumber, NtfsFile};
use crate::io::{Read, Seek, SeekFrom};
use crate::structured_values::volume_information::spec_volume_information;
use crate::structured_values::volume_name::{VOLUME_NAME_MAX_SIZE, VOLUME_NAME_MIN_SIZE};
use crate::structured_values::{NtfsVolumeInformation, NtfsVolumeName};
use crate::traits::NtfsReadSeek;
use crate::types::NtfsPosition;
use crate::upcase_table::{spec_table_from_bytes, spec_upcase_data_value, UpcaseTable, UPCASE_TABLE_SIZE};

verus! {

/// The sizes and positions that describe an NTFS filesystem.
#[derive(Clone, Copy, Debug, PartialEq, Eq, Structural)]
pub struct NtfsGeometry {
    /// The size of a single cluster, in bytes.
    pub cluster_size: u32,
    /// The size of a single sector, in bytes.
    pub sector_size: u16,
    /// Size of the filesystem, in bytes.
    pub size: u64,
    /// Absolute position of the Master File Table (MFT), in bytes.
    pub mft_position: u64,
    /// Size of a single File Record, in bytes.
    pub file_record_size: u32,
    /// Serial number of the NTFS volume.
    pub serial_number: u64,
}

/// The boot sector carries the [0x55, 0xAA] signature at its end.
pub open spec fn spec_signature_valid(bs: BootSector) -> bool {
    bs.signature[0] == 0x55 && bs.signature[1] == 0xAA
}

/// The filesystem description that a BIOS Parameter Block denotes, or the first error found in it.
pub open spec fn spec_geometry(bpb: BiosParameterBlock) -> Result<NtfsGeometry> {
    match spec_cluster_size(bpb) {
        Err(e) => Err(e),
        Ok(cluster_size) => match spec_sector_size(bpb.sector_size) {
            Err(e) => Err(e),
            Ok(sector_size) => {
                let size = bpb.total_sectors as int * sector_size as int;
                if size > u64::MAX {
                    Err(NtfsError::TotalSectorsTooBig { total_sectors: bpb.total_sectors })
                } else {
                    match spec_record_size(bpb, bpb.file_record_size_info) {
                        Err(e) => Err(e),
                        Ok(file_record_size) => match spec_mft_lcn(bpb) {
                            Err(e) => Err(e),
                            Ok(lcn) => {
                                let mft_position = lcn.0 as int * cluster_size as int;
                                if mft_position > u64::MAX {
                                    Err(NtfsError::LcnTooBig { lcn })
                                } else {
                                    Ok(
                                        NtfsGeometry {
                                            cluster_size,
                                            sector_size,
                                            size: size as u64,
                                            mft_position: mft_position as u64,
                                            file_record_size,
                                            serial_number: bpb.serial_number,
                                        },
                                    )
                                }
                            },
                        },
                    }
                }
            },
        },
    }
}

/// The outcome of creating an [`Ntfs`] from the boot sector bytes `data`: an error for an invalid
/// signature, an MFT cluster number of zero, or an invalid record size field; otherwise `Ok`.
/// Where [`spec_geometry`] finds another error (an unusable sector or cluster size, or a total
/// size or MFT position that overflows), the [`Ntfs`] object keeps that error, which every File
/// Record lookup then returns (see [`Ntfs::spec_unsupported_geometry`]).
pub open spec fn spec_from_boot_sector_result(data: Seq<u8>, r: Result<Ntfs>) -> bool {
    let bs = spec_parse_boot_sector(data);
    if !spec_signature_valid(bs) {
        r matches Err(e) && e matches NtfsError::InvalidTwoByteSignature {
            position,
            expected,
            actual,
        } && position == NtfsPosition::spec_at(BOOT_SECTOR_SIGNATURE_OFFSET as u64) && expected@
            == seq![0x55u8, 0xAAu8] && actual == bs.signature
    } else if bs.bpb.mft_lcn.0 == 0 {
        r == Err::<Ntfs, NtfsError>(NtfsError::InvalidMftLcn)
    } else {
        match spec_geometry(bs.bpb) {
            Ok(g) => r matches Ok(n) && n@ == g && !n.spec_has_upcase_table()
                && n.spec_unsupported_geometry() is None,
            Err(e) => if e is InvalidRecordSizeInfo {
                r == Err::<Ntfs, NtfsError>(e)
            } else {
                r matches Ok(n) && n.spec_unsupported_geometry() == Some(e)
                    && !n.spec_has_upcase_table()
            },
        }
    }
}

/// A boot sector with the signature `55 AA`, 512-byte sectors, `p` sectors per cluster (a power
/// of two up to 128, at byte 13), the Master File Table at cluster `m > 0` (bytes 48..56) and a
/// File Record size field of -10, -11 or -12 (byte 64) opens a filesystem whose clusters are
/// `p * 512` bytes, whose Master File Table starts at byte `m * p * 512` and whose File Records
/// are 1024, 2048 or 4096 bytes, as long as the volume size and that position fit into 64 bits;
/// the volume holds the number of sectors in bytes 40..48, and bytes 72..80 its serial number.
pub proof fn lemma_boot_sector_geometry(data: Seq<u8>, r: Result<Ntfs>)
    requires
        data.len() >= BOOT_SECTOR_SIZE,
        spec_from_boot_sector_result(data, r),
        data[510] == 0x55 && data[511] == 0xAA,
        data[11] == 0x00 && data[12] == 0x02,
        data[13] == 1 || data[13] == 2 || data[13] == 4 || data[13] == 8 || data[13] == 16
            || data[13] == 32 || data[13] == 64 || data[13] == 128,
        spec_u64_le(data, 48) > 0,
        spec_u64_le(data, 48) as int * (data[13] as int * 512) <= u64::MAX,
        spec_u64_le(data, 40) as int * 512 <= u64::MAX,
        data[64] == 0xF6 || data[64] == 0xF5 || data[64] == 0xF4,
    ensures
        r matches Ok(n) && {
            &&& n@.cluster_size == data[13] as int * 512
            &&& n@.sector_size == 512
            &&& n@.mft_position == spec_u64_le(data, 48) as int * (data[13] as int * 512)
            &&& n@.file_record_size == (if data[64] == 0xF6 {
                1024int
            } else if data[64] == 0xF5 {
                2048int
            } else {
                4096int
            })
            &&& n@.size == spec_le8_value(data, 40) * 512
            &&& n@.serial_number == spec_le8_value(data, 72)
            &&& n.spec_unsupported_geometry() is None
        },
{
    reveal_with_fuel(crate::boot_sector::spec_pow2, 13);
    let bs = spec_parse_boot_sector(data);
    assert(bs.bpb.sector_size == 512);
    assert(crate::boot_sector::spec_sectors_per_cluster(bs.bpb.sectors_per_cluster) == Ok::<
        u16,
        NtfsError,
    >(data[13] as u16));
    assert(spec_cluster_size(bs.bpb) == Ok::<u32, NtfsError>((data[13] as int * 512) as u32));
}

/// Whether `position` is the filesystem position of the byte at `location` (see
/// [`spec_non_resident_location`]): a byte that lies on the filesystem, at a position that wraps
/// around at 2^64.
pub open spec fn spec_position_of_location(location: Option<Option<int>>, position: NtfsPosition) -> bool {
    match location {
        Some(Some(x)) => position@ == Some((x % 0x1_0000_0000_0000_0000) as u64),
        _ => false,
    }
}

/// Root structure describing an NTFS filesystem.
#[derive(Debug)]
pub struct Ntfs {
    /// The size of a single cluster, in bytes. This is usually 4096.
    cluster_size: u32,
    /// The size of a single sector, in bytes. This is usually 512.
    sector_size: u16,
    /// Size of the filesystem, in bytes.
    size: u64,
    /// Absolute position of the Master File Table (MFT), in bytes.
    mft_position: NtfsPosition,
    /// Size of a single File Record, in bytes.
    file_record_size: u32,
    /// Serial number of the NTFS volume.
    serial_number: u64,
    /// Table of Unicode uppercase characters (only required for case-insensitive comparisons).
    upcase_table: Option<UpcaseTable>,
    /// The BIOS Parameter Block, where it describes a filesystem that is not supported.
    unsupported: Option<BiosParameterBlock>,
}

impl View for Ntfs {
    type V = NtfsGeometry;

    closed spec fn view(&self) -> NtfsGeometry {
        NtfsGeometry {
            cluster_size: self.cluster_size,
            sector_size: self.sector_size,
            size: self.size,
            mft_position: match self.mft_position@ {
                Some(p) => p,
                None => 0,
            },
            file_record_size: self.file_record_size,
            serial_number: self.serial_number,
        }
    }
}

impl Ntfs {
    #[verifier::type_invariant]
    spec fn inv(&self) -> bool {
        &&& MIN_CLUSTER_SIZE <= self.cluster_size <= MAX_CLUSTER_SIZE
        &&& self.mft_position@ is Some
        &&& 512 <= self.file_record_size <= 0x1000_0000
        &&& self.upcase_table matches Some(t) ==> t.spec_table().len() == 0x1_0000
        &&& self.unsupported matches Some(bpb) ==> spec_geometry(bpb) is Err
    }

    /// The error found in a boot sector that describes an unsupported filesystem (see
    /// [`spec_geometry`]); `None` for a supported one. The sizes and positions of an unsupported
    /// filesystem are placeholders: the smallest supported ones.
    pub closed spec fn spec_unsupported_geometry(&self) -> Option<NtfsError> {
        match self.unsupported {
            Some(bpb) => match spec_geometry(bpb) {
                Err(e) => Some(e),
                Ok(_) => None,
            },
            None => None,
        }
    }

    /// The size of a single cluster, in bytes.
    pub open spec fn spec_cluster_size(&self) -> u32 {
        self@.cluster_size
    }

    /// The size of a single File Record, in bytes.
    pub open spec fn spec_file_record_size(&self) -> u32 {
        self@.file_record_size
    }

    /// Whether the $UpCase table has been read.
    pub closed spec fn spec_has_upcase_table(&self) -> bool {
        self.upcase_table is Some
    }

    /// The uppercase character for each UCS-2 character, once the $UpCase table has been read.
    pub closed spec fn spec_upcase_table(&self) -> Seq<u16> {
        match self.upcase_table {
            Some(t) => t.spec_table(),
            None => Seq::empty(),
        }
    }

    /// Creates a new [`Ntfs`] object from the bytes of the boot sector (the first 512 bytes
    /// of the filesystem) and validates its information.
    pub fn from_boot_sector(data: &[u8]) -> (r: Result<Self>)
        requires
            data@.len() >= BOOT_SECTOR_SIZE,
        ensures
            spec_from_boot_sector_result(data@, r),
    {
        let boot_sector = BootSector::parse(data);
        if let Err(e) = boot_sector.validate() {
            return Err(e);
        }
        let bpb = boot_sector.bpb();
        if let Err(e) = bpb.mft_lcn() {
            return Err(e);
        }
        match Self::geometry(bpb) {
            Ok(g) => Ok(
                Self {
                    cluster_size: g.cluster_size,
                    sector_size: g.sector_size,
                    size: g.size,
                    mft_position: NtfsPosition::new(g.mft_position),
                    file_record_size: g.file_record_size,
                    serial_number: g.serial_number,
                    upcase_table: None,
                    unsupported: None,
                },
            ),
            Err(NtfsError::InvalidRecordSizeInfo { size_info, cluster_size }) => Err(
                NtfsError::InvalidRecordSizeInfo { size_info, cluster_size },
            ),
            Err(_) => Ok(
                Self {
                    cluster_size: MIN_CLUSTER_SIZE,
                    sector_size: MIN_CLUSTER_SIZE as u16,
                    size: 0,
                    mft_position: NtfsPosition::new(MIN_CLUSTER_SIZE as u64),
                    file_record_size: 1024,
                    serial_number: bpb.serial_number(),
                    upcase_table: None,
                    unsupported: Some(*bpb),
                },
            ),
        }
    }

    /// The filesystem description that the BIOS Parameter Block `bpb` denotes, or the first
    /// error found in it.
    fn geometry(bpb: &BiosParameterBlock) -> (r: Result<NtfsGeometry>)
        ensures
            r == spec_geometry(*bpb),
            r matches Ok(g) ==> MIN_CLUSTER_SIZE <= g.cluster_size <= MAX_CLUSTER_SIZE
                && g.mft_position > 0 && 512 <= g.file_record_size <= 0x1000_0000,
    {
        let cluster_size = match bpb.cluster_size() {
            Ok(v) => v,
            Err(e) => {
                return Err(e);
            },
        };
        let sector_size = match bpb.sector_size() {
            Ok(v) => v,
            Err(e) => {
                return Err(e);
            },
        };
        let total_sectors = bpb.total_sectors();
        let size = match total_sectors.checked_mul(sector_size as u64) {
            Some(size) => size,
            None => {
                return Err(NtfsError::TotalSectorsTooBig { total_sectors });
            },
        };
        let file_record_size = match bpb.file_record_size() {
            Ok(v) => v,
            Err(e) => {
                return Err(e);
            },
        };
        let serial_number = bpb.serial_number();
        let mft_lcn = match bpb.mft_lcn() {
            Ok(v) => v,
            Err(e) => {
                return Err(e);
            },
        };
        let mft_position = match mft_lcn.value().checked_mul(cluster_size as u64) {
            Some(position) => position,
            None => {
                return Err(NtfsError::LcnTooBig { lcn: mft_lcn });
            },
        };
        assert(mft_position > 0) by (nonlinear_arith)
            requires
                mft_position == mft_lcn.0 * cluster_size,
                mft_lcn.0 > 0,
                cluster_size > 0,
        ;
        Ok(
            NtfsGeometry {
                cluster_size,
                sector_size,
                size,
                mft_position,
                file_record_size,
                serial_number,
            },
        )
    }

    /// Creates a new [`Ntfs`] object from a reader and validates its boot sector: its signature,
    /// a nonzero MFT cluster number and the record size field.
    ///
    /// A boot sector that describes an unsupported geometry (sector size, cluster size, total size
    /// or MFT position) still gives an [`Ntfs`] object, but every File Record lookup on it
    /// returns the error found in the geometry.
    ///
    /// The reader must cover the entire NTFS partition, not more and not less.
    /// It will be rewinded to the beginning before reading anything.
    pub fn new<T>(fs: &mut T) -> (r: Result<Self>) where T: Read + Seek
        ensures
            final(fs).source() == old(fs).source(),
            r is Ok ==> old(fs).source().len() >= BOOT_SECTOR_SIZE,
            !(r matches Err(NtfsError::Io(_))) ==> old(fs).source().len() >= BOOT_SECTOR_SIZE
                && spec_from_boot_sector_result(
                old(fs).source().subrange(0, BOOT_SECTOR_SIZE as int),
                r,
            ),
    {
        // Read and validate the boot sector.
        if let Err(e) = fs.seek(SeekFrom::Start(0)) {
            return Err(NtfsError::Io(e));
        }
        let mut data: Vec<u8> = vec![0u8; BOOT_SECTOR_SIZE];
        if let Err(e) = fs.read_exact(data.as_mut_slice()) {
            return Err(NtfsError::Io(e));
        }
        let ghost src = old(fs).source();
        assert(data@ =~= src.subrange(0, BOOT_SECTOR_SIZE as int));
        Self::from_boot_sector(data.as_slice())
    }

    /// Returns the size of a single cluster, in bytes.
    pub fn cluster_size(&self) -> (r: u32)
        ensures
            r == self@.cluster_size,
            MIN_CLUSTER_SIZE <= r <= MAX_CLUSTER_SIZE,
    {
        proof {
            use_type_invariant(self);
        }
        self.cluster_size
    }

    /// Returns the size of a File Record of this NTFS filesystem, in bytes.
    pub fn file_record_size(&self) -> (r: u32)
        ensures
            r == self@.file_record_size,
            512 <= r <= 0x1000_0000,
    {
        proof {
            use_type_invariant(self);
        }
        self.file_record_size
    }

    /// Returns the absolute byte position of the Master File Table (MFT).
    ///
    /// This [`NtfsPosition`] is guaranteed to be nonzero.
    pub fn mft_position(&self) -> (r: NtfsPosition)
        ensures
            r@ == Some(self@.mft_position),
            self@.mft_position != 0,
    {
        proof {
            use_type_invariant(self);
            self.mft_position.lemma_nonzero();
        }
        self.mft_position
    }

    /// Returns the size of a single sector in bytes.
    pub fn sector_size(&self) -> (r: u16)
        ensures
            r == self@.sector_size,
    {
        self.sector_size
    }

    /// Returns the 64-bit serial number of this NTFS volume.
    pub fn serial_number(&self) -> (r: u64)
        ensures
            r == self@.serial_number,
    {
        self.serial_number
    }

    /// Returns the partition size in bytes.
    pub fn size(&self) -> (r: u64)
        ensures
            r == self@.size,
    {
        self.size
    }

    /// Returns the stored [`UpcaseTable`], or `None` if the $UpCase table has not been read.
    pub fn upcase_table(&self) -> (r: Option<&UpcaseTable>)
        ensures
            r is Some <==> self.spec_has_upcase_table(),
            r matches Some(t) ==> t.spec_table() == self.spec_upcase_table() && t.spec_table().len()
                == 0x1_0000,
    {
        proof {
            use_type_invariant(self);
        }
        match &self.upcase_table {
            Some(t) => Some(t),
            None => None,
        }
    }

    /// Stores an $UpCase table in this [`Ntfs`] object.
    pub fn set_upcase_table(&mut self, upcase_table: UpcaseTable)
        requires
            upcase_table.spec_table().len() == 0x1_0000,
        ensures
            final(self)@ == old(self)@,
            final(self).spec_has_upcase_table(),
            final(self).spec_upcase_table() == upcase_table.spec_table(),
    {
        proof {
            use_type_invariant(&*self);
        }
        self.upcase_table = Some(upcase_table);
    }

    /// Returns the [`NtfsFile`] for the given NTFS File Record Number.
    ///
    /// The first few NTFS files have fixed indexes and contain filesystem
    /// management information (see the [`KnownNtfsFileRecordNumber`] enum).
    ///
    /// The File Record is looked up through the $DATA attribute of the Master File Table,
    /// whose value is the sequence of all File Records.
    pub fn file<'n, T>(&'n self, fs: &mut T, file_record_number: u64) -> (r: Result<NtfsFile<'n>>) where
        T: Read + Seek,
        ensures
            final(fs).source() == old(fs).source(),
            self.spec_unsupported_geometry() matches Some(e) ==> r == Err::<NtfsFile<'n>, NtfsError>(
                e,
            ),
            self.spec_unsupported_geometry() is None && file_record_number
                * self.spec_file_record_size() > u64::MAX ==> r == Err::<
                NtfsFile<'n>,
                NtfsError,
            >(NtfsError::InvalidFileRecordNumber { file_record_number }),
            r matches Ok(f) ==> {
                &&& f.wf()
                &&& f.spec_ntfs() == *self
                &&& f.spec_file_record_number() == file_record_number
                &&& f.spec_stored_in(old(fs).source())
            },
            r matches Ok(f) ==> exists|mft: NtfsFile<'n>, offset: usize|
                #[trigger] self.spec_mft_data_attribute(old(fs).source(), mft, offset) && (mft.spec_data()[offset
                    + ATTRIBUTE_NON_RESIDENT_OFFSET] != 0 ==> spec_position_of_location(
                    spec_non_resident_location(
                        mft,
                        offset,
                        file_record_number * self.spec_file_record_size(),
                    ),
                    f.spec_position(),
                )),
    {
        proof {
            use_type_invariant(self);
        }
        if let Some(bpb) = &self.unsupported {
            return match Self::geometry(bpb) {
                Err(e) => Err(e),
                Ok(_) => Err(NtfsError::InvalidFileRecordNumber { file_record_number }),
            };
        }
        let offset = match file_record_number.checked_mul(self.file_record_size() as u64) {
            Some(offset) => offset,
            None => return Err(NtfsError::InvalidFileRecordNumber { file_record_number }),
        };
        // The MFT may be split into multiple data runs, referenced by its $DATA attribute.
        // We therefore read it just like any other non-resident attribute value.
        // However, this code assumes that the MFT does not have an Attribute List!
        let mft_position = match self.mft_position().value() {
            Some(p) => p,
            None => return Err(NtfsError::InvalidFileRecordNumber { file_record_number }),
        };
        let mft = match NtfsFile::new(self, fs, mft_position, 0) {
            Ok(f) => f,
            Err(e) => return Err(e),
        };
        let ghost m = mft;
        let ghost src = fs.source();
        let mft_data_attribute = match mft.find_resident_attribute(
            NtfsAttributeType::Data,
            None,
            None,
        ) {
            Ok(a) => a,
            Err(e) => return Err(e),
        };
        let ghost a_off = mft_data_attribute.spec_offset();
        let ghost record_offset = offset as int;
        // The attribute has no Attribute List entries, so its value is either resident or non-resident.
        if !mft_data_attribute.value_header_fits() {
            return Err(mft_data_attribute.value_header_error());
        }
        let data_position = if mft_data_attribute.is_resident() {
            let mut value = match mft_data_attribute.resident_value() {
                Ok(v) => v,
                Err(e) => return Err(e),
            };
            match value.seek(fs, SeekFrom::Start(offset)) {
                Ok(_) => {},
                Err(e) => return Err(e),
            }
            value.data_position()
        } else {
            let mut value = match mft_data_attribute.non_resident_value() {
                Ok(v) => v,
                Err(e) => return Err(e),
            };
            let ghost v0 = value;
            match value.seek(fs, SeekFrom::Start(offset)) {
                Ok(_) => {},
                Err(e) => return Err(e),
            }
            let data_position = value.data_position();
            proof {
                assert(value.spec_location(0) == spec_seek_location(
                    v0,
                    spec_optimize_seek(SeekFrom::Start(offset), 0, v0.spec_data_size()),
                    0,
                ));
                assert(value.spec_location(0) == spec_non_resident_location(m, a_off, record_offset));
                if let Some(run) = value.spec_data_run() {
                    assert(spec_run_remaining(run) > 0);
                    assert(value.spec_location(0) == Some(
                        spec_run_location(run.spec_position(), run.spec_stream_position() as int),
                    ));
                    NtfsPosition::lemma_spec_add_view(run.spec_position(), run.spec_stream_position());
                    assert(data_position == run.spec_position().spec_add(run.spec_stream_position()));
                } else {
                    NtfsPosition::lemma_spec_at_view(0);
                }
                assert(data_position@ is Some ==> spec_position_of_location(
                    spec_non_resident_location(m, a_off, record_offset),
                    data_position,
                ));
            }
            data_position
        };
        let position = match data_position.value() {
            Some(p) => p,
            None => return Err(NtfsError::InvalidFileRecordNumber { file_record_number }),
        };
        proof {
            NtfsPosition::lemma_spec_at_view(position);
            NtfsPosition::lemma_spec_at_view(mft_position);
            assert(self.spec_mft_data_attribute(src, m, a_off));
        }
        let r = NtfsFile::new(self, fs, position, file_record_number);
        proof {
            if r is Ok {
                let f = r->Ok_0;
                assert(f.spec_position()@ == Some(position));
                if m.spec_data()[a_off + ATTRIBUTE_NON_RESIDENT_OFFSET] != 0 {
                    assert(record_offset == file_record_number * self.spec_file_record_size());
                    assert(spec_position_of_location(
                        spec_non_resident_location(m, a_off, record_offset),
                        data_position,
                    ));
                }
            }
        }
        r
    }

    /// Whether `offset` is a $DATA attribute of the File Record `mft`, which this filesystem
    /// stores in the filesystem bytes `source` as the first File Record of its Master File Table.
    pub open spec fn spec_mft_data_attribute(&self, source: Seq<u8>, mft: NtfsFile, offset: usize) -> bool {
        &&& mft.spec_ntfs() == *self
        &&& mft.spec_stored_in(source)
        &&& mft.spec_position()@ == Some(self@.mft_position)
        &&& mft.spec_file_record_number() == 0
        &&& spec_attribute_type_from_code(spec_type_code_at(mft.spec_data(), offset)) == Some(
            NtfsAttributeType::Data,
        )
    }

    /// Returns the root directory of this NTFS volume as an [`NtfsFile`].
    pub fn root_directory<'n, T>(&'n self, fs: &mut T) -> (r: Result<NtfsFile<'n>>) where
        T: Read + Seek,
        ensures
            final(fs).source() == old(fs).source(),
            r matches Ok(f) ==> {
                &&& f.wf()
                &&& f.spec_ntfs() == *self
                &&& f.spec_file_record_number() == 5
            },
    {
        self.file(fs, KnownNtfsFileRecordNumber::RootDirectory as u64)
    }

    /// Returns an [`NtfsVolumeInformation`] containing general information about
    /// the volume, like the NTFS version.
    pub fn volume_info<T>(&self, fs: &mut T) -> (r: Result<NtfsVolumeInformation>) where
        T: Read + Seek,
        ensures
            final(fs).source() == old(fs).source(),
            r matches Ok(v) ==> exists|f: NtfsFile, offset: int|
                #![trigger spec_resident_value_bytes(f.spec_data(), offset)]
                {
                    &&& f.spec_ntfs() == *self
                    &&& f.spec_file_record_number() == KnownNtfsFileRecordNumber::Volume as u64
                    &&& spec_volume_information(
                        spec_resident_value_bytes(f.spec_data(), offset),
                        f.spec_position().spec_add(offset as u64).spec_add(0),
                    ) == Ok::<(u8, u8, u16), NtfsError>(v.spec_fields())
                },
    {
        let volume_file = match self.file(fs, KnownNtfsFileRecordNumber::Volume as u64) {
            Ok(f) => f,
            Err(e) => return Err(e),
        };
        volume_file.find_resident_attribute_structured_value::<NtfsVolumeInformation>(None)
    }

    /// Returns an [`NtfsVolumeName`] to read the volume name (also called volume label)
    /// of this NTFS volume.
    ///
    /// Note that a volume may also have no label, which is why the return value is further
    /// encapsulated in an `Option`.
    pub fn volume_name<T>(&self, fs: &mut T) -> (r: Option<Result<NtfsVolumeName>>) where
        T: Read + Seek,
        ensures
            final(fs).source() == old(fs).source(),
            r matches Some(Ok(v)) ==> exists|f: NtfsFile, offset: int|
                #![trigger spec_resident_value_bytes(f.spec_data(), offset)]
                {
                    &&& f.spec_ntfs() == *self
                    &&& f.spec_file_record_number() == KnownNtfsFileRecordNumber::Volume as u64
                    &&& v.spec_name() == spec_resident_value_bytes(f.spec_data(), offset)
                    &&& VOLUME_NAME_MIN_SIZE <= v.spec_name().len() <= VOLUME_NAME_MAX_SIZE
                },
            r is None ==> exists|f: NtfsFile|
                #![trigger f.spec_file_record_number()]
                {
                    &&& f.spec_ntfs() == *self
                    &&& f.spec_file_record_number() == KnownNtfsFileRecordNumber::Volume as u64
                    &&& f.spec_stored_in(old(fs).source())
                    &&& forall|offset: usize|
                        #[trigger] spec_raw_visits(
                            f.spec_data(),
                            f.spec_first_attribute_start(),
                            f.spec_position(),
                            offset,
                        ) ==> !spec_attribute_matches(
                            f.spec_data(),
                            offset,
                            NtfsAttributeType::VolumeName,
                            None,
                            None,
                        )
                },
    {
        let volume_file = match self.file(fs, KnownNtfsFileRecordNumber::Volume as u64) {
            Ok(f) => f,
            Err(e) => return Some(Err(e)),
        };
        match volume_file.find_resident_attribute_structured_value::<NtfsVolumeName>(None) {
            Ok(volume_name) => Some(Ok(volume_name)),
            Err(NtfsError::AttributeNotFound { .. }) => {
                proof {
                    assert(volume_file.spec_file_record_number() == KnownNtfsFileRecordNumber::Volume
                        as u64);
                }
                None
            },
            Err(e) => Some(Err(e)),
        }
    }

    /// Reads the $UpCase file from the filesystem and stores it in this [`Ntfs`] object.
    ///
    /// This function only needs to be called if case-insensitive comparisons are later performed
    /// (i.e. finding files).
    pub fn read_upcase_table<T>(&mut self, fs: &mut T) -> (r: Result<()>) where T: Read + Seek
        ensures
            final(fs).source() == old(fs).source(),
            final(self)@ == old(self)@,
            r is Ok ==> final(self).spec_has_upcase_table(),
            r is Ok ==> exists|
                file: NtfsFile,
                offset: usize,
                value: crate::attribute_value::NtfsAttributeValue,
                bytes: Seq<u8>,
            |
                #![trigger spec_upcase_data_value(file, offset, value), crate::attribute_value::spec_read_bytes(value, old(fs).source(), bytes, UPCASE_TABLE_SIZE as int)]
                {
                    &&& spec_upcase_data_value(file, offset, value)
                    &&& bytes.len() == UPCASE_TABLE_SIZE
                    &&& crate::attribute_value::spec_read_bytes(
                        value,
                        old(fs).source(),
                        bytes,
                        UPCASE_TABLE_SIZE as int,
                    )
                    &&& final(self).spec_upcase_table() == spec_table_from_bytes(bytes)
                },
            r is Err ==> final(self).spec_has_upcase_table() == old(self).spec_has_upcase_table()
                && final(self).spec_upcase_table() == old(self).spec_upcase_table(),
    {
        let upcase_table = match UpcaseTable::read(self, fs) {
            Ok(t) => t,
            Err(e) => return Err(e),
        };
        self.set_upcase_table(upcase_table);
        Ok(())
    }
}

} // verus!
