//! The NTFS boot sector and its BIOS Parameter Block (BPB).
//
// Sources:
// - https://en.wikipedia.org/wiki/NTFS#Partition_Boot_Sector_(VBR)
// - https://en.wikipedia.org/wiki/BIOS_parameter_block#NTFS
// - https://wiki.osdev.org/NTFS
use vstd::prelude::*;

use crate::error::{NtfsError, Result};
use crate::helpers::{read_u16_le, read_u64_le, spec_u16_le, spec_u64_le};
use crate::types::{Lcn, NtfsPosition};

verus! {

/// Size of the boot sector, in bytes.
pub const BOOT_SECTOR_SIZE: usize = 512;

/// Byte offset of the two-byte signature within the boot sector.
pub const BOOT_SECTOR_SIGNATURE_OFFSET: usize = 510;

/// The cluster size cannot go lower than a single sector.
pub const MIN_CLUSTER_SIZE: u32 = 512;

/// The maximum cluster size supported by Windows is 2 MiB.
pub const MAX_CLUSTER_SIZE: u32 = 2097152;

/// The only sector size accepted.
///
/// NTFS-3G supports more sector sizes, but no Windows NTFS partition with a sector size
/// other than 512 bytes is known.
pub const SUPPORTED_SECTOR_SIZE: u16 = 512;

/// Record size exponents below this have never been seen and are denied to guarantee that
/// every record header fits into a record.
pub const MIN_RECORD_SIZE_EXPONENT: u32 = 10;

/// Record size exponents above this have never been seen and are denied to prevent
/// allocating too large buffers.
pub const MAX_RECORD_SIZE_EXPONENT: u32 = 12;

/// The largest binary exponent for the number of sectors per cluster:
/// 2^12 sectors of 512 bytes are 2 MiB, the largest cluster size supported by Windows.
pub const MAX_SECTORS_PER_CLUSTER_EXPONENT: u32 = 12;

/// 2 to the power of `e`.
pub open spec fn spec_pow2(e: nat) -> nat
    decreases e,
{
    if e == 0 {
        1
    } else {
        2 * spec_pow2((e - 1) as nat)
    }
}

/// `v` is a power of two.
pub open spec fn spec_is_power_of_two_u8(v: u8) -> bool {
    v == 1 || v == 2 || v == 4 || v == 8 || v == 16 || v == 32 || v == 64 || v == 128
}

/// The fields of the BIOS Parameter Block that this crate uses.
#[derive(Clone, Copy, Debug)]
pub struct BiosParameterBlock {
    pub sector_size: u16,
    pub sectors_per_cluster: u8,
    pub total_sectors: u64,
    pub mft_lcn: Lcn,
    pub file_record_size_info: i8,
    pub index_record_size_info: i8,
    pub serial_number: u64,
}

/// The fields of the boot sector that this crate uses.
pub struct BootSector {
    pub bpb: BiosParameterBlock,
    pub signature: [u8; 2],
}

/// The signed byte stored at `s[i]`.
pub open spec fn spec_i8(s: Seq<u8>, i: int) -> i8 {
    if s[i] < 128 {
        s[i] as i8
    } else {
        (s[i] as int - 256) as i8
    }
}

/// The boot sector fields stored in the first 512 bytes of `s`.
pub open spec fn spec_parse_boot_sector(s: Seq<u8>) -> BootSector {
    BootSector {
        bpb: BiosParameterBlock {
            sector_size: spec_u16_le(s, 11),
            sectors_per_cluster: s[13],
            total_sectors: spec_u64_le(s, 40),
            mft_lcn: Lcn(spec_u64_le(s, 48)),
            file_record_size_info: spec_i8(s, 64),
            index_record_size_info: spec_i8(s, 68),
            serial_number: spec_u64_le(s, 72),
        },
        signature: [s[510], s[511]],
    }
}

fn read_i8(data: &[u8], offset: usize) -> (r: i8)
    requires
        offset < data@.len(),
    ensures
        r == spec_i8(data@, offset as int),
{
    let b = data[offset];
    if b < 128 {
        b as i8
    } else {
        (b as i16 - 256) as i8
    }
}

/// The number of sectors per cluster that the raw BPB field denotes.
///
/// Cluster sizes from 512 to 64K are represented by taking the field as-is
/// (with possible values 1, 2, 4, 8, 16, 32, 64, 128).
/// For larger cluster sizes, the field is treated as a binary exponent after negation.
/// See <https://dfir.ru/2019/04/23/ntfs-large-clusters/>
pub open spec fn spec_sectors_per_cluster(raw: u8) -> Result<u16> {
    if raw > 128 {
        let exponent = 256 - raw;
        if exponent > MAX_SECTORS_PER_CLUSTER_EXPONENT {
            Err(NtfsError::InvalidSectorsPerCluster { sectors_per_cluster: raw })
        } else {
            Ok(spec_pow2(exponent as nat) as u16)
        }
    } else if raw < 1 || !spec_is_power_of_two_u8(raw) {
        Err(NtfsError::InvalidSectorsPerCluster { sectors_per_cluster: raw })
    } else {
        Ok(raw as u16)
    }
}

/// The sector size that the raw BPB field denotes.
pub open spec fn spec_sector_size(raw: u16) -> Result<u16> {
    if raw != SUPPORTED_SECTOR_SIZE {
        Err(
            NtfsError::UnsupportedSectorSize {
                min: SUPPORTED_SECTOR_SIZE,
                max: SUPPORTED_SECTOR_SIZE,
                actual: raw,
            },
        )
    } else {
        Ok(raw)
    }
}

/// The cluster size that a BPB denotes.
pub open spec fn spec_cluster_size(bpb: BiosParameterBlock) -> Result<u32> {
    match spec_sectors_per_cluster(bpb.sectors_per_cluster) {
        Err(e) => Err(e),
        Ok(spc) => match spec_sector_size(bpb.sector_size) {
            Err(e) => Err(e),
            Ok(ss) => {
                let cluster_size = spc as int * ss as int;
                if cluster_size < MIN_CLUSTER_SIZE || cluster_size > MAX_CLUSTER_SIZE {
                    Err(
                        NtfsError::UnsupportedClusterSize {
                            min: MIN_CLUSTER_SIZE,
                            max: MAX_CLUSTER_SIZE,
                            actual: cluster_size as u32,
                        },
                    )
                } else {
                    Ok(cluster_size as u32)
                }
            },
        },
    }
}

/// The record size that a record size field of the BPB denotes.
///
/// A positive field denotes a cluster count, a negative (or zero) field a binary exponent
/// after negation.
pub open spec fn spec_record_size(bpb: BiosParameterBlock, size_info: i8) -> Result<u32> {
    match spec_cluster_size(bpb) {
        Err(e) => Err(e),
        Ok(cluster_size) => {
            if size_info > 0 {
                Ok((cluster_size as int * size_info as int) as u32)
            } else {
                let exponent = -(size_info as int);
                if exponent < MIN_RECORD_SIZE_EXPONENT || exponent > MAX_RECORD_SIZE_EXPONENT {
                    Err(NtfsError::InvalidRecordSizeInfo { size_info, cluster_size })
                } else {
                    Ok(spec_pow2(exponent as nat) as u32)
                }
            }
        },
    }
}

/// What a record size field denotes for a BPB with a valid cluster size `cluster_size`: a
/// positive field counts clusters (and never overflows a `u32`); a zero or negative field gives
/// 1024, 2048 or 4096 bytes for -10, -11 or -12, and is refused otherwise.
pub proof fn lemma_record_size_cases(bpb: BiosParameterBlock, size_info: i8, cluster_size: u32)
    requires
        spec_cluster_size(bpb) == Ok::<u32, NtfsError>(cluster_size),
    ensures
        size_info > 0 ==> cluster_size as int * size_info as int <= u32::MAX && spec_record_size(
            bpb,
            size_info,
        ) == Ok::<u32, NtfsError>((cluster_size as int * size_info as int) as u32),
        size_info == -10 ==> spec_record_size(bpb, size_info) == Ok::<u32, NtfsError>(1024),
        size_info == -11 ==> spec_record_size(bpb, size_info) == Ok::<u32, NtfsError>(2048),
        size_info == -12 ==> spec_record_size(bpb, size_info) == Ok::<u32, NtfsError>(4096),
        size_info <= 0 && !(-12 <= size_info <= -10) ==> spec_record_size(bpb, size_info) == Err::<
            u32,
            NtfsError,
        >(NtfsError::InvalidRecordSizeInfo { size_info, cluster_size }),
{
    assert(cluster_size as int * size_info as int <= u32::MAX) by (nonlinear_arith)
        requires
            cluster_size <= MAX_CLUSTER_SIZE,
            size_info <= 127,
    ;
    reveal_with_fuel(spec_pow2, 13);
}

/// The cluster size of a BPB with 512-byte sectors: a sectors-per-cluster field that is a power of
/// two up to 128 counts sectors, so the cluster holds that many times 512 bytes; a field of
/// `256 - e` for `e` from 1 to 12 gives `2^e` sectors (large clusters up to 2 MiB); every other
/// field is refused.
pub proof fn lemma_cluster_size_cases(bpb: BiosParameterBlock)
    requires
        bpb.sector_size == 512,
    ensures
        spec_is_power_of_two_u8(bpb.sectors_per_cluster) ==> spec_cluster_size(bpb) == Ok::<
            u32,
            NtfsError,
        >((bpb.sectors_per_cluster as int * 512) as u32),
        bpb.sectors_per_cluster >= 244 ==> spec_cluster_size(bpb) == Ok::<u32, NtfsError>(
            (spec_pow2((256 - bpb.sectors_per_cluster) as nat) * 512) as u32,
        ) && 1024 <= spec_pow2((256 - bpb.sectors_per_cluster) as nat) * 512 <= MAX_CLUSTER_SIZE,
        !spec_is_power_of_two_u8(bpb.sectors_per_cluster) && bpb.sectors_per_cluster < 244
            ==> spec_cluster_size(bpb) == Err::<u32, NtfsError>(
            NtfsError::InvalidSectorsPerCluster { sectors_per_cluster: bpb.sectors_per_cluster },
        ),
{
    reveal_with_fuel(spec_pow2, 13);
    if bpb.sectors_per_cluster >= 244 {
        let e = (256 - bpb.sectors_per_cluster) as nat;
        lemma_pow2_monotone(1, e);
        lemma_pow2_monotone(e, 12);
    }
}

/// The Logical Cluster Number of the Master File Table that a BPB denotes.
pub open spec fn spec_mft_lcn(bpb: BiosParameterBlock) -> Result<Lcn> {
    if bpb.mft_lcn.0 > 0 {
        Ok(bpb.mft_lcn)
    } else {
        Err(NtfsError::InvalidMftLcn)
    }
}

fn pow2_u32(e: u32) -> (r: u32)
    requires
        e <= 21,
    ensures
        r == spec_pow2(e as nat),
        r >= 1,
{
    let mut r: u32 = 1;
    let mut i: u32 = 0;
    while i < e
        invariant
            i <= e,
            e <= 21,
            r == spec_pow2(i as nat),
            r <= 0x20_0000,
            r >= 1,
        decreases e - i,
    {
        proof {
            lemma_pow2_bound((i + 1) as nat);
            assert(spec_pow2((i + 1) as nat) == 2 * spec_pow2(i as nat));
        }
        r = r * 2;
        i = i + 1;
    }
    r
}

/// Bounds on small powers of two.
pub proof fn lemma_pow2_bound(e: nat)
    requires
        e <= 21,
    ensures
        spec_pow2(e) <= spec_pow2(21),
        spec_pow2(21) == 0x20_0000,
        spec_pow2(e) >= 1,
    decreases e,
{
    reveal_with_fuel(spec_pow2, 22);
    if e > 0 {
        lemma_pow2_bound((e - 1) as nat);
    }
    if e < 21 {
        lemma_pow2_monotone(e, 21);
    }
}

/// Powers of two grow with the exponent.
pub proof fn lemma_pow2_monotone(a: nat, b: nat)
    requires
        a <= b,
    ensures
        spec_pow2(a) <= spec_pow2(b),
    decreases b,
{
    if a < b {
        lemma_pow2_monotone(a, (b - 1) as nat);
        lemma_pow2_positive((b - 1) as nat);
    }
}

proof fn lemma_pow2_positive(e: nat)
    ensures
        spec_pow2(e) >= 1,
    decreases e,
{
    if e > 0 {
        lemma_pow2_positive((e - 1) as nat);
    }
}

impl BiosParameterBlock {
    /// Returns the size of a single cluster, in bytes.
    pub fn cluster_size(&self) -> (r: Result<u32>)
        ensures
            r == spec_cluster_size(*self),
    {
        // `sectors_per_cluster` and `sector_size` both check for powers of two.
        let spc = match self.sectors_per_cluster() {
            Ok(spc) => spc,
            Err(e) => {
                return Err(e);
            },
        };
        let ss = match self.sector_size() {
            Ok(ss) => ss,
            Err(e) => {
                return Err(e);
            },
        };
        proof {
            lemma_pow2_bound(12);
        }
        let cluster_size = spc as u32 * ss as u32;
        if cluster_size < MIN_CLUSTER_SIZE || cluster_size > MAX_CLUSTER_SIZE {
            return Err(
                NtfsError::UnsupportedClusterSize {
                    min: MIN_CLUSTER_SIZE,
                    max: MAX_CLUSTER_SIZE,
                    actual: cluster_size,
                },
            );
        }
        Ok(cluster_size)
    }

    /// Returns the size of a single File Record, in bytes.
    pub fn file_record_size(&self) -> (r: Result<u32>)
        ensures
            r == spec_record_size(*self, self.file_record_size_info),
            r matches Ok(v) ==> 512 <= v <= 0x1000_0000,
    {
        self.record_size(self.file_record_size_info)
    }

    /// Returns the Logical Cluster Number (LCN) to the beginning of the Master File Table (MFT).
    pub fn mft_lcn(&self) -> (r: Result<Lcn>)
        ensures
            r == spec_mft_lcn(*self),
    {
        if self.mft_lcn.value() > 0 {
            Ok(self.mft_lcn)
        } else {
            Err(NtfsError::InvalidMftLcn)
        }
    }

    /// Source: https://en.wikipedia.org/wiki/NTFS#Partition_Boot_Sector_(VBR)
    fn record_size(&self, size_info: i8) -> (r: Result<u32>)
        ensures
            r == spec_record_size(*self, size_info),
            r matches Ok(v) ==> 512 <= v <= 0x1000_0000,
    {
        // The usual exponent of `file_record_size_info` is 10 (2^10 = 1024 bytes).
        // For index records, it's usually 12 (2^12 = 4096 bytes).
        let cluster_size = match self.cluster_size() {
            Ok(cluster_size) => cluster_size,
            Err(e) => {
                return Err(e);
            },
        };
        if size_info > 0 {
            // The size field denotes a cluster count.
            assert(cluster_size as int * size_info as int <= 0x20_0000 * 127
                && cluster_size as int * size_info as int >= cluster_size as int) by (nonlinear_arith)
                requires
                    cluster_size <= 0x20_0000,
                    0 < size_info <= 127,
            ;
            Ok(cluster_size * size_info as u32)
        } else {
            // The size field denotes a binary exponent after negation.
            let exponent = (-(size_info as i32)) as u32;
            if exponent < MIN_RECORD_SIZE_EXPONENT || exponent > MAX_RECORD_SIZE_EXPONENT {
                return Err(NtfsError::InvalidRecordSizeInfo { size_info, cluster_size });
            }
            proof {
                lemma_pow2_monotone(10, exponent as nat);
                lemma_pow2_monotone(exponent as nat, 12);
                reveal_with_fuel(spec_pow2, 13);
            }
            Ok(pow2_u32(exponent))
        }
    }

    /// Returns the size of a single sector, in bytes.
    pub fn sector_size(&self) -> (r: Result<u16>)
        ensures
            r == spec_sector_size(self.sector_size),
    {
        if self.sector_size != SUPPORTED_SECTOR_SIZE {
            return Err(
                NtfsError::UnsupportedSectorSize {
                    min: SUPPORTED_SECTOR_SIZE,
                    max: SUPPORTED_SECTOR_SIZE,
                    actual: self.sector_size,
                },
            );
        }
        Ok(self.sector_size)
    }

    fn sectors_per_cluster(&self) -> (r: Result<u16>)
        ensures
            r == spec_sectors_per_cluster(self.sectors_per_cluster),
            r matches Ok(v) ==> 1 <= v <= spec_pow2(12),
    {
        let raw = self.sectors_per_cluster;
        proof {
            lemma_pow2_bound(12);
            reveal_with_fuel(spec_pow2, 13);
        }
        if raw > 128 {
            let exponent = 256 - raw as u32;
            if exponent > MAX_SECTORS_PER_CLUSTER_EXPONENT {
                return Err(NtfsError::InvalidSectorsPerCluster { sectors_per_cluster: raw });
            }
            proof {
                lemma_pow2_monotone(exponent as nat, 12);
            }
            Ok(pow2_u32(exponent) as u16)
        } else {
            let is_power_of_two = raw == 1 || raw == 2 || raw == 4 || raw == 8 || raw == 16 || raw
                == 32 || raw == 64 || raw == 128;
            if raw < 1 || !is_power_of_two {
                return Err(NtfsError::InvalidSectorsPerCluster { sectors_per_cluster: raw });
            }
            Ok(raw as u16)
        }
    }

    /// Returns the 64-bit serial number of the volume.
    pub fn serial_number(&self) -> (r: u64)
        ensures
            r == self.serial_number,
    {
        self.serial_number
    }

    /// Returns the number of sectors of the volume.
    pub fn total_sectors(&self) -> (r: u64)
        ensures
            r == self.total_sectors,
    {
        self.total_sectors
    }
}

impl BootSector {
    /// Reads the boot sector fields from the first 512 bytes of `data`.
    pub fn parse(data: &[u8]) -> (r: BootSector)
        requires
            data@.len() >= BOOT_SECTOR_SIZE,
        ensures
            r == spec_parse_boot_sector(data@),
    {
        let bpb = BiosParameterBlock {
            sector_size: read_u16_le(data, 11),
            sectors_per_cluster: data[13],
            total_sectors: read_u64_le(data, 40),
            mft_lcn: Lcn(read_u64_le(data, 48)),
            file_record_size_info: read_i8(data, 64),
            index_record_size_info: read_i8(data, 68),
            serial_number: read_u64_le(data, 72),
        };
        BootSector { bpb, signature: [data[510], data[511]] }
    }

    /// Returns the BIOS Parameter Block of this boot sector.
    pub fn bpb(&self) -> (r: &BiosParameterBlock)
        ensures
            *r == self.bpb,
    {
        &self.bpb
    }

    /// Validates the infamous [0x55, 0xAA] signature at the end of the boot sector.
    pub fn validate(&self) -> (r: Result<()>)
        ensures
            r is Ok <==> self.signature[0] == 0x55 && self.signature[1] == 0xAA,
            r matches Err(e) ==> e matches NtfsError::InvalidTwoByteSignature {
                position,
                expected,
                actual,
            } && position == NtfsPosition::spec_at(BOOT_SECTOR_SIGNATURE_OFFSET as u64) && expected@ == seq![
                0x55u8,
                0xAAu8,
            ] && actual == self.signature,
    {
        let expected: &'static [u8] = &[0x55, 0xAA];
        if self.signature[0] != 0x55 || self.signature[1] != 0xAA {
            return Err(
                NtfsError::InvalidTwoByteSignature {
                    position: NtfsPosition::new(BOOT_SECTOR_SIGNATURE_OFFSET as u64),
                    expected,
                    actual: self.signature,
                },
            );
        }
        Ok(())
    }
}

} // verus!
