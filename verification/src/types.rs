//! Supplementary helper types.
use vstd::prelude::*;
use vstd::std_specs::convert::FromSpecImpl;
use vstd::std_specs::ops::AddSpecImpl;

use crate::error::{NtfsError, Result};
use crate::helpers::{checked_offset_position, spec_offset_position};
use crate::ntfs::Ntfs;
use crate::utf16::push_char;

verus! {

/// An absolute nonzero byte position on the NTFS filesystem.
/// Can be used to seek, but even more often in [`NtfsError`] variants to assist with debugging.
///
/// Note that there may be cases when no valid position can be given for the current situation.
/// For example, this may happen when a reader is on a sparse Data Run or it has been seeked to a
/// position outside the valid range.
/// Therefore, a position either holds a nonzero value or no value at all.
#[derive(Clone, Copy, Debug, Eq, PartialEq, Structural)]
pub struct NtfsPosition(u64);

impl View for NtfsPosition {
    type V = Option<u64>;

    /// The stored position, or `None` if there is no valid position.
    closed spec fn view(&self) -> Option<u64> {
        if self.0 == 0 {
            None
        } else {
            Some(self.0)
        }
    }
}

/// The position `p + offset`; no position if `p` has none, if the sum wraps around to zero,
/// and otherwise the sum modulo 2^64.
pub open spec fn spec_position_add(p: Option<u64>, offset: u64) -> Option<u64> {
    match p {
        None => None,
        Some(v) => {
            let sum = (v as int + offset as int) % 0x1_0000_0000_0000_0000;
            if sum == 0 {
                None
            } else {
                Some(sum as u64)
            }
        },
    }
}

/// The decimal digit `d` as a character.
pub open spec fn spec_decimal_digit(d: nat) -> char {
    (48 + d) as char
}

/// The decimal notation of `n`, without leading zeros.
pub open spec fn spec_decimal(n: nat) -> Seq<char>
    decreases n,
{
    if n < 10 {
        seq![spec_decimal_digit(n)]
    } else {
        spec_decimal(n / 10).push(spec_decimal_digit(n % 10))
    }
}

/// The text of a position: its value in decimal notation, or `<NONE>` without a value.
pub open spec fn spec_position_text(p: Option<u64>) -> Seq<char> {
    match p {
        Some(v) => spec_decimal(v as nat),
        None => seq!['<', 'N', 'O', 'N', 'E', '>'],
    }
}

/// Appends the decimal notation of `n` to `s`.
fn push_decimal(s: &mut String, n: u64)
    ensures
        final(s)@ == old(s)@ + spec_decimal(n as nat),
    decreases n,
{
    if n >= 10 {
        push_decimal(s, n / 10);
    }
    let digit = (n % 10) as u8;
    push_char(s, (48 + digit) as char);
    proof {
        assert(spec_decimal(n as nat) == if n < 10 {
            seq![spec_decimal_digit(n as nat)]
        } else {
            spec_decimal((n / 10) as nat).push(spec_decimal_digit((n % 10) as nat))
        });
    }
}

impl NtfsPosition {
    /// Returns the position as text: its value in decimal notation, or `<NONE>` without a value.
    pub fn to_string(&self) -> (r: String)
        ensures
            r@ == spec_position_text(self@),
    {
        let mut s = String::new();
        if self.0 == 0 {
            push_char(&mut s, '<');
            push_char(&mut s, 'N');
            push_char(&mut s, 'O');
            push_char(&mut s, 'N');
            push_char(&mut s, 'E');
            push_char(&mut s, '>');
        } else {
            push_decimal(&mut s, self.0);
        }
        proof {
            assert(s@ =~= spec_position_text(self@));
        }
        s
    }

    /// The position holding `position` (no position if `position` is zero).
    pub closed spec fn spec_at(position: u64) -> NtfsPosition {
        NtfsPosition(position)
    }

    /// The view of [`NtfsPosition::spec_at`].
    pub broadcast proof fn lemma_spec_at_view(position: u64)
        ensures
            #[trigger] NtfsPosition::spec_at(position)@ == (if position == 0 {
                None
            } else {
                Some(position)
            }),
    {
    }

    /// Creates a position from a byte position, which holds no value if `position` is zero.
    pub fn new(position: u64) -> (r: Self)
        ensures
            r == NtfsPosition::spec_at(position),
            r@ == (if position == 0 {
                None
            } else {
                Some(position)
            }),
    {
        Self(position)
    }

    /// Creates a position that holds no value.
    pub fn none() -> (r: Self)
        ensures
            r == NtfsPosition::spec_at(0),
            r@ == None::<u64>,
    {
        Self(0)
    }

    /// Returns the stored position, or `None` if there is no valid position.
    pub fn value(&self) -> (r: Option<u64>)
        ensures
            r == self@,
            r matches Some(v) ==> v != 0,
    {
        if self.0 == 0 {
            None
        } else {
            Some(self.0)
        }
    }

    /// A stored position is never zero.
    pub proof fn lemma_nonzero(&self)
        ensures
            self@ matches Some(v) ==> v != 0,
    {
    }

    /// This position plus a byte offset, see [`spec_position_add`].
    pub closed spec fn spec_add(self, offset: u64) -> NtfsPosition {
        if self.0 == 0 {
            NtfsPosition(0)
        } else {
            NtfsPosition(((self.0 as int + offset as int) % 0x1_0000_0000_0000_0000) as u64)
        }
    }

    /// The view of [`NtfsPosition::spec_add`].
    pub broadcast proof fn lemma_spec_add_view(p: NtfsPosition, offset: u64)
        ensures
            #[trigger] p.spec_add(offset)@ == spec_position_add(p@, offset),
    {
    }

    /// Moving a position by no bytes leaves it where it is.
    pub proof fn lemma_spec_add_zero(p: NtfsPosition)
        ensures
            p.spec_add(0) == p,
    {
    }

    /// Moving a position by `a` bytes and then by `b` bytes moves it by `a + b` bytes, as long as
    /// the first move does not run past the largest position.
    pub proof fn lemma_spec_add_add(p: NtfsPosition, a: u64, b: u64)
        requires
            p@ matches Some(v) ==> v + a <= u64::MAX,
            a + b <= u64::MAX,
        ensures
            p.spec_add(a).spec_add(b) == p.spec_add((a + b) as u64),
    {
    }

    /// Adds a byte offset to this position, see [`spec_position_add`].
    pub fn add_offset(self, offset: u64) -> (r: Self)
        ensures
            r == self.spec_add(offset),
            r@ == spec_position_add(self@, offset),
    {
        if self.0 == 0 {
            Self(0)
        } else {
            let sum = self.0.wrapping_add(offset);
            assert(sum as int == (self.0 as int + offset as int) % 0x1_0000_0000_0000_0000) by {
                assert((self.0 as int) + (offset as int) < 0x2_0000_0000_0000_0000);
            }
            Self(sum)
        }
    }
}

impl core::ops::Add<u64> for NtfsPosition {
    type Output = Self;

    fn add(self, other: u64) -> (r: Self)
        ensures
            r == self.spec_add(other),
    {
        self.add_offset(other)
    }
}

impl AddSpecImpl<u64> for NtfsPosition {
    /// What `+` gives is stated by the `ensures` of [`NtfsPosition::add`] itself.
    open spec fn obeys_add_spec() -> bool {
        false
    }

    open spec fn add_req(self, rhs: u64) -> bool {
        true
    }

    open spec fn add_spec(self, rhs: u64) -> Self {
        self.spec_add(rhs)
    }
}

/// A Logical Cluster Number (LCN).
///
/// NTFS divides a filesystem into clusters of a given size (power of two), see [`Ntfs::cluster_size`].
/// The LCN is an absolute cluster index into the filesystem.
#[derive(Clone, Copy, Debug, Eq, PartialEq, Structural)]
pub struct Lcn(pub u64);

impl From<u64> for Lcn {
    fn from(value: u64) -> (r: Self) {
        Lcn(value)
    }
}

impl FromSpecImpl<u64> for Lcn {
    open spec fn obeys_from_spec() -> bool {
        true
    }

    open spec fn from_spec(v: u64) -> Self {
        Lcn(v)
    }
}

impl Lcn {
    /// Performs a checked addition of the given Virtual Cluster Number (VCN), returning a new LCN.
    pub fn checked_add(&self, vcn: Vcn) -> (r: Option<Lcn>)
        ensures
            r == (match spec_offset_position(self.0, vcn.0) {
                Some(v) => Some(Lcn(v)),
                None => None,
            }),
    {
        match checked_offset_position(self.0, vcn.0) {
            Some(v) => Some(Lcn(v)),
            None => None,
        }
    }

    /// Returns the absolute byte position of this LCN within the filesystem.
    pub fn position(&self, ntfs: &Ntfs) -> (r: Result<NtfsPosition>)
        ensures
            r matches Ok(p) ==> p == NtfsPosition::spec_at((self.0 * ntfs.spec_cluster_size()) as u64),
            r matches Ok(p) ==> self.0 * ntfs.spec_cluster_size() <= u64::MAX && p@ == (if self.0
                * ntfs.spec_cluster_size() == 0 {
                None
            } else {
                Some((self.0 * ntfs.spec_cluster_size()) as u64)
            }),
            r matches Err(e) ==> self.0 * ntfs.spec_cluster_size() > u64::MAX && e
                == (NtfsError::LcnTooBig { lcn: *self }),
    {
        match self.0.checked_mul(ntfs.cluster_size() as u64) {
            Some(value) => Ok(NtfsPosition::new(value)),
            None => Err(NtfsError::LcnTooBig { lcn: *self }),
        }
    }

    /// Returns the stored Logical Cluster Number.
    pub fn value(&self) -> (r: u64)
        ensures
            r == self.0,
    {
        self.0
    }
}

/// A Virtual Cluster Number (VCN).
///
/// NTFS divides a filesystem into clusters of a given size (power of two), see [`Ntfs::cluster_size`].
/// The VCN is a cluster index into the filesystem that is relative to a Logical Cluster Number (LCN)
/// or relative to the start of an attribute value.
#[derive(Clone, Copy, Debug, Eq, PartialEq, Structural)]
pub struct Vcn(pub i64);

impl From<i64> for Vcn {
    fn from(value: i64) -> (r: Self) {
        Vcn(value)
    }
}

impl FromSpecImpl<i64> for Vcn {
    open spec fn obeys_from_spec() -> bool {
        true
    }

    open spec fn from_spec(v: i64) -> Self {
        Vcn(v)
    }
}

impl Vcn {
    /// Converts this VCN into a byte offset (with respect to the cluster size of the provided [`Ntfs`] filesystem).
    pub fn offset(&self, ntfs: &Ntfs) -> (r: Result<i64>)
        ensures
            r matches Ok(o) ==> o == self.0 * ntfs.spec_cluster_size(),
            r matches Err(e) ==> e == (NtfsError::VcnTooBig { vcn: *self }),
            r is Ok <==> i64::MIN <= self.0 * ntfs.spec_cluster_size() <= i64::MAX,
    {
        match self.0.checked_mul(ntfs.cluster_size() as i64) {
            Some(value) => Ok(value),
            None => Err(NtfsError::VcnTooBig { vcn: *self }),
        }
    }

    /// Returns the stored Virtual Cluster Number.
    pub fn value(&self) -> (r: i64)
        ensures
            r == self.0,
    {
        self.0
    }
}

} // verus!
