//! Comparison of strings stored in NTFS structures.
use vstd::prelude::*;
use vstd::std_specs::cmp::{PartialEqSpecImpl, PartialOrdSpecImpl};

use core::cmp::Ordering;

use crate::ntfs::Ntfs;
use crate::upcase_table::UPCASE_CHARACTER_COUNT;
use crate::utf16::{
    compare_units, lemma_units_compare_antisymmetric, lemma_units_compare_transitive,
    lemma_units_compare_upcase, lemma_units_compare_zero_iff_equal, spec_encode_utf16,
    spec_identity_unit, spec_upcase_unit, spec_uppercase_units, str_to_utf16, units_compare,
    NtfsString,
};

verus! {

/// The ordering that a comparison sign stands for (negative: less, zero: equal, positive: greater).
pub open spec fn ordering_from_sign(c: i8) -> Ordering {
    if c < 0 {
        Ordering::Less
    } else if c == 0 {
        Ordering::Equal
    } else {
        Ordering::Greater
    }
}

/// Case-sensitive lexicographic ordering of two code unit sequences; a proper prefix compares less.
pub open spec fn units_order(a: Seq<u16>, b: Seq<u16>) -> Ordering {
    ordering_from_sign(units_compare(a, b, spec_identity_unit()))
}

/// Case-insensitive lexicographic ordering of two code unit sequences with respect to an uppercase table.
pub open spec fn units_upcase_order(a: Seq<u16>, b: Seq<u16>, table: Seq<u16>) -> Ordering {
    ordering_from_sign(units_compare(a, b, spec_upcase_unit(table)))
}

impl<'a> NtfsString<'a> {
    /// Compares two code unit sequences lexicographically, mapping every code unit through
    /// the uppercase table `upcase` first (if given).
    pub fn cmp_iter(this: &[u16], other: &[u16], upcase: Option<&[u16]>) -> (r: Ordering)
        requires
            upcase matches Some(t) ==> t@.len() == UPCASE_CHARACTER_COUNT,
        ensures
            r == match upcase {
                Some(t) => units_upcase_order(this@, other@, t@),
                None => units_order(this@, other@),
            },
    {
        let c = compare_units(this, other, upcase);
        if c < 0 {
            Ordering::Less
        } else if c == 0 {
            Ordering::Equal
        } else {
            Ordering::Greater
        }
    }
}

impl<'a> PartialEq for NtfsString<'a> {
    /// Checks that two strings are a (case-sensitive!) match.
    #[verifier::spinoff_prover]
    fn eq(&self, other: &Self) -> (r: bool)
        ensures
            r == (units_order(self.spec_units(), other.spec_units()) == Ordering::Equal),
    {
        let this_units = self.u16_iter();
        let other_units = other.u16_iter();
        let ord = Self::cmp_iter(this_units.as_slice(), other_units.as_slice(), None);
        match ord {
            Ordering::Equal => true,
            _ => false,
        }
    }
}

impl<'a> PartialEqSpecImpl for NtfsString<'a> {
    open spec fn obeys_eq_spec() -> bool {
        true
    }

    open spec fn eq_spec(&self, other: &Self) -> bool {
        units_order(self.spec_units(), other.spec_units()) == Ordering::Equal
    }
}

impl<'a> NtfsString<'a> {
    /// Checks that this string and `other` are a (case-sensitive!) match.
    pub fn eq_str(&self, other: &str) -> (r: bool)
        ensures
            r == (units_order(self.spec_units(), spec_encode_utf16(other@)) == Ordering::Equal),
    {
        let this_units = self.u16_iter();
        let other_units = str_to_utf16(other);
        let ord = Self::cmp_iter(this_units.as_slice(), other_units.as_slice(), None);
        match ord {
            Ordering::Equal => true,
            _ => false,
        }
    }
}

impl<'a> PartialOrd for NtfsString<'a> {
    fn partial_cmp(&self, other: &Self) -> (r: Option<Ordering>) {
        let this_units = self.u16_iter();
        let other_units = other.u16_iter();
        Some(Self::cmp_iter(this_units.as_slice(), other_units.as_slice(), None))
    }
}

impl<'a> PartialOrdSpecImpl for NtfsString<'a> {
    open spec fn obeys_partial_cmp_spec() -> bool {
        true
    }

    open spec fn partial_cmp_spec(&self, other: &Self) -> Option<Ordering> {
        Some(units_order(self.spec_units(), other.spec_units()))
    }
}

impl<'a> NtfsString<'a> {
    /// Orders this string and `other` (case-sensitive!).
    pub fn partial_cmp_str(&self, other: &str) -> (r: Option<Ordering>)
        ensures
            r == Some(units_order(self.spec_units(), spec_encode_utf16(other@))),
    {
        let this_units = self.u16_iter();
        let other_units = str_to_utf16(other);
        Some(Self::cmp_iter(this_units.as_slice(), other_units.as_slice(), None))
    }
}

/// Performs a case-insensitive ordering of two code unit sequences based on the $UpCase table
/// of `ntfs`.
///
/// The $UpCase table must have been read (see [`Ntfs::read_upcase_table`]).
pub fn upcase_cmp_iter(this: &[u16], other: &[u16], ntfs: &Ntfs) -> (r: Ordering)
    requires
        ntfs.spec_has_upcase_table(),
    ensures
        r == units_upcase_order(this@, other@, ntfs.spec_upcase_table()),
{
    let table = ntfs.upcase_table();
    let table = table.unwrap();
    NtfsString::cmp_iter(this, other, Some(table.table()))
}

/// Trait for a case-insensitive ordering with respect to the $UpCase table read from the filesystem.
pub trait UpcaseOrd<Rhs> {
    /// Performs a case-insensitive ordering based on the $UpCase table read from the filesystem.
    ///
    /// The $UpCase table must have been read (see [`Ntfs::read_upcase_table`]).
    fn upcase_cmp(&self, ntfs: &Ntfs, other: &Rhs) -> (r: Ordering)
        requires
            ntfs.spec_has_upcase_table(),
    ;
}

impl<'a> UpcaseOrd<NtfsString<'a>> for NtfsString<'a> {
    fn upcase_cmp(&self, ntfs: &Ntfs, other: &NtfsString<'a>) -> (r: Ordering)
        ensures
            r == units_upcase_order(self.spec_units(), other.spec_units(), ntfs.spec_upcase_table()),
    {
        let this_units = self.u16_iter();
        let other_units = other.u16_iter();
        upcase_cmp_iter(this_units.as_slice(), other_units.as_slice(), ntfs)
    }
}

impl<'a, 'b> UpcaseOrd<&'b str> for NtfsString<'a> {
    fn upcase_cmp(&self, ntfs: &Ntfs, other: &&'b str) -> (r: Ordering)
        ensures
            r == units_upcase_order(self.spec_units(), spec_encode_utf16(other@), ntfs.spec_upcase_table()),
    {
        let this_units = self.u16_iter();
        let other_units = str_to_utf16(*other);
        upcase_cmp_iter(this_units.as_slice(), other_units.as_slice(), ntfs)
    }
}

impl<'a, 'b> UpcaseOrd<NtfsString<'a>> for &'b str {
    fn upcase_cmp(&self, ntfs: &Ntfs, other: &NtfsString<'a>) -> (r: Ordering)
        ensures
            r == units_upcase_order(spec_encode_utf16(self@), other.spec_units(), ntfs.spec_upcase_table()),
    {
        let this_units = str_to_utf16(*self);
        let other_units = other.u16_iter();
        upcase_cmp_iter(this_units.as_slice(), other_units.as_slice(), ntfs)
    }
}

/// The exact ordering of strings is antisymmetric: `a` comes before `b` exactly when `b` comes
/// after `a`, and they compare equal in both directions or in none.
pub proof fn lemma_units_order_antisymmetric(a: Seq<u16>, b: Seq<u16>)
    ensures
        (units_order(a, b) == Ordering::Less) == (units_order(b, a) == Ordering::Greater),
        (units_order(a, b) == Ordering::Equal) == (units_order(b, a) == Ordering::Equal),
{
    lemma_units_compare_antisymmetric(a, b, spec_identity_unit());
}

/// The exact ordering of strings is transitive.
pub proof fn lemma_units_order_transitive(a: Seq<u16>, b: Seq<u16>, c: Seq<u16>)
    requires
        units_order(a, b) == Ordering::Less,
        units_order(b, c) == Ordering::Less,
    ensures
        units_order(a, c) == Ordering::Less,
{
    lemma_units_compare_transitive(a, b, c, spec_identity_unit());
}

/// Two strings are ordered as equal exactly when they hold the same code units.
pub proof fn lemma_units_order_equal_iff_same(a: Seq<u16>, b: Seq<u16>)
    ensures
        (units_order(a, b) == Ordering::Equal) == (a == b),
{
    lemma_units_compare_zero_iff_equal(a, b);
}

/// The case-insensitive ordering of two strings is the exact ordering of both in uppercase.
pub proof fn lemma_units_upcase_order_is_uppercase_order(a: Seq<u16>, b: Seq<u16>, table: Seq<u16>)
    ensures
        units_upcase_order(a, b, table) == units_order(
            spec_uppercase_units(a, table),
            spec_uppercase_units(b, table),
        ),
{
    lemma_units_compare_upcase(a, b, table);
}

/// The case-insensitive ordering of strings is antisymmetric.
pub proof fn lemma_units_upcase_order_antisymmetric(a: Seq<u16>, b: Seq<u16>, table: Seq<u16>)
    ensures
        (units_upcase_order(a, b, table) == Ordering::Less) == (units_upcase_order(b, a, table)
            == Ordering::Greater),
        (units_upcase_order(a, b, table) == Ordering::Equal) == (units_upcase_order(b, a, table)
            == Ordering::Equal),
{
    lemma_units_compare_antisymmetric(a, b, spec_upcase_unit(table));
}

/// The case-insensitive ordering of strings is transitive.
pub proof fn lemma_units_upcase_order_transitive(a: Seq<u16>, b: Seq<u16>, c: Seq<u16>, table: Seq<u16>)
    requires
        units_upcase_order(a, b, table) == Ordering::Less,
        units_upcase_order(b, c, table) == Ordering::Less,
    ensures
        units_upcase_order(a, c, table) == Ordering::Less,
{
    lemma_units_compare_transitive(a, b, c, spec_upcase_unit(table));
}

} // verus!
