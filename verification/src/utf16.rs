//! UTF-16 strings stored in NTFS structures.
use vstd::prelude::*;

use crate::helpers::{read_u16_le, spec_le2_value, spec_u16_le};

verus! {

/// The UTF-16 code units stored little-endian in `bytes` (a trailing odd byte is ignored).
pub open spec fn spec_utf16_units(bytes: Seq<u8>) -> Seq<u16> {
    Seq::new((bytes.len() / 2) as nat, |i: int| spec_u16_le(bytes, 2 * i))
}

/// The UTF-16 encoding of a single character.
pub open spec fn spec_encode_char_utf16(c: char) -> Seq<u16> {
    let v = c as int;
    if v < 0x1_0000 {
        seq![v as u16]
    } else {
        let w = v - 0x1_0000;
        seq![(0xD800 + w / 0x400) as u16, (0xDC00 + w % 0x400) as u16]
    }
}

/// The UTF-16 encoding of a character sequence.
pub open spec fn spec_encode_utf16(s: Seq<char>) -> Seq<u16>
    decreases s.len(),
{
    if s.len() == 0 {
        Seq::empty()
    } else {
        spec_encode_utf16(s.drop_last()) + spec_encode_char_utf16(s.last())
    }
}

/// The identity on code units (case-sensitive comparison).
pub open spec fn spec_identity_unit() -> spec_fn(u16) -> u16 {
    |u: u16| u
}

/// Mapping of code units through an uppercase table (case-insensitive comparison).
pub open spec fn spec_upcase_unit(table: Seq<u16>) -> spec_fn(u16) -> u16 {
    |u: u16| table[u as int]
}

/// Looks up the entry of a code unit in an uppercase table.
pub fn upcase_unit(table: &[u16], u: u16) -> (r: u16)
    requires
        table@.len() == 0x1_0000,
    ensures
        r == table@[u as int],
{
    table[u as usize]
}

/// Lexicographic comparison of two code unit sequences after mapping each code unit through `f`:
/// negative if `a` comes first, zero if both are equal, positive if `b` comes first.
/// A proper prefix comes first.
pub open spec fn units_compare(a: Seq<u16>, b: Seq<u16>, f: spec_fn(u16) -> u16) -> i8
    decreases a.len(),
{
    if a.len() == 0 && b.len() == 0 {
        0i8
    } else if a.len() == 0 {
        -1i8
    } else if b.len() == 0 {
        1i8
    } else if f(a[0]) < f(b[0]) {
        -1i8
    } else if f(a[0]) > f(b[0]) {
        1i8
    } else {
        units_compare(a.drop_first(), b.drop_first(), f)
    }
}

/// Swapping the two sequences negates their comparison.
pub proof fn lemma_units_compare_antisymmetric(a: Seq<u16>, b: Seq<u16>, f: spec_fn(u16) -> u16)
    ensures
        units_compare(a, b, f) == -units_compare(b, a, f),
    decreases a.len(),
{
    if a.len() > 0 && b.len() > 0 && f(a[0]) == f(b[0]) {
        lemma_units_compare_antisymmetric(a.drop_first(), b.drop_first(), f);
    }
}

/// The comparison is transitive: if `a` comes before `b` and `b` before `c`, then `a` comes before `c`.
pub proof fn lemma_units_compare_transitive(a: Seq<u16>, b: Seq<u16>, c: Seq<u16>, f: spec_fn(u16) -> u16)
    requires
        units_compare(a, b, f) < 0,
        units_compare(b, c, f) < 0,
    ensures
        units_compare(a, c, f) < 0,
    decreases a.len(),
{
    if a.len() > 0 && b.len() > 0 && c.len() > 0 && f(a[0]) == f(b[0]) && f(b[0]) == f(c[0]) {
        lemma_units_compare_transitive(a.drop_first(), b.drop_first(), c.drop_first(), f);
    }
}

/// Without a mapping, two sequences compare equal exactly when they are the same sequence.
pub proof fn lemma_units_compare_zero_iff_equal(a: Seq<u16>, b: Seq<u16>)
    ensures
        units_compare(a, b, spec_identity_unit()) == 0 <==> a == b,
    decreases a.len(),
{
    let f = spec_identity_unit();
    if a.len() > 0 && b.len() > 0 {
        lemma_units_compare_zero_iff_equal(a.drop_first(), b.drop_first());
        if a[0] == b[0] && a.drop_first() == b.drop_first() {
            assert(a =~= seq![a[0]] + a.drop_first());
            assert(b =~= seq![b[0]] + b.drop_first());
        }
        if a == b {
            assert(a.drop_first() =~= b.drop_first());
        }
    } else if a.len() == 0 && b.len() == 0 {
        assert(a =~= b);
    }
}

/// The code units `a`, each mapped through the uppercase table `table`.
pub open spec fn spec_uppercase_units(a: Seq<u16>, table: Seq<u16>) -> Seq<u16> {
    a.map_values(|u: u16| table[u as int])
}

/// A case-insensitive comparison is the exact comparison of both sequences in uppercase.
pub proof fn lemma_units_compare_upcase(a: Seq<u16>, b: Seq<u16>, table: Seq<u16>)
    ensures
        units_compare(a, b, spec_upcase_unit(table)) == units_compare(
            spec_uppercase_units(a, table),
            spec_uppercase_units(b, table),
            spec_identity_unit(),
        ),
{
    let f = spec_upcase_unit(table);
    lemma_units_compare_mapped(a, b, f);
    assert(a.map_values(|u: u16| f(u)) =~= spec_uppercase_units(a, table));
    assert(b.map_values(|u: u16| f(u)) =~= spec_uppercase_units(b, table));
}

/// Comparing through a mapping is comparing the mapped sequences: a case-insensitive comparison
/// is the exact comparison of both sequences in uppercase.
pub proof fn lemma_units_compare_mapped(a: Seq<u16>, b: Seq<u16>, f: spec_fn(u16) -> u16)
    ensures
        units_compare(a, b, f) == units_compare(
            a.map_values(|u: u16| f(u)),
            b.map_values(|u: u16| f(u)),
            spec_identity_unit(),
        ),
    decreases a.len(),
{
    let g = |u: u16| f(u);
    if a.len() > 0 && b.len() > 0 {
        assert(a.map_values(g).drop_first() =~= a.drop_first().map_values(g));
        assert(b.map_values(g).drop_first() =~= b.drop_first().map_values(g));
        lemma_units_compare_mapped(a.drop_first(), b.drop_first(), f);
    }
}

/// Compares two code unit sequences lexicographically (see [`units_compare`]), mapping every
/// code unit through the uppercase table `upcase` first (if given).
pub fn compare_units(this: &[u16], other: &[u16], upcase: Option<&[u16]>) -> (r: i8)
    requires
        upcase matches Some(t) ==> t@.len() == 0x1_0000,
    ensures
        r == match upcase {
            Some(t) => units_compare(this@, other@, spec_upcase_unit(t@)),
            None => units_compare(this@, other@, spec_identity_unit()),
        },
{
    let ghost f = match upcase {
        Some(t) => spec_upcase_unit(t@),
        None => spec_identity_unit(),
    };
    let mut i: usize = 0;
    assert(this@.skip(0) =~= this@);
    assert(other@.skip(0) =~= other@);
    loop
        invariant
            i <= this@.len(),
            i <= other@.len(),
            units_compare(this@, other@, f) == units_compare(
                this@.skip(i as int),
                other@.skip(i as int),
                f,
            ),
            upcase matches Some(t) ==> t@.len() == 0x1_0000,
            f == match upcase {
                Some(t) => spec_upcase_unit(t@),
                None => spec_identity_unit(),
            },
        decreases this@.len() - i,
    {
        let this_done = i >= this.len();
        let other_done = i >= other.len();
        if this_done && other_done {
            // We made it to the end of both strings, so they must be equal.
            return 0;
        } else if this_done {
            // `other` is longer than `this` but otherwise equal.
            return -1;
        } else if other_done {
            // `this` is longer than `other` but otherwise equal.
            return 1;
        }
        let (this_upper, other_upper) = match upcase {
            Some(t) => (upcase_unit(t, this[i]), upcase_unit(t, other[i])),
            None => (this[i], other[i]),
        };
        assert(this@.skip(i as int)[0] == this@[i as int]);
        assert(other@.skip(i as int)[0] == other@[i as int]);
        if this_upper < other_upper {
            return -1;
        } else if this_upper > other_upper {
            return 1;
        }
        assert(this@.skip(i as int).drop_first() =~= this@.skip(i + 1));
        assert(other@.skip(i as int).drop_first() =~= other@.skip(i + 1));
        i = i + 1;
    }
}

/// Decoding of UTF-16 code units, starting at unit `i`: each element is a character,
/// or `None` for an unpaired surrogate.
pub open spec fn spec_decode_utf16_from(units: Seq<u16>, i: int) -> Seq<Option<char>>
    decreases units.len() - i,
{
    if i < 0 || i >= units.len() {
        Seq::empty()
    } else {
        let u = units[i];
        if u < 0xD800 || u > 0xDFFF {
            seq![Some(spec_char(u as u32))] + spec_decode_utf16_from(units, i + 1)
        } else if u >= 0xDC00 {
            seq![None] + spec_decode_utf16_from(units, i + 1)
        } else if units.len() - i > 1 && 0xDC00 <= units[i + 1] <= 0xDFFF {
            let v = 0x1_0000 + (u - 0xD800) * 0x400 + (units[i + 1] - 0xDC00);
            seq![Some(spec_char(v as u32))] + spec_decode_utf16_from(units, i + 2)
        } else {
            seq![None] + spec_decode_utf16_from(units, i + 1)
        }
    }
}

/// The scalar value of a character.
pub open spec fn spec_scalar(c: char) -> u32 {
    c as u32
}

/// The character with the given scalar value.
pub open spec fn spec_char(v: u32) -> char {
    choose|c: char| #[trigger] spec_scalar(c) == v
}

/// A character is the one character with its scalar value.
proof fn lemma_char_of_scalar(c: char, v: u32)
    requires
        c as u32 == v,
    ensures
        spec_char(v) == c,
{
    assert(spec_scalar(c) == v);
    let d = spec_char(v);
    assert(spec_scalar(d) == v);
}

/// Returns the character with the given scalar value, or `None` for a surrogate or a value above 0x10FFFF.
#[verifier::external_body]
fn char_from_u32(v: u32) -> (r: Option<char>)
    ensures
        r matches Some(c) ==> c as u32 == v,
        (v < 0xD800 || (0xDFFF < v <= 0x10FFFF)) ==> r is Some,
{
    char::from_u32(v)
}

/// Appends a character to a `String`.
#[verifier::external_body]
pub(crate) fn push_char(s: &mut String, c: char)
    ensures
        final(s)@ == old(s)@.push(c),
{
    s.push(c)
}

/// Returns the characters of a decoded sequence, or `None` if any element is an unpaired surrogate.
pub open spec fn spec_all_chars(d: Seq<Option<char>>) -> Option<Seq<char>>
    decreases d.len(),
{
    if d.len() == 0 {
        Some(Seq::empty())
    } else {
        match (spec_all_chars(d.drop_last()), d.last()) {
            (Some(s), Some(c)) => Some(s.push(c)),
            _ => None,
        }
    }
}

/// The characters of a decoded sequence, with U+FFFD in place of every unpaired surrogate.
pub open spec fn spec_lossy_chars(d: Seq<Option<char>>) -> Seq<char> {
    d.map_values(
        |x: Option<char>|
            match x {
                Some(c) => c,
                None => '\u{FFFD}',
            },
    )
}

/// The code units of an NTFS string are its bytes taken in little-endian pairs: unit `i` is byte
/// `2i` plus 256 times byte `2i + 1`, and an odd last byte is no unit.
pub proof fn lemma_utf16_units_layout(bytes: Seq<u8>)
    ensures
        spec_utf16_units(bytes).len() == bytes.len() / 2,
        forall|i: int|
            0 <= i < bytes.len() / 2 ==> #[trigger] spec_utf16_units(bytes)[i] == spec_le2_value(
                bytes,
                2 * i,
            ),
{
}

/// Encoding a concatenation encodes each part in turn.
proof fn lemma_encode_concat(x: Seq<char>, y: Seq<char>)
    ensures
        spec_encode_utf16(x + y) == spec_encode_utf16(x) + spec_encode_utf16(y),
    decreases y.len(),
{
    if y.len() > 0 {
        lemma_encode_concat(x, y.drop_last());
        assert((x + y).drop_last() =~= x + y.drop_last());
        assert((x + y).last() == y.last());
        assert(spec_encode_utf16(x) + spec_encode_utf16(y.drop_last()) + spec_encode_char_utf16(y.last())
            =~= spec_encode_utf16(x) + (spec_encode_utf16(y.drop_last()) + spec_encode_char_utf16(
            y.last(),
        )));
    } else {
        assert(x + y =~= x);
        assert(spec_encode_utf16(x) + spec_encode_utf16(y) =~= spec_encode_utf16(x));
    }
}

/// Decoding behind a prefix `p` is decoding what follows it.
proof fn lemma_decode_shift(p: Seq<u16>, q: Seq<u16>, k: int)
    requires
        0 <= k,
    ensures
        spec_decode_utf16_from(p + q, p.len() + k) == spec_decode_utf16_from(q, k),
    decreases q.len() - k,
{
    let u = p + q;
    let i = p.len() + k;
    if k < q.len() {
        assert(u[i] == q[k]);
        if k + 1 < q.len() {
            assert(u[i + 1] == q[k + 1]);
        }
        lemma_decode_shift(p, q, k + 1);
        if k + 2 <= q.len() {
            lemma_decode_shift(p, q, k + 2);
        }
    }
}

/// Decoding the encoding of a character followed by `rest` gives the character, then the
/// decoding of `rest`.
proof fn lemma_decode_char_then(c: char, rest: Seq<u16>)
    ensures
        spec_decode_utf16_from(spec_encode_char_utf16(c) + rest, 0) == seq![Some(c)]
            + spec_decode_utf16_from(rest, 0),
{
    let e = spec_encode_char_utf16(c);
    let u = e + rest;
    let v = c as int;
    lemma_decode_shift(e, rest, 0);
    if v < 0x1_0000 {
        assert(v < 0xD800 || v > 0xDFFF);
        assert(u[0] == v as u16);
        lemma_char_of_scalar(c, v as u32);
    } else {
        let w = v - 0x1_0000;
        assert(w == (w / 0x400) * 0x400 + w % 0x400);
        assert(u[0] == (0xD800 + w / 0x400) as u16);
        assert(u[1] == (0xDC00 + w % 0x400) as u16);
        lemma_char_of_scalar(c, v as u32);
    }
}

/// Decoding the UTF-16 encoding of a string gives back its characters, every one of them valid.
pub proof fn lemma_decode_encode_roundtrip(s: Seq<char>)
    ensures
        spec_decode_utf16_from(spec_encode_utf16(s), 0) == s.map_values(|c: char| Some(c)),
    decreases s.len(),
{
    if s.len() == 0 {
        assert(s.map_values(|c: char| Some(c)) =~= Seq::<Option<char>>::empty());
    } else {
        let rest = s.drop_first();
        assert(s =~= seq![s[0]] + rest);
        lemma_encode_concat(seq![s[0]], rest);
        assert(seq![s[0]].drop_last() =~= Seq::<char>::empty());
        assert(seq![s[0]].last() == s[0]);
        assert(spec_encode_utf16(Seq::<char>::empty()) == Seq::<u16>::empty());
        assert(spec_encode_utf16(seq![s[0]]) == spec_encode_utf16(seq![s[0]].drop_last())
            + spec_encode_char_utf16(seq![s[0]].last()));
        assert(spec_encode_utf16(seq![s[0]]) =~= spec_encode_char_utf16(s[0]));
        lemma_decode_char_then(s[0], spec_encode_utf16(rest));
        lemma_decode_encode_roundtrip(rest);
        assert(s.map_values(|c: char| Some(c)) =~= seq![Some(s[0])] + rest.map_values(
            |c: char| Some(c),
        ));
    }
}

/// Where every character decodes, the lossy conversion gives exactly the decoded characters;
/// otherwise it gives U+FFFD in place of each unpaired surrogate and the decoded character elsewhere.
pub proof fn lemma_lossy_chars_agree(d: Seq<Option<char>>)
    ensures
        spec_all_chars(d) matches Some(s) ==> spec_lossy_chars(d) == s,
        spec_lossy_chars(d).len() == d.len(),
        forall|i: int|
            0 <= i < d.len() ==> #[trigger] spec_lossy_chars(d)[i] == match d[i] {
                Some(c) => c,
                None => '\u{FFFD}',
            },
    decreases d.len(),
{
    if d.len() > 0 {
        lemma_lossy_chars_agree(d.drop_last());
        if let Some(s) = spec_all_chars(d) {
            assert(spec_lossy_chars(d) =~= spec_lossy_chars(d.drop_last()).push(d.last()->0));
        }
    }
}

/// Zero-copy representation of a string stored in an NTFS filesystem structure.
#[derive(Clone, Debug)]
pub struct NtfsString<'a>(pub &'a [u8]);

impl<'a> NtfsString<'a> {
    /// The UTF-16 code units of this string.
    pub open spec fn spec_units(&self) -> Seq<u16> {
        spec_utf16_units(self.0@)
    }

    /// Returns the UTF-16 code units of this string.
    pub fn u16_iter(&self) -> (r: Vec<u16>)
        ensures
            r@ == self.spec_units(),
    {
        let data = self.0;
        let len = data.len();
        let count = len / 2;
        let mut units: Vec<u16> = Vec::with_capacity(count);
        let mut i: usize = 0;
        while i < count
            invariant
                i <= count,
                count == len / 2,
                len == data@.len(),
                data == self.0,
                units@.len() == i,
                forall|k: int| 0 <= k < i ==> units@[k] == spec_u16_le(data@, 2 * k),
            decreases count - i,
        {
            units.push(read_u16_le(data, 2 * i));
            i = i + 1;
        }
        assert(units@ =~= self.spec_units());
        units
    }

    /// Returns `true` if `self` has a length of zero bytes.
    pub fn is_empty(&self) -> (r: bool)
        ensures
            r == (self.0@.len() == 0),
    {
        self.len() == 0
    }

    /// Returns the length of `self`.
    ///
    /// This length is in bytes, not characters! In other words,
    /// it may not be what a human considers the length of the string.
    pub fn len(&self) -> (r: usize)
        ensures
            r == self.0@.len(),
    {
        self.0.len()
    }

    /// Decodes the code units starting at unit `i`: the decoded character (or `None` for an
    /// unpaired surrogate) and the number of code units it took.
    fn decode_at(units: &Vec<u16>, i: usize) -> (r: (Option<char>, usize))
        requires
            i < units@.len(),
        ensures
            r.1 == 1 || r.1 == 2,
            i + r.1 <= units@.len(),
            spec_decode_utf16_from(units@, i as int) == seq![r.0] + spec_decode_utf16_from(
                units@,
                i + r.1,
            ),
    {
        let u = units[i];
        if u < 0xD800 || u > 0xDFFF {
            let c = char_from_u32(u as u32);
            let c = c.unwrap();
            proof {
                lemma_char_of_scalar(c, u as u32);
            }
            (Some(c), 1)
        } else if u >= 0xDC00 {
            (None, 1)
        } else if units.len() - i > 1 && 0xDC00 <= units[i + 1] && units[i + 1] <= 0xDFFF {
            let v: u32 = 0x1_0000 + (u as u32 - 0xD800) * 0x400 + (units[i + 1] as u32 - 0xDC00);
            let c = char_from_u32(v);
            let c = c.unwrap();
            proof {
                lemma_char_of_scalar(c, v);
            }
            (Some(c), 2)
        } else {
            (None, 1)
        }
    }

    /// Attempts to convert `self` to an owned `String`.
    /// Returns `Some(String)` if all characters could be converted successfully or `None` if a decoding error occurred.
    pub fn to_string_checked(&self) -> (r: Option<String>)
        ensures
            r matches Some(s) ==> spec_all_chars(spec_decode_utf16_from(self.spec_units(), 0))
                == Some(s@),
            r is None ==> spec_all_chars(spec_decode_utf16_from(self.spec_units(), 0)) is None,
    {
        let units = self.u16_iter();
        let mut s = String::new();
        let mut i: usize = 0;
        let ghost mut decoded: Seq<Option<char>> = Seq::empty();
        assert(s@ =~= Seq::<char>::empty());
        while i < units.len()
            invariant
                i <= units@.len(),
                units@ == self.spec_units(),
                spec_decode_utf16_from(units@, 0) == decoded + spec_decode_utf16_from(
                    units@,
                    i as int,
                ),
                spec_all_chars(decoded) == Some(s@),
            decreases units@.len() - i,
        {
            let (c, n) = Self::decode_at(&units, i);
            match c {
                Some(c) => {
                    proof {
                        let d2 = decoded.push(Some(c));
                        assert(d2.drop_last() =~= decoded);
                        assert(decoded + spec_decode_utf16_from(units@, i as int) =~= d2
                            + spec_decode_utf16_from(units@, i + n));
                        decoded = d2;
                    }
                    push_char(&mut s, c);
                },
                None => {
                    proof {
                        let d2 = decoded.push(None);
                        assert(d2.drop_last() =~= decoded);
                        assert(decoded + spec_decode_utf16_from(units@, i as int) =~= d2
                            + spec_decode_utf16_from(units@, i + n));
                        lemma_all_chars_none(d2, decoded.len() as int);
                        lemma_all_chars_none(
                            d2 + spec_decode_utf16_from(units@, i + n),
                            decoded.len() as int,
                        );
                    }
                    return None;
                },
            }
            i = i + n;
        }
        proof {
            assert(spec_decode_utf16_from(units@, i as int) =~= Seq::<Option<char>>::empty());
            assert(decoded + Seq::<Option<char>>::empty() =~= decoded);
        }
        Some(s)
    }

    /// Converts `self` to an owned `String`, replacing invalid data with the replacement character (U+FFFD).
    pub fn to_string_lossy(&self) -> (r: String)
        ensures
            r@ == spec_lossy_chars(spec_decode_utf16_from(self.spec_units(), 0)),
    {
        let units = self.u16_iter();
        let mut s = String::new();
        let mut i: usize = 0;
        let ghost mut decoded: Seq<Option<char>> = Seq::empty();
        assert(s@ =~= spec_lossy_chars(decoded));
        while i < units.len()
            invariant
                i <= units@.len(),
                units@ == self.spec_units(),
                spec_decode_utf16_from(units@, 0) == decoded + spec_decode_utf16_from(
                    units@,
                    i as int,
                ),
                s@ == spec_lossy_chars(decoded),
            decreases units@.len() - i,
        {
            let (c, n) = Self::decode_at(&units, i);
            let ch = match c {
                Some(c) => c,
                None => '\u{FFFD}',
            };
            proof {
                let d2 = decoded.push(c);
                assert(decoded + spec_decode_utf16_from(units@, i as int) =~= d2
                    + spec_decode_utf16_from(units@, i + n));
                assert(spec_lossy_chars(d2) =~= spec_lossy_chars(decoded).push(ch));
                decoded = d2;
            }
            push_char(&mut s, ch);
            i = i + n;
        }
        proof {
            assert(spec_decode_utf16_from(units@, i as int) =~= Seq::<Option<char>>::empty());
            assert(decoded + Seq::<Option<char>>::empty() =~= decoded);
        }
        s
    }
}

/// A decoded sequence with an unpaired surrogate at index `k` has no character sequence.
proof fn lemma_all_chars_none(d: Seq<Option<char>>, k: int)
    requires
        0 <= k < d.len(),
        d[k] is None,
    ensures
        spec_all_chars(d) is None,
    decreases d.len(),
{
    if k < d.len() - 1 {
        assert(d.drop_last()[k] == d[k]);
        lemma_all_chars_none(d.drop_last(), k);
    }
}

/// Returns the UTF-16 code units of a `str`.
pub fn str_to_utf16(s: &str) -> (r: Vec<u16>)
    ensures
        r@ == spec_encode_utf16(s@),
{
    let n = s.unicode_len();
    let mut units: Vec<u16> = Vec::new();
    let mut i: usize = 0;
    while i < n
        invariant
            i <= n,
            n == s@.len(),
            units@ == spec_encode_utf16(s@.take(i as int)),
        decreases n - i,
    {
        let c = s.get_char(i);
        let v = c as u32;
        let ghost before = units@;
        if v < 0x1_0000 {
            units.push(v as u16);
        } else {
            let w = v - 0x1_0000;
            units.push((0xD800 + w / 0x400) as u16);
            units.push((0xDC00 + w % 0x400) as u16);
        }
        proof {
            assert(s@.take(i + 1).drop_last() =~= s@.take(i as int));
            assert(s@.take(i + 1).last() == c);
            assert(units@ =~= before + spec_encode_char_utf16(c));
        }
        i = i + 1;
    }
    assert(s@.take(n as int) =~= s@);
    units
}


} // verus!
