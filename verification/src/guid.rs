//! Globally unique identifiers as stored by NTFS.
use vstd::prelude::*;

use crate::helpers::{read_u16_le, read_u32_le, spec_le2_value, spec_le4_value, spec_u16_le, spec_u32_le};
use crate::utf16::push_char;

verus! {

/// Size of a GUID, in bytes.
pub const GUID_SIZE: usize = 16;

/// The uppercase hexadecimal digit for `d` (below 16).
pub open spec fn spec_hex_digit(d: u64) -> char {
    if d < 10 {
        (48 + d) as char
    } else {
        (55 + d) as char
    }
}

/// The `i`-th character of `v` in uppercase hexadecimal, right-aligned in a field of `width`
/// characters: leading zero digits are spaces, but the last digit is always written.
pub open spec fn spec_hex_char(v: u64, width: nat, i: int) -> char {
    let shift = (4 * (width - 1 - i)) as u64;
    if i < width - 1 && v >> shift == 0 {
        ' '
    } else {
        spec_hex_digit((v >> shift) & 0xF)
    }
}

/// `v` in uppercase hexadecimal, right-aligned with spaces in a field of `width` characters
/// (which holds all its digits).
pub open spec fn spec_hex_field(v: u64, width: nat) -> Seq<char> {
    Seq::new(width, |i: int| spec_hex_char(v, width, i))
}

/// Returns the uppercase hexadecimal digit for `d`.
fn hex_digit(d: u64) -> (r: char)
    requires
        d < 16,
    ensures
        r == spec_hex_digit(d),
{
    if d < 10 {
        (48 + d as u8) as char
    } else {
        (55 + d as u8) as char
    }
}

/// Appends `v` in uppercase hexadecimal, right-aligned with spaces in a field of `width` characters.
fn push_hex_field(s: &mut String, v: u64, width: u64)
    requires
        1 <= width <= 16,
    ensures
        final(s)@ == old(s)@ + spec_hex_field(v, width as nat),
{
    let mut i: u64 = 0;
    while i < width
        invariant
            1 <= width <= 16,
            i <= width,
            s@ == old(s)@ + spec_hex_field(v, width as nat).subrange(0, i as int),
        decreases width - i,
    {
        let shift = 4 * (width - 1 - i);
        let c = if i < width - 1 && v >> shift == 0 {
            ' '
        } else {
            let d = (v >> shift) & 0xF;
            assert(((v >> shift) & 0xF) < 16) by (bit_vector);
            hex_digit(d)
        };
        push_char(s, c);
        i = i + 1;
        assert(s@ =~= old(s)@ + spec_hex_field(v, width as nat).subrange(0, i as int));
    }
    assert(spec_hex_field(v, width as nat).subrange(0, width as int) =~= spec_hex_field(v, width as nat));
}

/// A globally unique identifier, stored as 16 bytes: a little-endian 32-bit, two little-endian
/// 16-bit components, and 8 single bytes.
#[derive(Clone, Copy, Debug, Eq, PartialEq)]
pub struct NtfsGuid {
    bytes: [u8; 16],
}

impl NtfsGuid {
    /// The 16 bytes of this GUID.
    pub closed spec fn spec_bytes(&self) -> Seq<u8> {
        self.bytes@
    }

    /// The `data1` component.
    pub open spec fn spec_data1(&self) -> u32 {
        spec_u32_le(self.spec_bytes(), 0)
    }

    /// The `data2` component.
    pub open spec fn spec_data2(&self) -> u16 {
        spec_u16_le(self.spec_bytes(), 4)
    }

    /// The `data3` component.
    pub open spec fn spec_data3(&self) -> u16 {
        spec_u16_le(self.spec_bytes(), 6)
    }

    /// Reads a GUID from the first 16 bytes of `b`.
    pub fn from_bytes(b: &[u8]) -> (r: Self)
        requires
            b@.len() >= GUID_SIZE,
        ensures
            r.spec_bytes() == b@.subrange(0, GUID_SIZE as int),
    {
        let bytes = [
            b[0], b[1], b[2], b[3], b[4], b[5], b[6], b[7],
            b[8], b[9], b[10], b[11], b[12], b[13], b[14], b[15],
        ];
        assert(bytes@ =~= b@.subrange(0, GUID_SIZE as int));
        Self { bytes }
    }

    /// Creates a GUID from its components.
    pub fn new(data1: u32, data2: u16, data3: u16, data4: [u8; 8]) -> (r: Self)
        ensures
            r.spec_data1() == data1,
            r.spec_data2() == data2,
            r.spec_data3() == data3,
            r.spec_bytes().subrange(8, 16) == data4@,
    {
        let a0 = data1 & 0xff;
        let a1 = (data1 >> 8u32) & 0xff;
        let a2 = (data1 >> 16u32) & 0xff;
        let a3 = data1 >> 24u32;
        let b0 = data2 & 0xff;
        let b1 = data2 >> 8u16;
        let c0 = data3 & 0xff;
        let c1 = data3 >> 8u16;
        assert(a0 < 256 && a1 < 256 && a2 < 256 && a3 < 256 && a0 + a1 * 0x100 + a2 * 0x1_0000
            + a3 * 0x100_0000 == data1) by (bit_vector)
            requires
                a0 == data1 & 0xff,
                a1 == (data1 >> 8u32) & 0xff,
                a2 == (data1 >> 16u32) & 0xff,
                a3 == data1 >> 24u32,
        ;
        assert(b0 < 256 && b1 < 256 && b0 + b1 * 0x100 == data2) by (bit_vector)
            requires
                b0 == data2 & 0xff,
                b1 == data2 >> 8u16,
        ;
        assert(c0 < 256 && c1 < 256 && c0 + c1 * 0x100 == data3) by (bit_vector)
            requires
                c0 == data3 & 0xff,
                c1 == data3 >> 8u16,
        ;
        let bytes = [
            a0 as u8, a1 as u8, a2 as u8, a3 as u8, b0 as u8, b1 as u8, c0 as u8, c1 as u8,
            data4[0], data4[1], data4[2], data4[3], data4[4], data4[5], data4[6], data4[7],
        ];
        let r = Self { bytes };
        assert(r.spec_bytes().subrange(8, 16) =~= data4@);
        r
    }

    /// Returns the `data1` component of the GUID.
    pub fn data1(&self) -> (r: u32)
        ensures
            r == self.spec_data1(),
    {
        read_u32_le(&self.bytes, 0)
    }

    /// Returns the `data2` component of the GUID.
    pub fn data2(&self) -> (r: u16)
        ensures
            r == self.spec_data2(),
    {
        read_u16_le(&self.bytes, 4)
    }

    /// Returns the `data3` component of the GUID.
    pub fn data3(&self) -> (r: u16)
        ensures
            r == self.spec_data3(),
    {
        read_u16_le(&self.bytes, 6)
    }

    /// Returns the `data4` component of the GUID.
    pub fn data4(&self) -> (r: [u8; 8])
        ensures
            r@ == self.spec_bytes().subrange(8, 16),
    {
        let b = self.bytes;
        let r = [b[8], b[9], b[10], b[11], b[12], b[13], b[14], b[15]];
        assert(r@ =~= self.spec_bytes().subrange(8, 16));
        r
    }

    /// The text of this GUID up to the last group: the components in uppercase hexadecimal,
    /// right-aligned with spaces in fields of 8, 4 and 4 characters, and the first 2 bytes of `data4`
    /// in fields of 2 characters, each group followed by a dash.
    pub open spec fn spec_text_head(&self) -> Seq<char> {
        let b = self.spec_bytes();
        spec_hex_field(self.spec_data1() as u64, 8) + seq!['-'] + spec_hex_field(self.spec_data2() as u64, 4)
            + seq!['-'] + spec_hex_field(self.spec_data3() as u64, 4) + seq!['-']
            + spec_hex_field(b[8] as u64, 2) + spec_hex_field(b[9] as u64, 2) + seq!['-']
    }

    /// The text of this GUID, grouped as `XXXXXXXX-XXXX-XXXX-XXXX-XXXXXXXXXXXX`: see
    /// [`NtfsGuid::spec_text_head`], followed by the last 6 bytes in fields of 2 characters.
    pub open spec fn spec_text(&self) -> Seq<char> {
        self.spec_text_head() + spec_hex_tail(self.spec_bytes(), 10, 16)
    }

    /// Returns the text of this GUID, such as `67C8770B-44F1-410A-AB9A-F9B5446F13EE`
    /// (see [`NtfsGuid::spec_text`]).
    pub fn to_string(&self) -> (r: String)
        ensures
            r@ == self.spec_text(),
    {
        let mut s = String::new();
        push_hex_field(&mut s, self.data1() as u64, 8);
        push_char(&mut s, '-');
        push_hex_field(&mut s, self.data2() as u64, 4);
        push_char(&mut s, '-');
        push_hex_field(&mut s, self.data3() as u64, 4);
        push_char(&mut s, '-');
        push_hex_field(&mut s, self.bytes[8] as u64, 2);
        push_hex_field(&mut s, self.bytes[9] as u64, 2);
        push_char(&mut s, '-');
        assert(s@ =~= self.spec_text_head() + spec_hex_tail(self.spec_bytes(), 10, 10));
        let mut i: usize = 10;
        while i < 16
            invariant
                10 <= i <= 16,
                s@ == self.spec_text_head() + spec_hex_tail(self.spec_bytes(), 10, i as int),
            decreases 16 - i,
        {
            let ghost before = s@;
            push_hex_field(&mut s, self.bytes[i] as u64, 2);
            i = i + 1;
            assert(s@ =~= self.spec_text_head() + spec_hex_tail(self.spec_bytes(), 10, i as int));
        }
        s
    }
}

/// The bytes `start..end` of `b`, each in uppercase hexadecimal in a field of 2 characters.
pub open spec fn spec_hex_tail(b: Seq<u8>, start: int, end: int) -> Seq<char>
    decreases end - start,
{
    if end <= start {
        Seq::empty()
    } else {
        spec_hex_tail(b, start, end - 1) + spec_hex_field(b[end - 1] as u64, 2)
    }
}

/// Each byte of `start..end` takes two characters.
proof fn lemma_hex_tail_len(b: Seq<u8>, start: int, end: int)
    requires
        start <= end,
    ensures
        spec_hex_tail(b, start, end).len() == 2 * (end - start),
    decreases end - start,
{
    if end > start {
        lemma_hex_tail_len(b, start, end - 1);
    }
}

/// The components of a GUID are stored little-endian: `data1` in bytes 0..4, `data2` in bytes 4..6,
/// `data3` in bytes 6..8, and `data4` is bytes 8..16 as they are.
pub proof fn lemma_guid_layout(g: NtfsGuid)
    ensures
        g.spec_data1() == spec_le4_value(g.spec_bytes(), 0),
        g.spec_data2() == spec_le2_value(g.spec_bytes(), 4),
        g.spec_data3() == spec_le2_value(g.spec_bytes(), 6),
{
}

/// The text of every GUID has 36 characters, with dashes at positions 8, 13, 18 and 23.
pub proof fn lemma_guid_text_shape(g: NtfsGuid)
    ensures
        g.spec_text().len() == 36,
        g.spec_text()[8] == '-',
        g.spec_text()[13] == '-',
        g.spec_text()[18] == '-',
        g.spec_text()[23] == '-',
{
    lemma_hex_tail_len(g.spec_bytes(), 10, 16);
    assert(g.spec_text_head().len() == 24);
}

} // verus!
