//! CodeView debug-information records and the GUID type.
//!
//! The variable-length CodeView records are in this module's hand-written
//! half; this part holds the fixed-size GUID record.

use vstd::prelude::*;

verus! {

broadcast use vstd::seq::group_seq_axioms;


use crate::codec::DecodeError;
use crate::codec::Endianness;
use crate::codec::lemma_encode_lens;
use crate::codec::lemma_split_at;
use crate::codec::lemma_read_u16_at;
use crate::codec::lemma_read_u32_at;
use crate::codec::read_bytes;
use crate::codec::read_u16;
use crate::codec::read_u32;
use crate::codec::spec_encode_u16;
use crate::codec::spec_encode_u32;
use crate::codec::spec_read_bytes;
use crate::codec::spec_read_u16;
use crate::codec::spec_read_u32;
use crate::codec::write_bytes;
use crate::codec::write_u16;
use crate::codec::write_u32;

/// A 128-bit globally-unique identifier, as specified in Rpcdce.h.
///
/// The two textual forms are produced by [`GUID::to_hyphenated_lowercase`]
/// (the debugger convention) and [`GUID::to_compact_uppercase`] (the symbol
/// server convention). Both format the integer fields exactly as stored:
/// they are deliberately endianness-naive, so normalization is the
/// caller's responsibility.
#[derive(Debug, Clone, PartialEq, Eq)]
pub struct GUID {
    pub data1: u32,
    pub data2: u16,
    pub data3: u16,
    pub data4: Vec<u8>,
}

/// The mathematical value of a [`GUID`]: the same fields with
/// sequences in place of vectors.
pub struct GUIDView {
    pub data1: u32,
    pub data2: u16,
    pub data3: u16,
    pub data4: Seq<u8>,
}

impl View for GUID {
    type V = GUIDView;

    open spec fn view(&self) -> GUIDView {
        GUIDView {
            data1: self.data1,
            data2: self.data2,
            data3: self.data3,
            data4: self.data4@,
        }
    }
}

impl GUIDView {
    /// Well-formed: every sequence field has its fixed length.
    pub open spec fn wf(self) -> bool {
        self.data4.len() == 8
    }
}

impl GUID {
    /// The number of bytes this record occupies.
    pub open spec fn spec_size() -> nat {
        16
    }

    /// The record the bytes of `b` at `off` denote in byte order `e`.
    pub open spec fn spec_decode(b: Seq<u8>, off: int, e: Endianness) -> GUIDView {
        GUIDView {
            data1: spec_read_u32(b, off, e),
            data2: spec_read_u16(b, off + 4, e),
            data3: spec_read_u16(b, off + 6, e),
            data4: spec_read_bytes(b, off + 8, 8),
        }
    }

    /// The bytes the record `w` encodes to in byte order `e`.
    pub open spec fn spec_encode(w: GUIDView, e: Endianness) -> Seq<u8> {
        spec_encode_u32(w.data1, e)
            + spec_encode_u16(w.data2, e)
            + spec_encode_u16(w.data3, e)
            + w.data4
    }

    /// Reads the record at `off`, known to be in bounds.
    pub fn read_at(buf: &[u8], off: usize, e: Endianness) -> (r: Self)
        requires
            off + 16 <= buf@.len(),
        ensures
            r@ == Self::spec_decode(buf@, off as int, e),
    {
        let _blen = buf.len();  // a slice length fits usize, bounding the field offsets
        GUID {
            data1: read_u32(buf, off, e),
            data2: read_u16(buf, off + 4, e),
            data3: read_u16(buf, off + 6, e),
            data4: read_bytes(buf, off + 8, 8),
        }
    }

    /// Decodes the record at `off`: `Ok` exactly when the buffer holds
    /// `spec_size` bytes at `off`; the number returned with the record
    /// is the bytes consumed, always `spec_size`.
    pub fn decode(buf: &[u8], off: usize, e: Endianness) -> (r: Result<(Self, usize), DecodeError>)
        ensures
            match r {
                Ok((v, n)) => off + Self::spec_size() <= buf@.len()
                    && n == Self::spec_size()
                    && v@ == Self::spec_decode(buf@, off as int, e),
                Err(err) => err == DecodeError::OutOfBounds
                    && off + Self::spec_size() > buf@.len(),
            },
    {
        if buf.len() < 16 || off > buf.len() - 16 {
            return Err(DecodeError::OutOfBounds);
        }
        Ok((Self::read_at(buf, off, e), 16))
    }

    /// Appends this record's encoding in byte order `e` to `out`.
    pub fn write(&self, out: &mut Vec<u8>, e: Endianness)
        ensures
            final(out)@ == old(out)@ + Self::spec_encode(self@, e),
    {
        write_u32(out, self.data1, e);
        write_u16(out, self.data2, e);
        write_u16(out, self.data3, e);
        write_bytes(out, &self.data4);
        assert(out@ =~= old(out)@ + Self::spec_encode(self@, e));
    }

    /// Encodes this record in byte order `e`.
    pub fn encode(&self, e: Endianness) -> (r: Vec<u8>)
        ensures
            r@ == Self::spec_encode(self@, e),
    {
        let mut out: Vec<u8> = Vec::new();
        self.write(&mut out, e);
        proof {
            assert(out@ =~= Self::spec_encode(self@, e));
        }
        out
    }
}

/// The encoding of a record is exactly [`GUID::spec_size`] bytes.
pub proof fn lemma_guid_encode_len(w: GUIDView, e: Endianness)
    requires
        w.wf(),
    ensures
        GUID::spec_encode(w, e).len() == 16,
{
    lemma_encode_lens();
}

/// Reading back the encoding of `w` found at offset `off` yields `w`.
pub proof fn lemma_guid_encode_at(b: Seq<u8>, off: int, w: GUIDView, e: Endianness)
    requires
        w.wf(),
        0 <= off,
        off + 16 <= b.len(),
        b.subrange(off, off + 16) == GUID::spec_encode(w, e),
    ensures
        GUID::spec_decode(b, off, e) == w,
{
    lemma_encode_lens();
    let enc0 = spec_encode_u32(w.data1, e);
    let enc1 = spec_encode_u16(w.data2, e);
    let enc2 = spec_encode_u16(w.data3, e);
    let enc3 = w.data4;
    let pre1 = enc0 + enc1;
    let pre2 = pre1 + enc2;
    let pre3 = pre2 + enc3;
    assert(b.subrange(off, off + 16) == pre3);
    lemma_split_at(b, off, off + 8, off + 16, pre2, enc3);
    lemma_split_at(b, off, off + 6, off + 8, pre1, enc2);
    lemma_split_at(b, off, off + 4, off + 6, enc0, enc1);
    lemma_read_u32_at(b, off, w.data1, e);
    lemma_read_u16_at(b, off + 4, w.data2, e);
    lemma_read_u16_at(b, off + 6, w.data3, e);
    assert(spec_read_bytes(b, off + 8, 8) == w.data4);
}

/// Round trip: decoding the encoding of a record yields the record, and
/// the encoding is exactly the record's fixed size.
pub proof fn lemma_guid_roundtrip(w: GUIDView, e: Endianness)
    requires
        w.wf(),
    ensures
        GUID::spec_encode(w, e).len() == GUID::spec_size(),
        GUID::spec_decode(GUID::spec_encode(w, e), 0, e) == w,
{
    lemma_guid_encode_len(w, e);
    let enc = GUID::spec_encode(w, e);
    assert(enc.subrange(0, 16) =~= enc);
    lemma_guid_encode_at(enc, 0, w, e);
}


// ---------------------------------------------------------------------------
// Hexadecimal rendering of a GUID.
// ---------------------------------------------------------------------------

/// The lower-case hexadecimal digit for `n`.
pub open spec fn spec_hex_lower(n: u8) -> char {
    if n == 0 { '0' } else if n == 1 { '1' } else if n == 2 { '2' } else if n == 3 { '3' }
    else if n == 4 { '4' } else if n == 5 { '5' } else if n == 6 { '6' } else if n == 7 { '7' }
    else if n == 8 { '8' } else if n == 9 { '9' } else if n == 10 { 'a' } else if n == 11 { 'b' }
    else if n == 12 { 'c' } else if n == 13 { 'd' } else if n == 14 { 'e' } else { 'f' }
}

/// The upper-case hexadecimal digit for `n`.
pub open spec fn spec_hex_upper(n: u8) -> char {
    if n == 0 { '0' } else if n == 1 { '1' } else if n == 2 { '2' } else if n == 3 { '3' }
    else if n == 4 { '4' } else if n == 5 { '5' } else if n == 6 { '6' } else if n == 7 { '7' }
    else if n == 8 { '8' } else if n == 9 { '9' } else if n == 10 { 'A' } else if n == 11 { 'B' }
    else if n == 12 { 'C' } else if n == 13 { 'D' } else if n == 14 { 'E' } else { 'F' }
}

/// The two lower-case hex digits of a byte, most significant first.
pub open spec fn spec_hex_u8_lower(x: u8) -> Seq<char> {
    seq![spec_hex_lower(x >> 4), spec_hex_lower(x & 0xf)]
}

/// The two upper-case hex digits of a byte, most significant first.
pub open spec fn spec_hex_u8_upper(x: u8) -> Seq<char> {
    seq![spec_hex_upper(x >> 4), spec_hex_upper(x & 0xf)]
}

/// The four lower-case hex digits of a `u16`, most significant first.
pub open spec fn spec_hex_u16_lower(x: u16) -> Seq<char> {
    seq![
        spec_hex_lower(((x >> 12) & 0xf) as u8),
        spec_hex_lower(((x >> 8) & 0xf) as u8),
        spec_hex_lower(((x >> 4) & 0xf) as u8),
        spec_hex_lower((x & 0xf) as u8),
    ]
}

/// The four upper-case hex digits of a `u16`, most significant first.
pub open spec fn spec_hex_u16_upper(x: u16) -> Seq<char> {
    seq![
        spec_hex_upper(((x >> 12) & 0xf) as u8),
        spec_hex_upper(((x >> 8) & 0xf) as u8),
        spec_hex_upper(((x >> 4) & 0xf) as u8),
        spec_hex_upper((x & 0xf) as u8),
    ]
}

/// The eight lower-case hex digits of a `u32`, most significant first.
pub open spec fn spec_hex_u32_lower(x: u32) -> Seq<char> {
    seq![
        spec_hex_lower(((x >> 28) & 0xf) as u8),
        spec_hex_lower(((x >> 24) & 0xf) as u8),
        spec_hex_lower(((x >> 20) & 0xf) as u8),
        spec_hex_lower(((x >> 16) & 0xf) as u8),
        spec_hex_lower(((x >> 12) & 0xf) as u8),
        spec_hex_lower(((x >> 8) & 0xf) as u8),
        spec_hex_lower(((x >> 4) & 0xf) as u8),
        spec_hex_lower((x & 0xf) as u8),
    ]
}

/// The eight upper-case hex digits of a `u32`, most significant first.
pub open spec fn spec_hex_u32_upper(x: u32) -> Seq<char> {
    seq![
        spec_hex_upper(((x >> 28) & 0xf) as u8),
        spec_hex_upper(((x >> 24) & 0xf) as u8),
        spec_hex_upper(((x >> 20) & 0xf) as u8),
        spec_hex_upper(((x >> 16) & 0xf) as u8),
        spec_hex_upper(((x >> 12) & 0xf) as u8),
        spec_hex_upper(((x >> 8) & 0xf) as u8),
        spec_hex_upper(((x >> 4) & 0xf) as u8),
        spec_hex_upper((x & 0xf) as u8),
    ]
}

/// The one-character string for the lower-case hex digit `n`.
fn hex_str_lower(n: u8) -> (r: &'static str)
    requires
        n < 16,
    ensures
        r@ == seq![spec_hex_lower(n)],
{
    match n {
        0 => { proof { reveal_strlit("0"); assert("0"@ =~= seq![spec_hex_lower(n)]); } "0" },
        1 => { proof { reveal_strlit("1"); assert("1"@ =~= seq![spec_hex_lower(n)]); } "1" },
        2 => { proof { reveal_strlit("2"); assert("2"@ =~= seq![spec_hex_lower(n)]); } "2" },
        3 => { proof { reveal_strlit("3"); assert("3"@ =~= seq![spec_hex_lower(n)]); } "3" },
        4 => { proof { reveal_strlit("4"); assert("4"@ =~= seq![spec_hex_lower(n)]); } "4" },
        5 => { proof { reveal_strlit("5"); assert("5"@ =~= seq![spec_hex_lower(n)]); } "5" },
        6 => { proof { reveal_strlit("6"); assert("6"@ =~= seq![spec_hex_lower(n)]); } "6" },
        7 => { proof { reveal_strlit("7"); assert("7"@ =~= seq![spec_hex_lower(n)]); } "7" },
        8 => { proof { reveal_strlit("8"); assert("8"@ =~= seq![spec_hex_lower(n)]); } "8" },
        9 => { proof { reveal_strlit("9"); assert("9"@ =~= seq![spec_hex_lower(n)]); } "9" },
        10 => { proof { reveal_strlit("a"); assert("a"@ =~= seq![spec_hex_lower(n)]); } "a" },
        11 => { proof { reveal_strlit("b"); assert("b"@ =~= seq![spec_hex_lower(n)]); } "b" },
        12 => { proof { reveal_strlit("c"); assert("c"@ =~= seq![spec_hex_lower(n)]); } "c" },
        13 => { proof { reveal_strlit("d"); assert("d"@ =~= seq![spec_hex_lower(n)]); } "d" },
        14 => { proof { reveal_strlit("e"); assert("e"@ =~= seq![spec_hex_lower(n)]); } "e" },
        _ => { proof { reveal_strlit("f"); assert("f"@ =~= seq![spec_hex_lower(n)]); } "f" },
    }
}

/// The one-character string for the upper-case hex digit `n`.
fn hex_str_upper(n: u8) -> (r: &'static str)
    requires
        n < 16,
    ensures
        r@ == seq![spec_hex_upper(n)],
{
    match n {
        0 => { proof { reveal_strlit("0"); assert("0"@ =~= seq![spec_hex_upper(n)]); } "0" },
        1 => { proof { reveal_strlit("1"); assert("1"@ =~= seq![spec_hex_upper(n)]); } "1" },
        2 => { proof { reveal_strlit("2"); assert("2"@ =~= seq![spec_hex_upper(n)]); } "2" },
        3 => { proof { reveal_strlit("3"); assert("3"@ =~= seq![spec_hex_upper(n)]); } "3" },
        4 => { proof { reveal_strlit("4"); assert("4"@ =~= seq![spec_hex_upper(n)]); } "4" },
        5 => { proof { reveal_strlit("5"); assert("5"@ =~= seq![spec_hex_upper(n)]); } "5" },
        6 => { proof { reveal_strlit("6"); assert("6"@ =~= seq![spec_hex_upper(n)]); } "6" },
        7 => { proof { reveal_strlit("7"); assert("7"@ =~= seq![spec_hex_upper(n)]); } "7" },
        8 => { proof { reveal_strlit("8"); assert("8"@ =~= seq![spec_hex_upper(n)]); } "8" },
        9 => { proof { reveal_strlit("9"); assert("9"@ =~= seq![spec_hex_upper(n)]); } "9" },
        10 => { proof { reveal_strlit("A"); assert("A"@ =~= seq![spec_hex_upper(n)]); } "A" },
        11 => { proof { reveal_strlit("B"); assert("B"@ =~= seq![spec_hex_upper(n)]); } "B" },
        12 => { proof { reveal_strlit("C"); assert("C"@ =~= seq![spec_hex_upper(n)]); } "C" },
        13 => { proof { reveal_strlit("D"); assert("D"@ =~= seq![spec_hex_upper(n)]); } "D" },
        14 => { proof { reveal_strlit("E"); assert("E"@ =~= seq![spec_hex_upper(n)]); } "E" },
        _ => { proof { reveal_strlit("F"); assert("F"@ =~= seq![spec_hex_upper(n)]); } "F" },
    }
}

/// Appends the two lower-case hex digits of `x` to `s`.
fn push_hex_u8_lower(s: &mut String, x: u8)
    ensures
        final(s)@ == old(s)@ + spec_hex_u8_lower(x),
{
    proof {
        assert(x >> 4 < 16 && x & 0xf < 16) by (bit_vector);
    }
    s.append(hex_str_lower(x >> 4));
    s.append(hex_str_lower(x & 0xf));
    assert(s@ =~= old(s)@ + spec_hex_u8_lower(x));
}

/// Appends the two upper-case hex digits of `x` to `s`.
fn push_hex_u8_upper(s: &mut String, x: u8)
    ensures
        final(s)@ == old(s)@ + spec_hex_u8_upper(x),
{
    proof {
        assert(x >> 4 < 16 && x & 0xf < 16) by (bit_vector);
    }
    s.append(hex_str_upper(x >> 4));
    s.append(hex_str_upper(x & 0xf));
    assert(s@ =~= old(s)@ + spec_hex_u8_upper(x));
}

/// Appends the four lower-case hex digits of `x` to `s`.
fn push_hex_u16_lower(s: &mut String, x: u16)
    ensures
        final(s)@ == old(s)@ + spec_hex_u16_lower(x),
{
    proof {
        assert((x >> 12) & 0xf < 16 && (x >> 8) & 0xf < 16 && (x >> 4) & 0xf < 16 && x & 0xf
            < 16) by (bit_vector);
    }
    s.append(hex_str_lower(((x >> 12) & 0xf) as u8));
    s.append(hex_str_lower(((x >> 8) & 0xf) as u8));
    s.append(hex_str_lower(((x >> 4) & 0xf) as u8));
    s.append(hex_str_lower((x & 0xf) as u8));
    assert(s@ =~= old(s)@ + spec_hex_u16_lower(x));
}

/// Appends the four upper-case hex digits of `x` to `s`.
fn push_hex_u16_upper(s: &mut String, x: u16)
    ensures
        final(s)@ == old(s)@ + spec_hex_u16_upper(x),
{
    proof {
        assert((x >> 12) & 0xf < 16 && (x >> 8) & 0xf < 16 && (x >> 4) & 0xf < 16 && x & 0xf
            < 16) by (bit_vector);
    }
    s.append(hex_str_upper(((x >> 12) & 0xf) as u8));
    s.append(hex_str_upper(((x >> 8) & 0xf) as u8));
    s.append(hex_str_upper(((x >> 4) & 0xf) as u8));
    s.append(hex_str_upper((x & 0xf) as u8));
    assert(s@ =~= old(s)@ + spec_hex_u16_upper(x));
}

/// Appends the eight lower-case hex digits of `x` to `s`.
fn push_hex_u32_lower(s: &mut String, x: u32)
    ensures
        final(s)@ == old(s)@ + spec_hex_u32_lower(x),
{
    proof {
        assert((x >> 28) & 0xf < 16 && (x >> 24) & 0xf < 16 && (x >> 20) & 0xf < 16 && (x >> 16)
            & 0xf < 16 && (x >> 12) & 0xf < 16 && (x >> 8) & 0xf < 16 && (x >> 4) & 0xf < 16 && x
            & 0xf < 16) by (bit_vector);
    }
    s.append(hex_str_lower(((x >> 28) & 0xf) as u8));
    s.append(hex_str_lower(((x >> 24) & 0xf) as u8));
    s.append(hex_str_lower(((x >> 20) & 0xf) as u8));
    s.append(hex_str_lower(((x >> 16) & 0xf) as u8));
    s.append(hex_str_lower(((x >> 12) & 0xf) as u8));
    s.append(hex_str_lower(((x >> 8) & 0xf) as u8));
    s.append(hex_str_lower(((x >> 4) & 0xf) as u8));
    s.append(hex_str_lower((x & 0xf) as u8));
    assert(s@ =~= old(s)@ + spec_hex_u32_lower(x));
}

/// Appends the eight upper-case hex digits of `x` to `s`.
fn push_hex_u32_upper(s: &mut String, x: u32)
    ensures
        final(s)@ == old(s)@ + spec_hex_u32_upper(x),
{
    proof {
        assert((x >> 28) & 0xf < 16 && (x >> 24) & 0xf < 16 && (x >> 20) & 0xf < 16 && (x >> 16)
            & 0xf < 16 && (x >> 12) & 0xf < 16 && (x >> 8) & 0xf < 16 && (x >> 4) & 0xf < 16 && x
            & 0xf < 16) by (bit_vector);
    }
    s.append(hex_str_upper(((x >> 28) & 0xf) as u8));
    s.append(hex_str_upper(((x >> 24) & 0xf) as u8));
    s.append(hex_str_upper(((x >> 20) & 0xf) as u8));
    s.append(hex_str_upper(((x >> 16) & 0xf) as u8));
    s.append(hex_str_upper(((x >> 12) & 0xf) as u8));
    s.append(hex_str_upper(((x >> 8) & 0xf) as u8));
    s.append(hex_str_upper(((x >> 4) & 0xf) as u8));
    s.append(hex_str_upper((x & 0xf) as u8));
    assert(s@ =~= old(s)@ + spec_hex_u32_upper(x));
}

impl GUID {
    /// The debugger convention: lower-case hex with hyphens between groups.
    pub open spec fn spec_hyphenated_lowercase(w: GUIDView) -> Seq<char> {
        spec_hex_u32_lower(w.data1) + seq!['-'] + spec_hex_u16_lower(w.data2) + seq!['-']
            + spec_hex_u16_lower(w.data3) + seq!['-'] + spec_hex_u8_lower(w.data4[0])
            + spec_hex_u8_lower(w.data4[1]) + seq!['-'] + spec_hex_u8_lower(w.data4[2])
            + spec_hex_u8_lower(w.data4[3]) + spec_hex_u8_lower(w.data4[4]) + spec_hex_u8_lower(
            w.data4[5],
        ) + spec_hex_u8_lower(w.data4[6]) + spec_hex_u8_lower(w.data4[7])
    }

    /// The symbol-server convention: upper-case hex with no hyphens.
    pub open spec fn spec_compact_uppercase(w: GUIDView) -> Seq<char> {
        spec_hex_u32_upper(w.data1) + spec_hex_u16_upper(w.data2) + spec_hex_u16_upper(w.data3)
            + spec_hex_u8_upper(w.data4[0]) + spec_hex_u8_upper(w.data4[1]) + spec_hex_u8_upper(
            w.data4[2],
        ) + spec_hex_u8_upper(w.data4[3]) + spec_hex_u8_upper(w.data4[4]) + spec_hex_u8_upper(
            w.data4[5],
        ) + spec_hex_u8_upper(w.data4[6]) + spec_hex_u8_upper(w.data4[7])
    }

    /// Renders this GUID in the debugger convention: lower-case hex digits
    /// with hyphens between the groups.
    ///
    /// The integer fields are formatted exactly as stored, with no
    /// endianness normalization.
    pub fn to_hyphenated_lowercase(&self) -> (r: String)
        requires
            self@.wf(),
        ensures
            r@ == GUID::spec_hyphenated_lowercase(self@),
    {
        proof {
            reveal_strlit("-");
        }
        let mut s = String::new();
        push_hex_u32_lower(&mut s, self.data1);
        s.append("-");
        push_hex_u16_lower(&mut s, self.data2);
        s.append("-");
        push_hex_u16_lower(&mut s, self.data3);
        s.append("-");
        push_hex_u8_lower(&mut s, self.data4[0]);
        push_hex_u8_lower(&mut s, self.data4[1]);
        s.append("-");
        push_hex_u8_lower(&mut s, self.data4[2]);
        push_hex_u8_lower(&mut s, self.data4[3]);
        push_hex_u8_lower(&mut s, self.data4[4]);
        push_hex_u8_lower(&mut s, self.data4[5]);
        push_hex_u8_lower(&mut s, self.data4[6]);
        push_hex_u8_lower(&mut s, self.data4[7]);
        assert(s@ =~= GUID::spec_hyphenated_lowercase(self@));
        s
    }

    /// Renders this GUID in the symbol-server convention: upper-case hex
    /// digits with no hyphens.
    ///
    /// The integer fields are formatted exactly as stored, with no
    /// endianness normalization.
    pub fn to_compact_uppercase(&self) -> (r: String)
        requires
            self@.wf(),
        ensures
            r@ == GUID::spec_compact_uppercase(self@),
    {
        let mut s = String::new();
        push_hex_u32_upper(&mut s, self.data1);
        push_hex_u16_upper(&mut s, self.data2);
        push_hex_u16_upper(&mut s, self.data3);
        push_hex_u8_upper(&mut s, self.data4[0]);
        push_hex_u8_upper(&mut s, self.data4[1]);
        push_hex_u8_upper(&mut s, self.data4[2]);
        push_hex_u8_upper(&mut s, self.data4[3]);
        push_hex_u8_upper(&mut s, self.data4[4]);
        push_hex_u8_upper(&mut s, self.data4[5]);
        push_hex_u8_upper(&mut s, self.data4[6]);
        push_hex_u8_upper(&mut s, self.data4[7]);
        assert(s@ =~= GUID::spec_compact_uppercase(self@));
        s
    }
}


// ---------------------------------------------------------------------------
// CodeView records: fixed fields followed by a trailing blob that consumes
// the rest of the record, whose size comes from the enclosing location
// descriptor rather than from self-description.
// ---------------------------------------------------------------------------

/// Known values for the `signature` field of CodeView records.
///
/// Decoding a debug record dispatches on this 4-byte signature at the start
/// of the record, never on context.
#[derive(Copy, Clone, PartialEq, Eq, Structural, Debug)]
pub enum CvSignature {
    /// PDB 2.0 CodeView data: 'NB10': [`CV_INFO_PDB20`].
    Pdb20,
    /// PDB 7.0 CodeView data: 'RSDS': [`CV_INFO_PDB70`].
    Pdb70,
    /// ELF Build ID, a Breakpad extension: 'BpEL': [`CV_INFO_ELF`].
    Elf,
    /// CodeView 4.10: 'NB09'.
    Cv41,
    /// CodeView 5.0: 'NB11'.
    Cv50,
}

impl CvSignature {
    /// The raw signature value of this variant.
    pub open spec fn spec_to_u32(self) -> u32 {
        match self {
            CvSignature::Pdb20 => 0x3031424e,
            CvSignature::Pdb70 => 0x53445352,
            CvSignature::Elf => 0x4270454c,
            CvSignature::Cv41 => 0x3930424e,
            CvSignature::Cv50 => 0x3131424e,
        }
    }

    /// The variant a raw signature value names, or `None` for any other
    /// value: an unknown signature is preserved by the caller, never an
    /// error here.
    pub open spec fn spec_from_u32(raw: u32) -> Option<CvSignature> {
        match raw {
            0x3031424e => Some(CvSignature::Pdb20),
            0x53445352 => Some(CvSignature::Pdb70),
            0x4270454c => Some(CvSignature::Elf),
            0x3930424e => Some(CvSignature::Cv41),
            0x3131424e => Some(CvSignature::Cv50),
            _ => None,
        }
    }

    /// The raw signature value of this variant.
    pub fn to_u32(self) -> (r: u32)
        ensures
            r == self.spec_to_u32(),
    {
        match self {
            CvSignature::Pdb20 => 0x3031424e,
            CvSignature::Pdb70 => 0x53445352,
            CvSignature::Elf => 0x4270454c,
            CvSignature::Cv41 => 0x3930424e,
            CvSignature::Cv50 => 0x3131424e,
        }
    }

    /// The variant a raw signature value names; `None` for every unknown
    /// value.
    pub fn from_u32(raw: u32) -> (r: Option<CvSignature>)
        ensures
            r == CvSignature::spec_from_u32(raw),
    {
        match raw {
            0x3031424e => Some(CvSignature::Pdb20),
            0x53445352 => Some(CvSignature::Pdb70),
            0x4270454c => Some(CvSignature::Elf),
            0x3930424e => Some(CvSignature::Cv41),
            0x3131424e => Some(CvSignature::Cv50),
            _ => None,
        }
    }
}

/// Round trip: the raw value of a known signature names that signature.
pub proof fn lemma_cv_signature_roundtrip(v: CvSignature)
    ensures
        CvSignature::spec_from_u32(v.spec_to_u32()) == Some(v),
{
}

/// CodeView debug information in the older PDB 2.0 ("NB10") format.
///
/// The record is variable-length: after the fixed fields, the PDB filename
/// (a zero-terminated byte string) consumes the rest of the record.
#[derive(Debug, Clone, PartialEq)]
pub struct CV_INFO_PDB20 {
    /// This field will always be [`CvSignature::Pdb20`].
    pub cv_signature: u32,
    pub cv_offset: u32,
    pub signature: u32,
    pub age: u32,
    /// The PDB filename as a zero-terminated byte string.
    pub pdb_file_name: Vec<u8>,
}

/// The mathematical value of a [`CV_INFO_PDB20`].
pub struct CV_INFO_PDB20View {
    pub cv_signature: u32,
    pub cv_offset: u32,
    pub signature: u32,
    pub age: u32,
    pub pdb_file_name: Seq<u8>,
}

impl View for CV_INFO_PDB20 {
    type V = CV_INFO_PDB20View;

    open spec fn view(&self) -> CV_INFO_PDB20View {
        CV_INFO_PDB20View {
            cv_signature: self.cv_signature,
            cv_offset: self.cv_offset,
            signature: self.signature,
            age: self.age,
            pdb_file_name: self.pdb_file_name@,
        }
    }
}

impl CV_INFO_PDB20 {
    /// The number of bytes of the fixed fields, before the trailing name.
    pub open spec fn spec_fixed_size() -> nat {
        16
    }

    /// The record the bytes of `b` denote: the fixed fields, then the name
    /// as all remaining bytes.
    pub open spec fn spec_decode(b: Seq<u8>, e: Endianness) -> CV_INFO_PDB20View {
        CV_INFO_PDB20View {
            cv_signature: spec_read_u32(b, 0, e),
            cv_offset: spec_read_u32(b, 4, e),
            signature: spec_read_u32(b, 8, e),
            age: spec_read_u32(b, 12, e),
            pdb_file_name: b.subrange(16, b.len() as int),
        }
    }

    /// The bytes the record `w` encodes to.
    pub open spec fn spec_encode(w: CV_INFO_PDB20View, e: Endianness) -> Seq<u8> {
        spec_encode_u32(w.cv_signature, e) + spec_encode_u32(w.cv_offset, e) + spec_encode_u32(
            w.signature,
            e,
        ) + spec_encode_u32(w.age, e) + w.pdb_file_name
    }

    /// Decodes the record from the whole of `src` (the record's extent comes
    /// from the enclosing location descriptor): `Ok` exactly when the fixed
    /// fields fit, and then the name is everything after them, so the bytes
    /// consumed are the whole of `src`.
    pub fn decode(src: &[u8], e: Endianness) -> (r: Result<(Self, usize), DecodeError>)
        ensures
            match r {
                Ok((v, n)) => src@.len() >= 16 && n == src@.len() && v@ == Self::spec_decode(
                    src@,
                    e,
                ),
                Err(err) => err == DecodeError::OutOfBounds && src@.len() < 16,
            },
    {
        let len = src.len();
        if len < 16 {
            return Err(DecodeError::OutOfBounds);
        }
        let v = CV_INFO_PDB20 {
            cv_signature: read_u32(src, 0, e),
            cv_offset: read_u32(src, 4, e),
            signature: read_u32(src, 8, e),
            age: read_u32(src, 12, e),
            pdb_file_name: read_bytes(src, 16, len - 16),
        };
        Ok((v, len))
    }

    /// Encodes this record in byte order `e`.
    pub fn encode(&self, e: Endianness) -> (r: Vec<u8>)
        ensures
            r@ == Self::spec_encode(self@, e),
    {
        let mut out: Vec<u8> = Vec::new();
        write_u32(&mut out, self.cv_signature, e);
        write_u32(&mut out, self.cv_offset, e);
        write_u32(&mut out, self.signature, e);
        write_u32(&mut out, self.age, e);
        write_bytes(&mut out, &self.pdb_file_name);
        assert(out@ =~= Self::spec_encode(self@, e));
        out
    }
}

/// Round trip: decoding the encoding of a record yields the record.
pub proof fn lemma_cv_info_pdb20_roundtrip(w: CV_INFO_PDB20View, e: Endianness)
    ensures
        CV_INFO_PDB20::spec_decode(CV_INFO_PDB20::spec_encode(w, e), e) == w,
{
    lemma_encode_lens();
    let b = CV_INFO_PDB20::spec_encode(w, e);
    let enc0 = spec_encode_u32(w.cv_signature, e);
    let enc1 = spec_encode_u32(w.cv_offset, e);
    let enc2 = spec_encode_u32(w.signature, e);
    let enc3 = spec_encode_u32(w.age, e);
    let pre1 = enc0 + enc1;
    let pre2 = pre1 + enc2;
    let pre3 = pre2 + enc3;
    assert(b.subrange(0, b.len() as int) =~= pre3 + w.pdb_file_name);
    lemma_split_at(b, 0, 16, b.len() as int, pre3, w.pdb_file_name);
    lemma_split_at(b, 0, 12, 16, pre2, enc3);
    lemma_split_at(b, 0, 8, 12, pre1, enc2);
    lemma_split_at(b, 0, 4, 8, enc0, enc1);
    lemma_read_u32_at(b, 0, w.cv_signature, e);
    lemma_read_u32_at(b, 4, w.cv_offset, e);
    lemma_read_u32_at(b, 8, w.signature, e);
    lemma_read_u32_at(b, 12, w.age, e);
}

/// CodeView debug information in the current PDB 7.0 ("RSDS") format.
///
/// The record is variable-length: after the fixed fields, the PDB filename
/// (a zero-terminated byte string) consumes the rest of the record.
#[derive(Debug, Clone, PartialEq)]
pub struct CV_INFO_PDB70 {
    /// This will always be [`CvSignature::Pdb70`].
    pub cv_signature: u32,
    /// A unique identifier for a module created on first build.
    pub signature: GUID,
    /// A counter, incremented for each rebuild that updates the PDB file.
    pub age: u32,
    /// The PDB filename as a zero-terminated byte string.
    pub pdb_file_name: Vec<u8>,
}

/// The mathematical value of a [`CV_INFO_PDB70`].
pub struct CV_INFO_PDB70View {
    pub cv_signature: u32,
    pub signature: GUIDView,
    pub age: u32,
    pub pdb_file_name: Seq<u8>,
}

impl View for CV_INFO_PDB70 {
    type V = CV_INFO_PDB70View;

    open spec fn view(&self) -> CV_INFO_PDB70View {
        CV_INFO_PDB70View {
            cv_signature: self.cv_signature,
            signature: self.signature@,
            age: self.age,
            pdb_file_name: self.pdb_file_name@,
        }
    }
}

impl CV_INFO_PDB70 {
    /// The number of bytes of the fixed fields, before the trailing name.
    pub open spec fn spec_fixed_size() -> nat {
        24
    }

    /// The record the bytes of `b` denote: the fixed fields, then the name
    /// as all remaining bytes.
    pub open spec fn spec_decode(b: Seq<u8>, e: Endianness) -> CV_INFO_PDB70View {
        CV_INFO_PDB70View {
            cv_signature: spec_read_u32(b, 0, e),
            signature: GUID::spec_decode(b, 4, e),
            age: spec_read_u32(b, 20, e),
            pdb_file_name: b.subrange(24, b.len() as int),
        }
    }

    /// The bytes the record `w` encodes to.
    pub open spec fn spec_encode(w: CV_INFO_PDB70View, e: Endianness) -> Seq<u8> {
        spec_encode_u32(w.cv_signature, e) + GUID::spec_encode(w.signature, e) + spec_encode_u32(
            w.age,
            e,
        ) + w.pdb_file_name
    }

    /// Decodes the record from the whole of `src` (the record's extent comes
    /// from the enclosing location descriptor): `Ok` exactly when the fixed
    /// fields fit, and then the name is everything after them, so the bytes
    /// consumed are the whole of `src`.
    pub fn decode(src: &[u8], e: Endianness) -> (r: Result<(Self, usize), DecodeError>)
        ensures
            match r {
                Ok((v, n)) => src@.len() >= 24 && n == src@.len() && v@ == Self::spec_decode(
                    src@,
                    e,
                ),
                Err(err) => err == DecodeError::OutOfBounds && src@.len() < 24,
            },
    {
        let len = src.len();
        if len < 24 {
            return Err(DecodeError::OutOfBounds);
        }
        let v = CV_INFO_PDB70 {
            cv_signature: read_u32(src, 0, e),
            signature: GUID::read_at(src, 4, e),
            age: read_u32(src, 20, e),
            pdb_file_name: read_bytes(src, 24, len - 24),
        };
        Ok((v, len))
    }

    /// Encodes this record in byte order `e`.
    pub fn encode(&self, e: Endianness) -> (r: Vec<u8>)
        ensures
            r@ == Self::spec_encode(self@, e),
    {
        let mut out: Vec<u8> = Vec::new();
        write_u32(&mut out, self.cv_signature, e);
        self.signature.write(&mut out, e);
        write_u32(&mut out, self.age, e);
        write_bytes(&mut out, &self.pdb_file_name);
        assert(out@ =~= Self::spec_encode(self@, e));
        out
    }
}

/// Round trip: decoding the encoding of a well-formed record yields the
/// record.
pub proof fn lemma_cv_info_pdb70_roundtrip(w: CV_INFO_PDB70View, e: Endianness)
    requires
        w.signature.wf(),
    ensures
        CV_INFO_PDB70::spec_decode(CV_INFO_PDB70::spec_encode(w, e), e) == w,
{
    lemma_encode_lens();
    lemma_guid_encode_len(w.signature, e);
    let b = CV_INFO_PDB70::spec_encode(w, e);
    let enc0 = spec_encode_u32(w.cv_signature, e);
    let enc1 = GUID::spec_encode(w.signature, e);
    let enc2 = spec_encode_u32(w.age, e);
    let pre1 = enc0 + enc1;
    let pre2 = pre1 + enc2;
    assert(b.subrange(0, b.len() as int) =~= pre2 + w.pdb_file_name);
    lemma_split_at(b, 0, 24, b.len() as int, pre2, w.pdb_file_name);
    lemma_split_at(b, 0, 20, 24, pre1, enc2);
    lemma_split_at(b, 0, 4, 20, enc0, enc1);
    lemma_read_u32_at(b, 0, w.cv_signature, e);
    lemma_guid_encode_at(b, 4, w.signature, e);
    lemma_read_u32_at(b, 20, w.age, e);
}

/// An ELF Build ID, a Breakpad extension.
///
/// The record is variable-length: after the signature, the build id consumes
/// the rest of the record.
#[derive(Debug, Clone, PartialEq)]
pub struct CV_INFO_ELF {
    /// This will always be [`CvSignature::Elf`].
    pub cv_signature: u32,
    /// The build id, a variable number of bytes.
    pub build_id: Vec<u8>,
}

/// The mathematical value of a [`CV_INFO_ELF`].
pub struct CV_INFO_ELFView {
    pub cv_signature: u32,
    pub build_id: Seq<u8>,
}

impl View for CV_INFO_ELF {
    type V = CV_INFO_ELFView;

    open spec fn view(&self) -> CV_INFO_ELFView {
        CV_INFO_ELFView { cv_signature: self.cv_signature, build_id: self.build_id@ }
    }
}

impl CV_INFO_ELF {
    /// The number of bytes of the fixed fields, before the trailing id.
    pub open spec fn spec_fixed_size() -> nat {
        4
    }

    /// The record the bytes of `b` denote: the signature, then the build id
    /// as all remaining bytes.
    pub open spec fn spec_decode(b: Seq<u8>, e: Endianness) -> CV_INFO_ELFView {
        CV_INFO_ELFView {
            cv_signature: spec_read_u32(b, 0, e),
            build_id: b.subrange(4, b.len() as int),
        }
    }

    /// The bytes the record `w` encodes to.
    pub open spec fn spec_encode(w: CV_INFO_ELFView, e: Endianness) -> Seq<u8> {
        spec_encode_u32(w.cv_signature, e) + w.build_id
    }

    /// Decodes the record from the whole of `src` (the record's extent comes
    /// from the enclosing location descriptor): `Ok` exactly when the
    /// signature fits, and then the build id is everything after it, so the
    /// bytes consumed are the whole of `src`.
    pub fn decode(src: &[u8], e: Endianness) -> (r: Result<(Self, usize), DecodeError>)
        ensures
            match r {
                Ok((v, n)) => src@.len() >= 4 && n == src@.len() && v@ == Self::spec_decode(
                    src@,
                    e,
                ),
                Err(err) => err == DecodeError::OutOfBounds && src@.len() < 4,
            },
    {
        let len = src.len();
        if len < 4 {
            return Err(DecodeError::OutOfBounds);
        }
        let v = CV_INFO_ELF {
            cv_signature: read_u32(src, 0, e),
            build_id: read_bytes(src, 4, len - 4),
        };
        Ok((v, len))
    }

    /// Encodes this record in byte order `e`.
    pub fn encode(&self, e: Endianness) -> (r: Vec<u8>)
        ensures
            r@ == Self::spec_encode(self@, e),
    {
        let mut out: Vec<u8> = Vec::new();
        write_u32(&mut out, self.cv_signature, e);
        write_bytes(&mut out, &self.build_id);
        assert(out@ =~= Self::spec_encode(self@, e));
        out
    }
}

/// Round trip: decoding the encoding of a record yields the record.
pub proof fn lemma_cv_info_elf_roundtrip(w: CV_INFO_ELFView, e: Endianness)
    ensures
        CV_INFO_ELF::spec_decode(CV_INFO_ELF::spec_encode(w, e), e) == w,
{
    lemma_encode_lens();
    let b = CV_INFO_ELF::spec_encode(w, e);
    let enc0 = spec_encode_u32(w.cv_signature, e);
    assert(b.subrange(0, b.len() as int) =~= enc0 + w.build_id);
    lemma_split_at(b, 0, 4, b.len() as int, enc0, w.build_id);
    lemma_read_u32_at(b, 0, w.cv_signature, e);
}

} // verus!
