//! Breakpad and Crashpad extension records.

use vstd::prelude::*;

verus! {

broadcast use vstd::seq::group_seq_axioms;

use crate::codec::DecodeError;
use crate::codec::Endianness;
use crate::codec::lemma_encode_lens;
use crate::codec::lemma_encode_u16_seq_len;
use crate::codec::lemma_split_at;
use crate::codec::lemma_read_u16_at;
use crate::codec::lemma_read_u16_seq_at;
use crate::codec::lemma_read_u32_at;
use crate::codec::read_bytes;
use crate::codec::read_u16;
use crate::codec::read_u16_vec;
use crate::codec::read_u32;
use crate::codec::spec_encode_u16;
use crate::codec::spec_encode_u16_seq;
use crate::codec::spec_encode_u32;
use crate::codec::spec_read_u16;
use crate::codec::spec_read_u16_seq;
use crate::codec::spec_read_u32;
use crate::codec::write_bytes;
use crate::codec::write_u16;
use crate::codec::write_u16_vec;
use crate::codec::write_u32;
use crate::codeview::GUID;
use crate::codeview::GUIDView;
use crate::codeview::lemma_guid_encode_at;
use crate::codeview::lemma_guid_encode_len;
use crate::records::MINIDUMP_LOCATION_DESCRIPTOR;
use crate::records::lemma_minidump_location_descriptor_encode_at;
use crate::records::lemma_minidump_location_descriptor_encode_len;

/// A Breakpad extension containing some additional process information.
#[derive(Debug, Clone, PartialEq)]
pub struct MINIDUMP_BREAKPAD_INFO {
    pub validity: u32,
    pub dump_thread_id: u32,
    pub requesting_thread_id: u32,
}

impl View for MINIDUMP_BREAKPAD_INFO {
    type V = MINIDUMP_BREAKPAD_INFO;

    open spec fn view(&self) -> MINIDUMP_BREAKPAD_INFO {
        *self
    }
}

impl MINIDUMP_BREAKPAD_INFO {
    /// The number of bytes this record occupies.
    pub open spec fn spec_size() -> nat {
        12
    }

    /// The record the bytes of `b` at `off` denote in byte order `e`.
    pub open spec fn spec_decode(b: Seq<u8>, off: int, e: Endianness) -> MINIDUMP_BREAKPAD_INFO {
        MINIDUMP_BREAKPAD_INFO {
            validity: spec_read_u32(b, off, e),
            dump_thread_id: spec_read_u32(b, off + 4, e),
            requesting_thread_id: spec_read_u32(b, off + 8, e),
        }
    }

    /// The bytes the record `w` encodes to in byte order `e`.
    pub open spec fn spec_encode(w: MINIDUMP_BREAKPAD_INFO, e: Endianness) -> Seq<u8> {
        spec_encode_u32(w.validity, e)
            + spec_encode_u32(w.dump_thread_id, e)
            + spec_encode_u32(w.requesting_thread_id, e)
    }

    /// Reads the record at `off`, known to be in bounds.
    pub fn read_at(buf: &[u8], off: usize, e: Endianness) -> (r: Self)
        requires
            off + 12 <= buf@.len(),
        ensures
            r@ == Self::spec_decode(buf@, off as int, e),
    {
        let _blen = buf.len();  // a slice length fits usize, bounding the field offsets
        MINIDUMP_BREAKPAD_INFO {
            validity: read_u32(buf, off, e),
            dump_thread_id: read_u32(buf, off + 4, e),
            requesting_thread_id: read_u32(buf, off + 8, e),
        }
    }

    /// Decodes the record at `off`: `Ok` exactly when the buffer holds
    /// `spec_size` bytes at `off`; the number returned with the record
    /// is the bytes consumed, always `spec_size`.
    pub fn decode(buf: &[u8], off: usize, e: Endianness) -> (r: Result<(Self, usize), DecodeError>)
        ensures
            match r {
                Ok((v, n)) => off + Self::spec_size() <= buf@.len()
                    && n == Self::spec_size()
                    && v@ == Self::spec_decode(buf@, off as int, e),
                Err(err) => err == DecodeError::OutOfBounds
                    && off + Self::spec_size() > buf@.len(),
            },
    {
        if buf.len() < 12 || off > buf.len() - 12 {
            return Err(DecodeError::OutOfBounds);
        }
        Ok((Self::read_at(buf, off, e), 12))
    }

    /// Appends this record's encoding in byte order `e` to `out`.
    pub fn write(&self, out: &mut Vec<u8>, e: Endianness)
        ensures
            final(out)@ == old(out)@ + Self::spec_encode(self@, e),
    {
        write_u32(out, self.validity, e);
        write_u32(out, self.dump_thread_id, e);
        write_u32(out, self.requesting_thread_id, e);
        assert(out@ =~= old(out)@ + Self::spec_encode(self@, e));
    }

    /// Encodes this record in byte order `e`.
    pub fn encode(&self, e: Endianness) -> (r: Vec<u8>)
        ensures
            r@ == Self::spec_encode(self@, e),
    {
        let mut out: Vec<u8> = Vec::new();
        self.write(&mut out, e);
        proof {
            assert(out@ =~= Self::spec_encode(self@, e));
        }
        out
    }
}

/// The encoding of a record is exactly [`MINIDUMP_BREAKPAD_INFO::spec_size`] bytes.
pub proof fn lemma_minidump_breakpad_info_encode_len(w: MINIDUMP_BREAKPAD_INFO, e: Endianness)
    ensures
        MINIDUMP_BREAKPAD_INFO::spec_encode(w, e).len() == 12,
{
    lemma_encode_lens();
}

/// Reading back the encoding of `w` found at offset `off` yields `w`.
pub proof fn lemma_minidump_breakpad_info_encode_at(b: Seq<u8>, off: int, w: MINIDUMP_BREAKPAD_INFO, e: Endianness)
    requires
        0 <= off,
        off + 12 <= b.len(),
        b.subrange(off, off + 12) == MINIDUMP_BREAKPAD_INFO::spec_encode(w, e),
    ensures
        MINIDUMP_BREAKPAD_INFO::spec_decode(b, off, e) == w,
{
    lemma_encode_lens();
    let enc0 = spec_encode_u32(w.validity, e);
    let enc1 = spec_encode_u32(w.dump_thread_id, e);
    let enc2 = spec_encode_u32(w.requesting_thread_id, e);
    let pre1 = enc0 + enc1;
    let pre2 = pre1 + enc2;
    assert(b.subrange(off, off + 12) == pre2);
    lemma_split_at(b, off, off + 8, off + 12, pre1, enc2);
    lemma_split_at(b, off, off + 4, off + 8, enc0, enc1);
    lemma_read_u32_at(b, off, w.validity, e);
    lemma_read_u32_at(b, off + 4, w.dump_thread_id, e);
    lemma_read_u32_at(b, off + 8, w.requesting_thread_id, e);
}

/// Round trip: decoding the encoding of a record yields the record, and
/// the encoding is exactly the record's fixed size.
pub proof fn lemma_minidump_breakpad_info_roundtrip(w: MINIDUMP_BREAKPAD_INFO, e: Endianness)
    ensures
        MINIDUMP_BREAKPAD_INFO::spec_encode(w, e).len() == MINIDUMP_BREAKPAD_INFO::spec_size(),
        MINIDUMP_BREAKPAD_INFO::spec_decode(MINIDUMP_BREAKPAD_INFO::spec_encode(w, e), 0, e) == w,
{
    lemma_minidump_breakpad_info_encode_len(w, e);
    let enc = MINIDUMP_BREAKPAD_INFO::spec_encode(w, e);
    assert(enc.subrange(0, 12) =~= enc);
    lemma_minidump_breakpad_info_encode_at(enc, 0, w, e);
}

/// A Breakpad extension containing information about an assertion that
/// terminated the process. The strings are 0-terminated UTF-16LE.
#[derive(Debug, Clone, PartialEq)]
pub struct MINIDUMP_ASSERTION_INFO {
    pub expression: Vec<u16>,
    pub function: Vec<u16>,
    pub file: Vec<u16>,
    pub line: u32,
    pub _type: u32,
}

/// The mathematical value of a [`MINIDUMP_ASSERTION_INFO`]: the same fields with
/// sequences in place of vectors.
pub struct MINIDUMP_ASSERTION_INFOView {
    pub expression: Seq<u16>,
    pub function: Seq<u16>,
    pub file: Seq<u16>,
    pub line: u32,
    pub _type: u32,
}

impl View for MINIDUMP_ASSERTION_INFO {
    type V = MINIDUMP_ASSERTION_INFOView;

    open spec fn view(&self) -> MINIDUMP_ASSERTION_INFOView {
        MINIDUMP_ASSERTION_INFOView {
            expression: self.expression@,
            function: self.function@,
            file: self.file@,
            line: self.line,
            _type: self._type,
        }
    }
}

impl MINIDUMP_ASSERTION_INFOView {
    /// Well-formed: every sequence field has its fixed length.
    pub open spec fn wf(self) -> bool {
        &&& self.expression.len() == 128
        &&& self.function.len() == 128
        &&& self.file.len() == 128
    }
}

impl MINIDUMP_ASSERTION_INFO {
    /// The number of bytes this record occupies.
    pub open spec fn spec_size() -> nat {
        776
    }

    /// The record the bytes of `b` at `off` denote in byte order `e`.
    pub open spec fn spec_decode(b: Seq<u8>, off: int, e: Endianness) -> MINIDUMP_ASSERTION_INFOView {
        MINIDUMP_ASSERTION_INFOView {
            expression: spec_read_u16_seq(b, off, 128, e),
            function: spec_read_u16_seq(b, off + 256, 128, e),
            file: spec_read_u16_seq(b, off + 512, 128, e),
            line: spec_read_u32(b, off + 768, e),
            _type: spec_read_u32(b, off + 772, e),
        }
    }

    /// The bytes the record `w` encodes to in byte order `e`.
    pub open spec fn spec_encode(w: MINIDUMP_ASSERTION_INFOView, e: Endianness) -> Seq<u8> {
        spec_encode_u16_seq(w.expression, e)
            + spec_encode_u16_seq(w.function, e)
            + spec_encode_u16_seq(w.file, e)
            + spec_encode_u32(w.line, e)
            + spec_encode_u32(w._type, e)
    }

    /// Reads the record at `off`, known to be in bounds.
    pub fn read_at(buf: &[u8], off: usize, e: Endianness) -> (r: Self)
        requires
            off + 776 <= buf@.len(),
        ensures
            r@ == Self::spec_decode(buf@, off as int, e),
    {
        let _blen = buf.len();  // a slice length fits usize, bounding the field offsets
        MINIDUMP_ASSERTION_INFO {
            expression: read_u16_vec(buf, off, 128, e),
            function: read_u16_vec(buf, off + 256, 128, e),
            file: read_u16_vec(buf, off + 512, 128, e),
            line: read_u32(buf, off + 768, e),
            _type: read_u32(buf, off + 772, e),
        }
    }

    /// Decodes the record at `off`: `Ok` exactly when the buffer holds
    /// `spec_size` bytes at `off`; the number returned with the record
    /// is the bytes consumed, always `spec_size`.
    pub fn decode(buf: &[u8], off: usize, e: Endianness) -> (r: Result<(Self, usize), DecodeError>)
        ensures
            match r {
                Ok((v, n)) => off + Self::spec_size() <= buf@.len()
                    && n == Self::spec_size()
                    && v@ == Self::spec_decode(buf@, off as int, e),
                Err(err) => err == DecodeError::OutOfBounds
                    && off + Self::spec_size() > buf@.len(),
            },
    {
        if buf.len() < 776 || off > buf.len() - 776 {
            return Err(DecodeError::OutOfBounds);
        }
        Ok((Self::read_at(buf, off, e), 776))
    }

    /// Appends this record's encoding in byte order `e` to `out`.
    pub fn write(&self, out: &mut Vec<u8>, e: Endianness)
        ensures
            final(out)@ == old(out)@ + Self::spec_encode(self@, e),
    {
        write_u16_vec(out, &self.expression, e);
        write_u16_vec(out, &self.function, e);
        write_u16_vec(out, &self.file, e);
        write_u32(out, self.line, e);
        write_u32(out, self._type, e);
        assert(out@ =~= old(out)@ + Self::spec_encode(self@, e));
    }

    /// Encodes this record in byte order `e`.
    pub fn encode(&self, e: Endianness) -> (r: Vec<u8>)
        ensures
            r@ == Self::spec_encode(self@, e),
    {
        let mut out: Vec<u8> = Vec::new();
        self.write(&mut out, e);
        proof {
            assert(out@ =~= Self::spec_encode(self@, e));
        }
        out
    }
}

/// The encoding of a record is exactly [`MINIDUMP_ASSERTION_INFO::spec_size`] bytes.
pub proof fn lemma_minidump_assertion_info_encode_len(w: MINIDUMP_ASSERTION_INFOView, e: Endianness)
    requires
        w.wf(),
    ensures
        MINIDUMP_ASSERTION_INFO::spec_encode(w, e).len() == 776,
{
    lemma_encode_lens();
    lemma_encode_u16_seq_len(w.expression, e);
    lemma_encode_u16_seq_len(w.function, e);
    lemma_encode_u16_seq_len(w.file, e);
}

/// Reading back the encoding of `w` found at offset `off` yields `w`.
pub proof fn lemma_minidump_assertion_info_encode_at(b: Seq<u8>, off: int, w: MINIDUMP_ASSERTION_INFOView, e: Endianness)
    requires
        w.wf(),
        0 <= off,
        off + 776 <= b.len(),
        b.subrange(off, off + 776) == MINIDUMP_ASSERTION_INFO::spec_encode(w, e),
    ensures
        MINIDUMP_ASSERTION_INFO::spec_decode(b, off, e) == w,
{
    lemma_encode_lens();
    lemma_encode_u16_seq_len(w.expression, e);
    lemma_encode_u16_seq_len(w.function, e);
    lemma_encode_u16_seq_len(w.file, e);
    let enc0 = spec_encode_u16_seq(w.expression, e);
    let enc1 = spec_encode_u16_seq(w.function, e);
    let enc2 = spec_encode_u16_seq(w.file, e);
    let enc3 = spec_encode_u32(w.line, e);
    let enc4 = spec_encode_u32(w._type, e);
    let pre1 = enc0 + enc1;
    let pre2 = pre1 + enc2;
    let pre3 = pre2 + enc3;
    let pre4 = pre3 + enc4;
    assert(b.subrange(off, off + 776) == pre4);
    lemma_split_at(b, off, off + 772, off + 776, pre3, enc4);
    lemma_split_at(b, off, off + 768, off + 772, pre2, enc3);
    lemma_split_at(b, off, off + 512, off + 768, pre1, enc2);
    lemma_split_at(b, off, off + 256, off + 512, enc0, enc1);
    lemma_read_u16_seq_at(b, off, w.expression, e);
    lemma_read_u16_seq_at(b, off + 256, w.function, e);
    lemma_read_u16_seq_at(b, off + 512, w.file, e);
    lemma_read_u32_at(b, off + 768, w.line, e);
    lemma_read_u32_at(b, off + 772, w._type, e);
}

/// Round trip: decoding the encoding of a record yields the record, and
/// the encoding is exactly the record's fixed size.
pub proof fn lemma_minidump_assertion_info_roundtrip(w: MINIDUMP_ASSERTION_INFOView, e: Endianness)
    requires
        w.wf(),
    ensures
        MINIDUMP_ASSERTION_INFO::spec_encode(w, e).len() == MINIDUMP_ASSERTION_INFO::spec_size(),
        MINIDUMP_ASSERTION_INFO::spec_decode(MINIDUMP_ASSERTION_INFO::spec_encode(w, e), 0, e) == w,
{
    lemma_minidump_assertion_info_encode_len(w, e);
    let enc = MINIDUMP_ASSERTION_INFO::spec_encode(w, e);
    assert(enc.subrange(0, 776) =~= enc);
    lemma_minidump_assertion_info_encode_at(enc, 0, w, e);
}

/// A key-value pair: offsets of two UTF-8 string records.
#[derive(Debug, Clone, PartialEq)]
pub struct MINIDUMP_SIMPLE_STRING_DICTIONARY_ENTRY {
    pub key: u32,
    pub value: u32,
}

impl View for MINIDUMP_SIMPLE_STRING_DICTIONARY_ENTRY {
    type V = MINIDUMP_SIMPLE_STRING_DICTIONARY_ENTRY;

    open spec fn view(&self) -> MINIDUMP_SIMPLE_STRING_DICTIONARY_ENTRY {
        *self
    }
}

impl MINIDUMP_SIMPLE_STRING_DICTIONARY_ENTRY {
    /// The number of bytes this record occupies.
    pub open spec fn spec_size() -> nat {
        8
    }

    /// The record the bytes of `b` at `off` denote in byte order `e`.
    pub open spec fn spec_decode(b: Seq<u8>, off: int, e: Endianness) -> MINIDUMP_SIMPLE_STRING_DICTIONARY_ENTRY {
        MINIDUMP_SIMPLE_STRING_DICTIONARY_ENTRY {
            key: spec_read_u32(b, off, e),
            value: spec_read_u32(b, off + 4, e),
        }
    }

    /// The bytes the record `w` encodes to in byte order `e`.
    pub open spec fn spec_encode(w: MINIDUMP_SIMPLE_STRING_DICTIONARY_ENTRY, e: Endianness) -> Seq<u8> {
        spec_encode_u32(w.key, e)
            + spec_encode_u32(w.value, e)
    }

    /// Reads the record at `off`, known to be in bounds.
    pub fn read_at(buf: &[u8], off: usize, e: Endianness) -> (r: Self)
        requires
            off + 8 <= buf@.len(),
        ensures
            r@ == Self::spec_decode(buf@, off as int, e),
    {
        let _blen = buf.len();  // a slice length fits usize, bounding the field offsets
        MINIDUMP_SIMPLE_STRING_DICTIONARY_ENTRY {
            key: read_u32(buf, off, e),
            value: read_u32(buf, off + 4, e),
        }
    }

    /// Decodes the record at `off`: `Ok` exactly when the buffer holds
    /// `spec_size` bytes at `off`; the number returned with the record
    /// is the bytes consumed, always `spec_size`.
    pub fn decode(buf: &[u8], off: usize, e: Endianness) -> (r: Result<(Self, usize), DecodeError>)
        ensures
            match r {
                Ok((v, n)) => off + Self::spec_size() <= buf@.len()
                    && n == Self::spec_size()
                    && v@ == Self::spec_decode(buf@, off as int, e),
                Err(err) => err == DecodeError::OutOfBounds
                    && off + Self::spec_size() > buf@.len(),
            },
    {
        if buf.len() < 8 || off > buf.len() - 8 {
            return Err(DecodeError::OutOfBounds);
        }
        Ok((Self::read_at(buf, off, e), 8))
    }

    /// Appends this record's encoding in byte order `e` to `out`.
    pub fn write(&self, out: &mut Vec<u8>, e: Endianness)
        ensures
            final(out)@ == old(out)@ + Self::spec_encode(self@, e),
    {
        write_u32(out, self.key, e);
        write_u32(out, self.value, e);
        assert(out@ =~= old(out)@ + Self::spec_encode(self@, e));
    }

    /// Encodes this record in byte order `e`.
    pub fn encode(&self, e: Endianness) -> (r: Vec<u8>)
        ensures
            r@ == Self::spec_encode(self@, e),
    {
        let mut out: Vec<u8> = Vec::new();
        self.write(&mut out, e);
        proof {
            assert(out@ =~= Self::spec_encode(self@, e));
        }
        out
    }
}

/// The encoding of a record is exactly [`MINIDUMP_SIMPLE_STRING_DICTIONARY_ENTRY::spec_size`] bytes.
pub proof fn lemma_minidump_simple_string_dictionary_entry_encode_len(w: MINIDUMP_SIMPLE_STRING_DICTIONARY_ENTRY, e: Endianness)
    ensures
        MINIDUMP_SIMPLE_STRING_DICTIONARY_ENTRY::spec_encode(w, e).len() == 8,
{
    lemma_encode_lens();
}

/// Reading back the encoding of `w` found at offset `off` yields `w`.
pub proof fn lemma_minidump_simple_string_dictionary_entry_encode_at(b: Seq<u8>, off: int, w: MINIDUMP_SIMPLE_STRING_DICTIONARY_ENTRY, e: Endianness)
    requires
        0 <= off,
        off + 8 <= b.len(),
        b.subrange(off, off + 8) == MINIDUMP_SIMPLE_STRING_DICTIONARY_ENTRY::spec_encode(w, e),
    ensures
        MINIDUMP_SIMPLE_STRING_DICTIONARY_ENTRY::spec_decode(b, off, e) == w,
{
    lemma_encode_lens();
    let enc0 = spec_encode_u32(w.key, e);
    let enc1 = spec_encode_u32(w.value, e);
    let pre1 = enc0 + enc1;
    assert(b.subrange(off, off + 8) == pre1);
    lemma_split_at(b, off, off + 4, off + 8, enc0, enc1);
    lemma_read_u32_at(b, off, w.key, e);
    lemma_read_u32_at(b, off + 4, w.value, e);
}

/// Round trip: decoding the encoding of a record yields the record, and
/// the encoding is exactly the record's fixed size.
pub proof fn lemma_minidump_simple_string_dictionary_entry_roundtrip(w: MINIDUMP_SIMPLE_STRING_DICTIONARY_ENTRY, e: Endianness)
    ensures
        MINIDUMP_SIMPLE_STRING_DICTIONARY_ENTRY::spec_encode(w, e).len() == MINIDUMP_SIMPLE_STRING_DICTIONARY_ENTRY::spec_size(),
        MINIDUMP_SIMPLE_STRING_DICTIONARY_ENTRY::spec_decode(MINIDUMP_SIMPLE_STRING_DICTIONARY_ENTRY::spec_encode(w, e), 0, e) == w,
{
    lemma_minidump_simple_string_dictionary_entry_encode_len(w, e);
    let enc = MINIDUMP_SIMPLE_STRING_DICTIONARY_ENTRY::spec_encode(w, e);
    assert(enc.subrange(0, 8) =~= enc);
    lemma_minidump_simple_string_dictionary_entry_encode_at(enc, 0, w, e);
}

/// A list of key-value pairs; the entries follow this count.
#[derive(Debug, Clone, PartialEq)]
pub struct MINIDUMP_SIMPLE_STRING_DICTIONARY {
    pub count: u32,
}

impl View for MINIDUMP_SIMPLE_STRING_DICTIONARY {
    type V = MINIDUMP_SIMPLE_STRING_DICTIONARY;

    open spec fn view(&self) -> MINIDUMP_SIMPLE_STRING_DICTIONARY {
        *self
    }
}

impl MINIDUMP_SIMPLE_STRING_DICTIONARY {
    /// The number of bytes this record occupies.
    pub open spec fn spec_size() -> nat {
        4
    }

    /// The record the bytes of `b` at `off` denote in byte order `e`.
    pub open spec fn spec_decode(b: Seq<u8>, off: int, e: Endianness) -> MINIDUMP_SIMPLE_STRING_DICTIONARY {
        MINIDUMP_SIMPLE_STRING_DICTIONARY {
            count: spec_read_u32(b, off, e),
        }
    }

    /// The bytes the record `w` encodes to in byte order `e`.
    pub open spec fn spec_encode(w: MINIDUMP_SIMPLE_STRING_DICTIONARY, e: Endianness) -> Seq<u8> {
        spec_encode_u32(w.count, e)
    }

    /// Reads the record at `off`, known to be in bounds.
    pub fn read_at(buf: &[u8], off: usize, e: Endianness) -> (r: Self)
        requires
            off + 4 <= buf@.len(),
        ensures
            r@ == Self::spec_decode(buf@, off as int, e),
    {
        let _blen = buf.len();  // a slice length fits usize, bounding the field offsets
        MINIDUMP_SIMPLE_STRING_DICTIONARY {
            count: read_u32(buf, off, e),
        }
    }

    /// Decodes the record at `off`: `Ok` exactly when the buffer holds
    /// `spec_size` bytes at `off`; the number returned with the record
    /// is the bytes consumed, always `spec_size`.
    pub fn decode(buf: &[u8], off: usize, e: Endianness) -> (r: Result<(Self, usize), DecodeError>)
        ensures
            match r {
                Ok((v, n)) => off + Self::spec_size() <= buf@.len()
                    && n == Self::spec_size()
                    && v@ == Self::spec_decode(buf@, off as int, e),
                Err(err) => err == DecodeError::OutOfBounds
                    && off + Self::spec_size() > buf@.len(),
            },
    {
        if buf.len() < 4 || off > buf.len() - 4 {
            return Err(DecodeError::OutOfBounds);
        }
        Ok((Self::read_at(buf, off, e), 4))
    }

    /// Appends this record's encoding in byte order `e` to `out`.
    pub fn write(&self, out: &mut Vec<u8>, e: Endianness)
        ensures
            final(out)@ == old(out)@ + Self::spec_encode(self@, e),
    {
        write_u32(out, self.count, e);
        assert(out@ =~= old(out)@ + Self::spec_encode(self@, e));
    }

    /// Encodes this record in byte order `e`.
    pub fn encode(&self, e: Endianness) -> (r: Vec<u8>)
        ensures
            r@ == Self::spec_encode(self@, e),
    {
        let mut out: Vec<u8> = Vec::new();
        self.write(&mut out, e);
        proof {
            assert(out@ =~= Self::spec_encode(self@, e));
        }
        out
    }
}

/// The encoding of a record is exactly [`MINIDUMP_SIMPLE_STRING_DICTIONARY::spec_size`] bytes.
pub proof fn lemma_minidump_simple_string_dictionary_encode_len(w: MINIDUMP_SIMPLE_STRING_DICTIONARY, e: Endianness)
    ensures
        MINIDUMP_SIMPLE_STRING_DICTIONARY::spec_encode(w, e).len() == 4,
{
    lemma_encode_lens();
}

/// Reading back the encoding of `w` found at offset `off` yields `w`.
pub proof fn lemma_minidump_simple_string_dictionary_encode_at(b: Seq<u8>, off: int, w: MINIDUMP_SIMPLE_STRING_DICTIONARY, e: Endianness)
    requires
        0 <= off,
        off + 4 <= b.len(),
        b.subrange(off, off + 4) == MINIDUMP_SIMPLE_STRING_DICTIONARY::spec_encode(w, e),
    ensures
        MINIDUMP_SIMPLE_STRING_DICTIONARY::spec_decode(b, off, e) == w,
{
    lemma_encode_lens();
    let enc0 = spec_encode_u32(w.count, e);
    assert(b.subrange(off, off + 4) == enc0);
    lemma_read_u32_at(b, off, w.count, e);
}

/// Round trip: decoding the encoding of a record yields the record, and
/// the encoding is exactly the record's fixed size.
pub proof fn lemma_minidump_simple_string_dictionary_roundtrip(w: MINIDUMP_SIMPLE_STRING_DICTIONARY, e: Endianness)
    ensures
        MINIDUMP_SIMPLE_STRING_DICTIONARY::spec_encode(w, e).len() == MINIDUMP_SIMPLE_STRING_DICTIONARY::spec_size(),
        MINIDUMP_SIMPLE_STRING_DICTIONARY::spec_decode(MINIDUMP_SIMPLE_STRING_DICTIONARY::spec_encode(w, e), 0, e) == w,
{
    lemma_minidump_simple_string_dictionary_encode_len(w, e);
    let enc = MINIDUMP_SIMPLE_STRING_DICTIONARY::spec_encode(w, e);
    assert(enc.subrange(0, 4) =~= enc);
    lemma_minidump_simple_string_dictionary_encode_at(enc, 0, w, e);
}

/// A list of offsets; the offsets follow this count.
#[derive(Debug, Clone, PartialEq)]
pub struct MINIDUMP_RVA_LIST {
    pub count: u32,
}

impl View for MINIDUMP_RVA_LIST {
    type V = MINIDUMP_RVA_LIST;

    open spec fn view(&self) -> MINIDUMP_RVA_LIST {
        *self
    }
}

impl MINIDUMP_RVA_LIST {
    /// The number of bytes this record occupies.
    pub open spec fn spec_size() -> nat {
        4
    }

    /// The record the bytes of `b` at `off` denote in byte order `e`.
    pub open spec fn spec_decode(b: Seq<u8>, off: int, e: Endianness) -> MINIDUMP_RVA_LIST {
        MINIDUMP_RVA_LIST {
            count: spec_read_u32(b, off, e),
        }
    }

    /// The bytes the record `w` encodes to in byte order `e`.
    pub open spec fn spec_encode(w: MINIDUMP_RVA_LIST, e: Endianness) -> Seq<u8> {
        spec_encode_u32(w.count, e)
    }

    /// Reads the record at `off`, known to be in bounds.
    pub fn read_at(buf: &[u8], off: usize, e: Endianness) -> (r: Self)
        requires
            off + 4 <= buf@.len(),
        ensures
            r@ == Self::spec_decode(buf@, off as int, e),
    {
        let _blen = buf.len();  // a slice length fits usize, bounding the field offsets
        MINIDUMP_RVA_LIST {
            count: read_u32(buf, off, e),
        }
    }

    /// Decodes the record at `off`: `Ok` exactly when the buffer holds
    /// `spec_size` bytes at `off`; the number returned with the record
    /// is the bytes consumed, always `spec_size`.
    pub fn decode(buf: &[u8], off: usize, e: Endianness) -> (r: Result<(Self, usize), DecodeError>)
        ensures
            match r {
                Ok((v, n)) => off + Self::spec_size() <= buf@.len()
                    && n == Self::spec_size()
                    && v@ == Self::spec_decode(buf@, off as int, e),
                Err(err) => err == DecodeError::OutOfBounds
                    && off + Self::spec_size() > buf@.len(),
            },
    {
        if buf.len() < 4 || off > buf.len() - 4 {
            return Err(DecodeError::OutOfBounds);
        }
        Ok((Self::read_at(buf, off, e), 4))
    }

    /// Appends this record's encoding in byte order `e` to `out`.
    pub fn write(&self, out: &mut Vec<u8>, e: Endianness)
        ensures
            final(out)@ == old(out)@ + Self::spec_encode(self@, e),
    {
        write_u32(out, self.count, e);
        assert(out@ =~= old(out)@ + Self::spec_encode(self@, e));
    }

    /// Encodes this record in byte order `e`.
    pub fn encode(&self, e: Endianness) -> (r: Vec<u8>)
        ensures
            r@ == Self::spec_encode(self@, e),
    {
        let mut out: Vec<u8> = Vec::new();
        self.write(&mut out, e);
        proof {
            assert(out@ =~= Self::spec_encode(self@, e));
        }
        out
    }
}

/// The encoding of a record is exactly [`MINIDUMP_RVA_LIST::spec_size`] bytes.
pub proof fn lemma_minidump_rva_list_encode_len(w: MINIDUMP_RVA_LIST, e: Endianness)
    ensures
        MINIDUMP_RVA_LIST::spec_encode(w, e).len() == 4,
{
    lemma_encode_lens();
}

/// Reading back the encoding of `w` found at offset `off` yields `w`.
pub proof fn lemma_minidump_rva_list_encode_at(b: Seq<u8>, off: int, w: MINIDUMP_RVA_LIST, e: Endianness)
    requires
        0 <= off,
        off + 4 <= b.len(),
        b.subrange(off, off + 4) == MINIDUMP_RVA_LIST::spec_encode(w, e),
    ensures
        MINIDUMP_RVA_LIST::spec_decode(b, off, e) == w,
{
    lemma_encode_lens();
    let enc0 = spec_encode_u32(w.count, e);
    assert(b.subrange(off, off + 4) == enc0);
    lemma_read_u32_at(b, off, w.count, e);
}

/// Round trip: decoding the encoding of a record yields the record, and
/// the encoding is exactly the record's fixed size.
pub proof fn lemma_minidump_rva_list_roundtrip(w: MINIDUMP_RVA_LIST, e: Endianness)
    ensures
        MINIDUMP_RVA_LIST::spec_encode(w, e).len() == MINIDUMP_RVA_LIST::spec_size(),
        MINIDUMP_RVA_LIST::spec_decode(MINIDUMP_RVA_LIST::spec_encode(w, e), 0, e) == w,
{
    lemma_minidump_rva_list_encode_len(w, e);
    let enc = MINIDUMP_RVA_LIST::spec_encode(w, e);
    assert(enc.subrange(0, 4) =~= enc);
    lemma_minidump_rva_list_encode_at(enc, 0, w, e);
}

/// A typed annotation object.
///
/// `ty` may be one of the `TYPE_` constants or a user-defined value.
#[derive(Debug, Clone, PartialEq)]
pub struct MINIDUMP_ANNOTATION {
    pub name: u32,
    pub ty: u16,
    pub _reserved: u16,
    pub value: u32,
}

impl View for MINIDUMP_ANNOTATION {
    type V = MINIDUMP_ANNOTATION;

    open spec fn view(&self) -> MINIDUMP_ANNOTATION {
        *self
    }
}

impl MINIDUMP_ANNOTATION {
    /// The number of bytes this record occupies.
    pub open spec fn spec_size() -> nat {
        12
    }

    /// The record the bytes of `b` at `off` denote in byte order `e`.
    pub open spec fn spec_decode(b: Seq<u8>, off: int, e: Endianness) -> MINIDUMP_ANNOTATION {
        MINIDUMP_ANNOTATION {
            name: spec_read_u32(b, off, e),
            ty: spec_read_u16(b, off + 4, e),
            _reserved: spec_read_u16(b, off + 6, e),
            value: spec_read_u32(b, off + 8, e),
        }
    }

    /// The bytes the record `w` encodes to in byte order `e`.
    pub open spec fn spec_encode(w: MINIDUMP_ANNOTATION, e: Endianness) -> Seq<u8> {
        spec_encode_u32(w.name, e)
            + spec_encode_u16(w.ty, e)
            + spec_encode_u16(w._reserved, e)
            + spec_encode_u32(w.value, e)
    }

    /// Reads the record at `off`, known to be in bounds.
    pub fn read_at(buf: &[u8], off: usize, e: Endianness) -> (r: Self)
        requires
            off + 12 <= buf@.len(),
        ensures
            r@ == Self::spec_decode(buf@, off as int, e),
    {
        let _blen = buf.len();  // a slice length fits usize, bounding the field offsets
        MINIDUMP_ANNOTATION {
            name: read_u32(buf, off, e),
            ty: read_u16(buf, off + 4, e),
            _reserved: read_u16(buf, off + 6, e),
            value: read_u32(buf, off + 8, e),
        }
    }

    /// Decodes the record at `off`: `Ok` exactly when the buffer holds
    /// `spec_size` bytes at `off`; the number returned with the record
    /// is the bytes consumed, always `spec_size`.
    pub fn decode(buf: &[u8], off: usize, e: Endianness) -> (r: Result<(Self, usize), DecodeError>)
        ensures
            match r {
                Ok((v, n)) => off + Self::spec_size() <= buf@.len()
                    && n == Self::spec_size()
                    && v@ == Self::spec_decode(buf@, off as int, e),
                Err(err) => err == DecodeError::OutOfBounds
                    && off + Self::spec_size() > buf@.len(),
            },
    {
        if buf.len() < 12 || off > buf.len() - 12 {
            return Err(DecodeError::OutOfBounds);
        }
        Ok((Self::read_at(buf, off, e), 12))
    }

    /// Appends this record's encoding in byte order `e` to `out`.
    pub fn write(&self, out: &mut Vec<u8>, e: Endianness)
        ensures
            final(out)@ == old(out)@ + Self::spec_encode(self@, e),
    {
        write_u32(out, self.name, e);
        write_u16(out, self.ty, e);
        write_u16(out, self._reserved, e);
        write_u32(out, self.value, e);
        assert(out@ =~= old(out)@ + Self::spec_encode(self@, e));
    }

    /// Encodes this record in byte order `e`.
    pub fn encode(&self, e: Endianness) -> (r: Vec<u8>)
        ensures
            r@ == Self::spec_encode(self@, e),
    {
        let mut out: Vec<u8> = Vec::new();
        self.write(&mut out, e);
        proof {
            assert(out@ =~= Self::spec_encode(self@, e));
        }
        out
    }
}

/// The encoding of a record is exactly [`MINIDUMP_ANNOTATION::spec_size`] bytes.
pub proof fn lemma_minidump_annotation_encode_len(w: MINIDUMP_ANNOTATION, e: Endianness)
    ensures
        MINIDUMP_ANNOTATION::spec_encode(w, e).len() == 12,
{
    lemma_encode_lens();
}

/// Reading back the encoding of `w` found at offset `off` yields `w`.
pub proof fn lemma_minidump_annotation_encode_at(b: Seq<u8>, off: int, w: MINIDUMP_ANNOTATION, e: Endianness)
    requires
        0 <= off,
        off + 12 <= b.len(),
        b.subrange(off, off + 12) == MINIDUMP_ANNOTATION::spec_encode(w, e),
    ensures
        MINIDUMP_ANNOTATION::spec_decode(b, off, e) == w,
{
    lemma_encode_lens();
    let enc0 = spec_encode_u32(w.name, e);
    let enc1 = spec_encode_u16(w.ty, e);
    let enc2 = spec_encode_u16(w._reserved, e);
    let enc3 = spec_encode_u32(w.value, e);
    let pre1 = enc0 + enc1;
    let pre2 = pre1 + enc2;
    let pre3 = pre2 + enc3;
    assert(b.subrange(off, off + 12) == pre3);
    lemma_split_at(b, off, off + 8, off + 12, pre2, enc3);
    lemma_split_at(b, off, off + 6, off + 8, pre1, enc2);
    lemma_split_at(b, off, off + 4, off + 6, enc0, enc1);
    lemma_read_u32_at(b, off, w.name, e);
    lemma_read_u16_at(b, off + 4, w.ty, e);
    lemma_read_u16_at(b, off + 6, w._reserved, e);
    lemma_read_u32_at(b, off + 8, w.value, e);
}

/// Round trip: decoding the encoding of a record yields the record, and
/// the encoding is exactly the record's fixed size.
pub proof fn lemma_minidump_annotation_roundtrip(w: MINIDUMP_ANNOTATION, e: Endianness)
    ensures
        MINIDUMP_ANNOTATION::spec_encode(w, e).len() == MINIDUMP_ANNOTATION::spec_size(),
        MINIDUMP_ANNOTATION::spec_decode(MINIDUMP_ANNOTATION::spec_encode(w, e), 0, e) == w,
{
    lemma_minidump_annotation_encode_len(w, e);
    let enc = MINIDUMP_ANNOTATION::spec_encode(w, e);
    assert(enc.subrange(0, 12) =~= enc);
    lemma_minidump_annotation_encode_at(enc, 0, w, e);
}

/// Additional Crashpad-specific information about a module carried within
/// a minidump file.
///
/// The structure is versioned: a reader that encounters a `version`
/// greater than [`MINIDUMP_MODULE_CRASHPAD_INFO::VERSION`] should assume
/// the layout it knows.
#[derive(Debug, Clone, PartialEq)]
pub struct MINIDUMP_MODULE_CRASHPAD_INFO {
    pub version: u32,
    pub list_annotations: MINIDUMP_LOCATION_DESCRIPTOR,
    pub simple_annotations: MINIDUMP_LOCATION_DESCRIPTOR,
    pub annotation_objects: MINIDUMP_LOCATION_DESCRIPTOR,
}

impl View for MINIDUMP_MODULE_CRASHPAD_INFO {
    type V = MINIDUMP_MODULE_CRASHPAD_INFO;

    open spec fn view(&self) -> MINIDUMP_MODULE_CRASHPAD_INFO {
        *self
    }
}

impl MINIDUMP_MODULE_CRASHPAD_INFO {
    /// The number of bytes this record occupies.
    pub open spec fn spec_size() -> nat {
        28
    }

    /// The record the bytes of `b` at `off` denote in byte order `e`.
    pub open spec fn spec_decode(b: Seq<u8>, off: int, e: Endianness) -> MINIDUMP_MODULE_CRASHPAD_INFO {
        MINIDUMP_MODULE_CRASHPAD_INFO {
            version: spec_read_u32(b, off, e),
            list_annotations: MINIDUMP_LOCATION_DESCRIPTOR::spec_decode(b, off + 4, e),
            simple_annotations: MINIDUMP_LOCATION_DESCRIPTOR::spec_decode(b, off + 12, e),
            annotation_objects: MINIDUMP_LOCATION_DESCRIPTOR::spec_decode(b, off + 20, e),
        }
    }

    /// The bytes the record `w` encodes to in byte order `e`.
    pub open spec fn spec_encode(w: MINIDUMP_MODULE_CRASHPAD_INFO, e: Endianness) -> Seq<u8> {
        spec_encode_u32(w.version, e)
            + MINIDUMP_LOCATION_DESCRIPTOR::spec_encode(w.list_annotations, e)
            + MINIDUMP_LOCATION_DESCRIPTOR::spec_encode(w.simple_annotations, e)
            + MINIDUMP_LOCATION_DESCRIPTOR::spec_encode(w.annotation_objects, e)
    }

    /// Reads the record at `off`, known to be in bounds.
    pub fn read_at(buf: &[u8], off: usize, e: Endianness) -> (r: Self)
        requires
            off + 28 <= buf@.len(),
        ensures
            r@ == Self::spec_decode(buf@, off as int, e),
    {
        let _blen = buf.len();  // a slice length fits usize, bounding the field offsets
        MINIDUMP_MODULE_CRASHPAD_INFO {
            version: read_u32(buf, off, e),
            list_annotations: MINIDUMP_LOCATION_DESCRIPTOR::read_at(buf, off + 4, e),
            simple_annotations: MINIDUMP_LOCATION_DESCRIPTOR::read_at(buf, off + 12, e),
            annotation_objects: MINIDUMP_LOCATION_DESCRIPTOR::read_at(buf, off + 20, e),
        }
    }

    /// Decodes the record at `off`: `Ok` exactly when the buffer holds
    /// `spec_size` bytes at `off`; the number returned with the record
    /// is the bytes consumed, always `spec_size`.
    pub fn decode(buf: &[u8], off: usize, e: Endianness) -> (r: Result<(Self, usize), DecodeError>)
        ensures
            match r {
                Ok((v, n)) => off + Self::spec_size() <= buf@.len()
                    && n == Self::spec_size()
                    && v@ == Self::spec_decode(buf@, off as int, e),
                Err(err) => err == DecodeError::OutOfBounds
                    && off + Self::spec_size() > buf@.len(),
            },
    {
        if buf.len() < 28 || off > buf.len() - 28 {
            return Err(DecodeError::OutOfBounds);
        }
        Ok((Self::read_at(buf, off, e), 28))
    }

    /// Appends this record's encoding in byte order `e` to `out`.
    pub fn write(&self, out: &mut Vec<u8>, e: Endianness)
        ensures
            final(out)@ == old(out)@ + Self::spec_encode(self@, e),
    {
        write_u32(out, self.version, e);
        self.list_annotations.write(out, e);
        self.simple_annotations.write(out, e);
        self.annotation_objects.write(out, e);
        assert(out@ =~= old(out)@ + Self::spec_encode(self@, e));
    }

    /// Encodes this record in byte order `e`.
    pub fn encode(&self, e: Endianness) -> (r: Vec<u8>)
        ensures
            r@ == Self::spec_encode(self@, e),
    {
        let mut out: Vec<u8> = Vec::new();
        self.write(&mut out, e);
        proof {
            assert(out@ =~= Self::spec_encode(self@, e));
        }
        out
    }
}

/// The encoding of a record is exactly [`MINIDUMP_MODULE_CRASHPAD_INFO::spec_size`] bytes.
pub proof fn lemma_minidump_module_crashpad_info_encode_len(w: MINIDUMP_MODULE_CRASHPAD_INFO, e: Endianness)
    ensures
        MINIDUMP_MODULE_CRASHPAD_INFO::spec_encode(w, e).len() == 28,
{
    lemma_encode_lens();
    lemma_minidump_location_descriptor_encode_len(w.list_annotations, e);
    lemma_minidump_location_descriptor_encode_len(w.simple_annotations, e);
    lemma_minidump_location_descriptor_encode_len(w.annotation_objects, e);
}

/// Reading back the encoding of `w` found at offset `off` yields `w`.
pub proof fn lemma_minidump_module_crashpad_info_encode_at(b: Seq<u8>, off: int, w: MINIDUMP_MODULE_CRASHPAD_INFO, e: Endianness)
    requires
        0 <= off,
        off + 28 <= b.len(),
        b.subrange(off, off + 28) == MINIDUMP_MODULE_CRASHPAD_INFO::spec_encode(w, e),
    ensures
        MINIDUMP_MODULE_CRASHPAD_INFO::spec_decode(b, off, e) == w,
{
    lemma_encode_lens();
    lemma_minidump_location_descriptor_encode_len(w.list_annotations, e);
    lemma_minidump_location_descriptor_encode_len(w.simple_annotations, e);
    lemma_minidump_location_descriptor_encode_len(w.annotation_objects, e);
    let enc0 = spec_encode_u32(w.version, e);
    let enc1 = MINIDUMP_LOCATION_DESCRIPTOR::spec_encode(w.list_annotations, e);
    let enc2 = MINIDUMP_LOCATION_DESCRIPTOR::spec_encode(w.simple_annotations, e);
    let enc3 = MINIDUMP_LOCATION_DESCRIPTOR::spec_encode(w.annotation_objects, e);
    let pre1 = enc0 + enc1;
    let pre2 = pre1 + enc2;
    let pre3 = pre2 + enc3;
    assert(b.subrange(off, off + 28) == pre3);
    lemma_split_at(b, off, off + 20, off + 28, pre2, enc3);
    lemma_split_at(b, off, off + 12, off + 20, pre1, enc2);
    lemma_split_at(b, off, off + 4, off + 12, enc0, enc1);
    lemma_read_u32_at(b, off, w.version, e);
    lemma_minidump_location_descriptor_encode_at(b, off + 4, w.list_annotations, e);
    lemma_minidump_location_descriptor_encode_at(b, off + 12, w.simple_annotations, e);
    lemma_minidump_location_descriptor_encode_at(b, off + 20, w.annotation_objects, e);
}

/// Round trip: decoding the encoding of a record yields the record, and
/// the encoding is exactly the record's fixed size.
pub proof fn lemma_minidump_module_crashpad_info_roundtrip(w: MINIDUMP_MODULE_CRASHPAD_INFO, e: Endianness)
    ensures
        MINIDUMP_MODULE_CRASHPAD_INFO::spec_encode(w, e).len() == MINIDUMP_MODULE_CRASHPAD_INFO::spec_size(),
        MINIDUMP_MODULE_CRASHPAD_INFO::spec_decode(MINIDUMP_MODULE_CRASHPAD_INFO::spec_encode(w, e), 0, e) == w,
{
    lemma_minidump_module_crashpad_info_encode_len(w, e);
    let enc = MINIDUMP_MODULE_CRASHPAD_INFO::spec_encode(w, e);
    assert(enc.subrange(0, 28) =~= enc);
    lemma_minidump_module_crashpad_info_encode_at(enc, 0, w, e);
}

/// A link between a [`MINIDUMP_MODULE`](crate::records::MINIDUMP_MODULE)
/// and the additional Crashpad-specific information about it.
#[derive(Debug, Clone, PartialEq)]
pub struct MINIDUMP_MODULE_CRASHPAD_INFO_LINK {
    pub minidump_module_list_index: u32,
    pub location: MINIDUMP_LOCATION_DESCRIPTOR,
}

impl View for MINIDUMP_MODULE_CRASHPAD_INFO_LINK {
    type V = MINIDUMP_MODULE_CRASHPAD_INFO_LINK;

    open spec fn view(&self) -> MINIDUMP_MODULE_CRASHPAD_INFO_LINK {
        *self
    }
}

impl MINIDUMP_MODULE_CRASHPAD_INFO_LINK {
    /// The number of bytes this record occupies.
    pub open spec fn spec_size() -> nat {
        12
    }

    /// The record the bytes of `b` at `off` denote in byte order `e`.
    pub open spec fn spec_decode(b: Seq<u8>, off: int, e: Endianness) -> MINIDUMP_MODULE_CRASHPAD_INFO_LINK {
        MINIDUMP_MODULE_CRASHPAD_INFO_LINK {
            minidump_module_list_index: spec_read_u32(b, off, e),
            location: MINIDUMP_LOCATION_DESCRIPTOR::spec_decode(b, off + 4, e),
        }
    }

    /// The bytes the record `w` encodes to in byte order `e`.
    pub open spec fn spec_encode(w: MINIDUMP_MODULE_CRASHPAD_INFO_LINK, e: Endianness) -> Seq<u8> {
        spec_encode_u32(w.minidump_module_list_index, e)
            + MINIDUMP_LOCATION_DESCRIPTOR::spec_encode(w.location, e)
    }

    /// Reads the record at `off`, known to be in bounds.
    pub fn read_at(buf: &[u8], off: usize, e: Endianness) -> (r: Self)
        requires
            off + 12 <= buf@.len(),
        ensures
            r@ == Self::spec_decode(buf@, off as int, e),
    {
        let _blen = buf.len();  // a slice length fits usize, bounding the field offsets
        MINIDUMP_MODULE_CRASHPAD_INFO_LINK {
            minidump_module_list_index: read_u32(buf, off, e),
            location: MINIDUMP_LOCATION_DESCRIPTOR::read_at(buf, off + 4, e),
        }
    }

    /// Decodes the record at `off`: `Ok` exactly when the buffer holds
    /// `spec_size` bytes at `off`; the number returned with the record
    /// is the bytes consumed, always `spec_size`.
    pub fn decode(buf: &[u8], off: usize, e: Endianness) -> (r: Result<(Self, usize), DecodeError>)
        ensures
            match r {
                Ok((v, n)) => off + Self::spec_size() <= buf@.len()
                    && n == Self::spec_size()
                    && v@ == Self::spec_decode(buf@, off as int, e),
                Err(err) => err == DecodeError::OutOfBounds
                    && off + Self::spec_size() > buf@.len(),
            },
    {
        if buf.len() < 12 || off > buf.len() - 12 {
            return Err(DecodeError::OutOfBounds);
        }
        Ok((Self::read_at(buf, off, e), 12))
    }

    /// Appends this record's encoding in byte order `e` to `out`.
    pub fn write(&self, out: &mut Vec<u8>, e: Endianness)
        ensures
            final(out)@ == old(out)@ + Self::spec_encode(self@, e),
    {
        write_u32(out, self.minidump_module_list_index, e);
        self.location.write(out, e);
        assert(out@ =~= old(out)@ + Self::spec_encode(self@, e));
    }

    /// Encodes this record in byte order `e`.
    pub fn encode(&self, e: Endianness) -> (r: Vec<u8>)
        ensures
            r@ == Self::spec_encode(self@, e),
    {
        let mut out: Vec<u8> = Vec::new();
        self.write(&mut out, e);
        proof {
            assert(out@ =~= Self::spec_encode(self@, e));
        }
        out
    }
}

/// The encoding of a record is exactly [`MINIDUMP_MODULE_CRASHPAD_INFO_LINK::spec_size`] bytes.
pub proof fn lemma_minidump_module_crashpad_info_link_encode_len(w: MINIDUMP_MODULE_CRASHPAD_INFO_LINK, e: Endianness)
    ensures
        MINIDUMP_MODULE_CRASHPAD_INFO_LINK::spec_encode(w, e).len() == 12,
{
    lemma_encode_lens();
    lemma_minidump_location_descriptor_encode_len(w.location, e);
}

/// Reading back the encoding of `w` found at offset `off` yields `w`.
pub proof fn lemma_minidump_module_crashpad_info_link_encode_at(b: Seq<u8>, off: int, w: MINIDUMP_MODULE_CRASHPAD_INFO_LINK, e: Endianness)
    requires
        0 <= off,
        off + 12 <= b.len(),
        b.subrange(off, off + 12) == MINIDUMP_MODULE_CRASHPAD_INFO_LINK::spec_encode(w, e),
    ensures
        MINIDUMP_MODULE_CRASHPAD_INFO_LINK::spec_decode(b, off, e) == w,
{
    lemma_encode_lens();
    lemma_minidump_location_descriptor_encode_len(w.location, e);
    let enc0 = spec_encode_u32(w.minidump_module_list_index, e);
    let enc1 = MINIDUMP_LOCATION_DESCRIPTOR::spec_encode(w.location, e);
    let pre1 = enc0 + enc1;
    assert(b.subrange(off, off + 12) == pre1);
    lemma_split_at(b, off, off + 4, off + 12, enc0, enc1);
    lemma_read_u32_at(b, off, w.minidump_module_list_index, e);
    lemma_minidump_location_descriptor_encode_at(b, off + 4, w.location, e);
}

/// Round trip: decoding the encoding of a record yields the record, and
/// the encoding is exactly the record's fixed size.
pub proof fn lemma_minidump_module_crashpad_info_link_roundtrip(w: MINIDUMP_MODULE_CRASHPAD_INFO_LINK, e: Endianness)
    ensures
        MINIDUMP_MODULE_CRASHPAD_INFO_LINK::spec_encode(w, e).len() == MINIDUMP_MODULE_CRASHPAD_INFO_LINK::spec_size(),
        MINIDUMP_MODULE_CRASHPAD_INFO_LINK::spec_decode(MINIDUMP_MODULE_CRASHPAD_INFO_LINK::spec_encode(w, e), 0, e) == w,
{
    lemma_minidump_module_crashpad_info_link_encode_len(w, e);
    let enc = MINIDUMP_MODULE_CRASHPAD_INFO_LINK::spec_encode(w, e);
    assert(enc.subrange(0, 12) =~= enc);
    lemma_minidump_module_crashpad_info_link_encode_at(enc, 0, w, e);
}

/// Additional Crashpad-specific information about modules; the links
/// follow this count.
#[derive(Debug, Clone, PartialEq)]
pub struct MINIDUMP_MODULE_CRASHPAD_INFO_LIST {
    pub count: u32,
}

impl View for MINIDUMP_MODULE_CRASHPAD_INFO_LIST {
    type V = MINIDUMP_MODULE_CRASHPAD_INFO_LIST;

    open spec fn view(&self) -> MINIDUMP_MODULE_CRASHPAD_INFO_LIST {
        *self
    }
}

impl MINIDUMP_MODULE_CRASHPAD_INFO_LIST {
    /// The number of bytes this record occupies.
    pub open spec fn spec_size() -> nat {
        4
    }

    /// The record the bytes of `b` at `off` denote in byte order `e`.
    pub open spec fn spec_decode(b: Seq<u8>, off: int, e: Endianness) -> MINIDUMP_MODULE_CRASHPAD_INFO_LIST {
        MINIDUMP_MODULE_CRASHPAD_INFO_LIST {
            count: spec_read_u32(b, off, e),
        }
    }

    /// The bytes the record `w` encodes to in byte order `e`.
    pub open spec fn spec_encode(w: MINIDUMP_MODULE_CRASHPAD_INFO_LIST, e: Endianness) -> Seq<u8> {
        spec_encode_u32(w.count, e)
    }

    /// Reads the record at `off`, known to be in bounds.
    pub fn read_at(buf: &[u8], off: usize, e: Endianness) -> (r: Self)
        requires
            off + 4 <= buf@.len(),
        ensures
            r@ == Self::spec_decode(buf@, off as int, e),
    {
        let _blen = buf.len();  // a slice length fits usize, bounding the field offsets
        MINIDUMP_MODULE_CRASHPAD_INFO_LIST {
            count: read_u32(buf, off, e),
        }
    }

    /// Decodes the record at `off`: `Ok` exactly when the buffer holds
    /// `spec_size` bytes at `off`; the number returned with the record
    /// is the bytes consumed, always `spec_size`.
    pub fn decode(buf: &[u8], off: usize, e: Endianness) -> (r: Result<(Self, usize), DecodeError>)
        ensures
            match r {
                Ok((v, n)) => off + Self::spec_size() <= buf@.len()
                    && n == Self::spec_size()
                    && v@ == Self::spec_decode(buf@, off as int, e),
                Err(err) => err == DecodeError::OutOfBounds
                    && off + Self::spec_size() > buf@.len(),
            },
    {
        if buf.len() < 4 || off > buf.len() - 4 {
            return Err(DecodeError::OutOfBounds);
        }
        Ok((Self::read_at(buf, off, e), 4))
    }

    /// Appends this record's encoding in byte order `e` to `out`.
    pub fn write(&self, out: &mut Vec<u8>, e: Endianness)
        ensures
            final(out)@ == old(out)@ + Self::spec_encode(self@, e),
    {
        write_u32(out, self.count, e);
        assert(out@ =~= old(out)@ + Self::spec_encode(self@, e));
    }

    /// Encodes this record in byte order `e`.
    pub fn encode(&self, e: Endianness) -> (r: Vec<u8>)
        ensures
            r@ == Self::spec_encode(self@, e),
    {
        let mut out: Vec<u8> = Vec::new();
        self.write(&mut out, e);
        proof {
            assert(out@ =~= Self::spec_encode(self@, e));
        }
        out
    }
}

/// The encoding of a record is exactly [`MINIDUMP_MODULE_CRASHPAD_INFO_LIST::spec_size`] bytes.
pub proof fn lemma_minidump_module_crashpad_info_list_encode_len(w: MINIDUMP_MODULE_CRASHPAD_INFO_LIST, e: Endianness)
    ensures
        MINIDUMP_MODULE_CRASHPAD_INFO_LIST::spec_encode(w, e).len() == 4,
{
    lemma_encode_lens();
}

/// Reading back the encoding of `w` found at offset `off` yields `w`.
pub proof fn lemma_minidump_module_crashpad_info_list_encode_at(b: Seq<u8>, off: int, w: MINIDUMP_MODULE_CRASHPAD_INFO_LIST, e: Endianness)
    requires
        0 <= off,
        off + 4 <= b.len(),
        b.subrange(off, off + 4) == MINIDUMP_MODULE_CRASHPAD_INFO_LIST::spec_encode(w, e),
    ensures
        MINIDUMP_MODULE_CRASHPAD_INFO_LIST::spec_decode(b, off, e) == w,
{
    lemma_encode_lens();
    let enc0 = spec_encode_u32(w.count, e);
    assert(b.subrange(off, off + 4) == enc0);
    lemma_read_u32_at(b, off, w.count, e);
}

/// Round trip: decoding the encoding of a record yields the record, and
/// the encoding is exactly the record's fixed size.
pub proof fn lemma_minidump_module_crashpad_info_list_roundtrip(w: MINIDUMP_MODULE_CRASHPAD_INFO_LIST, e: Endianness)
    ensures
        MINIDUMP_MODULE_CRASHPAD_INFO_LIST::spec_encode(w, e).len() == MINIDUMP_MODULE_CRASHPAD_INFO_LIST::spec_size(),
        MINIDUMP_MODULE_CRASHPAD_INFO_LIST::spec_decode(MINIDUMP_MODULE_CRASHPAD_INFO_LIST::spec_encode(w, e), 0, e) == w,
{
    lemma_minidump_module_crashpad_info_list_encode_len(w, e);
    let enc = MINIDUMP_MODULE_CRASHPAD_INFO_LIST::spec_encode(w, e);
    assert(enc.subrange(0, 4) =~= enc);
    lemma_minidump_module_crashpad_info_list_encode_at(enc, 0, w, e);
}

/// Additional Crashpad-specific information carried within a minidump
/// file.
///
/// The structure is versioned in the same way as
/// [`MINIDUMP_MODULE_CRASHPAD_INFO`].
#[derive(Debug, Clone, PartialEq)]
pub struct MINIDUMP_CRASHPAD_INFO {
    pub version: u32,
    pub report_id: GUID,
    pub client_id: GUID,
    pub simple_annotations: MINIDUMP_LOCATION_DESCRIPTOR,
    pub module_list: MINIDUMP_LOCATION_DESCRIPTOR,
}

/// The mathematical value of a [`MINIDUMP_CRASHPAD_INFO`]: the same fields with
/// sequences in place of vectors.
pub struct MINIDUMP_CRASHPAD_INFOView {
    pub version: u32,
    pub report_id: GUIDView,
    pub client_id: GUIDView,
    pub simple_annotations: MINIDUMP_LOCATION_DESCRIPTOR,
    pub module_list: MINIDUMP_LOCATION_DESCRIPTOR,
}

impl View for MINIDUMP_CRASHPAD_INFO {
    type V = MINIDUMP_CRASHPAD_INFOView;

    open spec fn view(&self) -> MINIDUMP_CRASHPAD_INFOView {
        MINIDUMP_CRASHPAD_INFOView {
            version: self.version,
            report_id: self.report_id@,
            client_id: self.client_id@,
            simple_annotations: self.simple_annotations,
            module_list: self.module_list,
        }
    }
}

impl MINIDUMP_CRASHPAD_INFOView {
    /// Well-formed: every sequence field has its fixed length.
    pub open spec fn wf(self) -> bool {
        &&& self.report_id.wf()
        &&& self.client_id.wf()
    }
}

impl MINIDUMP_CRASHPAD_INFO {
    /// The number of bytes this record occupies.
    pub open spec fn spec_size() -> nat {
        52
    }

    /// The record the bytes of `b` at `off` denote in byte order `e`.
    pub open spec fn spec_decode(b: Seq<u8>, off: int, e: Endianness) -> MINIDUMP_CRASHPAD_INFOView {
        MINIDUMP_CRASHPAD_INFOView {
            version: spec_read_u32(b, off, e),
            report_id: GUID::spec_decode(b, off + 4, e),
            client_id: GUID::spec_decode(b, off + 20, e),
            simple_annotations: MINIDUMP_LOCATION_DESCRIPTOR::spec_decode(b, off + 36, e),
            module_list: MINIDUMP_LOCATION_DESCRIPTOR::spec_decode(b, off + 44, e),
        }
    }

    /// The bytes the record `w` encodes to in byte order `e`.
    pub open spec fn spec_encode(w: MINIDUMP_CRASHPAD_INFOView, e: Endianness) -> Seq<u8> {
        spec_encode_u32(w.version, e)
            + GUID::spec_encode(w.report_id, e)
            + GUID::spec_encode(w.client_id, e)
            + MINIDUMP_LOCATION_DESCRIPTOR::spec_encode(w.simple_annotations, e)
            + MINIDUMP_LOCATION_DESCRIPTOR::spec_encode(w.module_list, e)
    }

    /// Reads the record at `off`, known to be in bounds.
    pub fn read_at(buf: &[u8], off: usize, e: Endianness) -> (r: Self)
        requires
            off + 52 <= buf@.len(),
        ensures
            r@ == Self::spec_decode(buf@, off as int, e),
    {
        let _blen = buf.len();  // a slice length fits usize, bounding the field offsets
        MINIDUMP_CRASHPAD_INFO {
            version: read_u32(buf, off, e),
            report_id: GUID::read_at(buf, off + 4, e),
            client_id: GUID::read_at(buf, off + 20, e),
            simple_annotations: MINIDUMP_LOCATION_DESCRIPTOR::read_at(buf, off + 36, e),
            module_list: MINIDUMP_LOCATION_DESCRIPTOR::read_at(buf, off + 44, e),
        }
    }

    /// Decodes the record at `off`: `Ok` exactly when the buffer holds
    /// `spec_size` bytes at `off`; the number returned with the record
    /// is the bytes consumed, always `spec_size`.
    pub fn decode(buf: &[u8], off: usize, e: Endianness) -> (r: Result<(Self, usize), DecodeError>)
        ensures
            match r {
                Ok((v, n)) => off + Self::spec_size() <= buf@.len()
                    && n == Self::spec_size()
                    && v@ == Self::spec_decode(buf@, off as int, e),
                Err(err) => err == DecodeError::OutOfBounds
                    && off + Self::spec_size() > buf@.len(),
            },
    {
        if buf.len() < 52 || off > buf.len() - 52 {
            return Err(DecodeError::OutOfBounds);
        }
        Ok((Self::read_at(buf, off, e), 52))
    }

    /// Appends this record's encoding in byte order `e` to `out`.
    pub fn write(&self, out: &mut Vec<u8>, e: Endianness)
        ensures
            final(out)@ == old(out)@ + Self::spec_encode(self@, e),
    {
        write_u32(out, self.version, e);
        self.report_id.write(out, e);
        self.client_id.write(out, e);
        self.simple_annotations.write(out, e);
        self.module_list.write(out, e);
        assert(out@ =~= old(out)@ + Self::spec_encode(self@, e));
    }

    /// Encodes this record in byte order `e`.
    pub fn encode(&self, e: Endianness) -> (r: Vec<u8>)
        ensures
            r@ == Self::spec_encode(self@, e),
    {
        let mut out: Vec<u8> = Vec::new();
        self.write(&mut out, e);
        proof {
            assert(out@ =~= Self::spec_encode(self@, e));
        }
        out
    }
}

/// The encoding of a record is exactly [`MINIDUMP_CRASHPAD_INFO::spec_size`] bytes.
pub proof fn lemma_minidump_crashpad_info_encode_len(w: MINIDUMP_CRASHPAD_INFOView, e: Endianness)
    requires
        w.wf(),
    ensures
        MINIDUMP_CRASHPAD_INFO::spec_encode(w, e).len() == 52,
{
    lemma_encode_lens();
    lemma_guid_encode_len(w.report_id, e);
    lemma_guid_encode_len(w.client_id, e);
    lemma_minidump_location_descriptor_encode_len(w.simple_annotations, e);
    lemma_minidump_location_descriptor_encode_len(w.module_list, e);
}

/// Reading back the encoding of `w` found at offset `off` yields `w`.
pub proof fn lemma_minidump_crashpad_info_encode_at(b: Seq<u8>, off: int, w: MINIDUMP_CRASHPAD_INFOView, e: Endianness)
    requires
        w.wf(),
        0 <= off,
        off + 52 <= b.len(),
        b.subrange(off, off + 52) == MINIDUMP_CRASHPAD_INFO::spec_encode(w, e),
    ensures
        MINIDUMP_CRASHPAD_INFO::spec_decode(b, off, e) == w,
{
    lemma_encode_lens();
    lemma_guid_encode_len(w.report_id, e);
    lemma_guid_encode_len(w.client_id, e);
    lemma_minidump_location_descriptor_encode_len(w.simple_annotations, e);
    lemma_minidump_location_descriptor_encode_len(w.module_list, e);
    let enc0 = spec_encode_u32(w.version, e);
    let enc1 = GUID::spec_encode(w.report_id, e);
    let enc2 = GUID::spec_encode(w.client_id, e);
    let enc3 = MINIDUMP_LOCATION_DESCRIPTOR::spec_encode(w.simple_annotations, e);
    let enc4 = MINIDUMP_LOCATION_DESCRIPTOR::spec_encode(w.module_list, e);
    let pre1 = enc0 + enc1;
    let pre2 = pre1 + enc2;
    let pre3 = pre2 + enc3;
    let pre4 = pre3 + enc4;
    assert(b.subrange(off, off + 52) == pre4);
    lemma_split_at(b, off, off + 44, off + 52, pre3, enc4);
    lemma_split_at(b, off, off + 36, off + 44, pre2, enc3);
    lemma_split_at(b, off, off + 20, off + 36, pre1, enc2);
    lemma_split_at(b, off, off + 4, off + 20, enc0, enc1);
    lemma_read_u32_at(b, off, w.version, e);
    lemma_guid_encode_at(b, off + 4, w.report_id, e);
    lemma_guid_encode_at(b, off + 20, w.client_id, e);
    lemma_minidump_location_descriptor_encode_at(b, off + 36, w.simple_annotations, e);
    lemma_minidump_location_descriptor_encode_at(b, off + 44, w.module_list, e);
}

/// Round trip: decoding the encoding of a record yields the record, and
/// the encoding is exactly the record's fixed size.
pub proof fn lemma_minidump_crashpad_info_roundtrip(w: MINIDUMP_CRASHPAD_INFOView, e: Endianness)
    requires
        w.wf(),
    ensures
        MINIDUMP_CRASHPAD_INFO::spec_encode(w, e).len() == MINIDUMP_CRASHPAD_INFO::spec_size(),
        MINIDUMP_CRASHPAD_INFO::spec_decode(MINIDUMP_CRASHPAD_INFO::spec_encode(w, e), 0, e) == w,
{
    lemma_minidump_crashpad_info_encode_len(w, e);
    let enc = MINIDUMP_CRASHPAD_INFO::spec_encode(w, e);
    assert(enc.subrange(0, 52) =~= enc);
    lemma_minidump_crashpad_info_encode_at(enc, 0, w, e);
}


/// The `count` consecutive [`MINIDUMP_LOCATION_DESCRIPTOR`] records of `b` starting at `off`.
pub open spec fn spec_read_minidump_location_descriptor_seq(b: Seq<u8>, off: int, count: int, e: Endianness) -> Seq<
    MINIDUMP_LOCATION_DESCRIPTOR,
> {
    Seq::new(count as nat, |i: int| MINIDUMP_LOCATION_DESCRIPTOR::spec_decode(b, off + 8 * i, e))
}

/// The bytes a sequence of [`MINIDUMP_LOCATION_DESCRIPTOR`] records encodes to, in order.
pub open spec fn spec_encode_minidump_location_descriptor_seq(s: Seq<MINIDUMP_LOCATION_DESCRIPTOR>, e: Endianness) -> Seq<u8>
    decreases s.len(),
{
    if s.len() == 0 {
        Seq::empty()
    } else {
        MINIDUMP_LOCATION_DESCRIPTOR::spec_encode(s[0], e) + spec_encode_minidump_location_descriptor_seq(s.drop_first(), e)
    }
}

/// The flat encoding of `s` is 8 bytes per record.
pub proof fn lemma_encode_minidump_location_descriptor_seq_len(s: Seq<MINIDUMP_LOCATION_DESCRIPTOR>, e: Endianness)
    ensures
        spec_encode_minidump_location_descriptor_seq(s, e).len() == 8 * s.len(),
    decreases s.len(),
{
    if s.len() > 0 {
        lemma_minidump_location_descriptor_encode_len(s[0], e);
        lemma_encode_minidump_location_descriptor_seq_len(s.drop_first(), e);
    }
}

/// Appending one record appends its encoding.
pub proof fn lemma_encode_minidump_location_descriptor_seq_push(s: Seq<MINIDUMP_LOCATION_DESCRIPTOR>, x: MINIDUMP_LOCATION_DESCRIPTOR, e: Endianness)
    ensures
        spec_encode_minidump_location_descriptor_seq(s.push(x), e) == spec_encode_minidump_location_descriptor_seq(s, e) + MINIDUMP_LOCATION_DESCRIPTOR::spec_encode(
            x,
            e,
        ),
    decreases s.len(),
{
    if s.len() == 0 {
        assert(s.push(x).drop_first() =~= s);
        assert(spec_encode_minidump_location_descriptor_seq(s.push(x), e) =~= spec_encode_minidump_location_descriptor_seq(s, e)
            + MINIDUMP_LOCATION_DESCRIPTOR::spec_encode(x, e));
    } else {
        assert(s.push(x).drop_first() =~= s.drop_first().push(x));
        lemma_encode_minidump_location_descriptor_seq_push(s.drop_first(), x, e);
        assert(spec_encode_minidump_location_descriptor_seq(s.push(x), e) =~= spec_encode_minidump_location_descriptor_seq(s, e)
            + MINIDUMP_LOCATION_DESCRIPTOR::spec_encode(x, e));
    }
}

/// Reading back the flat encoding of `s` found at offset `off` yields `s`.
pub proof fn lemma_read_minidump_location_descriptor_seq_at(b: Seq<u8>, off: int, s: Seq<MINIDUMP_LOCATION_DESCRIPTOR>, e: Endianness)
    requires
        0 <= off,
        off + 8 * s.len() <= b.len(),
        b.subrange(off, off + 8 * s.len()) == spec_encode_minidump_location_descriptor_seq(s, e),
    ensures
        spec_read_minidump_location_descriptor_seq(b, off, s.len() as int, e) == s,
    decreases s.len(),
{
    if s.len() == 0 {
        assert(spec_read_minidump_location_descriptor_seq(b, off, 0, e) =~= s);
    } else {
        let rest = s.drop_first();
        lemma_minidump_location_descriptor_encode_len(s[0], e);
        lemma_encode_minidump_location_descriptor_seq_len(rest, e);
        let whole = b.subrange(off, off + 8 * s.len());
        let enc0 = MINIDUMP_LOCATION_DESCRIPTOR::spec_encode(s[0], e);
        let encr = spec_encode_minidump_location_descriptor_seq(rest, e);
        assert(spec_encode_minidump_location_descriptor_seq(s, e) == enc0 + encr);
        assert forall|j: int| 0 <= j < 8 implies b.subrange(off, off + 8)[j] == enc0[j] by {
            assert(whole[j] == (enc0 + encr)[j]);
            assert((enc0 + encr)[j] == enc0[j]);
            assert(b.subrange(off, off + 8)[j] == b[off + j]);
            assert(whole[j] == b[off + j]);
        }
        assert(b.subrange(off, off + 8) =~= enc0);
        lemma_minidump_location_descriptor_encode_at(b, off, s[0], e);
        assert forall|j: int| 0 <= j < 8 * rest.len() implies b.subrange(
            off + 8,
            off + 8 + 8 * rest.len(),
        )[j] == encr[j] by {
            assert(whole[8 + j] == (enc0 + encr)[8 + j]);
            assert((enc0 + encr)[8 + j] == encr[j]);
            assert(b.subrange(off + 8, off + 8 + 8 * rest.len())[j] == b[off + 8
                + j]);
            assert(whole[8 + j] == b[off + 8 + j]);
        }
        assert(b.subrange(off + 8, off + 8 + 8 * rest.len()) =~= encr);
        lemma_read_minidump_location_descriptor_seq_at(b, off + 8, rest, e);
        assert(spec_read_minidump_location_descriptor_seq(b, off, s.len() as int, e) =~= s) by {
            assert(forall|i: int| 0 < i < s.len()
                ==> spec_read_minidump_location_descriptor_seq(b, off + 8, rest.len() as int, e)[i - 1]
                    == #[trigger] s[i]);
        }
    }
}

/// Reads `count` consecutive [`MINIDUMP_LOCATION_DESCRIPTOR`] records of `buf` starting at `off`.
pub fn read_minidump_location_descriptor_vec(buf: &[u8], off: usize, count: usize, e: Endianness) -> (v: Vec<MINIDUMP_LOCATION_DESCRIPTOR>)
    requires
        off + 8 * count <= buf@.len(),
    ensures
        v@ == spec_read_minidump_location_descriptor_seq(buf@, off as int, count as int, e),
{
    let _blen = buf.len();  // a slice length fits usize, bounding the field offsets
    let mut v: Vec<MINIDUMP_LOCATION_DESCRIPTOR> = Vec::new();
    let mut i: usize = 0;
    while i < count
        invariant
            off + 8 * count <= buf@.len(),
            buf@.len() <= usize::MAX,
            i <= count,
            v@ =~= spec_read_minidump_location_descriptor_seq(buf@, off as int, count as int, e).take(i as int),
        decreases count - i,
    {
        v.push(MINIDUMP_LOCATION_DESCRIPTOR::read_at(buf, off + 8 * i, e));
        i = i + 1;
    }
    assert(v@ =~= spec_read_minidump_location_descriptor_seq(buf@, off as int, count as int, e));
    v
}

/// Appends the flat encoding of `v` in byte order `e` to `out`.
pub fn write_minidump_location_descriptor_vec(out: &mut Vec<u8>, v: &Vec<MINIDUMP_LOCATION_DESCRIPTOR>, e: Endianness)
    ensures
        final(out)@ == old(out)@ + spec_encode_minidump_location_descriptor_seq(v@, e),
{
    let mut i: usize = 0;
    while i < v.len()
        invariant
            i <= v@.len(),
            out@ == old(out)@ + spec_encode_minidump_location_descriptor_seq(v@.take(i as int), e),
        decreases v@.len() - i,
    {
        v[i].write(out, e);
        proof {
            lemma_encode_minidump_location_descriptor_seq_push(v@.take(i as int), v@[i as int], e);
            assert(v@.take(i + 1) =~= v@.take(i as int).push(v@[i as int]));
        }
        i = i + 1;
    }
    proof {
        assert(v@.take(v@.len() as int) =~= v@);
    }
}

/// MacOS `__DATA,__crash_info` stream header.
///
/// `record_start_size` is the size of the fixed-size part of each
/// crash-info record; it is the external discriminator for the
/// versioned record family in [`crate::mac_crash_info`].
#[derive(Debug, Clone, PartialEq)]
pub struct MINIDUMP_MAC_CRASH_INFO {
    pub stream_type: u32,
    pub record_count: u32,
    pub record_start_size: u32,
    pub records: Vec<MINIDUMP_LOCATION_DESCRIPTOR>,
}

/// The mathematical value of a [`MINIDUMP_MAC_CRASH_INFO`]: the same fields with
/// sequences in place of vectors.
pub struct MINIDUMP_MAC_CRASH_INFOView {
    pub stream_type: u32,
    pub record_count: u32,
    pub record_start_size: u32,
    pub records: Seq<MINIDUMP_LOCATION_DESCRIPTOR>,
}

impl View for MINIDUMP_MAC_CRASH_INFO {
    type V = MINIDUMP_MAC_CRASH_INFOView;

    open spec fn view(&self) -> MINIDUMP_MAC_CRASH_INFOView {
        MINIDUMP_MAC_CRASH_INFOView {
            stream_type: self.stream_type,
            record_count: self.record_count,
            record_start_size: self.record_start_size,
            records: self.records@,
        }
    }
}

impl MINIDUMP_MAC_CRASH_INFOView {
    /// Well-formed: every sequence field has its fixed length.
    pub open spec fn wf(self) -> bool {
        self.records.len() == 20
    }
}

impl MINIDUMP_MAC_CRASH_INFO {
    /// The number of bytes this record occupies.
    pub open spec fn spec_size() -> nat {
        172
    }

    /// The record the bytes of `b` at `off` denote in byte order `e`.
    pub open spec fn spec_decode(b: Seq<u8>, off: int, e: Endianness) -> MINIDUMP_MAC_CRASH_INFOView {
        MINIDUMP_MAC_CRASH_INFOView {
            stream_type: spec_read_u32(b, off, e),
            record_count: spec_read_u32(b, off + 4, e),
            record_start_size: spec_read_u32(b, off + 8, e),
            records: spec_read_minidump_location_descriptor_seq(b, off + 12, 20, e),
        }
    }

    /// The bytes the record `w` encodes to in byte order `e`.
    pub open spec fn spec_encode(w: MINIDUMP_MAC_CRASH_INFOView, e: Endianness) -> Seq<u8> {
        spec_encode_u32(w.stream_type, e)
            + spec_encode_u32(w.record_count, e)
            + spec_encode_u32(w.record_start_size, e)
            + spec_encode_minidump_location_descriptor_seq(w.records, e)
    }

    /// Reads the record at `off`, known to be in bounds.
    pub fn read_at(buf: &[u8], off: usize, e: Endianness) -> (r: Self)
        requires
            off + 172 <= buf@.len(),
        ensures
            r@ == Self::spec_decode(buf@, off as int, e),
    {
        let _blen = buf.len();  // a slice length fits usize, bounding the field offsets
        MINIDUMP_MAC_CRASH_INFO {
            stream_type: read_u32(buf, off, e),
            record_count: read_u32(buf, off + 4, e),
            record_start_size: read_u32(buf, off + 8, e),
            records: read_minidump_location_descriptor_vec(buf, off + 12, 20, e),
        }
    }

    /// Decodes the record at `off`: `Ok` exactly when the buffer holds
    /// `spec_size` bytes at `off`; the number returned with the record
    /// is the bytes consumed, always `spec_size`.
    pub fn decode(buf: &[u8], off: usize, e: Endianness) -> (r: Result<(Self, usize), DecodeError>)
        ensures
            match r {
                Ok((v, n)) => off + Self::spec_size() <= buf@.len()
                    && n == Self::spec_size()
                    && v@ == Self::spec_decode(buf@, off as int, e),
                Err(err) => err == DecodeError::OutOfBounds
                    && off + Self::spec_size() > buf@.len(),
            },
    {
        if buf.len() < 172 || off > buf.len() - 172 {
            return Err(DecodeError::OutOfBounds);
        }
        Ok((Self::read_at(buf, off, e), 172))
    }

    /// Appends this record's encoding in byte order `e` to `out`.
    pub fn write(&self, out: &mut Vec<u8>, e: Endianness)
        ensures
            final(out)@ == old(out)@ + Self::spec_encode(self@, e),
    {
        write_u32(out, self.stream_type, e);
        write_u32(out, self.record_count, e);
        write_u32(out, self.record_start_size, e);
        write_minidump_location_descriptor_vec(out, &self.records, e);
        assert(out@ =~= old(out)@ + Self::spec_encode(self@, e));
    }

    /// Encodes this record in byte order `e`.
    pub fn encode(&self, e: Endianness) -> (r: Vec<u8>)
        ensures
            r@ == Self::spec_encode(self@, e),
    {
        let mut out: Vec<u8> = Vec::new();
        self.write(&mut out, e);
        proof {
            assert(out@ =~= Self::spec_encode(self@, e));
        }
        out
    }
}

/// The encoding of a record is exactly [`MINIDUMP_MAC_CRASH_INFO::spec_size`] bytes.
pub proof fn lemma_minidump_mac_crash_info_encode_len(w: MINIDUMP_MAC_CRASH_INFOView, e: Endianness)
    requires
        w.wf(),
    ensures
        MINIDUMP_MAC_CRASH_INFO::spec_encode(w, e).len() == 172,
{
    lemma_encode_lens();
    lemma_encode_minidump_location_descriptor_seq_len(w.records, e);
}

/// Reading back the encoding of `w` found at offset `off` yields `w`.
pub proof fn lemma_minidump_mac_crash_info_encode_at(b: Seq<u8>, off: int, w: MINIDUMP_MAC_CRASH_INFOView, e: Endianness)
    requires
        w.wf(),
        0 <= off,
        off + 172 <= b.len(),
        b.subrange(off, off + 172) == MINIDUMP_MAC_CRASH_INFO::spec_encode(w, e),
    ensures
        MINIDUMP_MAC_CRASH_INFO::spec_decode(b, off, e) == w,
{
    lemma_encode_lens();
    lemma_encode_minidump_location_descriptor_seq_len(w.records, e);
    let enc0 = spec_encode_u32(w.stream_type, e);
    let enc1 = spec_encode_u32(w.record_count, e);
    let enc2 = spec_encode_u32(w.record_start_size, e);
    let enc3 = spec_encode_minidump_location_descriptor_seq(w.records, e);
    let pre1 = enc0 + enc1;
    let pre2 = pre1 + enc2;
    let pre3 = pre2 + enc3;
    assert(b.subrange(off, off + 172) == pre3);
    lemma_split_at(b, off, off + 12, off + 172, pre2, enc3);
    lemma_split_at(b, off, off + 8, off + 12, pre1, enc2);
    lemma_split_at(b, off, off + 4, off + 8, enc0, enc1);
    lemma_read_u32_at(b, off, w.stream_type, e);
    lemma_read_u32_at(b, off + 4, w.record_count, e);
    lemma_read_u32_at(b, off + 8, w.record_start_size, e);
    lemma_read_minidump_location_descriptor_seq_at(b, off + 12, w.records, e);
}

/// Round trip: decoding the encoding of a record yields the record, and
/// the encoding is exactly the record's fixed size.
pub proof fn lemma_minidump_mac_crash_info_roundtrip(w: MINIDUMP_MAC_CRASH_INFOView, e: Endianness)
    requires
        w.wf(),
    ensures
        MINIDUMP_MAC_CRASH_INFO::spec_encode(w, e).len() == MINIDUMP_MAC_CRASH_INFO::spec_size(),
        MINIDUMP_MAC_CRASH_INFO::spec_decode(MINIDUMP_MAC_CRASH_INFO::spec_encode(w, e), 0, e) == w,
{
    lemma_minidump_mac_crash_info_encode_len(w, e);
    let enc = MINIDUMP_MAC_CRASH_INFO::spec_encode(w, e);
    assert(enc.subrange(0, 172) =~= enc);
    lemma_minidump_mac_crash_info_encode_at(enc, 0, w, e);
}


impl MINIDUMP_ANNOTATION {
    /// An invalid annotation. Reserved for internal use.
    pub const TYPE_INVALID: u16 = 0;

    /// A `NUL`-terminated C-string.
    pub const TYPE_STRING: u16 = 1;

    /// Clients may declare their own custom types by using values greater
    /// than this.
    pub const TYPE_USER_DEFINED: u16 = 0x8000;
}

impl MINIDUMP_MODULE_CRASHPAD_INFO {
    /// The structure's version number.
    ///
    /// Readers can use this field to determine which other fields in the
    /// structure are valid: upon encountering a greater `version`, a reader
    /// should assume the layout it knows.
    pub const VERSION: u32 = 1;
}

impl MINIDUMP_CRASHPAD_INFO {
    /// The structure's currently-defined version number.
    pub const VERSION: u32 = 1;
}

/// A variable-length UTF-8-encoded string carried within a minidump file:
/// a byte-count prefix, the payload, and a required `NUL` terminator.
#[derive(Debug, Clone, PartialEq)]
pub struct MINIDUMP_UTF8_STRING {
    /// The length of `buffer` in bytes, not including the `NUL` terminator.
    ///
    /// This is a byte count, not a count of Unicode code points.
    pub length: u32,
    /// The string, encoded in UTF-8, and terminated with a `NUL` byte.
    pub buffer: Vec<u8>,
}

/// The mathematical value of a [`MINIDUMP_UTF8_STRING`].
pub struct MINIDUMP_UTF8_STRINGView {
    pub length: u32,
    pub buffer: Seq<u8>,
}

impl View for MINIDUMP_UTF8_STRING {
    type V = MINIDUMP_UTF8_STRINGView;

    open spec fn view(&self) -> MINIDUMP_UTF8_STRINGView {
        MINIDUMP_UTF8_STRINGView { length: self.length, buffer: self.buffer@ }
    }
}

impl MINIDUMP_UTF8_STRINGView {
    /// Well-formed: the buffer holds the declared bytes plus the terminator,
    /// and ends with it.
    pub open spec fn wf(self) -> bool {
        &&& self.buffer.len() == self.length + 1
        &&& self.buffer.last() == 0u8
    }
}

impl MINIDUMP_UTF8_STRING {
    /// The record the bytes of `b` at `off` denote, given in-bounds, where
    /// the declared length is read from the prefix.
    pub open spec fn spec_decode(b: Seq<u8>, off: int, e: Endianness) -> MINIDUMP_UTF8_STRINGView {
        let l = spec_read_u32(b, off, e);
        MINIDUMP_UTF8_STRINGView { length: l, buffer: b.subrange(off + 4, off + 4 + l + 1) }
    }

    /// The bytes the record `w` encodes to: the length prefix, then the
    /// buffer (whose last byte is the terminator when `w` is well formed).
    pub open spec fn spec_encode(w: MINIDUMP_UTF8_STRINGView, e: Endianness) -> Seq<u8> {
        spec_encode_u32(w.length, e) + w.buffer
    }

    /// Decodes the record at `off`.
    ///
    /// `Ok` exactly when the length prefix and the declared `length + 1`
    /// payload bytes are in bounds and the payload ends with its required
    /// `NUL` terminator; the bytes consumed are `4 + length + 1`. A missing
    /// terminator is `MissingTerminator`; a payload length that would read
    /// past the buffer end is `OutOfBounds`, never a silent clamp.
    pub fn decode(buf: &[u8], off: usize, e: Endianness) -> (r: Result<
        (Self, usize),
        DecodeError,
    >)
        ensures
            match r {
                Ok((v, n)) => {
                    let l = spec_read_u32(buf@, off as int, e);
                    &&& off + 4 <= buf@.len()
                    &&& off + 4 + l + 1 <= buf@.len()
                    &&& buf@[off + 4 + l] == 0u8
                    &&& v@ == Self::spec_decode(buf@, off as int, e)
                    &&& v@.wf()
                    &&& n == 4 + l + 1
                },
                Err(DecodeError::OutOfBounds) => off + 4 > buf@.len() || off + 4 + spec_read_u32(
                    buf@,
                    off as int,
                    e,
                ) + 1 > buf@.len(),
                Err(err) => {
                    let l = spec_read_u32(buf@, off as int, e);
                    &&& err == DecodeError::MissingTerminator
                    &&& off + 4 + l + 1 <= buf@.len()
                    &&& buf@[off + 4 + l] != 0u8
                },
            },
    {
        let blen = buf.len();
        if blen < 4 || off > blen - 4 {
            return Err(DecodeError::OutOfBounds);
        }
        let length = read_u32(buf, off, e);
        // the payload is `length` bytes plus one terminator byte
        let avail = blen - off - 4;
        if (length as usize) >= avail {
            return Err(DecodeError::OutOfBounds);
        }
        let payload_len = length as usize + 1;
        let buffer = read_bytes(buf, off + 4, payload_len);
        if buffer[payload_len - 1] != 0 {
            return Err(DecodeError::MissingTerminator);
        }
        let v = MINIDUMP_UTF8_STRING { length, buffer };
        Ok((v, 4 + payload_len))
    }

    /// The string's payload: the buffer without its terminator byte.
    pub fn payload(&self) -> (r: &[u8])
        requires
            self@.buffer.len() > 0,
        ensures
            r@ == self@.buffer.drop_last(),
    {
        let n = self.buffer.len();
        let r = vstd::slice::slice_subrange(self.buffer.as_slice(), 0, n - 1);
        assert(r@ =~= self@.buffer.drop_last());
        r
    }

    /// Encodes this record in byte order `e`.
    pub fn encode(&self, e: Endianness) -> (r: Vec<u8>)
        ensures
            r@ == Self::spec_encode(self@, e),
    {
        let mut out: Vec<u8> = Vec::new();
        write_u32(&mut out, self.length, e);
        write_bytes(&mut out, &self.buffer);
        assert(out@ =~= Self::spec_encode(self@, e));
        out
    }
}

/// Round trip: decoding the encoding of a well-formed string record yields
/// the record.
pub proof fn lemma_minidump_utf8_string_roundtrip(w: MINIDUMP_UTF8_STRINGView, e: Endianness)
    requires
        w.wf(),
    ensures
        MINIDUMP_UTF8_STRING::spec_decode(MINIDUMP_UTF8_STRING::spec_encode(w, e), 0, e) == w,
{
    lemma_encode_lens();
    let b = MINIDUMP_UTF8_STRING::spec_encode(w, e);
    let enc0 = spec_encode_u32(w.length, e);
    assert(b.subrange(0, b.len() as int) =~= enc0 + w.buffer);
    lemma_split_at(b, 0, 4, b.len() as int, enc0, w.buffer);
    lemma_read_u32_at(b, 0, w.length, e);
}

} // verus!
