//! Fixed records of the vendor-defined minidump layout.
//!
//! Each record type carries: `spec_size`, the record's fixed byte size;
//! `spec_decode`, the mathematical value the bytes at an offset denote;
//! `spec_encode`, the bytes a value encodes to; the verified readers
//! `read_at` and `decode`; the writers `write` and `encode` used by
//! round-trip testing; and lemmas proving that decoding an encoding yields
//! the original record.

use vstd::prelude::*;

verus! {

broadcast use vstd::seq::group_seq_axioms;

use crate::codec::DecodeError;
use crate::codec::Endianness;
use crate::codec::lemma_encode_lens;
use crate::codec::lemma_encode_u32_seq_len;
use crate::codec::lemma_encode_u64_seq_len;
use crate::codec::lemma_split_at;
use crate::codec::lemma_seq_add_assoc;
use crate::codec::lemma_read_u32_at;
use crate::codec::lemma_read_u32_seq_at;
use crate::codec::lemma_read_u64_at;
use crate::codec::lemma_read_u64_seq_at;
use crate::codec::read_bytes;
use crate::codec::read_u8;
use crate::codec::read_u32;
use crate::codec::read_u32_vec;
use crate::codec::read_u64;
use crate::codec::read_u64_vec;
use crate::codec::spec_encode_u32;
use crate::codec::spec_encode_u32_seq;
use crate::codec::spec_encode_u64;
use crate::codec::spec_encode_u64_seq;
use crate::codec::spec_read_bytes;
use crate::codec::spec_read_u8;
use crate::codec::spec_read_u32;
use crate::codec::spec_read_u32_seq;
use crate::codec::spec_read_u64;
use crate::codec::spec_read_u64_seq;
use crate::codec::write_bytes;
use crate::codec::write_u8;
use crate::codec::write_u32;
use crate::codec::write_u32_vec;
use crate::codec::write_u64;
use crate::codec::write_u64_vec;

/// A location within a minidump file comprised of an offset and a size.
///
/// The offset is always measured from byte 0 of the whole file, never from
/// the containing record.
#[derive(Debug, Clone, Copy, PartialEq, Default)]
pub struct MINIDUMP_LOCATION_DESCRIPTOR {
    pub data_size: u32,
    pub rva: u32,
}

impl View for MINIDUMP_LOCATION_DESCRIPTOR {
    type V = MINIDUMP_LOCATION_DESCRIPTOR;

    open spec fn view(&self) -> MINIDUMP_LOCATION_DESCRIPTOR {
        *self
    }
}

impl MINIDUMP_LOCATION_DESCRIPTOR {
    /// The number of bytes this record occupies.
    pub open spec fn spec_size() -> nat {
        8
    }

    /// The record the bytes of `b` at `off` denote in byte order `e`.
    pub open spec fn spec_decode(b: Seq<u8>, off: int, e: Endianness) -> MINIDUMP_LOCATION_DESCRIPTOR {
        MINIDUMP_LOCATION_DESCRIPTOR {
            data_size: spec_read_u32(b, off, e),
            rva: spec_read_u32(b, off + 4, e),
        }
    }

    /// The bytes the record `w` encodes to in byte order `e`.
    pub open spec fn spec_encode(w: MINIDUMP_LOCATION_DESCRIPTOR, e: Endianness) -> Seq<u8> {
        spec_encode_u32(w.data_size, e)
            + spec_encode_u32(w.rva, e)
    }

    /// Reads the record at `off`, known to be in bounds.
    pub fn read_at(buf: &[u8], off: usize, e: Endianness) -> (r: Self)
        requires
            off + 8 <= buf@.len(),
        ensures
            r@ == Self::spec_decode(buf@, off as int, e),
    {
        let _blen = buf.len();  // a slice length fits usize, bounding the field offsets
        MINIDUMP_LOCATION_DESCRIPTOR {
            data_size: read_u32(buf, off, e),
            rva: read_u32(buf, off + 4, e),
        }
    }

    /// Decodes the record at `off`: `Ok` exactly when the buffer holds
    /// `spec_size` bytes at `off`; the number returned with the record
    /// is the bytes consumed, always `spec_size`.
    pub fn decode(buf: &[u8], off: usize, e: Endianness) -> (r: Result<(Self, usize), DecodeError>)
        ensures
            match r {
                Ok((v, n)) => off + Self::spec_size() <= buf@.len()
                    && n == Self::spec_size()
                    && v@ == Self::spec_decode(buf@, off as int, e),
                Err(err) => err == DecodeError::OutOfBounds
                    && off + Self::spec_size() > buf@.len(),
            },
    {
        if buf.len() < 8 || off > buf.len() - 8 {
            return Err(DecodeError::OutOfBounds);
        }
        Ok((Self::read_at(buf, off, e), 8))
    }

    /// Appends this record's encoding in byte order `e` to `out`.
    pub fn write(&self, out: &mut Vec<u8>, e: Endianness)
        ensures
            final(out)@ == old(out)@ + Self::spec_encode(self@, e),
    {
        write_u32(out, self.data_size, e);
        write_u32(out, self.rva, e);
        assert(out@ =~= old(out)@ + Self::spec_encode(self@, e));
    }

    /// Encodes this record in byte order `e`.
    pub fn encode(&self, e: Endianness) -> (r: Vec<u8>)
        ensures
            r@ == Self::spec_encode(self@, e),
    {
        let mut out: Vec<u8> = Vec::new();
        self.write(&mut out, e);
        proof {
            assert(out@ =~= Self::spec_encode(self@, e));
        }
        out
    }
}

/// The encoding of a record is exactly [`MINIDUMP_LOCATION_DESCRIPTOR::spec_size`] bytes.
pub proof fn lemma_minidump_location_descriptor_encode_len(w: MINIDUMP_LOCATION_DESCRIPTOR, e: Endianness)
    ensures
        MINIDUMP_LOCATION_DESCRIPTOR::spec_encode(w, e).len() == 8,
{
    lemma_encode_lens();
}

/// Reading back the encoding of `w` found at offset `off` yields `w`.
pub proof fn lemma_minidump_location_descriptor_encode_at(b: Seq<u8>, off: int, w: MINIDUMP_LOCATION_DESCRIPTOR, e: Endianness)
    requires
        0 <= off,
        off + 8 <= b.len(),
        b.subrange(off, off + 8) == MINIDUMP_LOCATION_DESCRIPTOR::spec_encode(w, e),
    ensures
        MINIDUMP_LOCATION_DESCRIPTOR::spec_decode(b, off, e) == w,
{
    lemma_encode_lens();
    let enc0 = spec_encode_u32(w.data_size, e);
    let enc1 = spec_encode_u32(w.rva, e);
    let pre1 = enc0 + enc1;
    assert(b.subrange(off, off + 8) == pre1);
    lemma_split_at(b, off, off + 4, off + 8, enc0, enc1);
    lemma_read_u32_at(b, off, w.data_size, e);
    lemma_read_u32_at(b, off + 4, w.rva, e);
}

/// Round trip: decoding the encoding of a record yields the record, and
/// the encoding is exactly the record's fixed size.
pub proof fn lemma_minidump_location_descriptor_roundtrip(w: MINIDUMP_LOCATION_DESCRIPTOR, e: Endianness)
    ensures
        MINIDUMP_LOCATION_DESCRIPTOR::spec_encode(w, e).len() == MINIDUMP_LOCATION_DESCRIPTOR::spec_size(),
        MINIDUMP_LOCATION_DESCRIPTOR::spec_decode(MINIDUMP_LOCATION_DESCRIPTOR::spec_encode(w, e), 0, e) == w,
{
    lemma_minidump_location_descriptor_encode_len(w, e);
    let enc = MINIDUMP_LOCATION_DESCRIPTOR::spec_encode(w, e);
    assert(enc.subrange(0, 8) =~= enc);
    lemma_minidump_location_descriptor_encode_at(enc, 0, w, e);
}

/// A range of memory contained within a minidump consisting of a base
/// address and a location descriptor.
#[derive(Debug, Clone, Copy, PartialEq, Default)]
pub struct MINIDUMP_MEMORY_DESCRIPTOR {
    pub start_of_memory_range: u64,
    pub memory: MINIDUMP_LOCATION_DESCRIPTOR,
}

impl View for MINIDUMP_MEMORY_DESCRIPTOR {
    type V = MINIDUMP_MEMORY_DESCRIPTOR;

    open spec fn view(&self) -> MINIDUMP_MEMORY_DESCRIPTOR {
        *self
    }
}

impl MINIDUMP_MEMORY_DESCRIPTOR {
    /// The number of bytes this record occupies.
    pub open spec fn spec_size() -> nat {
        16
    }

    /// The record the bytes of `b` at `off` denote in byte order `e`.
    pub open spec fn spec_decode(b: Seq<u8>, off: int, e: Endianness) -> MINIDUMP_MEMORY_DESCRIPTOR {
        MINIDUMP_MEMORY_DESCRIPTOR {
            start_of_memory_range: spec_read_u64(b, off, e),
            memory: MINIDUMP_LOCATION_DESCRIPTOR::spec_decode(b, off + 8, e),
        }
    }

    /// The bytes the record `w` encodes to in byte order `e`.
    pub open spec fn spec_encode(w: MINIDUMP_MEMORY_DESCRIPTOR, e: Endianness) -> Seq<u8> {
        spec_encode_u64(w.start_of_memory_range, e)
            + MINIDUMP_LOCATION_DESCRIPTOR::spec_encode(w.memory, e)
    }

    /// Reads the record at `off`, known to be in bounds.
    pub fn read_at(buf: &[u8], off: usize, e: Endianness) -> (r: Self)
        requires
            off + 16 <= buf@.len(),
        ensures
            r@ == Self::spec_decode(buf@, off as int, e),
    {
        let _blen = buf.len();  // a slice length fits usize, bounding the field offsets
        MINIDUMP_MEMORY_DESCRIPTOR {
            start_of_memory_range: read_u64(buf, off, e),
            memory: MINIDUMP_LOCATION_DESCRIPTOR::read_at(buf, off + 8, e),
        }
    }

    /// Decodes the record at `off`: `Ok` exactly when the buffer holds
    /// `spec_size` bytes at `off`; the number returned with the record
    /// is the bytes consumed, always `spec_size`.
    pub fn decode(buf: &[u8], off: usize, e: Endianness) -> (r: Result<(Self, usize), DecodeError>)
        ensures
            match r {
                Ok((v, n)) => off + Self::spec_size() <= buf@.len()
                    && n == Self::spec_size()
                    && v@ == Self::spec_decode(buf@, off as int, e),
                Err(err) => err == DecodeError::OutOfBounds
                    && off + Self::spec_size() > buf@.len(),
            },
    {
        if buf.len() < 16 || off > buf.len() - 16 {
            return Err(DecodeError::OutOfBounds);
        }
        Ok((Self::read_at(buf, off, e), 16))
    }

    /// Appends this record's encoding in byte order `e` to `out`.
    pub fn write(&self, out: &mut Vec<u8>, e: Endianness)
        ensures
            final(out)@ == old(out)@ + Self::spec_encode(self@, e),
    {
        write_u64(out, self.start_of_memory_range, e);
        self.memory.write(out, e);
        assert(out@ =~= old(out)@ + Self::spec_encode(self@, e));
    }

    /// Encodes this record in byte order `e`.
    pub fn encode(&self, e: Endianness) -> (r: Vec<u8>)
        ensures
            r@ == Self::spec_encode(self@, e),
    {
        let mut out: Vec<u8> = Vec::new();
        self.write(&mut out, e);
        proof {
            assert(out@ =~= Self::spec_encode(self@, e));
        }
        out
    }
}

/// The encoding of a record is exactly [`MINIDUMP_MEMORY_DESCRIPTOR::spec_size`] bytes.
pub proof fn lemma_minidump_memory_descriptor_encode_len(w: MINIDUMP_MEMORY_DESCRIPTOR, e: Endianness)
    ensures
        MINIDUMP_MEMORY_DESCRIPTOR::spec_encode(w, e).len() == 16,
{
    lemma_encode_lens();
    lemma_minidump_location_descriptor_encode_len(w.memory, e);
}

/// Reading back the encoding of `w` found at offset `off` yields `w`.
pub proof fn lemma_minidump_memory_descriptor_encode_at(b: Seq<u8>, off: int, w: MINIDUMP_MEMORY_DESCRIPTOR, e: Endianness)
    requires
        0 <= off,
        off + 16 <= b.len(),
        b.subrange(off, off + 16) == MINIDUMP_MEMORY_DESCRIPTOR::spec_encode(w, e),
    ensures
        MINIDUMP_MEMORY_DESCRIPTOR::spec_decode(b, off, e) == w,
{
    lemma_encode_lens();
    lemma_minidump_location_descriptor_encode_len(w.memory, e);
    let enc0 = spec_encode_u64(w.start_of_memory_range, e);
    let enc1 = MINIDUMP_LOCATION_DESCRIPTOR::spec_encode(w.memory, e);
    let pre1 = enc0 + enc1;
    assert(b.subrange(off, off + 16) == pre1);
    lemma_split_at(b, off, off + 8, off + 16, enc0, enc1);
    lemma_read_u64_at(b, off, w.start_of_memory_range, e);
    lemma_minidump_location_descriptor_encode_at(b, off + 8, w.memory, e);
}

/// Round trip: decoding the encoding of a record yields the record, and
/// the encoding is exactly the record's fixed size.
pub proof fn lemma_minidump_memory_descriptor_roundtrip(w: MINIDUMP_MEMORY_DESCRIPTOR, e: Endianness)
    ensures
        MINIDUMP_MEMORY_DESCRIPTOR::spec_encode(w, e).len() == MINIDUMP_MEMORY_DESCRIPTOR::spec_size(),
        MINIDUMP_MEMORY_DESCRIPTOR::spec_decode(MINIDUMP_MEMORY_DESCRIPTOR::spec_encode(w, e), 0, e) == w,
{
    lemma_minidump_memory_descriptor_encode_len(w, e);
    let enc = MINIDUMP_MEMORY_DESCRIPTOR::spec_encode(w, e);
    assert(enc.subrange(0, 16) =~= enc);
    lemma_minidump_memory_descriptor_encode_at(enc, 0, w, e);
}

/// Information about a data stream contained in a minidump file.
///
/// The minidump header points at an array of these records, one for each
/// stream in the dump. `stream_type` is usually one of the values that
/// [`MINIDUMP_STREAM_TYPE`](crate::streams::MINIDUMP_STREAM_TYPE) names,
/// but user streams can have arbitrary values, which are preserved.
#[derive(Debug, Clone, PartialEq)]
pub struct MINIDUMP_DIRECTORY {
    pub stream_type: u32,
    pub location: MINIDUMP_LOCATION_DESCRIPTOR,
}

impl View for MINIDUMP_DIRECTORY {
    type V = MINIDUMP_DIRECTORY;

    open spec fn view(&self) -> MINIDUMP_DIRECTORY {
        *self
    }
}

impl MINIDUMP_DIRECTORY {
    /// The number of bytes this record occupies.
    pub open spec fn spec_size() -> nat {
        12
    }

    /// The record the bytes of `b` at `off` denote in byte order `e`.
    pub open spec fn spec_decode(b: Seq<u8>, off: int, e: Endianness) -> MINIDUMP_DIRECTORY {
        MINIDUMP_DIRECTORY {
            stream_type: spec_read_u32(b, off, e),
            location: MINIDUMP_LOCATION_DESCRIPTOR::spec_decode(b, off + 4, e),
        }
    }

    /// The bytes the record `w` encodes to in byte order `e`.
    pub open spec fn spec_encode(w: MINIDUMP_DIRECTORY, e: Endianness) -> Seq<u8> {
        spec_encode_u32(w.stream_type, e)
            + MINIDUMP_LOCATION_DESCRIPTOR::spec_encode(w.location, e)
    }

    /// Reads the record at `off`, known to be in bounds.
    pub fn read_at(buf: &[u8], off: usize, e: Endianness) -> (r: Self)
        requires
            off + 12 <= buf@.len(),
        ensures
            r@ == Self::spec_decode(buf@, off as int, e),
    {
        let _blen = buf.len();  // a slice length fits usize, bounding the field offsets
        MINIDUMP_DIRECTORY {
            stream_type: read_u32(buf, off, e),
            location: MINIDUMP_LOCATION_DESCRIPTOR::read_at(buf, off + 4, e),
        }
    }

    /// Decodes the record at `off`: `Ok` exactly when the buffer holds
    /// `spec_size` bytes at `off`; the number returned with the record
    /// is the bytes consumed, always `spec_size`.
    pub fn decode(buf: &[u8], off: usize, e: Endianness) -> (r: Result<(Self, usize), DecodeError>)
        ensures
            match r {
                Ok((v, n)) => off + Self::spec_size() <= buf@.len()
                    && n == Self::spec_size()
                    && v@ == Self::spec_decode(buf@, off as int, e),
                Err(err) => err == DecodeError::OutOfBounds
                    && off + Self::spec_size() > buf@.len(),
            },
    {
        if buf.len() < 12 || off > buf.len() - 12 {
            return Err(DecodeError::OutOfBounds);
        }
        Ok((Self::read_at(buf, off, e), 12))
    }

    /// Appends this record's encoding in byte order `e` to `out`.
    pub fn write(&self, out: &mut Vec<u8>, e: Endianness)
        ensures
            final(out)@ == old(out)@ + Self::spec_encode(self@, e),
    {
        write_u32(out, self.stream_type, e);
        self.location.write(out, e);
        assert(out@ =~= old(out)@ + Self::spec_encode(self@, e));
    }

    /// Encodes this record in byte order `e`.
    pub fn encode(&self, e: Endianness) -> (r: Vec<u8>)
        ensures
            r@ == Self::spec_encode(self@, e),
    {
        let mut out: Vec<u8> = Vec::new();
        self.write(&mut out, e);
        proof {
            assert(out@ =~= Self::spec_encode(self@, e));
        }
        out
    }
}

/// The encoding of a record is exactly [`MINIDUMP_DIRECTORY::spec_size`] bytes.
pub proof fn lemma_minidump_directory_encode_len(w: MINIDUMP_DIRECTORY, e: Endianness)
    ensures
        MINIDUMP_DIRECTORY::spec_encode(w, e).len() == 12,
{
    lemma_encode_lens();
    lemma_minidump_location_descriptor_encode_len(w.location, e);
}

/// Reading back the encoding of `w` found at offset `off` yields `w`.
pub proof fn lemma_minidump_directory_encode_at(b: Seq<u8>, off: int, w: MINIDUMP_DIRECTORY, e: Endianness)
    requires
        0 <= off,
        off + 12 <= b.len(),
        b.subrange(off, off + 12) == MINIDUMP_DIRECTORY::spec_encode(w, e),
    ensures
        MINIDUMP_DIRECTORY::spec_decode(b, off, e) == w,
{
    lemma_encode_lens();
    lemma_minidump_location_descriptor_encode_len(w.location, e);
    let enc0 = spec_encode_u32(w.stream_type, e);
    let enc1 = MINIDUMP_LOCATION_DESCRIPTOR::spec_encode(w.location, e);
    let pre1 = enc0 + enc1;
    assert(b.subrange(off, off + 12) == pre1);
    lemma_split_at(b, off, off + 4, off + 12, enc0, enc1);
    lemma_read_u32_at(b, off, w.stream_type, e);
    lemma_minidump_location_descriptor_encode_at(b, off + 4, w.location, e);
}

/// Round trip: decoding the encoding of a record yields the record, and
/// the encoding is exactly the record's fixed size.
pub proof fn lemma_minidump_directory_roundtrip(w: MINIDUMP_DIRECTORY, e: Endianness)
    ensures
        MINIDUMP_DIRECTORY::spec_encode(w, e).len() == MINIDUMP_DIRECTORY::spec_size(),
        MINIDUMP_DIRECTORY::spec_decode(MINIDUMP_DIRECTORY::spec_encode(w, e), 0, e) == w,
{
    lemma_minidump_directory_encode_len(w, e);
    let enc = MINIDUMP_DIRECTORY::spec_encode(w, e);
    assert(enc.subrange(0, 12) =~= enc);
    lemma_minidump_directory_encode_at(enc, 0, w, e);
}

/// The header at the start of a minidump file.
///
/// `signature` should be [`MINIDUMP_SIGNATURE`](crate::MINIDUMP_SIGNATURE)
/// and `version` should be [`MINIDUMP_VERSION`](crate::MINIDUMP_VERSION).
/// `stream_directory_rva` points at an array of `stream_count`
/// [`MINIDUMP_DIRECTORY`] records.
#[derive(Debug, Clone, PartialEq)]
pub struct MINIDUMP_HEADER {
    pub signature: u32,
    pub version: u32,
    pub stream_count: u32,
    pub stream_directory_rva: u32,
    pub checksum: u32,
    pub time_date_stamp: u32,
    pub flags: u64,
}

impl View for MINIDUMP_HEADER {
    type V = MINIDUMP_HEADER;

    open spec fn view(&self) -> MINIDUMP_HEADER {
        *self
    }
}

impl MINIDUMP_HEADER {
    /// The number of bytes this record occupies.
    pub open spec fn spec_size() -> nat {
        32
    }

    /// The record the bytes of `b` at `off` denote in byte order `e`.
    pub open spec fn spec_decode(b: Seq<u8>, off: int, e: Endianness) -> MINIDUMP_HEADER {
        MINIDUMP_HEADER {
            signature: spec_read_u32(b, off, e),
            version: spec_read_u32(b, off + 4, e),
            stream_count: spec_read_u32(b, off + 8, e),
            stream_directory_rva: spec_read_u32(b, off + 12, e),
            checksum: spec_read_u32(b, off + 16, e),
            time_date_stamp: spec_read_u32(b, off + 20, e),
            flags: spec_read_u64(b, off + 24, e),
        }
    }

    /// The bytes the record `w` encodes to in byte order `e`.
    pub open spec fn spec_encode(w: MINIDUMP_HEADER, e: Endianness) -> Seq<u8> {
        spec_encode_u32(w.signature, e)
            + spec_encode_u32(w.version, e)
            + spec_encode_u32(w.stream_count, e)
            + spec_encode_u32(w.stream_directory_rva, e)
            + spec_encode_u32(w.checksum, e)
            + spec_encode_u32(w.time_date_stamp, e)
            + spec_encode_u64(w.flags, e)
    }

    /// Reads the record at `off`, known to be in bounds.
    pub fn read_at(buf: &[u8], off: usize, e: Endianness) -> (r: Self)
        requires
            off + 32 <= buf@.len(),
        ensures
            r@ == Self::spec_decode(buf@, off as int, e),
    {
        let _blen = buf.len();  // a slice length fits usize, bounding the field offsets
        MINIDUMP_HEADER {
            signature: read_u32(buf, off, e),
            version: read_u32(buf, off + 4, e),
            stream_count: read_u32(buf, off + 8, e),
            stream_directory_rva: read_u32(buf, off + 12, e),
            checksum: read_u32(buf, off + 16, e),
            time_date_stamp: read_u32(buf, off + 20, e),
            flags: read_u64(buf, off + 24, e),
        }
    }

    /// Decodes the record at `off`: `Ok` exactly when the buffer holds
    /// `spec_size` bytes at `off`; the number returned with the record
    /// is the bytes consumed, always `spec_size`.
    pub fn decode(buf: &[u8], off: usize, e: Endianness) -> (r: Result<(Self, usize), DecodeError>)
        ensures
            match r {
                Ok((v, n)) => off + Self::spec_size() <= buf@.len()
                    && n == Self::spec_size()
                    && v@ == Self::spec_decode(buf@, off as int, e),
                Err(err) => err == DecodeError::OutOfBounds
                    && off + Self::spec_size() > buf@.len(),
            },
    {
        if buf.len() < 32 || off > buf.len() - 32 {
            return Err(DecodeError::OutOfBounds);
        }
        Ok((Self::read_at(buf, off, e), 32))
    }

    /// Appends this record's encoding in byte order `e` to `out`.
    pub fn write(&self, out: &mut Vec<u8>, e: Endianness)
        ensures
            final(out)@ == old(out)@ + Self::spec_encode(self@, e),
    {
        write_u32(out, self.signature, e);
        write_u32(out, self.version, e);
        write_u32(out, self.stream_count, e);
        write_u32(out, self.stream_directory_rva, e);
        write_u32(out, self.checksum, e);
        write_u32(out, self.time_date_stamp, e);
        write_u64(out, self.flags, e);
        assert(out@ =~= old(out)@ + Self::spec_encode(self@, e));
    }

    /// Encodes this record in byte order `e`.
    pub fn encode(&self, e: Endianness) -> (r: Vec<u8>)
        ensures
            r@ == Self::spec_encode(self@, e),
    {
        let mut out: Vec<u8> = Vec::new();
        self.write(&mut out, e);
        proof {
            assert(out@ =~= Self::spec_encode(self@, e));
        }
        out
    }
}

/// The encoding of a record is exactly [`MINIDUMP_HEADER::spec_size`] bytes.
pub proof fn lemma_minidump_header_encode_len(w: MINIDUMP_HEADER, e: Endianness)
    ensures
        MINIDUMP_HEADER::spec_encode(w, e).len() == 32,
{
    lemma_encode_lens();
}

/// Reading back the encoding of `w` found at offset `off` yields `w`.
pub proof fn lemma_minidump_header_encode_at(b: Seq<u8>, off: int, w: MINIDUMP_HEADER, e: Endianness)
    requires
        0 <= off,
        off + 32 <= b.len(),
        b.subrange(off, off + 32) == MINIDUMP_HEADER::spec_encode(w, e),
    ensures
        MINIDUMP_HEADER::spec_decode(b, off, e) == w,
{
    lemma_encode_lens();
    let enc0 = spec_encode_u32(w.signature, e);
    let enc1 = spec_encode_u32(w.version, e);
    let enc2 = spec_encode_u32(w.stream_count, e);
    let enc3 = spec_encode_u32(w.stream_directory_rva, e);
    let enc4 = spec_encode_u32(w.checksum, e);
    let enc5 = spec_encode_u32(w.time_date_stamp, e);
    let enc6 = spec_encode_u64(w.flags, e);
    let pre1 = enc0 + enc1;
    let pre2 = pre1 + enc2;
    let pre3 = pre2 + enc3;
    let pre4 = pre3 + enc4;
    let pre5 = pre4 + enc5;
    let pre6 = pre5 + enc6;
    assert(b.subrange(off, off + 32) == pre6);
    lemma_split_at(b, off, off + 24, off + 32, pre5, enc6);
    lemma_split_at(b, off, off + 20, off + 24, pre4, enc5);
    lemma_split_at(b, off, off + 16, off + 20, pre3, enc4);
    lemma_split_at(b, off, off + 12, off + 16, pre2, enc3);
    lemma_split_at(b, off, off + 8, off + 12, pre1, enc2);
    lemma_split_at(b, off, off + 4, off + 8, enc0, enc1);
    lemma_read_u32_at(b, off, w.signature, e);
    lemma_read_u32_at(b, off + 4, w.version, e);
    lemma_read_u32_at(b, off + 8, w.stream_count, e);
    lemma_read_u32_at(b, off + 12, w.stream_directory_rva, e);
    lemma_read_u32_at(b, off + 16, w.checksum, e);
    lemma_read_u32_at(b, off + 20, w.time_date_stamp, e);
    lemma_read_u64_at(b, off + 24, w.flags, e);
}

/// Round trip: decoding the encoding of a record yields the record, and
/// the encoding is exactly the record's fixed size.
pub proof fn lemma_minidump_header_roundtrip(w: MINIDUMP_HEADER, e: Endianness)
    ensures
        MINIDUMP_HEADER::spec_encode(w, e).len() == MINIDUMP_HEADER::spec_size(),
        MINIDUMP_HEADER::spec_decode(MINIDUMP_HEADER::spec_encode(w, e), 0, e) == w,
{
    lemma_minidump_header_encode_len(w, e);
    let enc = MINIDUMP_HEADER::spec_encode(w, e);
    assert(enc.subrange(0, 32) =~= enc);
    lemma_minidump_header_encode_at(enc, 0, w, e);
}

/// The name of a thread, found in the thread names stream.
///
/// `thread_name_rva` is a rare 64-bit offset to a length-prefixed UTF-16LE
/// string; it must not be confused with the 32-bit offsets used elsewhere.
#[derive(Debug, Clone, PartialEq, Default)]
pub struct MINIDUMP_THREAD_NAME {
    pub thread_id: u32,
    pub thread_name_rva: u64,
}

impl View for MINIDUMP_THREAD_NAME {
    type V = MINIDUMP_THREAD_NAME;

    open spec fn view(&self) -> MINIDUMP_THREAD_NAME {
        *self
    }
}

impl MINIDUMP_THREAD_NAME {
    /// The number of bytes this record occupies.
    pub open spec fn spec_size() -> nat {
        12
    }

    /// The record the bytes of `b` at `off` denote in byte order `e`.
    pub open spec fn spec_decode(b: Seq<u8>, off: int, e: Endianness) -> MINIDUMP_THREAD_NAME {
        MINIDUMP_THREAD_NAME {
            thread_id: spec_read_u32(b, off, e),
            thread_name_rva: spec_read_u64(b, off + 4, e),
        }
    }

    /// The bytes the record `w` encodes to in byte order `e`.
    pub open spec fn spec_encode(w: MINIDUMP_THREAD_NAME, e: Endianness) -> Seq<u8> {
        spec_encode_u32(w.thread_id, e)
            + spec_encode_u64(w.thread_name_rva, e)
    }

    /// Reads the record at `off`, known to be in bounds.
    pub fn read_at(buf: &[u8], off: usize, e: Endianness) -> (r: Self)
        requires
            off + 12 <= buf@.len(),
        ensures
            r@ == Self::spec_decode(buf@, off as int, e),
    {
        let _blen = buf.len();  // a slice length fits usize, bounding the field offsets
        MINIDUMP_THREAD_NAME {
            thread_id: read_u32(buf, off, e),
            thread_name_rva: read_u64(buf, off + 4, e),
        }
    }

    /// Decodes the record at `off`: `Ok` exactly when the buffer holds
    /// `spec_size` bytes at `off`; the number returned with the record
    /// is the bytes consumed, always `spec_size`.
    pub fn decode(buf: &[u8], off: usize, e: Endianness) -> (r: Result<(Self, usize), DecodeError>)
        ensures
            match r {
                Ok((v, n)) => off + Self::spec_size() <= buf@.len()
                    && n == Self::spec_size()
                    && v@ == Self::spec_decode(buf@, off as int, e),
                Err(err) => err == DecodeError::OutOfBounds
                    && off + Self::spec_size() > buf@.len(),
            },
    {
        if buf.len() < 12 || off > buf.len() - 12 {
            return Err(DecodeError::OutOfBounds);
        }
        Ok((Self::read_at(buf, off, e), 12))
    }

    /// Appends this record's encoding in byte order `e` to `out`.
    pub fn write(&self, out: &mut Vec<u8>, e: Endianness)
        ensures
            final(out)@ == old(out)@ + Self::spec_encode(self@, e),
    {
        write_u32(out, self.thread_id, e);
        write_u64(out, self.thread_name_rva, e);
        assert(out@ =~= old(out)@ + Self::spec_encode(self@, e));
    }

    /// Encodes this record in byte order `e`.
    pub fn encode(&self, e: Endianness) -> (r: Vec<u8>)
        ensures
            r@ == Self::spec_encode(self@, e),
    {
        let mut out: Vec<u8> = Vec::new();
        self.write(&mut out, e);
        proof {
            assert(out@ =~= Self::spec_encode(self@, e));
        }
        out
    }
}

/// The encoding of a record is exactly [`MINIDUMP_THREAD_NAME::spec_size`] bytes.
pub proof fn lemma_minidump_thread_name_encode_len(w: MINIDUMP_THREAD_NAME, e: Endianness)
    ensures
        MINIDUMP_THREAD_NAME::spec_encode(w, e).len() == 12,
{
    lemma_encode_lens();
}

/// Reading back the encoding of `w` found at offset `off` yields `w`.
pub proof fn lemma_minidump_thread_name_encode_at(b: Seq<u8>, off: int, w: MINIDUMP_THREAD_NAME, e: Endianness)
    requires
        0 <= off,
        off + 12 <= b.len(),
        b.subrange(off, off + 12) == MINIDUMP_THREAD_NAME::spec_encode(w, e),
    ensures
        MINIDUMP_THREAD_NAME::spec_decode(b, off, e) == w,
{
    lemma_encode_lens();
    let enc0 = spec_encode_u32(w.thread_id, e);
    let enc1 = spec_encode_u64(w.thread_name_rva, e);
    let pre1 = enc0 + enc1;
    assert(b.subrange(off, off + 12) == pre1);
    lemma_split_at(b, off, off + 4, off + 12, enc0, enc1);
    lemma_read_u32_at(b, off, w.thread_id, e);
    lemma_read_u64_at(b, off + 4, w.thread_name_rva, e);
}

/// Round trip: decoding the encoding of a record yields the record, and
/// the encoding is exactly the record's fixed size.
pub proof fn lemma_minidump_thread_name_roundtrip(w: MINIDUMP_THREAD_NAME, e: Endianness)
    ensures
        MINIDUMP_THREAD_NAME::spec_encode(w, e).len() == MINIDUMP_THREAD_NAME::spec_size(),
        MINIDUMP_THREAD_NAME::spec_decode(MINIDUMP_THREAD_NAME::spec_encode(w, e), 0, e) == w,
{
    lemma_minidump_thread_name_encode_len(w, e);
    let enc = MINIDUMP_THREAD_NAME::spec_encode(w, e);
    assert(enc.subrange(0, 12) =~= enc);
    lemma_minidump_thread_name_encode_at(enc, 0, w, e);
}

/// The expected value of the `signature` field of [`VS_FIXEDFILEINFO`].
pub const VS_FFI_SIGNATURE: u32 = 0xfeef04bd;

/// The expected value of the `struct_version` field of [`VS_FIXEDFILEINFO`].
pub const VS_FFI_STRUCVERSION: u32 = 0x00010000;

/// Version information for a file.
#[derive(Debug, Clone, PartialEq, Default)]
pub struct VS_FIXEDFILEINFO {
    pub signature: u32,
    pub struct_version: u32,
    pub file_version_hi: u32,
    pub file_version_lo: u32,
    pub product_version_hi: u32,
    pub product_version_lo: u32,
    pub file_flags_mask: u32,
    pub file_flags: u32,
    pub file_os: u32,
    pub file_type: u32,
    pub file_subtype: u32,
    pub file_date_hi: u32,
    pub file_date_lo: u32,
}

impl View for VS_FIXEDFILEINFO {
    type V = VS_FIXEDFILEINFO;

    open spec fn view(&self) -> VS_FIXEDFILEINFO {
        *self
    }
}

impl VS_FIXEDFILEINFO {
    /// The number of bytes this record occupies.
    pub open spec fn spec_size() -> nat {
        52
    }

    /// The record the bytes of `b` at `off` denote in byte order `e`.
    pub open spec fn spec_decode(b: Seq<u8>, off: int, e: Endianness) -> VS_FIXEDFILEINFO {
        VS_FIXEDFILEINFO {
            signature: spec_read_u32(b, off, e),
            struct_version: spec_read_u32(b, off + 4, e),
            file_version_hi: spec_read_u32(b, off + 8, e),
            file_version_lo: spec_read_u32(b, off + 12, e),
            product_version_hi: spec_read_u32(b, off + 16, e),
            product_version_lo: spec_read_u32(b, off + 20, e),
            file_flags_mask: spec_read_u32(b, off + 24, e),
            file_flags: spec_read_u32(b, off + 28, e),
            file_os: spec_read_u32(b, off + 32, e),
            file_type: spec_read_u32(b, off + 36, e),
            file_subtype: spec_read_u32(b, off + 40, e),
            file_date_hi: spec_read_u32(b, off + 44, e),
            file_date_lo: spec_read_u32(b, off + 48, e),
        }
    }

    /// The bytes the record `w` encodes to in byte order `e`.
    pub open spec fn spec_encode(w: VS_FIXEDFILEINFO, e: Endianness) -> Seq<u8> {
        spec_encode_u32(w.signature, e)
            + spec_encode_u32(w.struct_version, e)
            + spec_encode_u32(w.file_version_hi, e)
            + spec_encode_u32(w.file_version_lo, e)
            + spec_encode_u32(w.product_version_hi, e)
            + spec_encode_u32(w.product_version_lo, e)
            + spec_encode_u32(w.file_flags_mask, e)
            + spec_encode_u32(w.file_flags, e)
            + spec_encode_u32(w.file_os, e)
            + spec_encode_u32(w.file_type, e)
            + spec_encode_u32(w.file_subtype, e)
            + spec_encode_u32(w.file_date_hi, e)
            + spec_encode_u32(w.file_date_lo, e)
    }

    /// Reads the record at `off`, known to be in bounds.
    pub fn read_at(buf: &[u8], off: usize, e: Endianness) -> (r: Self)
        requires
            off + 52 <= buf@.len(),
        ensures
            r@ == Self::spec_decode(buf@, off as int, e),
    {
        let _blen = buf.len();  // a slice length fits usize, bounding the field offsets
        VS_FIXEDFILEINFO {
            signature: read_u32(buf, off, e),
            struct_version: read_u32(buf, off + 4, e),
            file_version_hi: read_u32(buf, off + 8, e),
            file_version_lo: read_u32(buf, off + 12, e),
            product_version_hi: read_u32(buf, off + 16, e),
            product_version_lo: read_u32(buf, off + 20, e),
            file_flags_mask: read_u32(buf, off + 24, e),
            file_flags: read_u32(buf, off + 28, e),
            file_os: read_u32(buf, off + 32, e),
            file_type: read_u32(buf, off + 36, e),
            file_subtype: read_u32(buf, off + 40, e),
            file_date_hi: read_u32(buf, off + 44, e),
            file_date_lo: read_u32(buf, off + 48, e),
        }
    }

    /// Decodes the record at `off`: `Ok` exactly when the buffer holds
    /// `spec_size` bytes at `off`; the number returned with the record
    /// is the bytes consumed, always `spec_size`.
    pub fn decode(buf: &[u8], off: usize, e: Endianness) -> (r: Result<(Self, usize), DecodeError>)
        ensures
            match r {
                Ok((v, n)) => off + Self::spec_size() <= buf@.len()
                    && n == Self::spec_size()
                    && v@ == Self::spec_decode(buf@, off as int, e),
                Err(err) => err == DecodeError::OutOfBounds
                    && off + Self::spec_size() > buf@.len(),
            },
    {
        if buf.len() < 52 || off > buf.len() - 52 {
            return Err(DecodeError::OutOfBounds);
        }
        Ok((Self::read_at(buf, off, e), 52))
    }

    /// Appends this record's encoding in byte order `e` to `out`.
    #[verifier::spinoff_prover]
    #[verifier::rlimit(100)]
    pub fn write(&self, out: &mut Vec<u8>, e: Endianness)
        ensures
            final(out)@ == old(out)@ + Self::spec_encode(self@, e),
    {
        let ghost enc0 = spec_encode_u32(self@.signature, e);
        let ghost enc1 = spec_encode_u32(self@.struct_version, e);
        let ghost enc2 = spec_encode_u32(self@.file_version_hi, e);
        let ghost enc3 = spec_encode_u32(self@.file_version_lo, e);
        let ghost enc4 = spec_encode_u32(self@.product_version_hi, e);
        let ghost enc5 = spec_encode_u32(self@.product_version_lo, e);
        let ghost enc6 = spec_encode_u32(self@.file_flags_mask, e);
        let ghost enc7 = spec_encode_u32(self@.file_flags, e);
        let ghost enc8 = spec_encode_u32(self@.file_os, e);
        let ghost enc9 = spec_encode_u32(self@.file_type, e);
        let ghost enc10 = spec_encode_u32(self@.file_subtype, e);
        let ghost enc11 = spec_encode_u32(self@.file_date_hi, e);
        let ghost enc12 = spec_encode_u32(self@.file_date_lo, e);
        let ghost pre1 = enc0 + enc1;
        let ghost pre2 = pre1 + enc2;
        let ghost pre3 = pre2 + enc3;
        let ghost pre4 = pre3 + enc4;
        let ghost pre5 = pre4 + enc5;
        let ghost pre6 = pre5 + enc6;
        let ghost pre7 = pre6 + enc7;
        let ghost pre8 = pre7 + enc8;
        let ghost pre9 = pre8 + enc9;
        let ghost pre10 = pre9 + enc10;
        let ghost pre11 = pre10 + enc11;
        let ghost pre12 = pre11 + enc12;
        write_u32(out, self.signature, e);
        proof { assert(out@ == old(out)@ + enc0); }
        write_u32(out, self.struct_version, e);
        proof {
            lemma_seq_add_assoc(old(out)@, enc0, enc1);
            assert(out@ == old(out)@ + pre1);
        }
        write_u32(out, self.file_version_hi, e);
        proof {
            lemma_seq_add_assoc(old(out)@, pre1, enc2);
            assert(out@ == old(out)@ + pre2);
        }
        write_u32(out, self.file_version_lo, e);
        proof {
            lemma_seq_add_assoc(old(out)@, pre2, enc3);
            assert(out@ == old(out)@ + pre3);
        }
        write_u32(out, self.product_version_hi, e);
        proof {
            lemma_seq_add_assoc(old(out)@, pre3, enc4);
            assert(out@ == old(out)@ + pre4);
        }
        write_u32(out, self.product_version_lo, e);
        proof {
            lemma_seq_add_assoc(old(out)@, pre4, enc5);
            assert(out@ == old(out)@ + pre5);
        }
        write_u32(out, self.file_flags_mask, e);
        proof {
            lemma_seq_add_assoc(old(out)@, pre5, enc6);
            assert(out@ == old(out)@ + pre6);
        }
        write_u32(out, self.file_flags, e);
        proof {
            lemma_seq_add_assoc(old(out)@, pre6, enc7);
            assert(out@ == old(out)@ + pre7);
        }
        write_u32(out, self.file_os, e);
        proof {
            lemma_seq_add_assoc(old(out)@, pre7, enc8);
            assert(out@ == old(out)@ + pre8);
        }
        write_u32(out, self.file_type, e);
        proof {
            lemma_seq_add_assoc(old(out)@, pre8, enc9);
            assert(out@ == old(out)@ + pre9);
        }
        write_u32(out, self.file_subtype, e);
        proof {
            lemma_seq_add_assoc(old(out)@, pre9, enc10);
            assert(out@ == old(out)@ + pre10);
        }
        write_u32(out, self.file_date_hi, e);
        proof {
            lemma_seq_add_assoc(old(out)@, pre10, enc11);
            assert(out@ == old(out)@ + pre11);
        }
        write_u32(out, self.file_date_lo, e);
        proof {
            lemma_seq_add_assoc(old(out)@, pre11, enc12);
            assert(out@ == old(out)@ + pre12);
        }
        assert(out@ == old(out)@ + Self::spec_encode(self@, e));
    }

    /// Encodes this record in byte order `e`.
    pub fn encode(&self, e: Endianness) -> (r: Vec<u8>)
        ensures
            r@ == Self::spec_encode(self@, e),
    {
        let mut out: Vec<u8> = Vec::new();
        self.write(&mut out, e);
        proof {
            assert(out@ =~= Self::spec_encode(self@, e));
        }
        out
    }
}

/// The encoding of a record is exactly [`VS_FIXEDFILEINFO::spec_size`] bytes.
pub proof fn lemma_vs_fixedfileinfo_encode_len(w: VS_FIXEDFILEINFO, e: Endianness)
    ensures
        VS_FIXEDFILEINFO::spec_encode(w, e).len() == 52,
{
    lemma_encode_lens();
}

/// Reading back the encoding of `w` found at offset `off` yields `w`.
pub proof fn lemma_vs_fixedfileinfo_encode_at(b: Seq<u8>, off: int, w: VS_FIXEDFILEINFO, e: Endianness)
    requires
        0 <= off,
        off + 52 <= b.len(),
        b.subrange(off, off + 52) == VS_FIXEDFILEINFO::spec_encode(w, e),
    ensures
        VS_FIXEDFILEINFO::spec_decode(b, off, e) == w,
{
    lemma_encode_lens();
    let enc0 = spec_encode_u32(w.signature, e);
    let enc1 = spec_encode_u32(w.struct_version, e);
    let enc2 = spec_encode_u32(w.file_version_hi, e);
    let enc3 = spec_encode_u32(w.file_version_lo, e);
    let enc4 = spec_encode_u32(w.product_version_hi, e);
    let enc5 = spec_encode_u32(w.product_version_lo, e);
    let enc6 = spec_encode_u32(w.file_flags_mask, e);
    let enc7 = spec_encode_u32(w.file_flags, e);
    let enc8 = spec_encode_u32(w.file_os, e);
    let enc9 = spec_encode_u32(w.file_type, e);
    let enc10 = spec_encode_u32(w.file_subtype, e);
    let enc11 = spec_encode_u32(w.file_date_hi, e);
    let enc12 = spec_encode_u32(w.file_date_lo, e);
    let pre1 = enc0 + enc1;
    let pre2 = pre1 + enc2;
    let pre3 = pre2 + enc3;
    let pre4 = pre3 + enc4;
    let pre5 = pre4 + enc5;
    let pre6 = pre5 + enc6;
    let pre7 = pre6 + enc7;
    let pre8 = pre7 + enc8;
    let pre9 = pre8 + enc9;
    let pre10 = pre9 + enc10;
    let pre11 = pre10 + enc11;
    let pre12 = pre11 + enc12;
    assert(b.subrange(off, off + 52) == pre12);
    lemma_split_at(b, off, off + 48, off + 52, pre11, enc12);
    lemma_split_at(b, off, off + 44, off + 48, pre10, enc11);
    lemma_split_at(b, off, off + 40, off + 44, pre9, enc10);
    lemma_split_at(b, off, off + 36, off + 40, pre8, enc9);
    lemma_split_at(b, off, off + 32, off + 36, pre7, enc8);
    lemma_split_at(b, off, off + 28, off + 32, pre6, enc7);
    lemma_split_at(b, off, off + 24, off + 28, pre5, enc6);
    lemma_split_at(b, off, off + 20, off + 24, pre4, enc5);
    lemma_split_at(b, off, off + 16, off + 20, pre3, enc4);
    lemma_split_at(b, off, off + 12, off + 16, pre2, enc3);
    lemma_split_at(b, off, off + 8, off + 12, pre1, enc2);
    lemma_split_at(b, off, off + 4, off + 8, enc0, enc1);
    lemma_read_u32_at(b, off, w.signature, e);
    lemma_read_u32_at(b, off + 4, w.struct_version, e);
    lemma_read_u32_at(b, off + 8, w.file_version_hi, e);
    lemma_read_u32_at(b, off + 12, w.file_version_lo, e);
    lemma_read_u32_at(b, off + 16, w.product_version_hi, e);
    lemma_read_u32_at(b, off + 20, w.product_version_lo, e);
    lemma_read_u32_at(b, off + 24, w.file_flags_mask, e);
    lemma_read_u32_at(b, off + 28, w.file_flags, e);
    lemma_read_u32_at(b, off + 32, w.file_os, e);
    lemma_read_u32_at(b, off + 36, w.file_type, e);
    lemma_read_u32_at(b, off + 40, w.file_subtype, e);
    lemma_read_u32_at(b, off + 44, w.file_date_hi, e);
    lemma_read_u32_at(b, off + 48, w.file_date_lo, e);
}

/// Round trip: decoding the encoding of a record yields the record, and
/// the encoding is exactly the record's fixed size.
pub proof fn lemma_vs_fixedfileinfo_roundtrip(w: VS_FIXEDFILEINFO, e: Endianness)
    ensures
        VS_FIXEDFILEINFO::spec_encode(w, e).len() == VS_FIXEDFILEINFO::spec_size(),
        VS_FIXEDFILEINFO::spec_decode(VS_FIXEDFILEINFO::spec_encode(w, e), 0, e) == w,
{
    lemma_vs_fixedfileinfo_encode_len(w, e);
    let enc = VS_FIXEDFILEINFO::spec_encode(w, e);
    assert(enc.subrange(0, 52) =~= enc);
    lemma_vs_fixedfileinfo_encode_at(enc, 0, w, e);
}

/// Information about a single module (executable or shared library) from a
/// minidump.
///
/// The reserved fields are decoded and preserved rather than skipped,
/// because some producers repurpose them.
#[derive(Debug, Clone, PartialEq)]
pub struct MINIDUMP_MODULE {
    pub base_of_image: u64,
    pub size_of_image: u32,
    pub checksum: u32,
    pub time_date_stamp: u32,
    pub module_name_rva: u32,
    pub version_info: VS_FIXEDFILEINFO,
    pub cv_record: MINIDUMP_LOCATION_DESCRIPTOR,
    pub misc_record: MINIDUMP_LOCATION_DESCRIPTOR,
    pub reserved0: Vec<u32>,
    pub reserved1: Vec<u32>,
}

/// The mathematical value of a [`MINIDUMP_MODULE`]: the same fields with
/// sequences in place of vectors.
pub struct MINIDUMP_MODULEView {
    pub base_of_image: u64,
    pub size_of_image: u32,
    pub checksum: u32,
    pub time_date_stamp: u32,
    pub module_name_rva: u32,
    pub version_info: VS_FIXEDFILEINFO,
    pub cv_record: MINIDUMP_LOCATION_DESCRIPTOR,
    pub misc_record: MINIDUMP_LOCATION_DESCRIPTOR,
    pub reserved0: Seq<u32>,
    pub reserved1: Seq<u32>,
}

impl View for MINIDUMP_MODULE {
    type V = MINIDUMP_MODULEView;

    open spec fn view(&self) -> MINIDUMP_MODULEView {
        MINIDUMP_MODULEView {
            base_of_image: self.base_of_image,
            size_of_image: self.size_of_image,
            checksum: self.checksum,
            time_date_stamp: self.time_date_stamp,
            module_name_rva: self.module_name_rva,
            version_info: self.version_info,
            cv_record: self.cv_record,
            misc_record: self.misc_record,
            reserved0: self.reserved0@,
            reserved1: self.reserved1@,
        }
    }
}

impl MINIDUMP_MODULEView {
    /// Well-formed: every sequence field has its fixed length.
    pub open spec fn wf(self) -> bool {
        &&& self.reserved0.len() == 2
        &&& self.reserved1.len() == 2
    }
}

impl MINIDUMP_MODULE {
    /// The number of bytes this record occupies.
    pub open spec fn spec_size() -> nat {
        108
    }

    /// The record the bytes of `b` at `off` denote in byte order `e`.
    pub open spec fn spec_decode(b: Seq<u8>, off: int, e: Endianness) -> MINIDUMP_MODULEView {
        MINIDUMP_MODULEView {
            base_of_image: spec_read_u64(b, off, e),
            size_of_image: spec_read_u32(b, off + 8, e),
            checksum: spec_read_u32(b, off + 12, e),
            time_date_stamp: spec_read_u32(b, off + 16, e),
            module_name_rva: spec_read_u32(b, off + 20, e),
            version_info: VS_FIXEDFILEINFO::spec_decode(b, off + 24, e),
            cv_record: MINIDUMP_LOCATION_DESCRIPTOR::spec_decode(b, off + 76, e),
            misc_record: MINIDUMP_LOCATION_DESCRIPTOR::spec_decode(b, off + 84, e),
            reserved0: spec_read_u32_seq(b, off + 92, 2, e),
            reserved1: spec_read_u32_seq(b, off + 100, 2, e),
        }
    }

    /// The bytes the record `w` encodes to in byte order `e`.
    pub open spec fn spec_encode(w: MINIDUMP_MODULEView, e: Endianness) -> Seq<u8> {
        spec_encode_u64(w.base_of_image, e)
            + spec_encode_u32(w.size_of_image, e)
            + spec_encode_u32(w.checksum, e)
            + spec_encode_u32(w.time_date_stamp, e)
            + spec_encode_u32(w.module_name_rva, e)
            + VS_FIXEDFILEINFO::spec_encode(w.version_info, e)
            + MINIDUMP_LOCATION_DESCRIPTOR::spec_encode(w.cv_record, e)
            + MINIDUMP_LOCATION_DESCRIPTOR::spec_encode(w.misc_record, e)
            + spec_encode_u32_seq(w.reserved0, e)
            + spec_encode_u32_seq(w.reserved1, e)
    }

    /// Reads the record at `off`, known to be in bounds.
    pub fn read_at(buf: &[u8], off: usize, e: Endianness) -> (r: Self)
        requires
            off + 108 <= buf@.len(),
        ensures
            r@ == Self::spec_decode(buf@, off as int, e),
    {
        let _blen = buf.len();  // a slice length fits usize, bounding the field offsets
        MINIDUMP_MODULE {
            base_of_image: read_u64(buf, off, e),
            size_of_image: read_u32(buf, off + 8, e),
            checksum: read_u32(buf, off + 12, e),
            time_date_stamp: read_u32(buf, off + 16, e),
            module_name_rva: read_u32(buf, off + 20, e),
            version_info: VS_FIXEDFILEINFO::read_at(buf, off + 24, e),
            cv_record: MINIDUMP_LOCATION_DESCRIPTOR::read_at(buf, off + 76, e),
            misc_record: MINIDUMP_LOCATION_DESCRIPTOR::read_at(buf, off + 84, e),
            reserved0: read_u32_vec(buf, off + 92, 2, e),
            reserved1: read_u32_vec(buf, off + 100, 2, e),
        }
    }

    /// Decodes the record at `off`: `Ok` exactly when the buffer holds
    /// `spec_size` bytes at `off`; the number returned with the record
    /// is the bytes consumed, always `spec_size`.
    pub fn decode(buf: &[u8], off: usize, e: Endianness) -> (r: Result<(Self, usize), DecodeError>)
        ensures
            match r {
                Ok((v, n)) => off + Self::spec_size() <= buf@.len()
                    && n == Self::spec_size()
                    && v@ == Self::spec_decode(buf@, off as int, e),
                Err(err) => err == DecodeError::OutOfBounds
                    && off + Self::spec_size() > buf@.len(),
            },
    {
        if buf.len() < 108 || off > buf.len() - 108 {
            return Err(DecodeError::OutOfBounds);
        }
        Ok((Self::read_at(buf, off, e), 108))
    }

    /// Appends this record's encoding in byte order `e` to `out`.
    #[verifier::spinoff_prover]
    #[verifier::rlimit(100)]
    pub fn write(&self, out: &mut Vec<u8>, e: Endianness)
        ensures
            final(out)@ == old(out)@ + Self::spec_encode(self@, e),
    {
        let ghost enc0 = spec_encode_u64(self@.base_of_image, e);
        let ghost enc1 = spec_encode_u32(self@.size_of_image, e);
        let ghost enc2 = spec_encode_u32(self@.checksum, e);
        let ghost enc3 = spec_encode_u32(self@.time_date_stamp, e);
        let ghost enc4 = spec_encode_u32(self@.module_name_rva, e);
        let ghost enc5 = VS_FIXEDFILEINFO::spec_encode(self.version_info, e);
        let ghost enc6 = MINIDUMP_LOCATION_DESCRIPTOR::spec_encode(self.cv_record, e);
        let ghost enc7 = MINIDUMP_LOCATION_DESCRIPTOR::spec_encode(self.misc_record, e);
        let ghost enc8 = spec_encode_u32_seq(self.reserved0@, e);
        let ghost enc9 = spec_encode_u32_seq(self.reserved1@, e);
        let ghost pre1 = enc0 + enc1;
        let ghost pre2 = pre1 + enc2;
        let ghost pre3 = pre2 + enc3;
        let ghost pre4 = pre3 + enc4;
        let ghost pre5 = pre4 + enc5;
        let ghost pre6 = pre5 + enc6;
        let ghost pre7 = pre6 + enc7;
        let ghost pre8 = pre7 + enc8;
        let ghost pre9 = pre8 + enc9;
        write_u64(out, self.base_of_image, e);
        proof { assert(out@ == old(out)@ + enc0); }
        write_u32(out, self.size_of_image, e);
        proof {
            lemma_seq_add_assoc(old(out)@, enc0, enc1);
            assert(out@ == old(out)@ + pre1);
        }
        write_u32(out, self.checksum, e);
        proof {
            lemma_seq_add_assoc(old(out)@, pre1, enc2);
            assert(out@ == old(out)@ + pre2);
        }
        write_u32(out, self.time_date_stamp, e);
        proof {
            lemma_seq_add_assoc(old(out)@, pre2, enc3);
            assert(out@ == old(out)@ + pre3);
        }
        write_u32(out, self.module_name_rva, e);
        proof {
            lemma_seq_add_assoc(old(out)@, pre3, enc4);
            assert(out@ == old(out)@ + pre4);
        }
        self.version_info.write(out, e);
        proof {
            lemma_seq_add_assoc(old(out)@, pre4, enc5);
            assert(out@ == old(out)@ + pre5);
        }
        self.cv_record.write(out, e);
        proof {
            lemma_seq_add_assoc(old(out)@, pre5, enc6);
            assert(out@ == old(out)@ + pre6);
        }
        self.misc_record.write(out, e);
        proof {
            lemma_seq_add_assoc(old(out)@, pre6, enc7);
            assert(out@ == old(out)@ + pre7);
        }
        write_u32_vec(out, &self.reserved0, e);
        proof {
            lemma_seq_add_assoc(old(out)@, pre7, enc8);
            assert(out@ == old(out)@ + pre8);
        }
        write_u32_vec(out, &self.reserved1, e);
        proof {
            lemma_seq_add_assoc(old(out)@, pre8, enc9);
            assert(out@ == old(out)@ + pre9);
        }
        assert(out@ == old(out)@ + Self::spec_encode(self@, e));
    }

    /// Encodes this record in byte order `e`.
    pub fn encode(&self, e: Endianness) -> (r: Vec<u8>)
        ensures
            r@ == Self::spec_encode(self@, e),
    {
        let mut out: Vec<u8> = Vec::new();
        self.write(&mut out, e);
        proof {
            assert(out@ =~= Self::spec_encode(self@, e));
        }
        out
    }
}

/// The encoding of a record is exactly [`MINIDUMP_MODULE::spec_size`] bytes.
pub proof fn lemma_minidump_module_encode_len(w: MINIDUMP_MODULEView, e: Endianness)
    requires
        w.wf(),
    ensures
        MINIDUMP_MODULE::spec_encode(w, e).len() == 108,
{
    lemma_encode_lens();
    lemma_vs_fixedfileinfo_encode_len(w.version_info, e);
    lemma_minidump_location_descriptor_encode_len(w.cv_record, e);
    lemma_minidump_location_descriptor_encode_len(w.misc_record, e);
    lemma_encode_u32_seq_len(w.reserved0, e);
    lemma_encode_u32_seq_len(w.reserved1, e);
}

/// Reading back the encoding of `w` found at offset `off` yields `w`.
pub proof fn lemma_minidump_module_encode_at(b: Seq<u8>, off: int, w: MINIDUMP_MODULEView, e: Endianness)
    requires
        w.wf(),
        0 <= off,
        off + 108 <= b.len(),
        b.subrange(off, off + 108) == MINIDUMP_MODULE::spec_encode(w, e),
    ensures
        MINIDUMP_MODULE::spec_decode(b, off, e) == w,
{
    lemma_encode_lens();
    lemma_vs_fixedfileinfo_encode_len(w.version_info, e);
    lemma_minidump_location_descriptor_encode_len(w.cv_record, e);
    lemma_minidump_location_descriptor_encode_len(w.misc_record, e);
    lemma_encode_u32_seq_len(w.reserved0, e);
    lemma_encode_u32_seq_len(w.reserved1, e);
    let enc0 = spec_encode_u64(w.base_of_image, e);
    let enc1 = spec_encode_u32(w.size_of_image, e);
    let enc2 = spec_encode_u32(w.checksum, e);
    let enc3 = spec_encode_u32(w.time_date_stamp, e);
    let enc4 = spec_encode_u32(w.module_name_rva, e);
    let enc5 = VS_FIXEDFILEINFO::spec_encode(w.version_info, e);
    let enc6 = MINIDUMP_LOCATION_DESCRIPTOR::spec_encode(w.cv_record, e);
    let enc7 = MINIDUMP_LOCATION_DESCRIPTOR::spec_encode(w.misc_record, e);
    let enc8 = spec_encode_u32_seq(w.reserved0, e);
    let enc9 = spec_encode_u32_seq(w.reserved1, e);
    let pre1 = enc0 + enc1;
    let pre2 = pre1 + enc2;
    let pre3 = pre2 + enc3;
    let pre4 = pre3 + enc4;
    let pre5 = pre4 + enc5;
    let pre6 = pre5 + enc6;
    let pre7 = pre6 + enc7;
    let pre8 = pre7 + enc8;
    let pre9 = pre8 + enc9;
    assert(b.subrange(off, off + 108) == pre9);
    lemma_split_at(b, off, off + 100, off + 108, pre8, enc9);
    lemma_split_at(b, off, off + 92, off + 100, pre7, enc8);
    lemma_split_at(b, off, off + 84, off + 92, pre6, enc7);
    lemma_split_at(b, off, off + 76, off + 84, pre5, enc6);
    lemma_split_at(b, off, off + 24, off + 76, pre4, enc5);
    lemma_split_at(b, off, off + 20, off + 24, pre3, enc4);
    lemma_split_at(b, off, off + 16, off + 20, pre2, enc3);
    lemma_split_at(b, off, off + 12, off + 16, pre1, enc2);
    lemma_split_at(b, off, off + 8, off + 12, enc0, enc1);
    lemma_read_u64_at(b, off, w.base_of_image, e);
    lemma_read_u32_at(b, off + 8, w.size_of_image, e);
    lemma_read_u32_at(b, off + 12, w.checksum, e);
    lemma_read_u32_at(b, off + 16, w.time_date_stamp, e);
    lemma_read_u32_at(b, off + 20, w.module_name_rva, e);
    lemma_vs_fixedfileinfo_encode_at(b, off + 24, w.version_info, e);
    lemma_minidump_location_descriptor_encode_at(b, off + 76, w.cv_record, e);
    lemma_minidump_location_descriptor_encode_at(b, off + 84, w.misc_record, e);
    lemma_read_u32_seq_at(b, off + 92, w.reserved0, e);
    lemma_read_u32_seq_at(b, off + 100, w.reserved1, e);
}

/// Round trip: decoding the encoding of a record yields the record, and
/// the encoding is exactly the record's fixed size.
pub proof fn lemma_minidump_module_roundtrip(w: MINIDUMP_MODULEView, e: Endianness)
    requires
        w.wf(),
    ensures
        MINIDUMP_MODULE::spec_encode(w, e).len() == MINIDUMP_MODULE::spec_size(),
        MINIDUMP_MODULE::spec_decode(MINIDUMP_MODULE::spec_encode(w, e), 0, e) == w,
{
    lemma_minidump_module_encode_len(w, e);
    let enc = MINIDUMP_MODULE::spec_encode(w, e);
    assert(enc.subrange(0, 108) =~= enc);
    lemma_minidump_module_encode_at(enc, 0, w, e);
}

/// Information about a single unloaded module from a minidump.
#[derive(Debug, Clone, PartialEq, Default)]
pub struct MINIDUMP_UNLOADED_MODULE {
    pub base_of_image: u64,
    pub size_of_image: u32,
    pub checksum: u32,
    pub time_date_stamp: u32,
    pub module_name_rva: u32,
}

impl View for MINIDUMP_UNLOADED_MODULE {
    type V = MINIDUMP_UNLOADED_MODULE;

    open spec fn view(&self) -> MINIDUMP_UNLOADED_MODULE {
        *self
    }
}

impl MINIDUMP_UNLOADED_MODULE {
    /// The number of bytes this record occupies.
    pub open spec fn spec_size() -> nat {
        24
    }

    /// The record the bytes of `b` at `off` denote in byte order `e`.
    pub open spec fn spec_decode(b: Seq<u8>, off: int, e: Endianness) -> MINIDUMP_UNLOADED_MODULE {
        MINIDUMP_UNLOADED_MODULE {
            base_of_image: spec_read_u64(b, off, e),
            size_of_image: spec_read_u32(b, off + 8, e),
            checksum: spec_read_u32(b, off + 12, e),
            time_date_stamp: spec_read_u32(b, off + 16, e),
            module_name_rva: spec_read_u32(b, off + 20, e),
        }
    }

    /// The bytes the record `w` encodes to in byte order `e`.
    pub open spec fn spec_encode(w: MINIDUMP_UNLOADED_MODULE, e: Endianness) -> Seq<u8> {
        spec_encode_u64(w.base_of_image, e)
            + spec_encode_u32(w.size_of_image, e)
            + spec_encode_u32(w.checksum, e)
            + spec_encode_u32(w.time_date_stamp, e)
            + spec_encode_u32(w.module_name_rva, e)
    }

    /// Reads the record at `off`, known to be in bounds.
    pub fn read_at(buf: &[u8], off: usize, e: Endianness) -> (r: Self)
        requires
            off + 24 <= buf@.len(),
        ensures
            r@ == Self::spec_decode(buf@, off as int, e),
    {
        let _blen = buf.len();  // a slice length fits usize, bounding the field offsets
        MINIDUMP_UNLOADED_MODULE {
            base_of_image: read_u64(buf, off, e),
            size_of_image: read_u32(buf, off + 8, e),
            checksum: read_u32(buf, off + 12, e),
            time_date_stamp: read_u32(buf, off + 16, e),
            module_name_rva: read_u32(buf, off + 20, e),
        }
    }

    /// Decodes the record at `off`: `Ok` exactly when the buffer holds
    /// `spec_size` bytes at `off`; the number returned with the record
    /// is the bytes consumed, always `spec_size`.
    pub fn decode(buf: &[u8], off: usize, e: Endianness) -> (r: Result<(Self, usize), DecodeError>)
        ensures
            match r {
                Ok((v, n)) => off + Self::spec_size() <= buf@.len()
                    && n == Self::spec_size()
                    && v@ == Self::spec_decode(buf@, off as int, e),
                Err(err) => err == DecodeError::OutOfBounds
                    && off + Self::spec_size() > buf@.len(),
            },
    {
        if buf.len() < 24 || off > buf.len() - 24 {
            return Err(DecodeError::OutOfBounds);
        }
        Ok((Self::read_at(buf, off, e), 24))
    }

    /// Appends this record's encoding in byte order `e` to `out`.
    pub fn write(&self, out: &mut Vec<u8>, e: Endianness)
        ensures
            final(out)@ == old(out)@ + Self::spec_encode(self@, e),
    {
        write_u64(out, self.base_of_image, e);
        write_u32(out, self.size_of_image, e);
        write_u32(out, self.checksum, e);
        write_u32(out, self.time_date_stamp, e);
        write_u32(out, self.module_name_rva, e);
        assert(out@ =~= old(out)@ + Self::spec_encode(self@, e));
    }

    /// Encodes this record in byte order `e`.
    pub fn encode(&self, e: Endianness) -> (r: Vec<u8>)
        ensures
            r@ == Self::spec_encode(self@, e),
    {
        let mut out: Vec<u8> = Vec::new();
        self.write(&mut out, e);
        proof {
            assert(out@ =~= Self::spec_encode(self@, e));
        }
        out
    }
}

/// The encoding of a record is exactly [`MINIDUMP_UNLOADED_MODULE::spec_size`] bytes.
pub proof fn lemma_minidump_unloaded_module_encode_len(w: MINIDUMP_UNLOADED_MODULE, e: Endianness)
    ensures
        MINIDUMP_UNLOADED_MODULE::spec_encode(w, e).len() == 24,
{
    lemma_encode_lens();
}

/// Reading back the encoding of `w` found at offset `off` yields `w`.
pub proof fn lemma_minidump_unloaded_module_encode_at(b: Seq<u8>, off: int, w: MINIDUMP_UNLOADED_MODULE, e: Endianness)
    requires
        0 <= off,
        off + 24 <= b.len(),
        b.subrange(off, off + 24) == MINIDUMP_UNLOADED_MODULE::spec_encode(w, e),
    ensures
        MINIDUMP_UNLOADED_MODULE::spec_decode(b, off, e) == w,
{
    lemma_encode_lens();
    let enc0 = spec_encode_u64(w.base_of_image, e);
    let enc1 = spec_encode_u32(w.size_of_image, e);
    let enc2 = spec_encode_u32(w.checksum, e);
    let enc3 = spec_encode_u32(w.time_date_stamp, e);
    let enc4 = spec_encode_u32(w.module_name_rva, e);
    let pre1 = enc0 + enc1;
    let pre2 = pre1 + enc2;
    let pre3 = pre2 + enc3;
    let pre4 = pre3 + enc4;
    assert(b.subrange(off, off + 24) == pre4);
    lemma_split_at(b, off, off + 20, off + 24, pre3, enc4);
    lemma_split_at(b, off, off + 16, off + 20, pre2, enc3);
    lemma_split_at(b, off, off + 12, off + 16, pre1, enc2);
    lemma_split_at(b, off, off + 8, off + 12, enc0, enc1);
    lemma_read_u64_at(b, off, w.base_of_image, e);
    lemma_read_u32_at(b, off + 8, w.size_of_image, e);
    lemma_read_u32_at(b, off + 12, w.checksum, e);
    lemma_read_u32_at(b, off + 16, w.time_date_stamp, e);
    lemma_read_u32_at(b, off + 20, w.module_name_rva, e);
}

/// Round trip: decoding the encoding of a record yields the record, and
/// the encoding is exactly the record's fixed size.
pub proof fn lemma_minidump_unloaded_module_roundtrip(w: MINIDUMP_UNLOADED_MODULE, e: Endianness)
    ensures
        MINIDUMP_UNLOADED_MODULE::spec_encode(w, e).len() == MINIDUMP_UNLOADED_MODULE::spec_size(),
        MINIDUMP_UNLOADED_MODULE::spec_decode(MINIDUMP_UNLOADED_MODULE::spec_encode(w, e), 0, e) == w,
{
    lemma_minidump_unloaded_module_encode_len(w, e);
    let enc = MINIDUMP_UNLOADED_MODULE::spec_encode(w, e);
    assert(enc.subrange(0, 24) =~= enc);
    lemma_minidump_unloaded_module_encode_at(enc, 0, w, e);
}

/// Obsolete debug record type defined in WinNT.h.
///
/// The reserved bytes and the one-byte data placeholder are decoded and
/// preserved exactly as stored.
#[derive(Debug, Clone, PartialEq)]
pub struct IMAGE_DEBUG_MISC {
    pub data_type: u32,
    pub length: u32,
    pub unicode: u8,
    pub reserved: Vec<u8>,
    pub data: Vec<u8>,
}

/// The mathematical value of a [`IMAGE_DEBUG_MISC`]: the same fields with
/// sequences in place of vectors.
pub struct IMAGE_DEBUG_MISCView {
    pub data_type: u32,
    pub length: u32,
    pub unicode: u8,
    pub reserved: Seq<u8>,
    pub data: Seq<u8>,
}

impl View for IMAGE_DEBUG_MISC {
    type V = IMAGE_DEBUG_MISCView;

    open spec fn view(&self) -> IMAGE_DEBUG_MISCView {
        IMAGE_DEBUG_MISCView {
            data_type: self.data_type,
            length: self.length,
            unicode: self.unicode,
            reserved: self.reserved@,
            data: self.data@,
        }
    }
}

impl IMAGE_DEBUG_MISCView {
    /// Well-formed: every sequence field has its fixed length.
    pub open spec fn wf(self) -> bool {
        &&& self.reserved.len() == 3
        &&& self.data.len() == 1
    }
}

impl IMAGE_DEBUG_MISC {
    /// The number of bytes this record occupies.
    pub open spec fn spec_size() -> nat {
        13
    }

    /// The record the bytes of `b` at `off` denote in byte order `e`.
    pub open spec fn spec_decode(b: Seq<u8>, off: int, e: Endianness) -> IMAGE_DEBUG_MISCView {
        IMAGE_DEBUG_MISCView {
            data_type: spec_read_u32(b, off, e),
            length: spec_read_u32(b, off + 4, e),
            unicode: spec_read_u8(b, off + 8),
            reserved: spec_read_bytes(b, off + 9, 3),
            data: spec_read_bytes(b, off + 12, 1),
        }
    }

    /// The bytes the record `w` encodes to in byte order `e`.
    pub open spec fn spec_encode(w: IMAGE_DEBUG_MISCView, e: Endianness) -> Seq<u8> {
        spec_encode_u32(w.data_type, e)
            + spec_encode_u32(w.length, e)
            + seq![w.unicode]
            + w.reserved
            + w.data
    }

    /// Reads the record at `off`, known to be in bounds.
    pub fn read_at(buf: &[u8], off: usize, e: Endianness) -> (r: Self)
        requires
            off + 13 <= buf@.len(),
        ensures
            r@ == Self::spec_decode(buf@, off as int, e),
    {
        let _blen = buf.len();  // a slice length fits usize, bounding the field offsets
        IMAGE_DEBUG_MISC {
            data_type: read_u32(buf, off, e),
            length: read_u32(buf, off + 4, e),
            unicode: read_u8(buf, off + 8),
            reserved: read_bytes(buf, off + 9, 3),
            data: read_bytes(buf, off + 12, 1),
        }
    }

    /// Decodes the record at `off`: `Ok` exactly when the buffer holds
    /// `spec_size` bytes at `off`; the number returned with the record
    /// is the bytes consumed, always `spec_size`.
    pub fn decode(buf: &[u8], off: usize, e: Endianness) -> (r: Result<(Self, usize), DecodeError>)
        ensures
            match r {
                Ok((v, n)) => off + Self::spec_size() <= buf@.len()
                    && n == Self::spec_size()
                    && v@ == Self::spec_decode(buf@, off as int, e),
                Err(err) => err == DecodeError::OutOfBounds
                    && off + Self::spec_size() > buf@.len(),
            },
    {
        if buf.len() < 13 || off > buf.len() - 13 {
            return Err(DecodeError::OutOfBounds);
        }
        Ok((Self::read_at(buf, off, e), 13))
    }

    /// Appends this record's encoding in byte order `e` to `out`.
    pub fn write(&self, out: &mut Vec<u8>, e: Endianness)
        ensures
            final(out)@ == old(out)@ + Self::spec_encode(self@, e),
    {
        write_u32(out, self.data_type, e);
        write_u32(out, self.length, e);
        write_u8(out, self.unicode);
        write_bytes(out, &self.reserved);
        write_bytes(out, &self.data);
        assert(out@ =~= old(out)@ + Self::spec_encode(self@, e));
    }

    /// Encodes this record in byte order `e`.
    pub fn encode(&self, e: Endianness) -> (r: Vec<u8>)
        ensures
            r@ == Self::spec_encode(self@, e),
    {
        let mut out: Vec<u8> = Vec::new();
        self.write(&mut out, e);
        proof {
            assert(out@ =~= Self::spec_encode(self@, e));
        }
        out
    }
}

/// The encoding of a record is exactly [`IMAGE_DEBUG_MISC::spec_size`] bytes.
pub proof fn lemma_image_debug_misc_encode_len(w: IMAGE_DEBUG_MISCView, e: Endianness)
    requires
        w.wf(),
    ensures
        IMAGE_DEBUG_MISC::spec_encode(w, e).len() == 13,
{
    lemma_encode_lens();
}

/// Reading back the encoding of `w` found at offset `off` yields `w`.
pub proof fn lemma_image_debug_misc_encode_at(b: Seq<u8>, off: int, w: IMAGE_DEBUG_MISCView, e: Endianness)
    requires
        w.wf(),
        0 <= off,
        off + 13 <= b.len(),
        b.subrange(off, off + 13) == IMAGE_DEBUG_MISC::spec_encode(w, e),
    ensures
        IMAGE_DEBUG_MISC::spec_decode(b, off, e) == w,
{
    lemma_encode_lens();
    let enc0 = spec_encode_u32(w.data_type, e);
    let enc1 = spec_encode_u32(w.length, e);
    let enc2 = seq![w.unicode];
    let enc3 = w.reserved;
    let enc4 = w.data;
    let pre1 = enc0 + enc1;
    let pre2 = pre1 + enc2;
    let pre3 = pre2 + enc3;
    let pre4 = pre3 + enc4;
    assert(b.subrange(off, off + 13) == pre4);
    lemma_split_at(b, off, off + 12, off + 13, pre3, enc4);
    lemma_split_at(b, off, off + 9, off + 12, pre2, enc3);
    lemma_split_at(b, off, off + 8, off + 9, pre1, enc2);
    lemma_split_at(b, off, off + 4, off + 8, enc0, enc1);
    lemma_read_u32_at(b, off, w.data_type, e);
    lemma_read_u32_at(b, off + 4, w.length, e);
    assert(b.subrange(off + 8, off + 8 + 1)[0] == b[off + 8]);
    assert(spec_read_u8(b, off + 8) == w.unicode);
    assert(spec_read_bytes(b, off + 9, 3) == w.reserved);
    assert(spec_read_bytes(b, off + 12, 1) == w.data);
}

/// Round trip: decoding the encoding of a record yields the record, and
/// the encoding is exactly the record's fixed size.
pub proof fn lemma_image_debug_misc_roundtrip(w: IMAGE_DEBUG_MISCView, e: Endianness)
    requires
        w.wf(),
    ensures
        IMAGE_DEBUG_MISC::spec_encode(w, e).len() == IMAGE_DEBUG_MISC::spec_size(),
        IMAGE_DEBUG_MISC::spec_decode(IMAGE_DEBUG_MISC::spec_encode(w, e), 0, e) == w,
{
    lemma_image_debug_misc_encode_len(w, e);
    let enc = IMAGE_DEBUG_MISC::spec_encode(w, e);
    assert(enc.subrange(0, 13) =~= enc);
    lemma_image_debug_misc_encode_at(enc, 0, w, e);
}

/// Information about a single thread from a minidump.
///
/// `thread_context` locates a CPU-specific context record for this thread;
/// see [`crate::contexts`] for the per-architecture layouts.
#[derive(Debug, Clone, PartialEq)]
pub struct MINIDUMP_THREAD {
    pub thread_id: u32,
    pub suspend_count: u32,
    pub priority_class: u32,
    pub priority: u32,
    pub teb: u64,
    pub stack: MINIDUMP_MEMORY_DESCRIPTOR,
    pub thread_context: MINIDUMP_LOCATION_DESCRIPTOR,
}

impl View for MINIDUMP_THREAD {
    type V = MINIDUMP_THREAD;

    open spec fn view(&self) -> MINIDUMP_THREAD {
        *self
    }
}

impl MINIDUMP_THREAD {
    /// The number of bytes this record occupies.
    pub open spec fn spec_size() -> nat {
        48
    }

    /// The record the bytes of `b` at `off` denote in byte order `e`.
    pub open spec fn spec_decode(b: Seq<u8>, off: int, e: Endianness) -> MINIDUMP_THREAD {
        MINIDUMP_THREAD {
            thread_id: spec_read_u32(b, off, e),
            suspend_count: spec_read_u32(b, off + 4, e),
            priority_class: spec_read_u32(b, off + 8, e),
            priority: spec_read_u32(b, off + 12, e),
            teb: spec_read_u64(b, off + 16, e),
            stack: MINIDUMP_MEMORY_DESCRIPTOR::spec_decode(b, off + 24, e),
            thread_context: MINIDUMP_LOCATION_DESCRIPTOR::spec_decode(b, off + 40, e),
        }
    }

    /// The bytes the record `w` encodes to in byte order `e`.
    pub open spec fn spec_encode(w: MINIDUMP_THREAD, e: Endianness) -> Seq<u8> {
        spec_encode_u32(w.thread_id, e)
            + spec_encode_u32(w.suspend_count, e)
            + spec_encode_u32(w.priority_class, e)
            + spec_encode_u32(w.priority, e)
            + spec_encode_u64(w.teb, e)
            + MINIDUMP_MEMORY_DESCRIPTOR::spec_encode(w.stack, e)
            + MINIDUMP_LOCATION_DESCRIPTOR::spec_encode(w.thread_context, e)
    }

    /// Reads the record at `off`, known to be in bounds.
    pub fn read_at(buf: &[u8], off: usize, e: Endianness) -> (r: Self)
        requires
            off + 48 <= buf@.len(),
        ensures
            r@ == Self::spec_decode(buf@, off as int, e),
    {
        let _blen = buf.len();  // a slice length fits usize, bounding the field offsets
        MINIDUMP_THREAD {
            thread_id: read_u32(buf, off, e),
            suspend_count: read_u32(buf, off + 4, e),
            priority_class: read_u32(buf, off + 8, e),
            priority: read_u32(buf, off + 12, e),
            teb: read_u64(buf, off + 16, e),
            stack: MINIDUMP_MEMORY_DESCRIPTOR::read_at(buf, off + 24, e),
            thread_context: MINIDUMP_LOCATION_DESCRIPTOR::read_at(buf, off + 40, e),
        }
    }

    /// Decodes the record at `off`: `Ok` exactly when the buffer holds
    /// `spec_size` bytes at `off`; the number returned with the record
    /// is the bytes consumed, always `spec_size`.
    pub fn decode(buf: &[u8], off: usize, e: Endianness) -> (r: Result<(Self, usize), DecodeError>)
        ensures
            match r {
                Ok((v, n)) => off + Self::spec_size() <= buf@.len()
                    && n == Self::spec_size()
                    && v@ == Self::spec_decode(buf@, off as int, e),
                Err(err) => err == DecodeError::OutOfBounds
                    && off + Self::spec_size() > buf@.len(),
            },
    {
        if buf.len() < 48 || off > buf.len() - 48 {
            return Err(DecodeError::OutOfBounds);
        }
        Ok((Self::read_at(buf, off, e), 48))
    }

    /// Appends this record's encoding in byte order `e` to `out`.
    pub fn write(&self, out: &mut Vec<u8>, e: Endianness)
        ensures
            final(out)@ == old(out)@ + Self::spec_encode(self@, e),
    {
        write_u32(out, self.thread_id, e);
        write_u32(out, self.suspend_count, e);
        write_u32(out, self.priority_class, e);
        write_u32(out, self.priority, e);
        write_u64(out, self.teb, e);
        self.stack.write(out, e);
        self.thread_context.write(out, e);
        assert(out@ =~= old(out)@ + Self::spec_encode(self@, e));
    }

    /// Encodes this record in byte order `e`.
    pub fn encode(&self, e: Endianness) -> (r: Vec<u8>)
        ensures
            r@ == Self::spec_encode(self@, e),
    {
        let mut out: Vec<u8> = Vec::new();
        self.write(&mut out, e);
        proof {
            assert(out@ =~= Self::spec_encode(self@, e));
        }
        out
    }
}

/// The encoding of a record is exactly [`MINIDUMP_THREAD::spec_size`] bytes.
pub proof fn lemma_minidump_thread_encode_len(w: MINIDUMP_THREAD, e: Endianness)
    ensures
        MINIDUMP_THREAD::spec_encode(w, e).len() == 48,
{
    lemma_encode_lens();
    lemma_minidump_memory_descriptor_encode_len(w.stack, e);
    lemma_minidump_location_descriptor_encode_len(w.thread_context, e);
}

/// Reading back the encoding of `w` found at offset `off` yields `w`.
pub proof fn lemma_minidump_thread_encode_at(b: Seq<u8>, off: int, w: MINIDUMP_THREAD, e: Endianness)
    requires
        0 <= off,
        off + 48 <= b.len(),
        b.subrange(off, off + 48) == MINIDUMP_THREAD::spec_encode(w, e),
    ensures
        MINIDUMP_THREAD::spec_decode(b, off, e) == w,
{
    lemma_encode_lens();
    lemma_minidump_memory_descriptor_encode_len(w.stack, e);
    lemma_minidump_location_descriptor_encode_len(w.thread_context, e);
    let enc0 = spec_encode_u32(w.thread_id, e);
    let enc1 = spec_encode_u32(w.suspend_count, e);
    let enc2 = spec_encode_u32(w.priority_class, e);
    let enc3 = spec_encode_u32(w.priority, e);
    let enc4 = spec_encode_u64(w.teb, e);
    let enc5 = MINIDUMP_MEMORY_DESCRIPTOR::spec_encode(w.stack, e);
    let enc6 = MINIDUMP_LOCATION_DESCRIPTOR::spec_encode(w.thread_context, e);
    let pre1 = enc0 + enc1;
    let pre2 = pre1 + enc2;
    let pre3 = pre2 + enc3;
    let pre4 = pre3 + enc4;
    let pre5 = pre4 + enc5;
    let pre6 = pre5 + enc6;
    assert(b.subrange(off, off + 48) == pre6);
    lemma_split_at(b, off, off + 40, off + 48, pre5, enc6);
    lemma_split_at(b, off, off + 24, off + 40, pre4, enc5);
    lemma_split_at(b, off, off + 16, off + 24, pre3, enc4);
    lemma_split_at(b, off, off + 12, off + 16, pre2, enc3);
    lemma_split_at(b, off, off + 8, off + 12, pre1, enc2);
    lemma_split_at(b, off, off + 4, off + 8, enc0, enc1);
    lemma_read_u32_at(b, off, w.thread_id, e);
    lemma_read_u32_at(b, off + 4, w.suspend_count, e);
    lemma_read_u32_at(b, off + 8, w.priority_class, e);
    lemma_read_u32_at(b, off + 12, w.priority, e);
    lemma_read_u64_at(b, off + 16, w.teb, e);
    lemma_minidump_memory_descriptor_encode_at(b, off + 24, w.stack, e);
    lemma_minidump_location_descriptor_encode_at(b, off + 40, w.thread_context, e);
}

/// Round trip: decoding the encoding of a record yields the record, and
/// the encoding is exactly the record's fixed size.
pub proof fn lemma_minidump_thread_roundtrip(w: MINIDUMP_THREAD, e: Endianness)
    ensures
        MINIDUMP_THREAD::spec_encode(w, e).len() == MINIDUMP_THREAD::spec_size(),
        MINIDUMP_THREAD::spec_decode(MINIDUMP_THREAD::spec_encode(w, e), 0, e) == w,
{
    lemma_minidump_thread_encode_len(w, e);
    let enc = MINIDUMP_THREAD::spec_encode(w, e);
    assert(enc.subrange(0, 48) =~= enc);
    lemma_minidump_thread_encode_at(enc, 0, w, e);
}

/// Detailed information about an exception.
///
/// `exception_code` is drawn from the per-platform code enumerations; all
/// fifteen `exception_information` slots are decoded whether or not
/// `number_parameters` declares them meaningful.
#[derive(Debug, Clone, PartialEq)]
pub struct MINIDUMP_EXCEPTION {
    pub exception_code: u32,
    pub exception_flags: u32,
    pub exception_record: u64,
    pub exception_address: u64,
    pub number_parameters: u32,
    pub __align: u32,
    pub exception_information: Vec<u64>,
}

/// The mathematical value of a [`MINIDUMP_EXCEPTION`]: the same fields with
/// sequences in place of vectors.
pub struct MINIDUMP_EXCEPTIONView {
    pub exception_code: u32,
    pub exception_flags: u32,
    pub exception_record: u64,
    pub exception_address: u64,
    pub number_parameters: u32,
    pub __align: u32,
    pub exception_information: Seq<u64>,
}

impl View for MINIDUMP_EXCEPTION {
    type V = MINIDUMP_EXCEPTIONView;

    open spec fn view(&self) -> MINIDUMP_EXCEPTIONView {
        MINIDUMP_EXCEPTIONView {
            exception_code: self.exception_code,
            exception_flags: self.exception_flags,
            exception_record: self.exception_record,
            exception_address: self.exception_address,
            number_parameters: self.number_parameters,
            __align: self.__align,
            exception_information: self.exception_information@,
        }
    }
}

impl MINIDUMP_EXCEPTIONView {
    /// Well-formed: every sequence field has its fixed length.
    pub open spec fn wf(self) -> bool {
        self.exception_information.len() == 15
    }
}

impl MINIDUMP_EXCEPTION {
    /// The number of bytes this record occupies.
    pub open spec fn spec_size() -> nat {
        152
    }

    /// The record the bytes of `b` at `off` denote in byte order `e`.
    pub open spec fn spec_decode(b: Seq<u8>, off: int, e: Endianness) -> MINIDUMP_EXCEPTIONView {
        MINIDUMP_EXCEPTIONView {
            exception_code: spec_read_u32(b, off, e),
            exception_flags: spec_read_u32(b, off + 4, e),
            exception_record: spec_read_u64(b, off + 8, e),
            exception_address: spec_read_u64(b, off + 16, e),
            number_parameters: spec_read_u32(b, off + 24, e),
            __align: spec_read_u32(b, off + 28, e),
            exception_information: spec_read_u64_seq(b, off + 32, 15, e),
        }
    }

    /// The bytes the record `w` encodes to in byte order `e`.
    pub open spec fn spec_encode(w: MINIDUMP_EXCEPTIONView, e: Endianness) -> Seq<u8> {
        spec_encode_u32(w.exception_code, e)
            + spec_encode_u32(w.exception_flags, e)
            + spec_encode_u64(w.exception_record, e)
            + spec_encode_u64(w.exception_address, e)
            + spec_encode_u32(w.number_parameters, e)
            + spec_encode_u32(w.__align, e)
            + spec_encode_u64_seq(w.exception_information, e)
    }

    /// Reads the record at `off`, known to be in bounds.
    pub fn read_at(buf: &[u8], off: usize, e: Endianness) -> (r: Self)
        requires
            off + 152 <= buf@.len(),
        ensures
            r@ == Self::spec_decode(buf@, off as int, e),
    {
        let _blen = buf.len();  // a slice length fits usize, bounding the field offsets
        MINIDUMP_EXCEPTION {
            exception_code: read_u32(buf, off, e),
            exception_flags: read_u32(buf, off + 4, e),
            exception_record: read_u64(buf, off + 8, e),
            exception_address: read_u64(buf, off + 16, e),
            number_parameters: read_u32(buf, off + 24, e),
            __align: read_u32(buf, off + 28, e),
            exception_information: read_u64_vec(buf, off + 32, 15, e),
        }
    }

    /// Decodes the record at `off`: `Ok` exactly when the buffer holds
    /// `spec_size` bytes at `off`; the number returned with the record
    /// is the bytes consumed, always `spec_size`.
    pub fn decode(buf: &[u8], off: usize, e: Endianness) -> (r: Result<(Self, usize), DecodeError>)
        ensures
            match r {
                Ok((v, n)) => off + Self::spec_size() <= buf@.len()
                    && n == Self::spec_size()
                    && v@ == Self::spec_decode(buf@, off as int, e),
                Err(err) => err == DecodeError::OutOfBounds
                    && off + Self::spec_size() > buf@.len(),
            },
    {
        if buf.len() < 152 || off > buf.len() - 152 {
            return Err(DecodeError::OutOfBounds);
        }
        Ok((Self::read_at(buf, off, e), 152))
    }

    /// Appends this record's encoding in byte order `e` to `out`.
    pub fn write(&self, out: &mut Vec<u8>, e: Endianness)
        ensures
            final(out)@ == old(out)@ + Self::spec_encode(self@, e),
    {
        write_u32(out, self.exception_code, e);
        write_u32(out, self.exception_flags, e);
        write_u64(out, self.exception_record, e);
        write_u64(out, self.exception_address, e);
        write_u32(out, self.number_parameters, e);
        write_u32(out, self.__align, e);
        write_u64_vec(out, &self.exception_information, e);
        assert(out@ =~= old(out)@ + Self::spec_encode(self@, e));
    }

    /// Encodes this record in byte order `e`.
    pub fn encode(&self, e: Endianness) -> (r: Vec<u8>)
        ensures
            r@ == Self::spec_encode(self@, e),
    {
        let mut out: Vec<u8> = Vec::new();
        self.write(&mut out, e);
        proof {
            assert(out@ =~= Self::spec_encode(self@, e));
        }
        out
    }
}

/// The encoding of a record is exactly [`MINIDUMP_EXCEPTION::spec_size`] bytes.
pub proof fn lemma_minidump_exception_encode_len(w: MINIDUMP_EXCEPTIONView, e: Endianness)
    requires
        w.wf(),
    ensures
        MINIDUMP_EXCEPTION::spec_encode(w, e).len() == 152,
{
    lemma_encode_lens();
    lemma_encode_u64_seq_len(w.exception_information, e);
}

/// Reading back the encoding of `w` found at offset `off` yields `w`.
pub proof fn lemma_minidump_exception_encode_at(b: Seq<u8>, off: int, w: MINIDUMP_EXCEPTIONView, e: Endianness)
    requires
        w.wf(),
        0 <= off,
        off + 152 <= b.len(),
        b.subrange(off, off + 152) == MINIDUMP_EXCEPTION::spec_encode(w, e),
    ensures
        MINIDUMP_EXCEPTION::spec_decode(b, off, e) == w,
{
    lemma_encode_lens();
    lemma_encode_u64_seq_len(w.exception_information, e);
    let enc0 = spec_encode_u32(w.exception_code, e);
    let enc1 = spec_encode_u32(w.exception_flags, e);
    let enc2 = spec_encode_u64(w.exception_record, e);
    let enc3 = spec_encode_u64(w.exception_address, e);
    let enc4 = spec_encode_u32(w.number_parameters, e);
    let enc5 = spec_encode_u32(w.__align, e);
    let enc6 = spec_encode_u64_seq(w.exception_information, e);
    let pre1 = enc0 + enc1;
    let pre2 = pre1 + enc2;
    let pre3 = pre2 + enc3;
    let pre4 = pre3 + enc4;
    let pre5 = pre4 + enc5;
    let pre6 = pre5 + enc6;
    assert(b.subrange(off, off + 152) == pre6);
    lemma_split_at(b, off, off + 32, off + 152, pre5, enc6);
    lemma_split_at(b, off, off + 28, off + 32, pre4, enc5);
    lemma_split_at(b, off, off + 24, off + 28, pre3, enc4);
    lemma_split_at(b, off, off + 16, off + 24, pre2, enc3);
    lemma_split_at(b, off, off + 8, off + 16, pre1, enc2);
    lemma_split_at(b, off, off + 4, off + 8, enc0, enc1);
    lemma_read_u32_at(b, off, w.exception_code, e);
    lemma_read_u32_at(b, off + 4, w.exception_flags, e);
    lemma_read_u64_at(b, off + 8, w.exception_record, e);
    lemma_read_u64_at(b, off + 16, w.exception_address, e);
    lemma_read_u32_at(b, off + 24, w.number_parameters, e);
    lemma_read_u32_at(b, off + 28, w.__align, e);
    lemma_read_u64_seq_at(b, off + 32, w.exception_information, e);
}

/// Round trip: decoding the encoding of a record yields the record, and
/// the encoding is exactly the record's fixed size.
pub proof fn lemma_minidump_exception_roundtrip(w: MINIDUMP_EXCEPTIONView, e: Endianness)
    requires
        w.wf(),
    ensures
        MINIDUMP_EXCEPTION::spec_encode(w, e).len() == MINIDUMP_EXCEPTION::spec_size(),
        MINIDUMP_EXCEPTION::spec_decode(MINIDUMP_EXCEPTION::spec_encode(w, e), 0, e) == w,
{
    lemma_minidump_exception_encode_len(w, e);
    let enc = MINIDUMP_EXCEPTION::spec_encode(w, e);
    assert(enc.subrange(0, 152) =~= enc);
    lemma_minidump_exception_encode_at(enc, 0, w, e);
}

/// Information about the exception that caused the process to terminate.
#[derive(Debug, Clone, PartialEq)]
pub struct MINIDUMP_EXCEPTION_STREAM {
    pub thread_id: u32,
    pub __align: u32,
    pub exception_record: MINIDUMP_EXCEPTION,
    pub thread_context: MINIDUMP_LOCATION_DESCRIPTOR,
}

/// The mathematical value of a [`MINIDUMP_EXCEPTION_STREAM`]: the same fields with
/// sequences in place of vectors.
pub struct MINIDUMP_EXCEPTION_STREAMView {
    pub thread_id: u32,
    pub __align: u32,
    pub exception_record: MINIDUMP_EXCEPTIONView,
    pub thread_context: MINIDUMP_LOCATION_DESCRIPTOR,
}

impl View for MINIDUMP_EXCEPTION_STREAM {
    type V = MINIDUMP_EXCEPTION_STREAMView;

    open spec fn view(&self) -> MINIDUMP_EXCEPTION_STREAMView {
        MINIDUMP_EXCEPTION_STREAMView {
            thread_id: self.thread_id,
            __align: self.__align,
            exception_record: self.exception_record@,
            thread_context: self.thread_context,
        }
    }
}

impl MINIDUMP_EXCEPTION_STREAMView {
    /// Well-formed: every sequence field has its fixed length.
    pub open spec fn wf(self) -> bool {
        self.exception_record.wf()
    }
}

impl MINIDUMP_EXCEPTION_STREAM {
    /// The number of bytes this record occupies.
    pub open spec fn spec_size() -> nat {
        168
    }

    /// The record the bytes of `b` at `off` denote in byte order `e`.
    pub open spec fn spec_decode(b: Seq<u8>, off: int, e: Endianness) -> MINIDUMP_EXCEPTION_STREAMView {
        MINIDUMP_EXCEPTION_STREAMView {
            thread_id: spec_read_u32(b, off, e),
            __align: spec_read_u32(b, off + 4, e),
            exception_record: MINIDUMP_EXCEPTION::spec_decode(b, off + 8, e),
            thread_context: MINIDUMP_LOCATION_DESCRIPTOR::spec_decode(b, off + 160, e),
        }
    }

    /// The bytes the record `w` encodes to in byte order `e`.
    pub open spec fn spec_encode(w: MINIDUMP_EXCEPTION_STREAMView, e: Endianness) -> Seq<u8> {
        spec_encode_u32(w.thread_id, e)
            + spec_encode_u32(w.__align, e)
            + MINIDUMP_EXCEPTION::spec_encode(w.exception_record, e)
            + MINIDUMP_LOCATION_DESCRIPTOR::spec_encode(w.thread_context, e)
    }

    /// Reads the record at `off`, known to be in bounds.
    pub fn read_at(buf: &[u8], off: usize, e: Endianness) -> (r: Self)
        requires
            off + 168 <= buf@.len(),
        ensures
            r@ == Self::spec_decode(buf@, off as int, e),
    {
        let _blen = buf.len();  // a slice length fits usize, bounding the field offsets
        MINIDUMP_EXCEPTION_STREAM {
            thread_id: read_u32(buf, off, e),
            __align: read_u32(buf, off + 4, e),
            exception_record: MINIDUMP_EXCEPTION::read_at(buf, off + 8, e),
            thread_context: MINIDUMP_LOCATION_DESCRIPTOR::read_at(buf, off + 160, e),
        }
    }

    /// Decodes the record at `off`: `Ok` exactly when the buffer holds
    /// `spec_size` bytes at `off`; the number returned with the record
    /// is the bytes consumed, always `spec_size`.
    pub fn decode(buf: &[u8], off: usize, e: Endianness) -> (r: Result<(Self, usize), DecodeError>)
        ensures
            match r {
                Ok((v, n)) => off + Self::spec_size() <= buf@.len()
                    && n == Self::spec_size()
                    && v@ == Self::spec_decode(buf@, off as int, e),
                Err(err) => err == DecodeError::OutOfBounds
                    && off + Self::spec_size() > buf@.len(),
            },
    {
        if buf.len() < 168 || off > buf.len() - 168 {
            return Err(DecodeError::OutOfBounds);
        }
        Ok((Self::read_at(buf, off, e), 168))
    }

    /// Appends this record's encoding in byte order `e` to `out`.
    pub fn write(&self, out: &mut Vec<u8>, e: Endianness)
        ensures
            final(out)@ == old(out)@ + Self::spec_encode(self@, e),
    {
        write_u32(out, self.thread_id, e);
        write_u32(out, self.__align, e);
        self.exception_record.write(out, e);
        self.thread_context.write(out, e);
        assert(out@ =~= old(out)@ + Self::spec_encode(self@, e));
    }

    /// Encodes this record in byte order `e`.
    pub fn encode(&self, e: Endianness) -> (r: Vec<u8>)
        ensures
            r@ == Self::spec_encode(self@, e),
    {
        let mut out: Vec<u8> = Vec::new();
        self.write(&mut out, e);
        proof {
            assert(out@ =~= Self::spec_encode(self@, e));
        }
        out
    }
}

/// The encoding of a record is exactly [`MINIDUMP_EXCEPTION_STREAM::spec_size`] bytes.
pub proof fn lemma_minidump_exception_stream_encode_len(w: MINIDUMP_EXCEPTION_STREAMView, e: Endianness)
    requires
        w.wf(),
    ensures
        MINIDUMP_EXCEPTION_STREAM::spec_encode(w, e).len() == 168,
{
    lemma_encode_lens();
    lemma_minidump_exception_encode_len(w.exception_record, e);
    lemma_minidump_location_descriptor_encode_len(w.thread_context, e);
}

/// Reading back the encoding of `w` found at offset `off` yields `w`.
pub proof fn lemma_minidump_exception_stream_encode_at(b: Seq<u8>, off: int, w: MINIDUMP_EXCEPTION_STREAMView, e: Endianness)
    requires
        w.wf(),
        0 <= off,
        off + 168 <= b.len(),
        b.subrange(off, off + 168) == MINIDUMP_EXCEPTION_STREAM::spec_encode(w, e),
    ensures
        MINIDUMP_EXCEPTION_STREAM::spec_decode(b, off, e) == w,
{
    lemma_encode_lens();
    lemma_minidump_exception_encode_len(w.exception_record, e);
    lemma_minidump_location_descriptor_encode_len(w.thread_context, e);
    let enc0 = spec_encode_u32(w.thread_id, e);
    let enc1 = spec_encode_u32(w.__align, e);
    let enc2 = MINIDUMP_EXCEPTION::spec_encode(w.exception_record, e);
    let enc3 = MINIDUMP_LOCATION_DESCRIPTOR::spec_encode(w.thread_context, e);
    let pre1 = enc0 + enc1;
    let pre2 = pre1 + enc2;
    let pre3 = pre2 + enc3;
    assert(b.subrange(off, off + 168) == pre3);
    lemma_split_at(b, off, off + 160, off + 168, pre2, enc3);
    lemma_split_at(b, off, off + 8, off + 160, pre1, enc2);
    lemma_split_at(b, off, off + 4, off + 8, enc0, enc1);
    lemma_read_u32_at(b, off, w.thread_id, e);
    lemma_read_u32_at(b, off + 4, w.__align, e);
    lemma_minidump_exception_encode_at(b, off + 8, w.exception_record, e);
    lemma_minidump_location_descriptor_encode_at(b, off + 160, w.thread_context, e);
}

/// Round trip: decoding the encoding of a record yields the record, and
/// the encoding is exactly the record's fixed size.
pub proof fn lemma_minidump_exception_stream_roundtrip(w: MINIDUMP_EXCEPTION_STREAMView, e: Endianness)
    requires
        w.wf(),
    ensures
        MINIDUMP_EXCEPTION_STREAM::spec_encode(w, e).len() == MINIDUMP_EXCEPTION_STREAM::spec_size(),
        MINIDUMP_EXCEPTION_STREAM::spec_decode(MINIDUMP_EXCEPTION_STREAM::spec_encode(w, e), 0, e) == w,
{
    lemma_minidump_exception_stream_encode_len(w, e);
    let enc = MINIDUMP_EXCEPTION_STREAM::spec_encode(w, e);
    assert(enc.subrange(0, 168) =~= enc);
    lemma_minidump_exception_stream_encode_at(enc, 0, w, e);
}

/// A list of memory regions in a minidump; the individual
/// [`MINIDUMP_MEMORY_INFO`] records follow this header in the stream.
#[derive(Debug, Clone, PartialEq)]
pub struct MINIDUMP_MEMORY_INFO_LIST {
    pub size_of_header: u32,
    pub size_of_entry: u32,
    pub number_of_entries: u64,
}

impl View for MINIDUMP_MEMORY_INFO_LIST {
    type V = MINIDUMP_MEMORY_INFO_LIST;

    open spec fn view(&self) -> MINIDUMP_MEMORY_INFO_LIST {
        *self
    }
}

impl MINIDUMP_MEMORY_INFO_LIST {
    /// The number of bytes this record occupies.
    pub open spec fn spec_size() -> nat {
        16
    }

    /// The record the bytes of `b` at `off` denote in byte order `e`.
    pub open spec fn spec_decode(b: Seq<u8>, off: int, e: Endianness) -> MINIDUMP_MEMORY_INFO_LIST {
        MINIDUMP_MEMORY_INFO_LIST {
            size_of_header: spec_read_u32(b, off, e),
            size_of_entry: spec_read_u32(b, off + 4, e),
            number_of_entries: spec_read_u64(b, off + 8, e),
        }
    }

    /// The bytes the record `w` encodes to in byte order `e`.
    pub open spec fn spec_encode(w: MINIDUMP_MEMORY_INFO_LIST, e: Endianness) -> Seq<u8> {
        spec_encode_u32(w.size_of_header, e)
            + spec_encode_u32(w.size_of_entry, e)
            + spec_encode_u64(w.number_of_entries, e)
    }

    /// Reads the record at `off`, known to be in bounds.
    pub fn read_at(buf: &[u8], off: usize, e: Endianness) -> (r: Self)
        requires
            off + 16 <= buf@.len(),
        ensures
            r@ == Self::spec_decode(buf@, off as int, e),
    {
        let _blen = buf.len();  // a slice length fits usize, bounding the field offsets
        MINIDUMP_MEMORY_INFO_LIST {
            size_of_header: read_u32(buf, off, e),
            size_of_entry: read_u32(buf, off + 4, e),
            number_of_entries: read_u64(buf, off + 8, e),
        }
    }

    /// Decodes the record at `off`: `Ok` exactly when the buffer holds
    /// `spec_size` bytes at `off`; the number returned with the record
    /// is the bytes consumed, always `spec_size`.
    pub fn decode(buf: &[u8], off: usize, e: Endianness) -> (r: Result<(Self, usize), DecodeError>)
        ensures
            match r {
                Ok((v, n)) => off + Self::spec_size() <= buf@.len()
                    && n == Self::spec_size()
                    && v@ == Self::spec_decode(buf@, off as int, e),
                Err(err) => err == DecodeError::OutOfBounds
                    && off + Self::spec_size() > buf@.len(),
            },
    {
        if buf.len() < 16 || off > buf.len() - 16 {
            return Err(DecodeError::OutOfBounds);
        }
        Ok((Self::read_at(buf, off, e), 16))
    }

    /// Appends this record's encoding in byte order `e` to `out`.
    pub fn write(&self, out: &mut Vec<u8>, e: Endianness)
        ensures
            final(out)@ == old(out)@ + Self::spec_encode(self@, e),
    {
        write_u32(out, self.size_of_header, e);
        write_u32(out, self.size_of_entry, e);
        write_u64(out, self.number_of_entries, e);
        assert(out@ =~= old(out)@ + Self::spec_encode(self@, e));
    }

    /// Encodes this record in byte order `e`.
    pub fn encode(&self, e: Endianness) -> (r: Vec<u8>)
        ensures
            r@ == Self::spec_encode(self@, e),
    {
        let mut out: Vec<u8> = Vec::new();
        self.write(&mut out, e);
        proof {
            assert(out@ =~= Self::spec_encode(self@, e));
        }
        out
    }
}

/// The encoding of a record is exactly [`MINIDUMP_MEMORY_INFO_LIST::spec_size`] bytes.
pub proof fn lemma_minidump_memory_info_list_encode_len(w: MINIDUMP_MEMORY_INFO_LIST, e: Endianness)
    ensures
        MINIDUMP_MEMORY_INFO_LIST::spec_encode(w, e).len() == 16,
{
    lemma_encode_lens();
}

/// Reading back the encoding of `w` found at offset `off` yields `w`.
pub proof fn lemma_minidump_memory_info_list_encode_at(b: Seq<u8>, off: int, w: MINIDUMP_MEMORY_INFO_LIST, e: Endianness)
    requires
        0 <= off,
        off + 16 <= b.len(),
        b.subrange(off, off + 16) == MINIDUMP_MEMORY_INFO_LIST::spec_encode(w, e),
    ensures
        MINIDUMP_MEMORY_INFO_LIST::spec_decode(b, off, e) == w,
{
    lemma_encode_lens();
    let enc0 = spec_encode_u32(w.size_of_header, e);
    let enc1 = spec_encode_u32(w.size_of_entry, e);
    let enc2 = spec_encode_u64(w.number_of_entries, e);
    let pre1 = enc0 + enc1;
    let pre2 = pre1 + enc2;
    assert(b.subrange(off, off + 16) == pre2);
    lemma_split_at(b, off, off + 8, off + 16, pre1, enc2);
    lemma_split_at(b, off, off + 4, off + 8, enc0, enc1);
    lemma_read_u32_at(b, off, w.size_of_header, e);
    lemma_read_u32_at(b, off + 4, w.size_of_entry, e);
    lemma_read_u64_at(b, off + 8, w.number_of_entries, e);
}

/// Round trip: decoding the encoding of a record yields the record, and
/// the encoding is exactly the record's fixed size.
pub proof fn lemma_minidump_memory_info_list_roundtrip(w: MINIDUMP_MEMORY_INFO_LIST, e: Endianness)
    ensures
        MINIDUMP_MEMORY_INFO_LIST::spec_encode(w, e).len() == MINIDUMP_MEMORY_INFO_LIST::spec_size(),
        MINIDUMP_MEMORY_INFO_LIST::spec_decode(MINIDUMP_MEMORY_INFO_LIST::spec_encode(w, e), 0, e) == w,
{
    lemma_minidump_memory_info_list_encode_len(w, e);
    let enc = MINIDUMP_MEMORY_INFO_LIST::spec_encode(w, e);
    assert(enc.subrange(0, 16) =~= enc);
    lemma_minidump_memory_info_list_encode_at(enc, 0, w, e);
}

/// Information about a memory region in a minidump.
///
/// The alignment fields are decoded and preserved exactly as stored.
#[derive(Debug, Clone, PartialEq)]
pub struct MINIDUMP_MEMORY_INFO {
    pub base_address: u64,
    pub allocation_base: u64,
    pub allocation_protection: u32,
    pub __alignment1: u32,
    pub region_size: u64,
    pub state: u32,
    pub protection: u32,
    pub _type: u32,
    pub __alignment2: u32,
}

impl View for MINIDUMP_MEMORY_INFO {
    type V = MINIDUMP_MEMORY_INFO;

    open spec fn view(&self) -> MINIDUMP_MEMORY_INFO {
        *self
    }
}

impl MINIDUMP_MEMORY_INFO {
    /// The number of bytes this record occupies.
    pub open spec fn spec_size() -> nat {
        48
    }

    /// The record the bytes of `b` at `off` denote in byte order `e`.
    pub open spec fn spec_decode(b: Seq<u8>, off: int, e: Endianness) -> MINIDUMP_MEMORY_INFO {
        MINIDUMP_MEMORY_INFO {
            base_address: spec_read_u64(b, off, e),
            allocation_base: spec_read_u64(b, off + 8, e),
            allocation_protection: spec_read_u32(b, off + 16, e),
            __alignment1: spec_read_u32(b, off + 20, e),
            region_size: spec_read_u64(b, off + 24, e),
            state: spec_read_u32(b, off + 32, e),
            protection: spec_read_u32(b, off + 36, e),
            _type: spec_read_u32(b, off + 40, e),
            __alignment2: spec_read_u32(b, off + 44, e),
        }
    }

    /// The bytes the record `w` encodes to in byte order `e`.
    pub open spec fn spec_encode(w: MINIDUMP_MEMORY_INFO, e: Endianness) -> Seq<u8> {
        spec_encode_u64(w.base_address, e)
            + spec_encode_u64(w.allocation_base, e)
            + spec_encode_u32(w.allocation_protection, e)
            + spec_encode_u32(w.__alignment1, e)
            + spec_encode_u64(w.region_size, e)
            + spec_encode_u32(w.state, e)
            + spec_encode_u32(w.protection, e)
            + spec_encode_u32(w._type, e)
            + spec_encode_u32(w.__alignment2, e)
    }

    /// Reads the record at `off`, known to be in bounds.
    pub fn read_at(buf: &[u8], off: usize, e: Endianness) -> (r: Self)
        requires
            off + 48 <= buf@.len(),
        ensures
            r@ == Self::spec_decode(buf@, off as int, e),
    {
        let _blen = buf.len();  // a slice length fits usize, bounding the field offsets
        MINIDUMP_MEMORY_INFO {
            base_address: read_u64(buf, off, e),
            allocation_base: read_u64(buf, off + 8, e),
            allocation_protection: read_u32(buf, off + 16, e),
            __alignment1: read_u32(buf, off + 20, e),
            region_size: read_u64(buf, off + 24, e),
            state: read_u32(buf, off + 32, e),
            protection: read_u32(buf, off + 36, e),
            _type: read_u32(buf, off + 40, e),
            __alignment2: read_u32(buf, off + 44, e),
        }
    }

    /// Decodes the record at `off`: `Ok` exactly when the buffer holds
    /// `spec_size` bytes at `off`; the number returned with the record
    /// is the bytes consumed, always `spec_size`.
    pub fn decode(buf: &[u8], off: usize, e: Endianness) -> (r: Result<(Self, usize), DecodeError>)
        ensures
            match r {
                Ok((v, n)) => off + Self::spec_size() <= buf@.len()
                    && n == Self::spec_size()
                    && v@ == Self::spec_decode(buf@, off as int, e),
                Err(err) => err == DecodeError::OutOfBounds
                    && off + Self::spec_size() > buf@.len(),
            },
    {
        if buf.len() < 48 || off > buf.len() - 48 {
            return Err(DecodeError::OutOfBounds);
        }
        Ok((Self::read_at(buf, off, e), 48))
    }

    /// Appends this record's encoding in byte order `e` to `out`.
    #[verifier::spinoff_prover]
    #[verifier::rlimit(100)]
    pub fn write(&self, out: &mut Vec<u8>, e: Endianness)
        ensures
            final(out)@ == old(out)@ + Self::spec_encode(self@, e),
    {
        let ghost enc0 = spec_encode_u64(self@.base_address, e);
        let ghost enc1 = spec_encode_u64(self@.allocation_base, e);
        let ghost enc2 = spec_encode_u32(self@.allocation_protection, e);
        let ghost enc3 = spec_encode_u32(self@.__alignment1, e);
        let ghost enc4 = spec_encode_u64(self@.region_size, e);
        let ghost enc5 = spec_encode_u32(self@.state, e);
        let ghost enc6 = spec_encode_u32(self@.protection, e);
        let ghost enc7 = spec_encode_u32(self@._type, e);
        let ghost enc8 = spec_encode_u32(self@.__alignment2, e);
        let ghost pre1 = enc0 + enc1;
        let ghost pre2 = pre1 + enc2;
        let ghost pre3 = pre2 + enc3;
        let ghost pre4 = pre3 + enc4;
        let ghost pre5 = pre4 + enc5;
        let ghost pre6 = pre5 + enc6;
        let ghost pre7 = pre6 + enc7;
        let ghost pre8 = pre7 + enc8;
        write_u64(out, self.base_address, e);
        proof { assert(out@ == old(out)@ + enc0); }
        write_u64(out, self.allocation_base, e);
        proof {
            lemma_seq_add_assoc(old(out)@, enc0, enc1);
            assert(out@ == old(out)@ + pre1);
        }
        write_u32(out, self.allocation_protection, e);
        proof {
            lemma_seq_add_assoc(old(out)@, pre1, enc2);
            assert(out@ == old(out)@ + pre2);
        }
        write_u32(out, self.__alignment1, e);
        proof {
            lemma_seq_add_assoc(old(out)@, pre2, enc3);
            assert(out@ == old(out)@ + pre3);
        }
        write_u64(out, self.region_size, e);
        proof {
            lemma_seq_add_assoc(old(out)@, pre3, enc4);
            assert(out@ == old(out)@ + pre4);
        }
        write_u32(out, self.state, e);
        proof {
            lemma_seq_add_assoc(old(out)@, pre4, enc5);
            assert(out@ == old(out)@ + pre5);
        }
        write_u32(out, self.protection, e);
        proof {
            lemma_seq_add_assoc(old(out)@, pre5, enc6);
            assert(out@ == old(out)@ + pre6);
        }
        write_u32(out, self._type, e);
        proof {
            lemma_seq_add_assoc(old(out)@, pre6, enc7);
            assert(out@ == old(out)@ + pre7);
        }
        write_u32(out, self.__alignment2, e);
        proof {
            lemma_seq_add_assoc(old(out)@, pre7, enc8);
            assert(out@ == old(out)@ + pre8);
        }
        assert(out@ == old(out)@ + Self::spec_encode(self@, e));
    }

    /// Encodes this record in byte order `e`.
    pub fn encode(&self, e: Endianness) -> (r: Vec<u8>)
        ensures
            r@ == Self::spec_encode(self@, e),
    {
        let mut out: Vec<u8> = Vec::new();
        self.write(&mut out, e);
        proof {
            assert(out@ =~= Self::spec_encode(self@, e));
        }
        out
    }
}

/// The encoding of a record is exactly [`MINIDUMP_MEMORY_INFO::spec_size`] bytes.
pub proof fn lemma_minidump_memory_info_encode_len(w: MINIDUMP_MEMORY_INFO, e: Endianness)
    ensures
        MINIDUMP_MEMORY_INFO::spec_encode(w, e).len() == 48,
{
    lemma_encode_lens();
}

/// Reading back the encoding of `w` found at offset `off` yields `w`.
pub proof fn lemma_minidump_memory_info_encode_at(b: Seq<u8>, off: int, w: MINIDUMP_MEMORY_INFO, e: Endianness)
    requires
        0 <= off,
        off + 48 <= b.len(),
        b.subrange(off, off + 48) == MINIDUMP_MEMORY_INFO::spec_encode(w, e),
    ensures
        MINIDUMP_MEMORY_INFO::spec_decode(b, off, e) == w,
{
    lemma_encode_lens();
    let enc0 = spec_encode_u64(w.base_address, e);
    let enc1 = spec_encode_u64(w.allocation_base, e);
    let enc2 = spec_encode_u32(w.allocation_protection, e);
    let enc3 = spec_encode_u32(w.__alignment1, e);
    let enc4 = spec_encode_u64(w.region_size, e);
    let enc5 = spec_encode_u32(w.state, e);
    let enc6 = spec_encode_u32(w.protection, e);
    let enc7 = spec_encode_u32(w._type, e);
    let enc8 = spec_encode_u32(w.__alignment2, e);
    let pre1 = enc0 + enc1;
    let pre2 = pre1 + enc2;
    let pre3 = pre2 + enc3;
    let pre4 = pre3 + enc4;
    let pre5 = pre4 + enc5;
    let pre6 = pre5 + enc6;
    let pre7 = pre6 + enc7;
    let pre8 = pre7 + enc8;
    assert(b.subrange(off, off + 48) == pre8);
    lemma_split_at(b, off, off + 44, off + 48, pre7, enc8);
    lemma_split_at(b, off, off + 40, off + 44, pre6, enc7);
    lemma_split_at(b, off, off + 36, off + 40, pre5, enc6);
    lemma_split_at(b, off, off + 32, off + 36, pre4, enc5);
    lemma_split_at(b, off, off + 24, off + 32, pre3, enc4);
    lemma_split_at(b, off, off + 20, off + 24, pre2, enc3);
    lemma_split_at(b, off, off + 16, off + 20, pre1, enc2);
    lemma_split_at(b, off, off + 8, off + 16, enc0, enc1);
    lemma_read_u64_at(b, off, w.base_address, e);
    lemma_read_u64_at(b, off + 8, w.allocation_base, e);
    lemma_read_u32_at(b, off + 16, w.allocation_protection, e);
    lemma_read_u32_at(b, off + 20, w.__alignment1, e);
    lemma_read_u64_at(b, off + 24, w.region_size, e);
    lemma_read_u32_at(b, off + 32, w.state, e);
    lemma_read_u32_at(b, off + 36, w.protection, e);
    lemma_read_u32_at(b, off + 40, w._type, e);
    lemma_read_u32_at(b, off + 44, w.__alignment2, e);
}

/// Round trip: decoding the encoding of a record yields the record, and
/// the encoding is exactly the record's fixed size.
pub proof fn lemma_minidump_memory_info_roundtrip(w: MINIDUMP_MEMORY_INFO, e: Endianness)
    ensures
        MINIDUMP_MEMORY_INFO::spec_encode(w, e).len() == MINIDUMP_MEMORY_INFO::spec_size(),
        MINIDUMP_MEMORY_INFO::spec_decode(MINIDUMP_MEMORY_INFO::spec_encode(w, e), 0, e) == w,
{
    lemma_minidump_memory_info_encode_len(w, e);
    let enc = MINIDUMP_MEMORY_INFO::spec_encode(w, e);
    assert(enc.subrange(0, 48) =~= enc);
    lemma_minidump_memory_info_encode_at(enc, 0, w, e);
}

} // verus!
