//! Linux dynamic-linker records.

use vstd::prelude::*;

verus! {

broadcast use vstd::seq::group_seq_axioms;

use crate::codec::DecodeError;
use crate::codec::Endianness;
use crate::codec::lemma_encode_lens;
use crate::codec::lemma_split_at;
use crate::codec::lemma_read_u32_at;
use crate::codec::lemma_read_u64_at;
use crate::codec::read_u32;
use crate::codec::read_u64;
use crate::codec::spec_encode_u32;
use crate::codec::spec_encode_u64;
use crate::codec::spec_read_u32;
use crate::codec::spec_read_u64;
use crate::codec::write_u32;
use crate::codec::write_u64;

/// Dynamic linker information for a shared library on 32-bit Linux.
#[derive(Debug, Clone, PartialEq)]
pub struct LINK_MAP_32 {
    pub addr: u32,
    pub name: u32,
    pub ld: u32,
}

impl View for LINK_MAP_32 {
    type V = LINK_MAP_32;

    open spec fn view(&self) -> LINK_MAP_32 {
        *self
    }
}

impl LINK_MAP_32 {
    /// The number of bytes this record occupies.
    pub open spec fn spec_size() -> nat {
        12
    }

    /// The record the bytes of `b` at `off` denote in byte order `e`.
    pub open spec fn spec_decode(b: Seq<u8>, off: int, e: Endianness) -> LINK_MAP_32 {
        LINK_MAP_32 {
            addr: spec_read_u32(b, off, e),
            name: spec_read_u32(b, off + 4, e),
            ld: spec_read_u32(b, off + 8, e),
        }
    }

    /// The bytes the record `w` encodes to in byte order `e`.
    pub open spec fn spec_encode(w: LINK_MAP_32, e: Endianness) -> Seq<u8> {
        spec_encode_u32(w.addr, e)
            + spec_encode_u32(w.name, e)
            + spec_encode_u32(w.ld, e)
    }

    /// Reads the record at `off`, known to be in bounds.
    pub fn read_at(buf: &[u8], off: usize, e: Endianness) -> (r: Self)
        requires
            off + 12 <= buf@.len(),
        ensures
            r@ == Self::spec_decode(buf@, off as int, e),
    {
        let _blen = buf.len();  // a slice length fits usize, bounding the field offsets
        LINK_MAP_32 {
            addr: read_u32(buf, off, e),
            name: read_u32(buf, off + 4, e),
            ld: read_u32(buf, off + 8, e),
        }
    }

    /// Decodes the record at `off`: `Ok` exactly when the buffer holds
    /// `spec_size` bytes at `off`; the number returned with the record
    /// is the bytes consumed, always `spec_size`.
    pub fn decode(buf: &[u8], off: usize, e: Endianness) -> (r: Result<(Self, usize), DecodeError>)
        ensures
            match r {
                Ok((v, n)) => off + Self::spec_size() <= buf@.len()
                    && n == Self::spec_size()
                    && v@ == Self::spec_decode(buf@, off as int, e),
                Err(err) => err == DecodeError::OutOfBounds
                    && off + Self::spec_size() > buf@.len(),
            },
    {
        if buf.len() < 12 || off > buf.len() - 12 {
            return Err(DecodeError::OutOfBounds);
        }
        Ok((Self::read_at(buf, off, e), 12))
    }

    /// Appends this record's encoding in byte order `e` to `out`.
    pub fn write(&self, out: &mut Vec<u8>, e: Endianness)
        ensures
            final(out)@ == old(out)@ + Self::spec_encode(self@, e),
    {
        write_u32(out, self.addr, e);
        write_u32(out, self.name, e);
        write_u32(out, self.ld, e);
        assert(out@ =~= old(out)@ + Self::spec_encode(self@, e));
    }

    /// Encodes this record in byte order `e`.
    pub fn encode(&self, e: Endianness) -> (r: Vec<u8>)
        ensures
            r@ == Self::spec_encode(self@, e),
    {
        let mut out: Vec<u8> = Vec::new();
        self.write(&mut out, e);
        proof {
            assert(out@ =~= Self::spec_encode(self@, e));
        }
        out
    }
}

/// The encoding of a record is exactly [`LINK_MAP_32::spec_size`] bytes.
pub proof fn lemma_link_map_32_encode_len(w: LINK_MAP_32, e: Endianness)
    ensures
        LINK_MAP_32::spec_encode(w, e).len() == 12,
{
    lemma_encode_lens();
}

/// Reading back the encoding of `w` found at offset `off` yields `w`.
pub proof fn lemma_link_map_32_encode_at(b: Seq<u8>, off: int, w: LINK_MAP_32, e: Endianness)
    requires
        0 <= off,
        off + 12 <= b.len(),
        b.subrange(off, off + 12) == LINK_MAP_32::spec_encode(w, e),
    ensures
        LINK_MAP_32::spec_decode(b, off, e) == w,
{
    lemma_encode_lens();
    let enc0 = spec_encode_u32(w.addr, e);
    let enc1 = spec_encode_u32(w.name, e);
    let enc2 = spec_encode_u32(w.ld, e);
    let pre1 = enc0 + enc1;
    let pre2 = pre1 + enc2;
    assert(b.subrange(off, off + 12) == pre2);
    lemma_split_at(b, off, off + 8, off + 12, pre1, enc2);
    lemma_split_at(b, off, off + 4, off + 8, enc0, enc1);
    lemma_read_u32_at(b, off, w.addr, e);
    lemma_read_u32_at(b, off + 4, w.name, e);
    lemma_read_u32_at(b, off + 8, w.ld, e);
}

/// Round trip: decoding the encoding of a record yields the record, and
/// the encoding is exactly the record's fixed size.
pub proof fn lemma_link_map_32_roundtrip(w: LINK_MAP_32, e: Endianness)
    ensures
        LINK_MAP_32::spec_encode(w, e).len() == LINK_MAP_32::spec_size(),
        LINK_MAP_32::spec_decode(LINK_MAP_32::spec_encode(w, e), 0, e) == w,
{
    lemma_link_map_32_encode_len(w, e);
    let enc = LINK_MAP_32::spec_encode(w, e);
    assert(enc.subrange(0, 12) =~= enc);
    lemma_link_map_32_encode_at(enc, 0, w, e);
}

/// DSO debug data for 32-bit Linux minidumps, used when converting
/// minidumps to coredumps.
#[derive(Debug, Clone, PartialEq)]
pub struct DSO_DEBUG_32 {
    pub version: u32,
    pub map: u32,
    pub dso_count: u32,
    pub brk: u32,
    pub ldbase: u32,
    pub dynamic: u32,
}

impl View for DSO_DEBUG_32 {
    type V = DSO_DEBUG_32;

    open spec fn view(&self) -> DSO_DEBUG_32 {
        *self
    }
}

impl DSO_DEBUG_32 {
    /// The number of bytes this record occupies.
    pub open spec fn spec_size() -> nat {
        24
    }

    /// The record the bytes of `b` at `off` denote in byte order `e`.
    pub open spec fn spec_decode(b: Seq<u8>, off: int, e: Endianness) -> DSO_DEBUG_32 {
        DSO_DEBUG_32 {
            version: spec_read_u32(b, off, e),
            map: spec_read_u32(b, off + 4, e),
            dso_count: spec_read_u32(b, off + 8, e),
            brk: spec_read_u32(b, off + 12, e),
            ldbase: spec_read_u32(b, off + 16, e),
            dynamic: spec_read_u32(b, off + 20, e),
        }
    }

    /// The bytes the record `w` encodes to in byte order `e`.
    pub open spec fn spec_encode(w: DSO_DEBUG_32, e: Endianness) -> Seq<u8> {
        spec_encode_u32(w.version, e)
            + spec_encode_u32(w.map, e)
            + spec_encode_u32(w.dso_count, e)
            + spec_encode_u32(w.brk, e)
            + spec_encode_u32(w.ldbase, e)
            + spec_encode_u32(w.dynamic, e)
    }

    /// Reads the record at `off`, known to be in bounds.
    pub fn read_at(buf: &[u8], off: usize, e: Endianness) -> (r: Self)
        requires
            off + 24 <= buf@.len(),
        ensures
            r@ == Self::spec_decode(buf@, off as int, e),
    {
        let _blen = buf.len();  // a slice length fits usize, bounding the field offsets
        DSO_DEBUG_32 {
            version: read_u32(buf, off, e),
            map: read_u32(buf, off + 4, e),
            dso_count: read_u32(buf, off + 8, e),
            brk: read_u32(buf, off + 12, e),
            ldbase: read_u32(buf, off + 16, e),
            dynamic: read_u32(buf, off + 20, e),
        }
    }

    /// Decodes the record at `off`: `Ok` exactly when the buffer holds
    /// `spec_size` bytes at `off`; the number returned with the record
    /// is the bytes consumed, always `spec_size`.
    pub fn decode(buf: &[u8], off: usize, e: Endianness) -> (r: Result<(Self, usize), DecodeError>)
        ensures
            match r {
                Ok((v, n)) => off + Self::spec_size() <= buf@.len()
                    && n == Self::spec_size()
                    && v@ == Self::spec_decode(buf@, off as int, e),
                Err(err) => err == DecodeError::OutOfBounds
                    && off + Self::spec_size() > buf@.len(),
            },
    {
        if buf.len() < 24 || off > buf.len() - 24 {
            return Err(DecodeError::OutOfBounds);
        }
        Ok((Self::read_at(buf, off, e), 24))
    }

    /// Appends this record's encoding in byte order `e` to `out`.
    pub fn write(&self, out: &mut Vec<u8>, e: Endianness)
        ensures
            final(out)@ == old(out)@ + Self::spec_encode(self@, e),
    {
        write_u32(out, self.version, e);
        write_u32(out, self.map, e);
        write_u32(out, self.dso_count, e);
        write_u32(out, self.brk, e);
        write_u32(out, self.ldbase, e);
        write_u32(out, self.dynamic, e);
        assert(out@ =~= old(out)@ + Self::spec_encode(self@, e));
    }

    /// Encodes this record in byte order `e`.
    pub fn encode(&self, e: Endianness) -> (r: Vec<u8>)
        ensures
            r@ == Self::spec_encode(self@, e),
    {
        let mut out: Vec<u8> = Vec::new();
        self.write(&mut out, e);
        proof {
            assert(out@ =~= Self::spec_encode(self@, e));
        }
        out
    }
}

/// The encoding of a record is exactly [`DSO_DEBUG_32::spec_size`] bytes.
pub proof fn lemma_dso_debug_32_encode_len(w: DSO_DEBUG_32, e: Endianness)
    ensures
        DSO_DEBUG_32::spec_encode(w, e).len() == 24,
{
    lemma_encode_lens();
}

/// Reading back the encoding of `w` found at offset `off` yields `w`.
pub proof fn lemma_dso_debug_32_encode_at(b: Seq<u8>, off: int, w: DSO_DEBUG_32, e: Endianness)
    requires
        0 <= off,
        off + 24 <= b.len(),
        b.subrange(off, off + 24) == DSO_DEBUG_32::spec_encode(w, e),
    ensures
        DSO_DEBUG_32::spec_decode(b, off, e) == w,
{
    lemma_encode_lens();
    let enc0 = spec_encode_u32(w.version, e);
    let enc1 = spec_encode_u32(w.map, e);
    let enc2 = spec_encode_u32(w.dso_count, e);
    let enc3 = spec_encode_u32(w.brk, e);
    let enc4 = spec_encode_u32(w.ldbase, e);
    let enc5 = spec_encode_u32(w.dynamic, e);
    let pre1 = enc0 + enc1;
    let pre2 = pre1 + enc2;
    let pre3 = pre2 + enc3;
    let pre4 = pre3 + enc4;
    let pre5 = pre4 + enc5;
    assert(b.subrange(off, off + 24) == pre5);
    lemma_split_at(b, off, off + 20, off + 24, pre4, enc5);
    lemma_split_at(b, off, off + 16, off + 20, pre3, enc4);
    lemma_split_at(b, off, off + 12, off + 16, pre2, enc3);
    lemma_split_at(b, off, off + 8, off + 12, pre1, enc2);
    lemma_split_at(b, off, off + 4, off + 8, enc0, enc1);
    lemma_read_u32_at(b, off, w.version, e);
    lemma_read_u32_at(b, off + 4, w.map, e);
    lemma_read_u32_at(b, off + 8, w.dso_count, e);
    lemma_read_u32_at(b, off + 12, w.brk, e);
    lemma_read_u32_at(b, off + 16, w.ldbase, e);
    lemma_read_u32_at(b, off + 20, w.dynamic, e);
}

/// Round trip: decoding the encoding of a record yields the record, and
/// the encoding is exactly the record's fixed size.
pub proof fn lemma_dso_debug_32_roundtrip(w: DSO_DEBUG_32, e: Endianness)
    ensures
        DSO_DEBUG_32::spec_encode(w, e).len() == DSO_DEBUG_32::spec_size(),
        DSO_DEBUG_32::spec_decode(DSO_DEBUG_32::spec_encode(w, e), 0, e) == w,
{
    lemma_dso_debug_32_encode_len(w, e);
    let enc = DSO_DEBUG_32::spec_encode(w, e);
    assert(enc.subrange(0, 24) =~= enc);
    lemma_dso_debug_32_encode_at(enc, 0, w, e);
}

/// Dynamic linker information for a shared library on 64-bit Linux.
#[derive(Debug, Clone, PartialEq)]
pub struct LINK_MAP_64 {
    pub addr: u64,
    pub name: u32,
    pub ld: u64,
}

impl View for LINK_MAP_64 {
    type V = LINK_MAP_64;

    open spec fn view(&self) -> LINK_MAP_64 {
        *self
    }
}

impl LINK_MAP_64 {
    /// The number of bytes this record occupies.
    pub open spec fn spec_size() -> nat {
        20
    }

    /// The record the bytes of `b` at `off` denote in byte order `e`.
    pub open spec fn spec_decode(b: Seq<u8>, off: int, e: Endianness) -> LINK_MAP_64 {
        LINK_MAP_64 {
            addr: spec_read_u64(b, off, e),
            name: spec_read_u32(b, off + 8, e),
            ld: spec_read_u64(b, off + 12, e),
        }
    }

    /// The bytes the record `w` encodes to in byte order `e`.
    pub open spec fn spec_encode(w: LINK_MAP_64, e: Endianness) -> Seq<u8> {
        spec_encode_u64(w.addr, e)
            + spec_encode_u32(w.name, e)
            + spec_encode_u64(w.ld, e)
    }

    /// Reads the record at `off`, known to be in bounds.
    pub fn read_at(buf: &[u8], off: usize, e: Endianness) -> (r: Self)
        requires
            off + 20 <= buf@.len(),
        ensures
            r@ == Self::spec_decode(buf@, off as int, e),
    {
        let _blen = buf.len();  // a slice length fits usize, bounding the field offsets
        LINK_MAP_64 {
            addr: read_u64(buf, off, e),
            name: read_u32(buf, off + 8, e),
            ld: read_u64(buf, off + 12, e),
        }
    }

    /// Decodes the record at `off`: `Ok` exactly when the buffer holds
    /// `spec_size` bytes at `off`; the number returned with the record
    /// is the bytes consumed, always `spec_size`.
    pub fn decode(buf: &[u8], off: usize, e: Endianness) -> (r: Result<(Self, usize), DecodeError>)
        ensures
            match r {
                Ok((v, n)) => off + Self::spec_size() <= buf@.len()
                    && n == Self::spec_size()
                    && v@ == Self::spec_decode(buf@, off as int, e),
                Err(err) => err == DecodeError::OutOfBounds
                    && off + Self::spec_size() > buf@.len(),
            },
    {
        if buf.len() < 20 || off > buf.len() - 20 {
            return Err(DecodeError::OutOfBounds);
        }
        Ok((Self::read_at(buf, off, e), 20))
    }

    /// Appends this record's encoding in byte order `e` to `out`.
    pub fn write(&self, out: &mut Vec<u8>, e: Endianness)
        ensures
            final(out)@ == old(out)@ + Self::spec_encode(self@, e),
    {
        write_u64(out, self.addr, e);
        write_u32(out, self.name, e);
        write_u64(out, self.ld, e);
        assert(out@ =~= old(out)@ + Self::spec_encode(self@, e));
    }

    /// Encodes this record in byte order `e`.
    pub fn encode(&self, e: Endianness) -> (r: Vec<u8>)
        ensures
            r@ == Self::spec_encode(self@, e),
    {
        let mut out: Vec<u8> = Vec::new();
        self.write(&mut out, e);
        proof {
            assert(out@ =~= Self::spec_encode(self@, e));
        }
        out
    }
}

/// The encoding of a record is exactly [`LINK_MAP_64::spec_size`] bytes.
pub proof fn lemma_link_map_64_encode_len(w: LINK_MAP_64, e: Endianness)
    ensures
        LINK_MAP_64::spec_encode(w, e).len() == 20,
{
    lemma_encode_lens();
}

/// Reading back the encoding of `w` found at offset `off` yields `w`.
pub proof fn lemma_link_map_64_encode_at(b: Seq<u8>, off: int, w: LINK_MAP_64, e: Endianness)
    requires
        0 <= off,
        off + 20 <= b.len(),
        b.subrange(off, off + 20) == LINK_MAP_64::spec_encode(w, e),
    ensures
        LINK_MAP_64::spec_decode(b, off, e) == w,
{
    lemma_encode_lens();
    let enc0 = spec_encode_u64(w.addr, e);
    let enc1 = spec_encode_u32(w.name, e);
    let enc2 = spec_encode_u64(w.ld, e);
    let pre1 = enc0 + enc1;
    let pre2 = pre1 + enc2;
    assert(b.subrange(off, off + 20) == pre2);
    lemma_split_at(b, off, off + 12, off + 20, pre1, enc2);
    lemma_split_at(b, off, off + 8, off + 12, enc0, enc1);
    lemma_read_u64_at(b, off, w.addr, e);
    lemma_read_u32_at(b, off + 8, w.name, e);
    lemma_read_u64_at(b, off + 12, w.ld, e);
}

/// Round trip: decoding the encoding of a record yields the record, and
/// the encoding is exactly the record's fixed size.
pub proof fn lemma_link_map_64_roundtrip(w: LINK_MAP_64, e: Endianness)
    ensures
        LINK_MAP_64::spec_encode(w, e).len() == LINK_MAP_64::spec_size(),
        LINK_MAP_64::spec_decode(LINK_MAP_64::spec_encode(w, e), 0, e) == w,
{
    lemma_link_map_64_encode_len(w, e);
    let enc = LINK_MAP_64::spec_encode(w, e);
    assert(enc.subrange(0, 20) =~= enc);
    lemma_link_map_64_encode_at(enc, 0, w, e);
}

/// DSO debug data for 64-bit Linux minidumps, used when converting
/// minidumps to coredumps.
#[derive(Debug, Clone, PartialEq)]
pub struct DSO_DEBUG_64 {
    pub version: u32,
    pub map: u32,
    pub dso_count: u32,
    pub brk: u64,
    pub ldbase: u64,
    pub dynamic: u64,
}

impl View for DSO_DEBUG_64 {
    type V = DSO_DEBUG_64;

    open spec fn view(&self) -> DSO_DEBUG_64 {
        *self
    }
}

impl DSO_DEBUG_64 {
    /// The number of bytes this record occupies.
    pub open spec fn spec_size() -> nat {
        36
    }

    /// The record the bytes of `b` at `off` denote in byte order `e`.
    pub open spec fn spec_decode(b: Seq<u8>, off: int, e: Endianness) -> DSO_DEBUG_64 {
        DSO_DEBUG_64 {
            version: spec_read_u32(b, off, e),
            map: spec_read_u32(b, off + 4, e),
            dso_count: spec_read_u32(b, off + 8, e),
            brk: spec_read_u64(b, off + 12, e),
            ldbase: spec_read_u64(b, off + 20, e),
            dynamic: spec_read_u64(b, off + 28, e),
        }
    }

    /// The bytes the record `w` encodes to in byte order `e`.
    pub open spec fn spec_encode(w: DSO_DEBUG_64, e: Endianness) -> Seq<u8> {
        spec_encode_u32(w.version, e)
            + spec_encode_u32(w.map, e)
            + spec_encode_u32(w.dso_count, e)
            + spec_encode_u64(w.brk, e)
            + spec_encode_u64(w.ldbase, e)
            + spec_encode_u64(w.dynamic, e)
    }

    /// Reads the record at `off`, known to be in bounds.
    pub fn read_at(buf: &[u8], off: usize, e: Endianness) -> (r: Self)
        requires
            off + 36 <= buf@.len(),
        ensures
            r@ == Self::spec_decode(buf@, off as int, e),
    {
        let _blen = buf.len();  // a slice length fits usize, bounding the field offsets
        DSO_DEBUG_64 {
            version: read_u32(buf, off, e),
            map: read_u32(buf, off + 4, e),
            dso_count: read_u32(buf, off + 8, e),
            brk: read_u64(buf, off + 12, e),
            ldbase: read_u64(buf, off + 20, e),
            dynamic: read_u64(buf, off + 28, e),
        }
    }

    /// Decodes the record at `off`: `Ok` exactly when the buffer holds
    /// `spec_size` bytes at `off`; the number returned with the record
    /// is the bytes consumed, always `spec_size`.
    pub fn decode(buf: &[u8], off: usize, e: Endianness) -> (r: Result<(Self, usize), DecodeError>)
        ensures
            match r {
                Ok((v, n)) => off + Self::spec_size() <= buf@.len()
                    && n == Self::spec_size()
                    && v@ == Self::spec_decode(buf@, off as int, e),
                Err(err) => err == DecodeError::OutOfBounds
                    && off + Self::spec_size() > buf@.len(),
            },
    {
        if buf.len() < 36 || off > buf.len() - 36 {
            return Err(DecodeError::OutOfBounds);
        }
        Ok((Self::read_at(buf, off, e), 36))
    }

    /// Appends this record's encoding in byte order `e` to `out`.
    pub fn write(&self, out: &mut Vec<u8>, e: Endianness)
        ensures
            final(out)@ == old(out)@ + Self::spec_encode(self@, e),
    {
        write_u32(out, self.version, e);
        write_u32(out, self.map, e);
        write_u32(out, self.dso_count, e);
        write_u64(out, self.brk, e);
        write_u64(out, self.ldbase, e);
        write_u64(out, self.dynamic, e);
        assert(out@ =~= old(out)@ + Self::spec_encode(self@, e));
    }

    /// Encodes this record in byte order `e`.
    pub fn encode(&self, e: Endianness) -> (r: Vec<u8>)
        ensures
            r@ == Self::spec_encode(self@, e),
    {
        let mut out: Vec<u8> = Vec::new();
        self.write(&mut out, e);
        proof {
            assert(out@ =~= Self::spec_encode(self@, e));
        }
        out
    }
}

/// The encoding of a record is exactly [`DSO_DEBUG_64::spec_size`] bytes.
pub proof fn lemma_dso_debug_64_encode_len(w: DSO_DEBUG_64, e: Endianness)
    ensures
        DSO_DEBUG_64::spec_encode(w, e).len() == 36,
{
    lemma_encode_lens();
}

/// Reading back the encoding of `w` found at offset `off` yields `w`.
pub proof fn lemma_dso_debug_64_encode_at(b: Seq<u8>, off: int, w: DSO_DEBUG_64, e: Endianness)
    requires
        0 <= off,
        off + 36 <= b.len(),
        b.subrange(off, off + 36) == DSO_DEBUG_64::spec_encode(w, e),
    ensures
        DSO_DEBUG_64::spec_decode(b, off, e) == w,
{
    lemma_encode_lens();
    let enc0 = spec_encode_u32(w.version, e);
    let enc1 = spec_encode_u32(w.map, e);
    let enc2 = spec_encode_u32(w.dso_count, e);
    let enc3 = spec_encode_u64(w.brk, e);
    let enc4 = spec_encode_u64(w.ldbase, e);
    let enc5 = spec_encode_u64(w.dynamic, e);
    let pre1 = enc0 + enc1;
    let pre2 = pre1 + enc2;
    let pre3 = pre2 + enc3;
    let pre4 = pre3 + enc4;
    let pre5 = pre4 + enc5;
    assert(b.subrange(off, off + 36) == pre5);
    lemma_split_at(b, off, off + 28, off + 36, pre4, enc5);
    lemma_split_at(b, off, off + 20, off + 28, pre3, enc4);
    lemma_split_at(b, off, off + 12, off + 20, pre2, enc3);
    lemma_split_at(b, off, off + 8, off + 12, pre1, enc2);
    lemma_split_at(b, off, off + 4, off + 8, enc0, enc1);
    lemma_read_u32_at(b, off, w.version, e);
    lemma_read_u32_at(b, off + 4, w.map, e);
    lemma_read_u32_at(b, off + 8, w.dso_count, e);
    lemma_read_u64_at(b, off + 12, w.brk, e);
    lemma_read_u64_at(b, off + 20, w.ldbase, e);
    lemma_read_u64_at(b, off + 28, w.dynamic, e);
}

/// Round trip: decoding the encoding of a record yields the record, and
/// the encoding is exactly the record's fixed size.
pub proof fn lemma_dso_debug_64_roundtrip(w: DSO_DEBUG_64, e: Endianness)
    ensures
        DSO_DEBUG_64::spec_encode(w, e).len() == DSO_DEBUG_64::spec_size(),
        DSO_DEBUG_64::spec_decode(DSO_DEBUG_64::spec_encode(w, e), 0, e) == w,
{
    lemma_dso_debug_64_encode_len(w, e);
    let enc = DSO_DEBUG_64::spec_encode(w, e);
    assert(enc.subrange(0, 36) =~= enc);
    lemma_dso_debug_64_encode_at(enc, 0, w, e);
}

} // verus!
