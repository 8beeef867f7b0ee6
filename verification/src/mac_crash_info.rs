//! The MacOS crash-info versioned record family.
//!
//! Each version's fixed fields extend the previous version's, and the
//! discriminator is external: the `record_start_size` field of the
//! enclosing stream header says how many fixed bytes each record carries,
//! and [`decode_mac_crash_info_record`] decides from it, and from the bytes
//! available, which version to decode. The variable-length C-strings that
//! follow the fixed fields of every record are modelled by the
//! `..._STRINGS` structs.

use vstd::prelude::*;

verus! {

broadcast use vstd::seq::group_seq_axioms;

use crate::codec::DecodeError;
use crate::codec::Endianness;
use crate::codec::lemma_encode_lens;
use crate::codec::lemma_split_at;
use crate::codec::lemma_read_u64_at;
use crate::codec::read_u64;
use crate::codec::spec_encode_u64;
use crate::codec::spec_read_u64;
use crate::codec::write_u64;
use crate::codec::VersionedOutcome;

/// One record of MacOS `__DATA,__crash_info` data: the base version of
/// the family, holding only the stream type and format version.
///
/// The variable-length C-strings that follow the fixed fields are
/// described by [`MINIDUMP_MAC_CRASH_INFO_RECORD_STRINGS`].
#[derive(Debug, Clone, PartialEq)]
pub struct MINIDUMP_MAC_CRASH_INFO_RECORD {
    pub stream_type: u64,
    pub version: u64,
}

impl View for MINIDUMP_MAC_CRASH_INFO_RECORD {
    type V = MINIDUMP_MAC_CRASH_INFO_RECORD;

    open spec fn view(&self) -> MINIDUMP_MAC_CRASH_INFO_RECORD {
        *self
    }
}

impl MINIDUMP_MAC_CRASH_INFO_RECORD {
    /// The number of bytes this record occupies.
    pub open spec fn spec_size() -> nat {
        16
    }

    /// The record the bytes of `b` at `off` denote in byte order `e`.
    pub open spec fn spec_decode(b: Seq<u8>, off: int, e: Endianness) -> MINIDUMP_MAC_CRASH_INFO_RECORD {
        MINIDUMP_MAC_CRASH_INFO_RECORD {
            stream_type: spec_read_u64(b, off, e),
            version: spec_read_u64(b, off + 8, e),
        }
    }

    /// The bytes the record `w` encodes to in byte order `e`.
    pub open spec fn spec_encode(w: MINIDUMP_MAC_CRASH_INFO_RECORD, e: Endianness) -> Seq<u8> {
        spec_encode_u64(w.stream_type, e)
            + spec_encode_u64(w.version, e)
    }

    /// Reads the record at `off`, known to be in bounds.
    pub fn read_at(buf: &[u8], off: usize, e: Endianness) -> (r: Self)
        requires
            off + 16 <= buf@.len(),
        ensures
            r@ == Self::spec_decode(buf@, off as int, e),
    {
        let _blen = buf.len();  // a slice length fits usize, bounding the field offsets
        MINIDUMP_MAC_CRASH_INFO_RECORD {
            stream_type: read_u64(buf, off, e),
            version: read_u64(buf, off + 8, e),
        }
    }

    /// Decodes the record at `off`: `Ok` exactly when the buffer holds
    /// `spec_size` bytes at `off`; the number returned with the record
    /// is the bytes consumed, always `spec_size`.
    pub fn decode(buf: &[u8], off: usize, e: Endianness) -> (r: Result<(Self, usize), DecodeError>)
        ensures
            match r {
                Ok((v, n)) => off + Self::spec_size() <= buf@.len()
                    && n == Self::spec_size()
                    && v@ == Self::spec_decode(buf@, off as int, e),
                Err(err) => err == DecodeError::OutOfBounds
                    && off + Self::spec_size() > buf@.len(),
            },
    {
        if buf.len() < 16 || off > buf.len() - 16 {
            return Err(DecodeError::OutOfBounds);
        }
        Ok((Self::read_at(buf, off, e), 16))
    }

    /// Appends this record's encoding in byte order `e` to `out`.
    pub fn write(&self, out: &mut Vec<u8>, e: Endianness)
        ensures
            final(out)@ == old(out)@ + Self::spec_encode(self@, e),
    {
        write_u64(out, self.stream_type, e);
        write_u64(out, self.version, e);
        assert(out@ =~= old(out)@ + Self::spec_encode(self@, e));
    }

    /// Encodes this record in byte order `e`.
    pub fn encode(&self, e: Endianness) -> (r: Vec<u8>)
        ensures
            r@ == Self::spec_encode(self@, e),
    {
        let mut out: Vec<u8> = Vec::new();
        self.write(&mut out, e);
        proof {
            assert(out@ =~= Self::spec_encode(self@, e));
        }
        out
    }
}

/// The encoding of a record is exactly [`MINIDUMP_MAC_CRASH_INFO_RECORD::spec_size`] bytes.
pub proof fn lemma_minidump_mac_crash_info_record_encode_len(w: MINIDUMP_MAC_CRASH_INFO_RECORD, e: Endianness)
    ensures
        MINIDUMP_MAC_CRASH_INFO_RECORD::spec_encode(w, e).len() == 16,
{
    lemma_encode_lens();
}

/// Reading back the encoding of `w` found at offset `off` yields `w`.
pub proof fn lemma_minidump_mac_crash_info_record_encode_at(b: Seq<u8>, off: int, w: MINIDUMP_MAC_CRASH_INFO_RECORD, e: Endianness)
    requires
        0 <= off,
        off + 16 <= b.len(),
        b.subrange(off, off + 16) == MINIDUMP_MAC_CRASH_INFO_RECORD::spec_encode(w, e),
    ensures
        MINIDUMP_MAC_CRASH_INFO_RECORD::spec_decode(b, off, e) == w,
{
    lemma_encode_lens();
    let enc0 = spec_encode_u64(w.stream_type, e);
    let enc1 = spec_encode_u64(w.version, e);
    let pre1 = enc0 + enc1;
    assert(b.subrange(off, off + 16) == pre1);
    lemma_split_at(b, off, off + 8, off + 16, enc0, enc1);
    lemma_read_u64_at(b, off, w.stream_type, e);
    lemma_read_u64_at(b, off + 8, w.version, e);
}

/// Round trip: decoding the encoding of a record yields the record, and
/// the encoding is exactly the record's fixed size.
pub proof fn lemma_minidump_mac_crash_info_record_roundtrip(w: MINIDUMP_MAC_CRASH_INFO_RECORD, e: Endianness)
    ensures
        MINIDUMP_MAC_CRASH_INFO_RECORD::spec_encode(w, e).len() == MINIDUMP_MAC_CRASH_INFO_RECORD::spec_size(),
        MINIDUMP_MAC_CRASH_INFO_RECORD::spec_decode(MINIDUMP_MAC_CRASH_INFO_RECORD::spec_encode(w, e), 0, e) == w,
{
    lemma_minidump_mac_crash_info_record_encode_len(w, e);
    let enc = MINIDUMP_MAC_CRASH_INFO_RECORD::spec_encode(w, e);
    assert(enc.subrange(0, 16) =~= enc);
    lemma_minidump_mac_crash_info_record_encode_at(enc, 0, w, e);
}

/// One record of MacOS `__DATA,__crash_info` data: the base version's
/// fields plus the thread and dialog mode.
///
/// The variable-length C-strings that follow the fixed fields are
/// described by [`MINIDUMP_MAC_CRASH_INFO_RECORD_STRINGS_4`].
#[derive(Debug, Clone, PartialEq)]
pub struct MINIDUMP_MAC_CRASH_INFO_RECORD_4 {
    pub prev: MINIDUMP_MAC_CRASH_INFO_RECORD,
    pub thread: u64,
    pub dialog_mode: u64,
}

impl View for MINIDUMP_MAC_CRASH_INFO_RECORD_4 {
    type V = MINIDUMP_MAC_CRASH_INFO_RECORD_4;

    open spec fn view(&self) -> MINIDUMP_MAC_CRASH_INFO_RECORD_4 {
        *self
    }
}

impl MINIDUMP_MAC_CRASH_INFO_RECORD_4 {
    /// The number of bytes this record occupies.
    pub open spec fn spec_size() -> nat {
        32
    }

    /// The record the bytes of `b` at `off` denote in byte order `e`.
    pub open spec fn spec_decode(b: Seq<u8>, off: int, e: Endianness) -> MINIDUMP_MAC_CRASH_INFO_RECORD_4 {
        MINIDUMP_MAC_CRASH_INFO_RECORD_4 {
            prev: MINIDUMP_MAC_CRASH_INFO_RECORD::spec_decode(b, off, e),
            thread: spec_read_u64(b, off + 16, e),
            dialog_mode: spec_read_u64(b, off + 24, e),
        }
    }

    /// The bytes the record `w` encodes to in byte order `e`.
    pub open spec fn spec_encode(w: MINIDUMP_MAC_CRASH_INFO_RECORD_4, e: Endianness) -> Seq<u8> {
        MINIDUMP_MAC_CRASH_INFO_RECORD::spec_encode(w.prev, e)
            + spec_encode_u64(w.thread, e)
            + spec_encode_u64(w.dialog_mode, e)
    }

    /// Reads the record at `off`, known to be in bounds.
    pub fn read_at(buf: &[u8], off: usize, e: Endianness) -> (r: Self)
        requires
            off + 32 <= buf@.len(),
        ensures
            r@ == Self::spec_decode(buf@, off as int, e),
    {
        let _blen = buf.len();  // a slice length fits usize, bounding the field offsets
        MINIDUMP_MAC_CRASH_INFO_RECORD_4 {
            prev: MINIDUMP_MAC_CRASH_INFO_RECORD::read_at(buf, off, e),
            thread: read_u64(buf, off + 16, e),
            dialog_mode: read_u64(buf, off + 24, e),
        }
    }

    /// Decodes the record at `off`: `Ok` exactly when the buffer holds
    /// `spec_size` bytes at `off`; the number returned with the record
    /// is the bytes consumed, always `spec_size`.
    pub fn decode(buf: &[u8], off: usize, e: Endianness) -> (r: Result<(Self, usize), DecodeError>)
        ensures
            match r {
                Ok((v, n)) => off + Self::spec_size() <= buf@.len()
                    && n == Self::spec_size()
                    && v@ == Self::spec_decode(buf@, off as int, e),
                Err(err) => err == DecodeError::OutOfBounds
                    && off + Self::spec_size() > buf@.len(),
            },
    {
        if buf.len() < 32 || off > buf.len() - 32 {
            return Err(DecodeError::OutOfBounds);
        }
        Ok((Self::read_at(buf, off, e), 32))
    }

    /// Appends this record's encoding in byte order `e` to `out`.
    pub fn write(&self, out: &mut Vec<u8>, e: Endianness)
        ensures
            final(out)@ == old(out)@ + Self::spec_encode(self@, e),
    {
        self.prev.write(out, e);
        write_u64(out, self.thread, e);
        write_u64(out, self.dialog_mode, e);
        assert(out@ =~= old(out)@ + Self::spec_encode(self@, e));
    }

    /// Encodes this record in byte order `e`.
    pub fn encode(&self, e: Endianness) -> (r: Vec<u8>)
        ensures
            r@ == Self::spec_encode(self@, e),
    {
        let mut out: Vec<u8> = Vec::new();
        self.write(&mut out, e);
        proof {
            assert(out@ =~= Self::spec_encode(self@, e));
        }
        out
    }
}

/// The encoding of a record is exactly [`MINIDUMP_MAC_CRASH_INFO_RECORD_4::spec_size`] bytes.
pub proof fn lemma_minidump_mac_crash_info_record_4_encode_len(w: MINIDUMP_MAC_CRASH_INFO_RECORD_4, e: Endianness)
    ensures
        MINIDUMP_MAC_CRASH_INFO_RECORD_4::spec_encode(w, e).len() == 32,
{
    lemma_encode_lens();
    lemma_minidump_mac_crash_info_record_encode_len(w.prev, e);
}

/// Reading back the encoding of `w` found at offset `off` yields `w`.
pub proof fn lemma_minidump_mac_crash_info_record_4_encode_at(b: Seq<u8>, off: int, w: MINIDUMP_MAC_CRASH_INFO_RECORD_4, e: Endianness)
    requires
        0 <= off,
        off + 32 <= b.len(),
        b.subrange(off, off + 32) == MINIDUMP_MAC_CRASH_INFO_RECORD_4::spec_encode(w, e),
    ensures
        MINIDUMP_MAC_CRASH_INFO_RECORD_4::spec_decode(b, off, e) == w,
{
    lemma_encode_lens();
    lemma_minidump_mac_crash_info_record_encode_len(w.prev, e);
    let enc0 = MINIDUMP_MAC_CRASH_INFO_RECORD::spec_encode(w.prev, e);
    let enc1 = spec_encode_u64(w.thread, e);
    let enc2 = spec_encode_u64(w.dialog_mode, e);
    let pre1 = enc0 + enc1;
    let pre2 = pre1 + enc2;
    assert(b.subrange(off, off + 32) == pre2);
    lemma_split_at(b, off, off + 24, off + 32, pre1, enc2);
    lemma_split_at(b, off, off + 16, off + 24, enc0, enc1);
    lemma_minidump_mac_crash_info_record_encode_at(b, off, w.prev, e);
    lemma_read_u64_at(b, off + 16, w.thread, e);
    lemma_read_u64_at(b, off + 24, w.dialog_mode, e);
}

/// Round trip: decoding the encoding of a record yields the record, and
/// the encoding is exactly the record's fixed size.
pub proof fn lemma_minidump_mac_crash_info_record_4_roundtrip(w: MINIDUMP_MAC_CRASH_INFO_RECORD_4, e: Endianness)
    ensures
        MINIDUMP_MAC_CRASH_INFO_RECORD_4::spec_encode(w, e).len() == MINIDUMP_MAC_CRASH_INFO_RECORD_4::spec_size(),
        MINIDUMP_MAC_CRASH_INFO_RECORD_4::spec_decode(MINIDUMP_MAC_CRASH_INFO_RECORD_4::spec_encode(w, e), 0, e) == w,
{
    lemma_minidump_mac_crash_info_record_4_encode_len(w, e);
    let enc = MINIDUMP_MAC_CRASH_INFO_RECORD_4::spec_encode(w, e);
    assert(enc.subrange(0, 32) =~= enc);
    lemma_minidump_mac_crash_info_record_4_encode_at(enc, 0, w, e);
}

/// One record of MacOS `__DATA,__crash_info` data: the fourth version's
/// fields plus the abort cause.
///
/// The variable-length C-strings that follow the fixed fields are
/// described by [`MINIDUMP_MAC_CRASH_INFO_RECORD_STRINGS_5`].
#[derive(Debug, Clone, PartialEq)]
pub struct MINIDUMP_MAC_CRASH_INFO_RECORD_5 {
    pub prev: MINIDUMP_MAC_CRASH_INFO_RECORD_4,
    pub abort_cause: u64,
}

impl View for MINIDUMP_MAC_CRASH_INFO_RECORD_5 {
    type V = MINIDUMP_MAC_CRASH_INFO_RECORD_5;

    open spec fn view(&self) -> MINIDUMP_MAC_CRASH_INFO_RECORD_5 {
        *self
    }
}

impl MINIDUMP_MAC_CRASH_INFO_RECORD_5 {
    /// The number of bytes this record occupies.
    pub open spec fn spec_size() -> nat {
        40
    }

    /// The record the bytes of `b` at `off` denote in byte order `e`.
    pub open spec fn spec_decode(b: Seq<u8>, off: int, e: Endianness) -> MINIDUMP_MAC_CRASH_INFO_RECORD_5 {
        MINIDUMP_MAC_CRASH_INFO_RECORD_5 {
            prev: MINIDUMP_MAC_CRASH_INFO_RECORD_4::spec_decode(b, off, e),
            abort_cause: spec_read_u64(b, off + 32, e),
        }
    }

    /// The bytes the record `w` encodes to in byte order `e`.
    pub open spec fn spec_encode(w: MINIDUMP_MAC_CRASH_INFO_RECORD_5, e: Endianness) -> Seq<u8> {
        MINIDUMP_MAC_CRASH_INFO_RECORD_4::spec_encode(w.prev, e)
            + spec_encode_u64(w.abort_cause, e)
    }

    /// Reads the record at `off`, known to be in bounds.
    pub fn read_at(buf: &[u8], off: usize, e: Endianness) -> (r: Self)
        requires
            off + 40 <= buf@.len(),
        ensures
            r@ == Self::spec_decode(buf@, off as int, e),
    {
        let _blen = buf.len();  // a slice length fits usize, bounding the field offsets
        MINIDUMP_MAC_CRASH_INFO_RECORD_5 {
            prev: MINIDUMP_MAC_CRASH_INFO_RECORD_4::read_at(buf, off, e),
            abort_cause: read_u64(buf, off + 32, e),
        }
    }

    /// Decodes the record at `off`: `Ok` exactly when the buffer holds
    /// `spec_size` bytes at `off`; the number returned with the record
    /// is the bytes consumed, always `spec_size`.
    pub fn decode(buf: &[u8], off: usize, e: Endianness) -> (r: Result<(Self, usize), DecodeError>)
        ensures
            match r {
                Ok((v, n)) => off + Self::spec_size() <= buf@.len()
                    && n == Self::spec_size()
                    && v@ == Self::spec_decode(buf@, off as int, e),
                Err(err) => err == DecodeError::OutOfBounds
                    && off + Self::spec_size() > buf@.len(),
            },
    {
        if buf.len() < 40 || off > buf.len() - 40 {
            return Err(DecodeError::OutOfBounds);
        }
        Ok((Self::read_at(buf, off, e), 40))
    }

    /// Appends this record's encoding in byte order `e` to `out`.
    pub fn write(&self, out: &mut Vec<u8>, e: Endianness)
        ensures
            final(out)@ == old(out)@ + Self::spec_encode(self@, e),
    {
        self.prev.write(out, e);
        write_u64(out, self.abort_cause, e);
        assert(out@ =~= old(out)@ + Self::spec_encode(self@, e));
    }

    /// Encodes this record in byte order `e`.
    pub fn encode(&self, e: Endianness) -> (r: Vec<u8>)
        ensures
            r@ == Self::spec_encode(self@, e),
    {
        let mut out: Vec<u8> = Vec::new();
        self.write(&mut out, e);
        proof {
            assert(out@ =~= Self::spec_encode(self@, e));
        }
        out
    }
}

/// The encoding of a record is exactly [`MINIDUMP_MAC_CRASH_INFO_RECORD_5::spec_size`] bytes.
pub proof fn lemma_minidump_mac_crash_info_record_5_encode_len(w: MINIDUMP_MAC_CRASH_INFO_RECORD_5, e: Endianness)
    ensures
        MINIDUMP_MAC_CRASH_INFO_RECORD_5::spec_encode(w, e).len() == 40,
{
    lemma_encode_lens();
    lemma_minidump_mac_crash_info_record_4_encode_len(w.prev, e);
}

/// Reading back the encoding of `w` found at offset `off` yields `w`.
pub proof fn lemma_minidump_mac_crash_info_record_5_encode_at(b: Seq<u8>, off: int, w: MINIDUMP_MAC_CRASH_INFO_RECORD_5, e: Endianness)
    requires
        0 <= off,
        off + 40 <= b.len(),
        b.subrange(off, off + 40) == MINIDUMP_MAC_CRASH_INFO_RECORD_5::spec_encode(w, e),
    ensures
        MINIDUMP_MAC_CRASH_INFO_RECORD_5::spec_decode(b, off, e) == w,
{
    lemma_encode_lens();
    lemma_minidump_mac_crash_info_record_4_encode_len(w.prev, e);
    let enc0 = MINIDUMP_MAC_CRASH_INFO_RECORD_4::spec_encode(w.prev, e);
    let enc1 = spec_encode_u64(w.abort_cause, e);
    let pre1 = enc0 + enc1;
    assert(b.subrange(off, off + 40) == pre1);
    lemma_split_at(b, off, off + 32, off + 40, enc0, enc1);
    lemma_minidump_mac_crash_info_record_4_encode_at(b, off, w.prev, e);
    lemma_read_u64_at(b, off + 32, w.abort_cause, e);
}

/// Round trip: decoding the encoding of a record yields the record, and
/// the encoding is exactly the record's fixed size.
pub proof fn lemma_minidump_mac_crash_info_record_5_roundtrip(w: MINIDUMP_MAC_CRASH_INFO_RECORD_5, e: Endianness)
    ensures
        MINIDUMP_MAC_CRASH_INFO_RECORD_5::spec_encode(w, e).len() == MINIDUMP_MAC_CRASH_INFO_RECORD_5::spec_size(),
        MINIDUMP_MAC_CRASH_INFO_RECORD_5::spec_decode(MINIDUMP_MAC_CRASH_INFO_RECORD_5::spec_encode(w, e), 0, e) == w,
{
    lemma_minidump_mac_crash_info_record_5_encode_len(w, e);
    let enc = MINIDUMP_MAC_CRASH_INFO_RECORD_5::spec_encode(w, e);
    assert(enc.subrange(0, 40) =~= enc);
    lemma_minidump_mac_crash_info_record_5_encode_at(enc, 0, w, e);
}


/// The maximum supported size of a C-string in a MacOS crash-info record.
///
/// Assume the stream is corrupted if a string is longer than this.
pub const MAC_CRASH_INFO_STRING_MAX_SIZE: usize = 8192;

/// The maximum supported count of MacOS crash-info records.
///
/// In principle there should only be one or two non-empty crash-info
/// sections per process, but the section is almost entirely undocumented,
/// so the maximum is set large.
pub const MAC_CRASH_INFOS_MAX: usize = 20;

/// One record of the MacOS crash-info family, at the largest version that
/// both the enclosing header's `record_start_size` and the buffer support.
#[derive(Debug, Clone, PartialEq)]
pub enum MacCrashInfoRecord {
    V1(MINIDUMP_MAC_CRASH_INFO_RECORD),
    V4(MINIDUMP_MAC_CRASH_INFO_RECORD_4),
    V5(MINIDUMP_MAC_CRASH_INFO_RECORD_5),
}

/// The byte size of the largest family version that `effective` bytes can
/// hold (never less than the base version's size).
pub open spec fn spec_mac_crash_info_version_size(effective: int) -> int {
    if effective >= 40 {
        40
    } else if effective >= 32 {
        32
    } else {
        16
    }
}

/// Decodes the fixed part of one MacOS crash-info record at `off`.
///
/// The discriminator is external: `record_start_size` comes from the
/// enclosing stream header and declares how many fixed bytes each record
/// carries. The decoder returns the largest version that fits in both the
/// declaration and the buffer -- never reading past either -- together with
/// the bytes consumed (that version's size). When the declaration claims
/// more bytes than the buffer holds, the buffer is trusted, the smaller
/// version is returned, and the outcome is `TruncatedVersionedRecord`. A
/// buffer too short for even the base version is `OutOfBounds`.
pub fn decode_mac_crash_info_record(
    buf: &[u8],
    off: usize,
    record_start_size: u32,
    e: Endianness,
) -> (r: Result<(MacCrashInfoRecord, usize, VersionedOutcome), DecodeError>)
    ensures
        match r {
            Ok((rec, n, outcome)) => {
                let avail = buf@.len() - off;
                let effective = if record_start_size <= avail {
                    record_start_size as int
                } else {
                    avail
                };
                &&& off + 16 <= buf@.len()
                &&& n == spec_mac_crash_info_version_size(effective)
                &&& (outcome == VersionedOutcome::TruncatedVersionedRecord <==> record_start_size
                    > avail)
                &&& match rec {
                    MacCrashInfoRecord::V1(v) => n == 16 && v
                        == MINIDUMP_MAC_CRASH_INFO_RECORD::spec_decode(buf@, off as int, e),
                    MacCrashInfoRecord::V4(v) => n == 32 && v
                        == MINIDUMP_MAC_CRASH_INFO_RECORD_4::spec_decode(buf@, off as int, e),
                    MacCrashInfoRecord::V5(v) => n == 40 && v
                        == MINIDUMP_MAC_CRASH_INFO_RECORD_5::spec_decode(buf@, off as int, e),
                }
            },
            Err(err) => err == DecodeError::OutOfBounds && off + 16 > buf@.len(),
        },
{
    let blen = buf.len();
    if blen < 16 || off > blen - 16 {
        return Err(DecodeError::OutOfBounds);
    }
    let avail = blen - off;
    let truncated = (record_start_size as usize) > avail;
    let effective = if truncated {
        avail
    } else {
        record_start_size as usize
    };
    let outcome = if truncated {
        VersionedOutcome::TruncatedVersionedRecord
    } else {
        VersionedOutcome::Complete
    };
    if effective >= 40 {
        Ok((
            MacCrashInfoRecord::V5(MINIDUMP_MAC_CRASH_INFO_RECORD_5::read_at(buf, off, e)),
            40,
            outcome,
        ))
    } else if effective >= 32 {
        Ok((
            MacCrashInfoRecord::V4(MINIDUMP_MAC_CRASH_INFO_RECORD_4::read_at(buf, off, e)),
            32,
            outcome,
        ))
    } else {
        Ok((
            MacCrashInfoRecord::V1(MINIDUMP_MAC_CRASH_INFO_RECORD::read_at(buf, off, e)),
            16,
            outcome,
        ))
    }
}

/// The variable-length strings of a base-version crash-info record: the
/// base version carries none.
#[derive(Default, Debug, Clone, PartialEq)]
pub struct MINIDUMP_MAC_CRASH_INFO_RECORD_STRINGS {}

impl MINIDUMP_MAC_CRASH_INFO_RECORD_STRINGS {
    /// How many strings follow the fixed fields of a base-version record.
    pub fn num_strings() -> (r: usize)
        ensures
            r == 0,
    {
        0
    }
}

/// The variable-length strings of a fourth-version crash-info record, in
/// the order they follow the fixed fields.
#[derive(Default, Debug, Clone, PartialEq)]
pub struct MINIDUMP_MAC_CRASH_INFO_RECORD_STRINGS_4 {
    pub module_file_path: String,
    pub message: String,
    pub signature_string: String,
    pub backtrace: String,
    pub message2: String,
}

impl MINIDUMP_MAC_CRASH_INFO_RECORD_STRINGS_4 {
    /// How many strings follow the fixed fields of a fourth-version record.
    pub fn num_strings() -> (r: usize)
        ensures
            r == 5,
    {
        5
    }

    /// Replaces the string at position `idx` (the order the strings follow
    /// the fixed fields) with `string`, leaving every other field unchanged.
    pub fn set_string(&mut self, idx: usize, string: String)
        requires
            idx < 5,
        ensures
            final(self)@.module_file_path == if idx == 0 {
                string@
            } else {
                old(self)@.module_file_path
            },
            final(self)@.message == if idx == 1 {
                string@
            } else {
                old(self)@.message
            },
            final(self)@.signature_string == if idx == 2 {
                string@
            } else {
                old(self)@.signature_string
            },
            final(self)@.backtrace == if idx == 3 {
                string@
            } else {
                old(self)@.backtrace
            },
            final(self)@.message2 == if idx == 4 {
                string@
            } else {
                old(self)@.message2
            },
    {
        if idx == 0 {
            self.module_file_path = string;
        } else if idx == 1 {
            self.message = string;
        } else if idx == 2 {
            self.signature_string = string;
        } else if idx == 3 {
            self.backtrace = string;
        } else {
            self.message2 = string;
        }
    }
}

/// The mathematical value of a [`MINIDUMP_MAC_CRASH_INFO_RECORD_STRINGS_4`].
pub struct MINIDUMP_MAC_CRASH_INFO_RECORD_STRINGS_4View {
    pub module_file_path: Seq<char>,
    pub message: Seq<char>,
    pub signature_string: Seq<char>,
    pub backtrace: Seq<char>,
    pub message2: Seq<char>,
}

impl View for MINIDUMP_MAC_CRASH_INFO_RECORD_STRINGS_4 {
    type V = MINIDUMP_MAC_CRASH_INFO_RECORD_STRINGS_4View;

    open spec fn view(&self) -> MINIDUMP_MAC_CRASH_INFO_RECORD_STRINGS_4View {
        MINIDUMP_MAC_CRASH_INFO_RECORD_STRINGS_4View {
            module_file_path: self.module_file_path@,
            message: self.message@,
            signature_string: self.signature_string@,
            backtrace: self.backtrace@,
            message2: self.message2@,
        }
    }
}

/// The variable-length strings of a fifth-version crash-info record: the
/// same five strings as the fourth version.
#[derive(Default, Debug, Clone, PartialEq)]
pub struct MINIDUMP_MAC_CRASH_INFO_RECORD_STRINGS_5 {
    pub prev: MINIDUMP_MAC_CRASH_INFO_RECORD_STRINGS_4,
}

impl MINIDUMP_MAC_CRASH_INFO_RECORD_STRINGS_5 {
    /// How many strings follow the fixed fields of a fifth-version record.
    pub fn num_strings() -> (r: usize)
        ensures
            r == 5,
    {
        5
    }

    /// Replaces the string at position `idx` (the order the strings follow
    /// the fixed fields) with `string`, leaving every other field unchanged.
    pub fn set_string(&mut self, idx: usize, string: String)
        requires
            idx < 5,
        ensures
            final(self).prev@.module_file_path == if idx == 0 {
                string@
            } else {
                old(self).prev@.module_file_path
            },
            final(self).prev@.message == if idx == 1 {
                string@
            } else {
                old(self).prev@.message
            },
            final(self).prev@.signature_string == if idx == 2 {
                string@
            } else {
                old(self).prev@.signature_string
            },
            final(self).prev@.backtrace == if idx == 3 {
                string@
            } else {
                old(self).prev@.backtrace
            },
            final(self).prev@.message2 == if idx == 4 {
                string@
            } else {
                old(self).prev@.message2
            },
    {
        self.prev.set_string(idx, string);
    }
}

} // verus!
