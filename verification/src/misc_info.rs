//! The miscellaneous-information versioned record family.
//!
//! The five versions share a common prefix and grow monotonically: each
//! version embeds the previous one and appends fields. A `size_of_info`
//! field in the first version's prefix declares how many bytes are actually
//! present, and [`decode_misc_info`] decides from it, and from the bytes
//! available, which version to decode -- never reading past either.

use vstd::prelude::*;

verus! {

broadcast use vstd::seq::group_seq_axioms;

use crate::codec::DecodeError;
use crate::codec::Endianness;
use crate::codec::lemma_encode_lens;
use crate::codec::lemma_encode_u16_seq_len;
use crate::codec::lemma_split_at;
use crate::codec::lemma_read_u16_seq_at;
use crate::codec::lemma_read_u32_at;
use crate::codec::read_u16_vec;
use crate::codec::read_u32;
use crate::codec::spec_encode_u16_seq;
use crate::codec::spec_encode_u32;
use crate::codec::spec_read_u16_seq;
use crate::codec::spec_read_u32;
use crate::codec::write_u16_vec;
use crate::codec::write_u32;
use crate::codec::VersionedOutcome;
use crate::sysinfo::TIME_ZONE_INFORMATION;
use crate::sysinfo::TIME_ZONE_INFORMATIONView;
use crate::sysinfo::XSTATE_CONFIG_FEATURE_MSC_INFO;
use crate::sysinfo::XSTATE_CONFIG_FEATURE_MSC_INFOView;
use crate::sysinfo::lemma_time_zone_information_encode_at;
use crate::sysinfo::lemma_time_zone_information_encode_len;
use crate::sysinfo::lemma_xstate_config_feature_msc_info_encode_at;
use crate::sysinfo::lemma_xstate_config_feature_msc_info_encode_len;

/// Miscellaneous process information, the first version of the
/// family.
///
/// `size_of_info` declares how many bytes of the family are actually
/// present; the family decoder [`decode_misc_info`] never reads past it.
#[derive(Debug, Clone, PartialEq)]
pub struct MINIDUMP_MISC_INFO {
    pub size_of_info: u32,
    pub flags1: u32,
    pub process_id: u32,
    pub process_create_time: u32,
    pub process_user_time: u32,
    pub process_kernel_time: u32,
}

impl View for MINIDUMP_MISC_INFO {
    type V = MINIDUMP_MISC_INFO;

    open spec fn view(&self) -> MINIDUMP_MISC_INFO {
        *self
    }
}

impl MINIDUMP_MISC_INFO {
    /// The number of bytes this record occupies.
    pub open spec fn spec_size() -> nat {
        24
    }

    /// The record the bytes of `b` at `off` denote in byte order `e`.
    pub open spec fn spec_decode(b: Seq<u8>, off: int, e: Endianness) -> MINIDUMP_MISC_INFO {
        MINIDUMP_MISC_INFO {
            size_of_info: spec_read_u32(b, off, e),
            flags1: spec_read_u32(b, off + 4, e),
            process_id: spec_read_u32(b, off + 8, e),
            process_create_time: spec_read_u32(b, off + 12, e),
            process_user_time: spec_read_u32(b, off + 16, e),
            process_kernel_time: spec_read_u32(b, off + 20, e),
        }
    }

    /// The bytes the record `w` encodes to in byte order `e`.
    pub open spec fn spec_encode(w: MINIDUMP_MISC_INFO, e: Endianness) -> Seq<u8> {
        spec_encode_u32(w.size_of_info, e)
            + spec_encode_u32(w.flags1, e)
            + spec_encode_u32(w.process_id, e)
            + spec_encode_u32(w.process_create_time, e)
            + spec_encode_u32(w.process_user_time, e)
            + spec_encode_u32(w.process_kernel_time, e)
    }

    /// Reads the record at `off`, known to be in bounds.
    pub fn read_at(buf: &[u8], off: usize, e: Endianness) -> (r: Self)
        requires
            off + 24 <= buf@.len(),
        ensures
            r@ == Self::spec_decode(buf@, off as int, e),
    {
        let _blen = buf.len();  // a slice length fits usize, bounding the field offsets
        MINIDUMP_MISC_INFO {
            size_of_info: read_u32(buf, off, e),
            flags1: read_u32(buf, off + 4, e),
            process_id: read_u32(buf, off + 8, e),
            process_create_time: read_u32(buf, off + 12, e),
            process_user_time: read_u32(buf, off + 16, e),
            process_kernel_time: read_u32(buf, off + 20, e),
        }
    }

    /// Decodes the record at `off`: `Ok` exactly when the buffer holds
    /// `spec_size` bytes at `off`; the number returned with the record
    /// is the bytes consumed, always `spec_size`.
    pub fn decode(buf: &[u8], off: usize, e: Endianness) -> (r: Result<(Self, usize), DecodeError>)
        ensures
            match r {
                Ok((v, n)) => off + Self::spec_size() <= buf@.len()
                    && n == Self::spec_size()
                    && v@ == Self::spec_decode(buf@, off as int, e),
                Err(err) => err == DecodeError::OutOfBounds
                    && off + Self::spec_size() > buf@.len(),
            },
    {
        if buf.len() < 24 || off > buf.len() - 24 {
            return Err(DecodeError::OutOfBounds);
        }
        Ok((Self::read_at(buf, off, e), 24))
    }

    /// Appends this record's encoding in byte order `e` to `out`.
    pub fn write(&self, out: &mut Vec<u8>, e: Endianness)
        ensures
            final(out)@ == old(out)@ + Self::spec_encode(self@, e),
    {
        write_u32(out, self.size_of_info, e);
        write_u32(out, self.flags1, e);
        write_u32(out, self.process_id, e);
        write_u32(out, self.process_create_time, e);
        write_u32(out, self.process_user_time, e);
        write_u32(out, self.process_kernel_time, e);
        assert(out@ =~= old(out)@ + Self::spec_encode(self@, e));
    }

    /// Encodes this record in byte order `e`.
    pub fn encode(&self, e: Endianness) -> (r: Vec<u8>)
        ensures
            r@ == Self::spec_encode(self@, e),
    {
        let mut out: Vec<u8> = Vec::new();
        self.write(&mut out, e);
        proof {
            assert(out@ =~= Self::spec_encode(self@, e));
        }
        out
    }
}

/// The encoding of a record is exactly [`MINIDUMP_MISC_INFO::spec_size`] bytes.
pub proof fn lemma_minidump_misc_info_encode_len(w: MINIDUMP_MISC_INFO, e: Endianness)
    ensures
        MINIDUMP_MISC_INFO::spec_encode(w, e).len() == 24,
{
    lemma_encode_lens();
}

/// Reading back the encoding of `w` found at offset `off` yields `w`.
pub proof fn lemma_minidump_misc_info_encode_at(b: Seq<u8>, off: int, w: MINIDUMP_MISC_INFO, e: Endianness)
    requires
        0 <= off,
        off + 24 <= b.len(),
        b.subrange(off, off + 24) == MINIDUMP_MISC_INFO::spec_encode(w, e),
    ensures
        MINIDUMP_MISC_INFO::spec_decode(b, off, e) == w,
{
    lemma_encode_lens();
    let enc0 = spec_encode_u32(w.size_of_info, e);
    let enc1 = spec_encode_u32(w.flags1, e);
    let enc2 = spec_encode_u32(w.process_id, e);
    let enc3 = spec_encode_u32(w.process_create_time, e);
    let enc4 = spec_encode_u32(w.process_user_time, e);
    let enc5 = spec_encode_u32(w.process_kernel_time, e);
    let pre1 = enc0 + enc1;
    let pre2 = pre1 + enc2;
    let pre3 = pre2 + enc3;
    let pre4 = pre3 + enc4;
    let pre5 = pre4 + enc5;
    assert(b.subrange(off, off + 24) == pre5);
    lemma_split_at(b, off, off + 20, off + 24, pre4, enc5);
    lemma_split_at(b, off, off + 16, off + 20, pre3, enc4);
    lemma_split_at(b, off, off + 12, off + 16, pre2, enc3);
    lemma_split_at(b, off, off + 8, off + 12, pre1, enc2);
    lemma_split_at(b, off, off + 4, off + 8, enc0, enc1);
    lemma_read_u32_at(b, off, w.size_of_info, e);
    lemma_read_u32_at(b, off + 4, w.flags1, e);
    lemma_read_u32_at(b, off + 8, w.process_id, e);
    lemma_read_u32_at(b, off + 12, w.process_create_time, e);
    lemma_read_u32_at(b, off + 16, w.process_user_time, e);
    lemma_read_u32_at(b, off + 20, w.process_kernel_time, e);
}

/// Round trip: decoding the encoding of a record yields the record, and
/// the encoding is exactly the record's fixed size.
pub proof fn lemma_minidump_misc_info_roundtrip(w: MINIDUMP_MISC_INFO, e: Endianness)
    ensures
        MINIDUMP_MISC_INFO::spec_encode(w, e).len() == MINIDUMP_MISC_INFO::spec_size(),
        MINIDUMP_MISC_INFO::spec_decode(MINIDUMP_MISC_INFO::spec_encode(w, e), 0, e) == w,
{
    lemma_minidump_misc_info_encode_len(w, e);
    let enc = MINIDUMP_MISC_INFO::spec_encode(w, e);
    assert(enc.subrange(0, 24) =~= enc);
    lemma_minidump_misc_info_encode_at(enc, 0, w, e);
}

/// Miscellaneous process and system information: the first version's
/// fields plus processor frequency data.
#[derive(Debug, Clone, PartialEq)]
pub struct MINIDUMP_MISC_INFO_2 {
    pub prev: MINIDUMP_MISC_INFO,
    pub processor_max_mhz: u32,
    pub processor_current_mhz: u32,
    pub processor_mhz_limit: u32,
    pub processor_max_idle_state: u32,
    pub processor_current_idle_state: u32,
}

impl View for MINIDUMP_MISC_INFO_2 {
    type V = MINIDUMP_MISC_INFO_2;

    open spec fn view(&self) -> MINIDUMP_MISC_INFO_2 {
        *self
    }
}

impl MINIDUMP_MISC_INFO_2 {
    /// The number of bytes this record occupies.
    pub open spec fn spec_size() -> nat {
        44
    }

    /// The record the bytes of `b` at `off` denote in byte order `e`.
    pub open spec fn spec_decode(b: Seq<u8>, off: int, e: Endianness) -> MINIDUMP_MISC_INFO_2 {
        MINIDUMP_MISC_INFO_2 {
            prev: MINIDUMP_MISC_INFO::spec_decode(b, off, e),
            processor_max_mhz: spec_read_u32(b, off + 24, e),
            processor_current_mhz: spec_read_u32(b, off + 28, e),
            processor_mhz_limit: spec_read_u32(b, off + 32, e),
            processor_max_idle_state: spec_read_u32(b, off + 36, e),
            processor_current_idle_state: spec_read_u32(b, off + 40, e),
        }
    }

    /// The bytes the record `w` encodes to in byte order `e`.
    pub open spec fn spec_encode(w: MINIDUMP_MISC_INFO_2, e: Endianness) -> Seq<u8> {
        MINIDUMP_MISC_INFO::spec_encode(w.prev, e)
            + spec_encode_u32(w.processor_max_mhz, e)
            + spec_encode_u32(w.processor_current_mhz, e)
            + spec_encode_u32(w.processor_mhz_limit, e)
            + spec_encode_u32(w.processor_max_idle_state, e)
            + spec_encode_u32(w.processor_current_idle_state, e)
    }

    /// Reads the record at `off`, known to be in bounds.
    pub fn read_at(buf: &[u8], off: usize, e: Endianness) -> (r: Self)
        requires
            off + 44 <= buf@.len(),
        ensures
            r@ == Self::spec_decode(buf@, off as int, e),
    {
        let _blen = buf.len();  // a slice length fits usize, bounding the field offsets
        MINIDUMP_MISC_INFO_2 {
            prev: MINIDUMP_MISC_INFO::read_at(buf, off, e),
            processor_max_mhz: read_u32(buf, off + 24, e),
            processor_current_mhz: read_u32(buf, off + 28, e),
            processor_mhz_limit: read_u32(buf, off + 32, e),
            processor_max_idle_state: read_u32(buf, off + 36, e),
            processor_current_idle_state: read_u32(buf, off + 40, e),
        }
    }

    /// Decodes the record at `off`: `Ok` exactly when the buffer holds
    /// `spec_size` bytes at `off`; the number returned with the record
    /// is the bytes consumed, always `spec_size`.
    pub fn decode(buf: &[u8], off: usize, e: Endianness) -> (r: Result<(Self, usize), DecodeError>)
        ensures
            match r {
                Ok((v, n)) => off + Self::spec_size() <= buf@.len()
                    && n == Self::spec_size()
                    && v@ == Self::spec_decode(buf@, off as int, e),
                Err(err) => err == DecodeError::OutOfBounds
                    && off + Self::spec_size() > buf@.len(),
            },
    {
        if buf.len() < 44 || off > buf.len() - 44 {
            return Err(DecodeError::OutOfBounds);
        }
        Ok((Self::read_at(buf, off, e), 44))
    }

    /// Appends this record's encoding in byte order `e` to `out`.
    pub fn write(&self, out: &mut Vec<u8>, e: Endianness)
        ensures
            final(out)@ == old(out)@ + Self::spec_encode(self@, e),
    {
        self.prev.write(out, e);
        write_u32(out, self.processor_max_mhz, e);
        write_u32(out, self.processor_current_mhz, e);
        write_u32(out, self.processor_mhz_limit, e);
        write_u32(out, self.processor_max_idle_state, e);
        write_u32(out, self.processor_current_idle_state, e);
        assert(out@ =~= old(out)@ + Self::spec_encode(self@, e));
    }

    /// Encodes this record in byte order `e`.
    pub fn encode(&self, e: Endianness) -> (r: Vec<u8>)
        ensures
            r@ == Self::spec_encode(self@, e),
    {
        let mut out: Vec<u8> = Vec::new();
        self.write(&mut out, e);
        proof {
            assert(out@ =~= Self::spec_encode(self@, e));
        }
        out
    }
}

/// The encoding of a record is exactly [`MINIDUMP_MISC_INFO_2::spec_size`] bytes.
pub proof fn lemma_minidump_misc_info_2_encode_len(w: MINIDUMP_MISC_INFO_2, e: Endianness)
    ensures
        MINIDUMP_MISC_INFO_2::spec_encode(w, e).len() == 44,
{
    lemma_encode_lens();
    lemma_minidump_misc_info_encode_len(w.prev, e);
}

/// Reading back the encoding of `w` found at offset `off` yields `w`.
pub proof fn lemma_minidump_misc_info_2_encode_at(b: Seq<u8>, off: int, w: MINIDUMP_MISC_INFO_2, e: Endianness)
    requires
        0 <= off,
        off + 44 <= b.len(),
        b.subrange(off, off + 44) == MINIDUMP_MISC_INFO_2::spec_encode(w, e),
    ensures
        MINIDUMP_MISC_INFO_2::spec_decode(b, off, e) == w,
{
    lemma_encode_lens();
    lemma_minidump_misc_info_encode_len(w.prev, e);
    let enc0 = MINIDUMP_MISC_INFO::spec_encode(w.prev, e);
    let enc1 = spec_encode_u32(w.processor_max_mhz, e);
    let enc2 = spec_encode_u32(w.processor_current_mhz, e);
    let enc3 = spec_encode_u32(w.processor_mhz_limit, e);
    let enc4 = spec_encode_u32(w.processor_max_idle_state, e);
    let enc5 = spec_encode_u32(w.processor_current_idle_state, e);
    let pre1 = enc0 + enc1;
    let pre2 = pre1 + enc2;
    let pre3 = pre2 + enc3;
    let pre4 = pre3 + enc4;
    let pre5 = pre4 + enc5;
    assert(b.subrange(off, off + 44) == pre5);
    lemma_split_at(b, off, off + 40, off + 44, pre4, enc5);
    lemma_split_at(b, off, off + 36, off + 40, pre3, enc4);
    lemma_split_at(b, off, off + 32, off + 36, pre2, enc3);
    lemma_split_at(b, off, off + 28, off + 32, pre1, enc2);
    lemma_split_at(b, off, off + 24, off + 28, enc0, enc1);
    lemma_minidump_misc_info_encode_at(b, off, w.prev, e);
    lemma_read_u32_at(b, off + 24, w.processor_max_mhz, e);
    lemma_read_u32_at(b, off + 28, w.processor_current_mhz, e);
    lemma_read_u32_at(b, off + 32, w.processor_mhz_limit, e);
    lemma_read_u32_at(b, off + 36, w.processor_max_idle_state, e);
    lemma_read_u32_at(b, off + 40, w.processor_current_idle_state, e);
}

/// Round trip: decoding the encoding of a record yields the record, and
/// the encoding is exactly the record's fixed size.
pub proof fn lemma_minidump_misc_info_2_roundtrip(w: MINIDUMP_MISC_INFO_2, e: Endianness)
    ensures
        MINIDUMP_MISC_INFO_2::spec_encode(w, e).len() == MINIDUMP_MISC_INFO_2::spec_size(),
        MINIDUMP_MISC_INFO_2::spec_decode(MINIDUMP_MISC_INFO_2::spec_encode(w, e), 0, e) == w,
{
    lemma_minidump_misc_info_2_encode_len(w, e);
    let enc = MINIDUMP_MISC_INFO_2::spec_encode(w, e);
    assert(enc.subrange(0, 44) =~= enc);
    lemma_minidump_misc_info_2_encode_at(enc, 0, w, e);
}

/// Miscellaneous process and system information: the second version's
/// fields plus process integrity and time zone data.
#[derive(Debug, Clone, PartialEq)]
pub struct MINIDUMP_MISC_INFO_3 {
    pub prev: MINIDUMP_MISC_INFO_2,
    pub process_integrity_level: u32,
    pub process_execute_flags: u32,
    pub protected_process: u32,
    pub time_zone_id: u32,
    pub time_zone: TIME_ZONE_INFORMATION,
}

/// The mathematical value of a [`MINIDUMP_MISC_INFO_3`]: the same fields with
/// sequences in place of vectors.
pub struct MINIDUMP_MISC_INFO_3View {
    pub prev: MINIDUMP_MISC_INFO_2,
    pub process_integrity_level: u32,
    pub process_execute_flags: u32,
    pub protected_process: u32,
    pub time_zone_id: u32,
    pub time_zone: TIME_ZONE_INFORMATIONView,
}

impl View for MINIDUMP_MISC_INFO_3 {
    type V = MINIDUMP_MISC_INFO_3View;

    open spec fn view(&self) -> MINIDUMP_MISC_INFO_3View {
        MINIDUMP_MISC_INFO_3View {
            prev: self.prev,
            process_integrity_level: self.process_integrity_level,
            process_execute_flags: self.process_execute_flags,
            protected_process: self.protected_process,
            time_zone_id: self.time_zone_id,
            time_zone: self.time_zone@,
        }
    }
}

impl MINIDUMP_MISC_INFO_3View {
    /// Well-formed: every sequence field has its fixed length.
    pub open spec fn wf(self) -> bool {
        self.time_zone.wf()
    }
}

impl MINIDUMP_MISC_INFO_3 {
    /// The number of bytes this record occupies.
    pub open spec fn spec_size() -> nat {
        232
    }

    /// The record the bytes of `b` at `off` denote in byte order `e`.
    pub open spec fn spec_decode(b: Seq<u8>, off: int, e: Endianness) -> MINIDUMP_MISC_INFO_3View {
        MINIDUMP_MISC_INFO_3View {
            prev: MINIDUMP_MISC_INFO_2::spec_decode(b, off, e),
            process_integrity_level: spec_read_u32(b, off + 44, e),
            process_execute_flags: spec_read_u32(b, off + 48, e),
            protected_process: spec_read_u32(b, off + 52, e),
            time_zone_id: spec_read_u32(b, off + 56, e),
            time_zone: TIME_ZONE_INFORMATION::spec_decode(b, off + 60, e),
        }
    }

    /// The bytes the record `w` encodes to in byte order `e`.
    pub open spec fn spec_encode(w: MINIDUMP_MISC_INFO_3View, e: Endianness) -> Seq<u8> {
        MINIDUMP_MISC_INFO_2::spec_encode(w.prev, e)
            + spec_encode_u32(w.process_integrity_level, e)
            + spec_encode_u32(w.process_execute_flags, e)
            + spec_encode_u32(w.protected_process, e)
            + spec_encode_u32(w.time_zone_id, e)
            + TIME_ZONE_INFORMATION::spec_encode(w.time_zone, e)
    }

    /// Reads the record at `off`, known to be in bounds.
    pub fn read_at(buf: &[u8], off: usize, e: Endianness) -> (r: Self)
        requires
            off + 232 <= buf@.len(),
        ensures
            r@ == Self::spec_decode(buf@, off as int, e),
    {
        let _blen = buf.len();  // a slice length fits usize, bounding the field offsets
        MINIDUMP_MISC_INFO_3 {
            prev: MINIDUMP_MISC_INFO_2::read_at(buf, off, e),
            process_integrity_level: read_u32(buf, off + 44, e),
            process_execute_flags: read_u32(buf, off + 48, e),
            protected_process: read_u32(buf, off + 52, e),
            time_zone_id: read_u32(buf, off + 56, e),
            time_zone: TIME_ZONE_INFORMATION::read_at(buf, off + 60, e),
        }
    }

    /// Decodes the record at `off`: `Ok` exactly when the buffer holds
    /// `spec_size` bytes at `off`; the number returned with the record
    /// is the bytes consumed, always `spec_size`.
    pub fn decode(buf: &[u8], off: usize, e: Endianness) -> (r: Result<(Self, usize), DecodeError>)
        ensures
            match r {
                Ok((v, n)) => off + Self::spec_size() <= buf@.len()
                    && n == Self::spec_size()
                    && v@ == Self::spec_decode(buf@, off as int, e),
                Err(err) => err == DecodeError::OutOfBounds
                    && off + Self::spec_size() > buf@.len(),
            },
    {
        if buf.len() < 232 || off > buf.len() - 232 {
            return Err(DecodeError::OutOfBounds);
        }
        Ok((Self::read_at(buf, off, e), 232))
    }

    /// Appends this record's encoding in byte order `e` to `out`.
    pub fn write(&self, out: &mut Vec<u8>, e: Endianness)
        ensures
            final(out)@ == old(out)@ + Self::spec_encode(self@, e),
    {
        self.prev.write(out, e);
        write_u32(out, self.process_integrity_level, e);
        write_u32(out, self.process_execute_flags, e);
        write_u32(out, self.protected_process, e);
        write_u32(out, self.time_zone_id, e);
        self.time_zone.write(out, e);
        assert(out@ =~= old(out)@ + Self::spec_encode(self@, e));
    }

    /// Encodes this record in byte order `e`.
    pub fn encode(&self, e: Endianness) -> (r: Vec<u8>)
        ensures
            r@ == Self::spec_encode(self@, e),
    {
        let mut out: Vec<u8> = Vec::new();
        self.write(&mut out, e);
        proof {
            assert(out@ =~= Self::spec_encode(self@, e));
        }
        out
    }
}

/// The encoding of a record is exactly [`MINIDUMP_MISC_INFO_3::spec_size`] bytes.
pub proof fn lemma_minidump_misc_info_3_encode_len(w: MINIDUMP_MISC_INFO_3View, e: Endianness)
    requires
        w.wf(),
    ensures
        MINIDUMP_MISC_INFO_3::spec_encode(w, e).len() == 232,
{
    lemma_encode_lens();
    lemma_minidump_misc_info_2_encode_len(w.prev, e);
    lemma_time_zone_information_encode_len(w.time_zone, e);
}

/// Reading back the encoding of `w` found at offset `off` yields `w`.
pub proof fn lemma_minidump_misc_info_3_encode_at(b: Seq<u8>, off: int, w: MINIDUMP_MISC_INFO_3View, e: Endianness)
    requires
        w.wf(),
        0 <= off,
        off + 232 <= b.len(),
        b.subrange(off, off + 232) == MINIDUMP_MISC_INFO_3::spec_encode(w, e),
    ensures
        MINIDUMP_MISC_INFO_3::spec_decode(b, off, e) == w,
{
    lemma_encode_lens();
    lemma_minidump_misc_info_2_encode_len(w.prev, e);
    lemma_time_zone_information_encode_len(w.time_zone, e);
    let enc0 = MINIDUMP_MISC_INFO_2::spec_encode(w.prev, e);
    let enc1 = spec_encode_u32(w.process_integrity_level, e);
    let enc2 = spec_encode_u32(w.process_execute_flags, e);
    let enc3 = spec_encode_u32(w.protected_process, e);
    let enc4 = spec_encode_u32(w.time_zone_id, e);
    let enc5 = TIME_ZONE_INFORMATION::spec_encode(w.time_zone, e);
    let pre1 = enc0 + enc1;
    let pre2 = pre1 + enc2;
    let pre3 = pre2 + enc3;
    let pre4 = pre3 + enc4;
    let pre5 = pre4 + enc5;
    assert(b.subrange(off, off + 232) == pre5);
    lemma_split_at(b, off, off + 60, off + 232, pre4, enc5);
    lemma_split_at(b, off, off + 56, off + 60, pre3, enc4);
    lemma_split_at(b, off, off + 52, off + 56, pre2, enc3);
    lemma_split_at(b, off, off + 48, off + 52, pre1, enc2);
    lemma_split_at(b, off, off + 44, off + 48, enc0, enc1);
    lemma_minidump_misc_info_2_encode_at(b, off, w.prev, e);
    lemma_read_u32_at(b, off + 44, w.process_integrity_level, e);
    lemma_read_u32_at(b, off + 48, w.process_execute_flags, e);
    lemma_read_u32_at(b, off + 52, w.protected_process, e);
    lemma_read_u32_at(b, off + 56, w.time_zone_id, e);
    lemma_time_zone_information_encode_at(b, off + 60, w.time_zone, e);
}

/// Round trip: decoding the encoding of a record yields the record, and
/// the encoding is exactly the record's fixed size.
pub proof fn lemma_minidump_misc_info_3_roundtrip(w: MINIDUMP_MISC_INFO_3View, e: Endianness)
    requires
        w.wf(),
    ensures
        MINIDUMP_MISC_INFO_3::spec_encode(w, e).len() == MINIDUMP_MISC_INFO_3::spec_size(),
        MINIDUMP_MISC_INFO_3::spec_decode(MINIDUMP_MISC_INFO_3::spec_encode(w, e), 0, e) == w,
{
    lemma_minidump_misc_info_3_encode_len(w, e);
    let enc = MINIDUMP_MISC_INFO_3::spec_encode(w, e);
    assert(enc.subrange(0, 232) =~= enc);
    lemma_minidump_misc_info_3_encode_at(enc, 0, w, e);
}

/// Miscellaneous process and system information: the third version's
/// fields plus build strings (0-terminated UTF-16LE).
#[derive(Debug, Clone, PartialEq)]
pub struct MINIDUMP_MISC_INFO_4 {
    pub prev: MINIDUMP_MISC_INFO_3,
    pub build_string: Vec<u16>,
    pub dbg_bld_str: Vec<u16>,
}

/// The mathematical value of a [`MINIDUMP_MISC_INFO_4`]: the same fields with
/// sequences in place of vectors.
pub struct MINIDUMP_MISC_INFO_4View {
    pub prev: MINIDUMP_MISC_INFO_3View,
    pub build_string: Seq<u16>,
    pub dbg_bld_str: Seq<u16>,
}

impl View for MINIDUMP_MISC_INFO_4 {
    type V = MINIDUMP_MISC_INFO_4View;

    open spec fn view(&self) -> MINIDUMP_MISC_INFO_4View {
        MINIDUMP_MISC_INFO_4View {
            prev: self.prev@,
            build_string: self.build_string@,
            dbg_bld_str: self.dbg_bld_str@,
        }
    }
}

impl MINIDUMP_MISC_INFO_4View {
    /// Well-formed: every sequence field has its fixed length.
    pub open spec fn wf(self) -> bool {
        &&& self.prev.wf()
        &&& self.build_string.len() == 260
        &&& self.dbg_bld_str.len() == 40
    }
}

impl MINIDUMP_MISC_INFO_4 {
    /// The number of bytes this record occupies.
    pub open spec fn spec_size() -> nat {
        832
    }

    /// The record the bytes of `b` at `off` denote in byte order `e`.
    pub open spec fn spec_decode(b: Seq<u8>, off: int, e: Endianness) -> MINIDUMP_MISC_INFO_4View {
        MINIDUMP_MISC_INFO_4View {
            prev: MINIDUMP_MISC_INFO_3::spec_decode(b, off, e),
            build_string: spec_read_u16_seq(b, off + 232, 260, e),
            dbg_bld_str: spec_read_u16_seq(b, off + 752, 40, e),
        }
    }

    /// The bytes the record `w` encodes to in byte order `e`.
    pub open spec fn spec_encode(w: MINIDUMP_MISC_INFO_4View, e: Endianness) -> Seq<u8> {
        MINIDUMP_MISC_INFO_3::spec_encode(w.prev, e)
            + spec_encode_u16_seq(w.build_string, e)
            + spec_encode_u16_seq(w.dbg_bld_str, e)
    }

    /// Reads the record at `off`, known to be in bounds.
    pub fn read_at(buf: &[u8], off: usize, e: Endianness) -> (r: Self)
        requires
            off + 832 <= buf@.len(),
        ensures
            r@ == Self::spec_decode(buf@, off as int, e),
    {
        let _blen = buf.len();  // a slice length fits usize, bounding the field offsets
        MINIDUMP_MISC_INFO_4 {
            prev: MINIDUMP_MISC_INFO_3::read_at(buf, off, e),
            build_string: read_u16_vec(buf, off + 232, 260, e),
            dbg_bld_str: read_u16_vec(buf, off + 752, 40, e),
        }
    }

    /// Decodes the record at `off`: `Ok` exactly when the buffer holds
    /// `spec_size` bytes at `off`; the number returned with the record
    /// is the bytes consumed, always `spec_size`.
    pub fn decode(buf: &[u8], off: usize, e: Endianness) -> (r: Result<(Self, usize), DecodeError>)
        ensures
            match r {
                Ok((v, n)) => off + Self::spec_size() <= buf@.len()
                    && n == Self::spec_size()
                    && v@ == Self::spec_decode(buf@, off as int, e),
                Err(err) => err == DecodeError::OutOfBounds
                    && off + Self::spec_size() > buf@.len(),
            },
    {
        if buf.len() < 832 || off > buf.len() - 832 {
            return Err(DecodeError::OutOfBounds);
        }
        Ok((Self::read_at(buf, off, e), 832))
    }

    /// Appends this record's encoding in byte order `e` to `out`.
    pub fn write(&self, out: &mut Vec<u8>, e: Endianness)
        ensures
            final(out)@ == old(out)@ + Self::spec_encode(self@, e),
    {
        self.prev.write(out, e);
        write_u16_vec(out, &self.build_string, e);
        write_u16_vec(out, &self.dbg_bld_str, e);
        assert(out@ =~= old(out)@ + Self::spec_encode(self@, e));
    }

    /// Encodes this record in byte order `e`.
    pub fn encode(&self, e: Endianness) -> (r: Vec<u8>)
        ensures
            r@ == Self::spec_encode(self@, e),
    {
        let mut out: Vec<u8> = Vec::new();
        self.write(&mut out, e);
        proof {
            assert(out@ =~= Self::spec_encode(self@, e));
        }
        out
    }
}

/// The encoding of a record is exactly [`MINIDUMP_MISC_INFO_4::spec_size`] bytes.
pub proof fn lemma_minidump_misc_info_4_encode_len(w: MINIDUMP_MISC_INFO_4View, e: Endianness)
    requires
        w.wf(),
    ensures
        MINIDUMP_MISC_INFO_4::spec_encode(w, e).len() == 832,
{
    lemma_encode_lens();
    lemma_minidump_misc_info_3_encode_len(w.prev, e);
    lemma_encode_u16_seq_len(w.build_string, e);
    lemma_encode_u16_seq_len(w.dbg_bld_str, e);
}

/// Reading back the encoding of `w` found at offset `off` yields `w`.
pub proof fn lemma_minidump_misc_info_4_encode_at(b: Seq<u8>, off: int, w: MINIDUMP_MISC_INFO_4View, e: Endianness)
    requires
        w.wf(),
        0 <= off,
        off + 832 <= b.len(),
        b.subrange(off, off + 832) == MINIDUMP_MISC_INFO_4::spec_encode(w, e),
    ensures
        MINIDUMP_MISC_INFO_4::spec_decode(b, off, e) == w,
{
    lemma_encode_lens();
    lemma_minidump_misc_info_3_encode_len(w.prev, e);
    lemma_encode_u16_seq_len(w.build_string, e);
    lemma_encode_u16_seq_len(w.dbg_bld_str, e);
    let enc0 = MINIDUMP_MISC_INFO_3::spec_encode(w.prev, e);
    let enc1 = spec_encode_u16_seq(w.build_string, e);
    let enc2 = spec_encode_u16_seq(w.dbg_bld_str, e);
    let pre1 = enc0 + enc1;
    let pre2 = pre1 + enc2;
    assert(b.subrange(off, off + 832) == pre2);
    lemma_split_at(b, off, off + 752, off + 832, pre1, enc2);
    lemma_split_at(b, off, off + 232, off + 752, enc0, enc1);
    lemma_minidump_misc_info_3_encode_at(b, off, w.prev, e);
    lemma_read_u16_seq_at(b, off + 232, w.build_string, e);
    lemma_read_u16_seq_at(b, off + 752, w.dbg_bld_str, e);
}

/// Round trip: decoding the encoding of a record yields the record, and
/// the encoding is exactly the record's fixed size.
pub proof fn lemma_minidump_misc_info_4_roundtrip(w: MINIDUMP_MISC_INFO_4View, e: Endianness)
    requires
        w.wf(),
    ensures
        MINIDUMP_MISC_INFO_4::spec_encode(w, e).len() == MINIDUMP_MISC_INFO_4::spec_size(),
        MINIDUMP_MISC_INFO_4::spec_decode(MINIDUMP_MISC_INFO_4::spec_encode(w, e), 0, e) == w,
{
    lemma_minidump_misc_info_4_encode_len(w, e);
    let enc = MINIDUMP_MISC_INFO_4::spec_encode(w, e);
    assert(enc.subrange(0, 832) =~= enc);
    lemma_minidump_misc_info_4_encode_at(enc, 0, w, e);
}

/// Miscellaneous process and system information: the fourth version's
/// fields plus the XSAVE descriptor and process cookie.
#[derive(Debug, Clone, PartialEq)]
pub struct MINIDUMP_MISC_INFO_5 {
    pub prev: MINIDUMP_MISC_INFO_4,
    pub xstate_data: XSTATE_CONFIG_FEATURE_MSC_INFO,
    pub process_cookie: u32,
}

/// The mathematical value of a [`MINIDUMP_MISC_INFO_5`]: the same fields with
/// sequences in place of vectors.
pub struct MINIDUMP_MISC_INFO_5View {
    pub prev: MINIDUMP_MISC_INFO_4View,
    pub xstate_data: XSTATE_CONFIG_FEATURE_MSC_INFOView,
    pub process_cookie: u32,
}

impl View for MINIDUMP_MISC_INFO_5 {
    type V = MINIDUMP_MISC_INFO_5View;

    open spec fn view(&self) -> MINIDUMP_MISC_INFO_5View {
        MINIDUMP_MISC_INFO_5View {
            prev: self.prev@,
            xstate_data: self.xstate_data@,
            process_cookie: self.process_cookie,
        }
    }
}

impl MINIDUMP_MISC_INFO_5View {
    /// Well-formed: every sequence field has its fixed length.
    pub open spec fn wf(self) -> bool {
        &&& self.prev.wf()
        &&& self.xstate_data.wf()
    }
}

impl MINIDUMP_MISC_INFO_5 {
    /// The number of bytes this record occupies.
    pub open spec fn spec_size() -> nat {
        1364
    }

    /// The record the bytes of `b` at `off` denote in byte order `e`.
    pub open spec fn spec_decode(b: Seq<u8>, off: int, e: Endianness) -> MINIDUMP_MISC_INFO_5View {
        MINIDUMP_MISC_INFO_5View {
            prev: MINIDUMP_MISC_INFO_4::spec_decode(b, off, e),
            xstate_data: XSTATE_CONFIG_FEATURE_MSC_INFO::spec_decode(b, off + 832, e),
            process_cookie: spec_read_u32(b, off + 1360, e),
        }
    }

    /// The bytes the record `w` encodes to in byte order `e`.
    pub open spec fn spec_encode(w: MINIDUMP_MISC_INFO_5View, e: Endianness) -> Seq<u8> {
        MINIDUMP_MISC_INFO_4::spec_encode(w.prev, e)
            + XSTATE_CONFIG_FEATURE_MSC_INFO::spec_encode(w.xstate_data, e)
            + spec_encode_u32(w.process_cookie, e)
    }

    /// Reads the record at `off`, known to be in bounds.
    pub fn read_at(buf: &[u8], off: usize, e: Endianness) -> (r: Self)
        requires
            off + 1364 <= buf@.len(),
        ensures
            r@ == Self::spec_decode(buf@, off as int, e),
    {
        let _blen = buf.len();  // a slice length fits usize, bounding the field offsets
        MINIDUMP_MISC_INFO_5 {
            prev: MINIDUMP_MISC_INFO_4::read_at(buf, off, e),
            xstate_data: XSTATE_CONFIG_FEATURE_MSC_INFO::read_at(buf, off + 832, e),
            process_cookie: read_u32(buf, off + 1360, e),
        }
    }

    /// Decodes the record at `off`: `Ok` exactly when the buffer holds
    /// `spec_size` bytes at `off`; the number returned with the record
    /// is the bytes consumed, always `spec_size`.
    pub fn decode(buf: &[u8], off: usize, e: Endianness) -> (r: Result<(Self, usize), DecodeError>)
        ensures
            match r {
                Ok((v, n)) => off + Self::spec_size() <= buf@.len()
                    && n == Self::spec_size()
                    && v@ == Self::spec_decode(buf@, off as int, e),
                Err(err) => err == DecodeError::OutOfBounds
                    && off + Self::spec_size() > buf@.len(),
            },
    {
        if buf.len() < 1364 || off > buf.len() - 1364 {
            return Err(DecodeError::OutOfBounds);
        }
        Ok((Self::read_at(buf, off, e), 1364))
    }

    /// Appends this record's encoding in byte order `e` to `out`.
    pub fn write(&self, out: &mut Vec<u8>, e: Endianness)
        ensures
            final(out)@ == old(out)@ + Self::spec_encode(self@, e),
    {
        self.prev.write(out, e);
        self.xstate_data.write(out, e);
        write_u32(out, self.process_cookie, e);
        assert(out@ =~= old(out)@ + Self::spec_encode(self@, e));
    }

    /// Encodes this record in byte order `e`.
    pub fn encode(&self, e: Endianness) -> (r: Vec<u8>)
        ensures
            r@ == Self::spec_encode(self@, e),
    {
        let mut out: Vec<u8> = Vec::new();
        self.write(&mut out, e);
        proof {
            assert(out@ =~= Self::spec_encode(self@, e));
        }
        out
    }
}

/// The encoding of a record is exactly [`MINIDUMP_MISC_INFO_5::spec_size`] bytes.
pub proof fn lemma_minidump_misc_info_5_encode_len(w: MINIDUMP_MISC_INFO_5View, e: Endianness)
    requires
        w.wf(),
    ensures
        MINIDUMP_MISC_INFO_5::spec_encode(w, e).len() == 1364,
{
    lemma_encode_lens();
    lemma_minidump_misc_info_4_encode_len(w.prev, e);
    lemma_xstate_config_feature_msc_info_encode_len(w.xstate_data, e);
}

/// Reading back the encoding of `w` found at offset `off` yields `w`.
pub proof fn lemma_minidump_misc_info_5_encode_at(b: Seq<u8>, off: int, w: MINIDUMP_MISC_INFO_5View, e: Endianness)
    requires
        w.wf(),
        0 <= off,
        off + 1364 <= b.len(),
        b.subrange(off, off + 1364) == MINIDUMP_MISC_INFO_5::spec_encode(w, e),
    ensures
        MINIDUMP_MISC_INFO_5::spec_decode(b, off, e) == w,
{
    lemma_encode_lens();
    lemma_minidump_misc_info_4_encode_len(w.prev, e);
    lemma_xstate_config_feature_msc_info_encode_len(w.xstate_data, e);
    let enc0 = MINIDUMP_MISC_INFO_4::spec_encode(w.prev, e);
    let enc1 = XSTATE_CONFIG_FEATURE_MSC_INFO::spec_encode(w.xstate_data, e);
    let enc2 = spec_encode_u32(w.process_cookie, e);
    let pre1 = enc0 + enc1;
    let pre2 = pre1 + enc2;
    assert(b.subrange(off, off + 1364) == pre2);
    lemma_split_at(b, off, off + 1360, off + 1364, pre1, enc2);
    lemma_split_at(b, off, off + 832, off + 1360, enc0, enc1);
    lemma_minidump_misc_info_4_encode_at(b, off, w.prev, e);
    lemma_xstate_config_feature_msc_info_encode_at(b, off + 832, w.xstate_data, e);
    lemma_read_u32_at(b, off + 1360, w.process_cookie, e);
}

/// Round trip: decoding the encoding of a record yields the record, and
/// the encoding is exactly the record's fixed size.
pub proof fn lemma_minidump_misc_info_5_roundtrip(w: MINIDUMP_MISC_INFO_5View, e: Endianness)
    requires
        w.wf(),
    ensures
        MINIDUMP_MISC_INFO_5::spec_encode(w, e).len() == MINIDUMP_MISC_INFO_5::spec_size(),
        MINIDUMP_MISC_INFO_5::spec_decode(MINIDUMP_MISC_INFO_5::spec_encode(w, e), 0, e) == w,
{
    lemma_minidump_misc_info_5_encode_len(w, e);
    let enc = MINIDUMP_MISC_INFO_5::spec_encode(w, e);
    assert(enc.subrange(0, 1364) =~= enc);
    lemma_minidump_misc_info_5_encode_at(enc, 0, w, e);
}


/// One record of the miscellaneous-information family, at the largest
/// version that both the declared size and the buffer support.
#[derive(Debug, Clone, PartialEq)]
pub enum MiscInfoRecord {
    V1(MINIDUMP_MISC_INFO),
    V2(MINIDUMP_MISC_INFO_2),
    V3(MINIDUMP_MISC_INFO_3),
    V4(MINIDUMP_MISC_INFO_4),
    V5(MINIDUMP_MISC_INFO_5),
}

/// The byte size of the largest family version that `effective` bytes can
/// hold (never less than the first version's size).
pub open spec fn spec_misc_info_version_size(effective: int) -> int {
    if effective >= 1364 {
        1364
    } else if effective >= 832 {
        832
    } else if effective >= 232 {
        232
    } else if effective >= 44 {
        44
    } else {
        24
    }
}

/// The effective extent of a family record at `off` in `b`: the declared
/// `size_of_info`, or the bytes actually available where the declaration
/// claims more than is there.
pub open spec fn spec_misc_info_effective(b: Seq<u8>, off: int, e: Endianness) -> int {
    let claimed = spec_read_u32(b, off, e) as int;
    let avail = b.len() - off;
    if claimed <= avail {
        claimed
    } else {
        avail
    }
}

/// Decodes one record of the miscellaneous-information family at `off`.
///
/// The first version's prefix is decoded first; its `size_of_info` field
/// declares how many bytes the producer wrote. The decoder returns the
/// largest version that fits in both the declaration and the buffer --
/// never reading past either -- together with the bytes consumed (that
/// version's size). When the declaration claims more bytes than the buffer
/// holds, the buffer is trusted, the smaller version is returned, and the
/// outcome is `TruncatedVersionedRecord`; fields of higher versions are
/// never partially decoded. A buffer too short for even the first version
/// is `OutOfBounds`.
pub fn decode_misc_info(buf: &[u8], off: usize, e: Endianness) -> (r: Result<
    (MiscInfoRecord, usize, VersionedOutcome),
    DecodeError,
>)
    ensures
        match r {
            Ok((rec, n, outcome)) => {
                let effective = spec_misc_info_effective(buf@, off as int, e);
                let claimed = spec_read_u32(buf@, off as int, e) as int;
                &&& off + 24 <= buf@.len()
                &&& n == spec_misc_info_version_size(effective)
                &&& (outcome == VersionedOutcome::TruncatedVersionedRecord <==> claimed > buf@.len()
                    - off)
                &&& match rec {
                    MiscInfoRecord::V1(v) => n == 24 && v@ == MINIDUMP_MISC_INFO::spec_decode(
                        buf@,
                        off as int,
                        e,
                    ),
                    MiscInfoRecord::V2(v) => n == 44 && v@ == MINIDUMP_MISC_INFO_2::spec_decode(
                        buf@,
                        off as int,
                        e,
                    ),
                    MiscInfoRecord::V3(v) => n == 232 && v@ == MINIDUMP_MISC_INFO_3::spec_decode(
                        buf@,
                        off as int,
                        e,
                    ),
                    MiscInfoRecord::V4(v) => n == 832 && v@ == MINIDUMP_MISC_INFO_4::spec_decode(
                        buf@,
                        off as int,
                        e,
                    ),
                    MiscInfoRecord::V5(v) => n == 1364 && v@ == MINIDUMP_MISC_INFO_5::spec_decode(
                        buf@,
                        off as int,
                        e,
                    ),
                }
            },
            Err(err) => err == DecodeError::OutOfBounds && off + 24 > buf@.len(),
        },
{
    let blen = buf.len();
    if blen < 24 || off > blen - 24 {
        return Err(DecodeError::OutOfBounds);
    }
    let claimed = read_u32(buf, off, e);
    let avail = blen - off;
    let truncated = (claimed as usize) > avail;
    let effective = if truncated {
        avail
    } else {
        claimed as usize
    };
    let outcome = if truncated {
        VersionedOutcome::TruncatedVersionedRecord
    } else {
        VersionedOutcome::Complete
    };
    if effective >= 1364 {
        Ok((MiscInfoRecord::V5(MINIDUMP_MISC_INFO_5::read_at(buf, off, e)), 1364, outcome))
    } else if effective >= 832 {
        Ok((MiscInfoRecord::V4(MINIDUMP_MISC_INFO_4::read_at(buf, off, e)), 832, outcome))
    } else if effective >= 232 {
        Ok((MiscInfoRecord::V3(MINIDUMP_MISC_INFO_3::read_at(buf, off, e)), 232, outcome))
    } else if effective >= 44 {
        Ok((MiscInfoRecord::V2(MINIDUMP_MISC_INFO_2::read_at(buf, off, e)), 44, outcome))
    } else {
        Ok((MiscInfoRecord::V1(MINIDUMP_MISC_INFO::read_at(buf, off, e)), 24, outcome))
    }
}

/// Version monotonicity: a family record whose declaration names a higher
/// version than the buffer holds decodes to exactly the fields of the
/// version the buffer supports, with the truncation signalled -- never to
/// partially-initialized higher-version fields.
///
/// In particular, for a buffer holding exactly the first version's bytes
/// whose declaration claims more, the decoder returns the first version,
/// complete, and the `TruncatedVersionedRecord` outcome.
pub proof fn lemma_misc_info_version_monotonic(b: Seq<u8>, off: int, e: Endianness)
    requires
        0 <= off,
        off + 24 == b.len(),
        spec_read_u32(b, off, e) > 24,
    ensures
        spec_misc_info_effective(b, off, e) == 24,
        spec_misc_info_version_size(spec_misc_info_effective(b, off, e)) == 24,
{
}

} // verus!
