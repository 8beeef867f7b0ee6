//! System information records: processor, OS and XSAVE descriptors.

use vstd::prelude::*;

verus! {

broadcast use vstd::seq::group_seq_axioms;

use crate::codec::DecodeError;
use crate::codec::Endianness;
use crate::codec::lemma_encode_lens;
use crate::codec::lemma_encode_u16_seq_len;
use crate::codec::lemma_encode_u32_seq_len;
use crate::codec::lemma_encode_u64_seq_len;
use crate::codec::lemma_read_i32_at;
use crate::codec::lemma_split_at;
use crate::codec::lemma_seq_add_assoc;
use crate::codec::lemma_read_u16_at;
use crate::codec::lemma_read_u16_seq_at;
use crate::codec::lemma_read_u32_at;
use crate::codec::lemma_read_u32_seq_at;
use crate::codec::lemma_read_u64_at;
use crate::codec::lemma_read_u64_seq_at;
use crate::codec::read_bytes;
use crate::codec::read_i32;
use crate::codec::read_u8;
use crate::codec::read_u16;
use crate::codec::read_u16_vec;
use crate::codec::read_u32;
use crate::codec::read_u32_vec;
use crate::codec::read_u64;
use crate::codec::read_u64_vec;
use crate::codec::spec_encode_i32;
use crate::codec::spec_encode_u16;
use crate::codec::spec_encode_u16_seq;
use crate::codec::spec_encode_u32;
use crate::codec::spec_encode_u32_seq;
use crate::codec::spec_encode_u64;
use crate::codec::spec_encode_u64_seq;
use crate::codec::spec_read_bytes;
use crate::codec::spec_read_i32;
use crate::codec::spec_read_u8;
use crate::codec::spec_read_u16;
use crate::codec::spec_read_u16_seq;
use crate::codec::spec_read_u32;
use crate::codec::spec_read_u32_seq;
use crate::codec::spec_read_u64;
use crate::codec::spec_read_u64_seq;
use crate::codec::write_bytes;
use crate::codec::write_i32;
use crate::codec::write_u8;
use crate::codec::write_u16;
use crate::codec::write_u16_vec;
use crate::codec::write_u32;
use crate::codec::write_u32_vec;
use crate::codec::write_u64;
use crate::codec::write_u64_vec;

/// CPU information contained within [`MINIDUMP_SYSTEM_INFO`].
///
/// This region is a union in the Microsoft headers: the union of
/// [`X86CpuInfo`], [`ARMCpuInfo`] (Breakpad-specific) and [`OtherCpuInfo`].
/// It is decoded here as raw bytes; callers reinterpret it with a further
/// decode call once the architecture is known.
#[derive(Debug, Clone, PartialEq)]
pub struct CPU_INFORMATION {
    pub data: Vec<u8>,
}

/// The mathematical value of a [`CPU_INFORMATION`]: the same fields with
/// sequences in place of vectors.
pub struct CPU_INFORMATIONView {
    pub data: Seq<u8>,
}

impl View for CPU_INFORMATION {
    type V = CPU_INFORMATIONView;

    open spec fn view(&self) -> CPU_INFORMATIONView {
        CPU_INFORMATIONView {
            data: self.data@,
        }
    }
}

impl CPU_INFORMATIONView {
    /// Well-formed: every sequence field has its fixed length.
    pub open spec fn wf(self) -> bool {
        self.data.len() == 24
    }
}

impl CPU_INFORMATION {
    /// The number of bytes this record occupies.
    pub open spec fn spec_size() -> nat {
        24
    }

    /// The record the bytes of `b` at `off` denote in byte order `e`.
    pub open spec fn spec_decode(b: Seq<u8>, off: int, e: Endianness) -> CPU_INFORMATIONView {
        CPU_INFORMATIONView {
            data: spec_read_bytes(b, off, 24),
        }
    }

    /// The bytes the record `w` encodes to in byte order `e`.
    pub open spec fn spec_encode(w: CPU_INFORMATIONView, e: Endianness) -> Seq<u8> {
        w.data
    }

    /// Reads the record at `off`, known to be in bounds.
    pub fn read_at(buf: &[u8], off: usize, e: Endianness) -> (r: Self)
        requires
            off + 24 <= buf@.len(),
        ensures
            r@ == Self::spec_decode(buf@, off as int, e),
    {
        let _blen = buf.len();  // a slice length fits usize, bounding the field offsets
        CPU_INFORMATION {
            data: read_bytes(buf, off, 24),
        }
    }

    /// Decodes the record at `off`: `Ok` exactly when the buffer holds
    /// `spec_size` bytes at `off`; the number returned with the record
    /// is the bytes consumed, always `spec_size`.
    pub fn decode(buf: &[u8], off: usize, e: Endianness) -> (r: Result<(Self, usize), DecodeError>)
        ensures
            match r {
                Ok((v, n)) => off + Self::spec_size() <= buf@.len()
                    && n == Self::spec_size()
                    && v@ == Self::spec_decode(buf@, off as int, e),
                Err(err) => err == DecodeError::OutOfBounds
                    && off + Self::spec_size() > buf@.len(),
            },
    {
        if buf.len() < 24 || off > buf.len() - 24 {
            return Err(DecodeError::OutOfBounds);
        }
        Ok((Self::read_at(buf, off, e), 24))
    }

    /// Appends this record's encoding in byte order `e` to `out`.
    pub fn write(&self, out: &mut Vec<u8>, e: Endianness)
        ensures
            final(out)@ == old(out)@ + Self::spec_encode(self@, e),
    {
        write_bytes(out, &self.data);
        assert(out@ =~= old(out)@ + Self::spec_encode(self@, e));
    }

    /// Encodes this record in byte order `e`.
    pub fn encode(&self, e: Endianness) -> (r: Vec<u8>)
        ensures
            r@ == Self::spec_encode(self@, e),
    {
        let mut out: Vec<u8> = Vec::new();
        self.write(&mut out, e);
        proof {
            assert(out@ =~= Self::spec_encode(self@, e));
        }
        out
    }
}

/// The encoding of a record is exactly [`CPU_INFORMATION::spec_size`] bytes.
pub proof fn lemma_cpu_information_encode_len(w: CPU_INFORMATIONView, e: Endianness)
    requires
        w.wf(),
    ensures
        CPU_INFORMATION::spec_encode(w, e).len() == 24,
{
    lemma_encode_lens();
}

/// Reading back the encoding of `w` found at offset `off` yields `w`.
pub proof fn lemma_cpu_information_encode_at(b: Seq<u8>, off: int, w: CPU_INFORMATIONView, e: Endianness)
    requires
        w.wf(),
        0 <= off,
        off + 24 <= b.len(),
        b.subrange(off, off + 24) == CPU_INFORMATION::spec_encode(w, e),
    ensures
        CPU_INFORMATION::spec_decode(b, off, e) == w,
{
    lemma_encode_lens();
    let enc0 = w.data;
    assert(b.subrange(off, off + 24) == enc0);
    assert(spec_read_bytes(b, off, 24) == w.data);
}

/// Round trip: decoding the encoding of a record yields the record, and
/// the encoding is exactly the record's fixed size.
pub proof fn lemma_cpu_information_roundtrip(w: CPU_INFORMATIONView, e: Endianness)
    requires
        w.wf(),
    ensures
        CPU_INFORMATION::spec_encode(w, e).len() == CPU_INFORMATION::spec_size(),
        CPU_INFORMATION::spec_decode(CPU_INFORMATION::spec_encode(w, e), 0, e) == w,
{
    lemma_cpu_information_encode_len(w, e);
    let enc = CPU_INFORMATION::spec_encode(w, e);
    assert(enc.subrange(0, 24) =~= enc);
    lemma_cpu_information_encode_at(enc, 0, w, e);
}

/// x86-specific CPU information derived from the `cpuid` instruction.
#[derive(Debug, Clone, PartialEq)]
pub struct X86CpuInfo {
    pub vendor_id: Vec<u32>,
    pub version_information: u32,
    pub feature_information: u32,
    pub amd_extended_cpu_features: u32,
}

/// The mathematical value of a [`X86CpuInfo`]: the same fields with
/// sequences in place of vectors.
pub struct X86CpuInfoView {
    pub vendor_id: Seq<u32>,
    pub version_information: u32,
    pub feature_information: u32,
    pub amd_extended_cpu_features: u32,
}

impl View for X86CpuInfo {
    type V = X86CpuInfoView;

    open spec fn view(&self) -> X86CpuInfoView {
        X86CpuInfoView {
            vendor_id: self.vendor_id@,
            version_information: self.version_information,
            feature_information: self.feature_information,
            amd_extended_cpu_features: self.amd_extended_cpu_features,
        }
    }
}

impl X86CpuInfoView {
    /// Well-formed: every sequence field has its fixed length.
    pub open spec fn wf(self) -> bool {
        self.vendor_id.len() == 3
    }
}

impl X86CpuInfo {
    /// The number of bytes this record occupies.
    pub open spec fn spec_size() -> nat {
        24
    }

    /// The record the bytes of `b` at `off` denote in byte order `e`.
    pub open spec fn spec_decode(b: Seq<u8>, off: int, e: Endianness) -> X86CpuInfoView {
        X86CpuInfoView {
            vendor_id: spec_read_u32_seq(b, off, 3, e),
            version_information: spec_read_u32(b, off + 12, e),
            feature_information: spec_read_u32(b, off + 16, e),
            amd_extended_cpu_features: spec_read_u32(b, off + 20, e),
        }
    }

    /// The bytes the record `w` encodes to in byte order `e`.
    pub open spec fn spec_encode(w: X86CpuInfoView, e: Endianness) -> Seq<u8> {
        spec_encode_u32_seq(w.vendor_id, e)
            + spec_encode_u32(w.version_information, e)
            + spec_encode_u32(w.feature_information, e)
            + spec_encode_u32(w.amd_extended_cpu_features, e)
    }

    /// Reads the record at `off`, known to be in bounds.
    pub fn read_at(buf: &[u8], off: usize, e: Endianness) -> (r: Self)
        requires
            off + 24 <= buf@.len(),
        ensures
            r@ == Self::spec_decode(buf@, off as int, e),
    {
        let _blen = buf.len();  // a slice length fits usize, bounding the field offsets
        X86CpuInfo {
            vendor_id: read_u32_vec(buf, off, 3, e),
            version_information: read_u32(buf, off + 12, e),
            feature_information: read_u32(buf, off + 16, e),
            amd_extended_cpu_features: read_u32(buf, off + 20, e),
        }
    }

    /// Decodes the record at `off`: `Ok` exactly when the buffer holds
    /// `spec_size` bytes at `off`; the number returned with the record
    /// is the bytes consumed, always `spec_size`.
    pub fn decode(buf: &[u8], off: usize, e: Endianness) -> (r: Result<(Self, usize), DecodeError>)
        ensures
            match r {
                Ok((v, n)) => off + Self::spec_size() <= buf@.len()
                    && n == Self::spec_size()
                    && v@ == Self::spec_decode(buf@, off as int, e),
                Err(err) => err == DecodeError::OutOfBounds
                    && off + Self::spec_size() > buf@.len(),
            },
    {
        if buf.len() < 24 || off > buf.len() - 24 {
            return Err(DecodeError::OutOfBounds);
        }
        Ok((Self::read_at(buf, off, e), 24))
    }

    /// Appends this record's encoding in byte order `e` to `out`.
    pub fn write(&self, out: &mut Vec<u8>, e: Endianness)
        ensures
            final(out)@ == old(out)@ + Self::spec_encode(self@, e),
    {
        write_u32_vec(out, &self.vendor_id, e);
        write_u32(out, self.version_information, e);
        write_u32(out, self.feature_information, e);
        write_u32(out, self.amd_extended_cpu_features, e);
        assert(out@ =~= old(out)@ + Self::spec_encode(self@, e));
    }

    /// Encodes this record in byte order `e`.
    pub fn encode(&self, e: Endianness) -> (r: Vec<u8>)
        ensures
            r@ == Self::spec_encode(self@, e),
    {
        let mut out: Vec<u8> = Vec::new();
        self.write(&mut out, e);
        proof {
            assert(out@ =~= Self::spec_encode(self@, e));
        }
        out
    }
}

/// The encoding of a record is exactly [`X86CpuInfo::spec_size`] bytes.
pub proof fn lemma_x86cpuinfo_encode_len(w: X86CpuInfoView, e: Endianness)
    requires
        w.wf(),
    ensures
        X86CpuInfo::spec_encode(w, e).len() == 24,
{
    lemma_encode_lens();
    lemma_encode_u32_seq_len(w.vendor_id, e);
}

/// Reading back the encoding of `w` found at offset `off` yields `w`.
pub proof fn lemma_x86cpuinfo_encode_at(b: Seq<u8>, off: int, w: X86CpuInfoView, e: Endianness)
    requires
        w.wf(),
        0 <= off,
        off + 24 <= b.len(),
        b.subrange(off, off + 24) == X86CpuInfo::spec_encode(w, e),
    ensures
        X86CpuInfo::spec_decode(b, off, e) == w,
{
    lemma_encode_lens();
    lemma_encode_u32_seq_len(w.vendor_id, e);
    let enc0 = spec_encode_u32_seq(w.vendor_id, e);
    let enc1 = spec_encode_u32(w.version_information, e);
    let enc2 = spec_encode_u32(w.feature_information, e);
    let enc3 = spec_encode_u32(w.amd_extended_cpu_features, e);
    let pre1 = enc0 + enc1;
    let pre2 = pre1 + enc2;
    let pre3 = pre2 + enc3;
    assert(b.subrange(off, off + 24) == pre3);
    lemma_split_at(b, off, off + 20, off + 24, pre2, enc3);
    lemma_split_at(b, off, off + 16, off + 20, pre1, enc2);
    lemma_split_at(b, off, off + 12, off + 16, enc0, enc1);
    lemma_read_u32_seq_at(b, off, w.vendor_id, e);
    lemma_read_u32_at(b, off + 12, w.version_information, e);
    lemma_read_u32_at(b, off + 16, w.feature_information, e);
    lemma_read_u32_at(b, off + 20, w.amd_extended_cpu_features, e);
}

/// Round trip: decoding the encoding of a record yields the record, and
/// the encoding is exactly the record's fixed size.
pub proof fn lemma_x86cpuinfo_roundtrip(w: X86CpuInfoView, e: Endianness)
    requires
        w.wf(),
    ensures
        X86CpuInfo::spec_encode(w, e).len() == X86CpuInfo::spec_size(),
        X86CpuInfo::spec_decode(X86CpuInfo::spec_encode(w, e), 0, e) == w,
{
    lemma_x86cpuinfo_encode_len(w, e);
    let enc = X86CpuInfo::spec_encode(w, e);
    assert(enc.subrange(0, 24) =~= enc);
    lemma_x86cpuinfo_encode_at(enc, 0, w, e);
}

/// Arm-specific CPU information (Breakpad extension).
#[derive(Debug, Clone, PartialEq)]
pub struct ARMCpuInfo {
    pub cpuid: u32,
    pub elf_hwcaps: u32,
}

impl View for ARMCpuInfo {
    type V = ARMCpuInfo;

    open spec fn view(&self) -> ARMCpuInfo {
        *self
    }
}

impl ARMCpuInfo {
    /// The number of bytes this record occupies.
    pub open spec fn spec_size() -> nat {
        8
    }

    /// The record the bytes of `b` at `off` denote in byte order `e`.
    pub open spec fn spec_decode(b: Seq<u8>, off: int, e: Endianness) -> ARMCpuInfo {
        ARMCpuInfo {
            cpuid: spec_read_u32(b, off, e),
            elf_hwcaps: spec_read_u32(b, off + 4, e),
        }
    }

    /// The bytes the record `w` encodes to in byte order `e`.
    pub open spec fn spec_encode(w: ARMCpuInfo, e: Endianness) -> Seq<u8> {
        spec_encode_u32(w.cpuid, e)
            + spec_encode_u32(w.elf_hwcaps, e)
    }

    /// Reads the record at `off`, known to be in bounds.
    pub fn read_at(buf: &[u8], off: usize, e: Endianness) -> (r: Self)
        requires
            off + 8 <= buf@.len(),
        ensures
            r@ == Self::spec_decode(buf@, off as int, e),
    {
        let _blen = buf.len();  // a slice length fits usize, bounding the field offsets
        ARMCpuInfo {
            cpuid: read_u32(buf, off, e),
            elf_hwcaps: read_u32(buf, off + 4, e),
        }
    }

    /// Decodes the record at `off`: `Ok` exactly when the buffer holds
    /// `spec_size` bytes at `off`; the number returned with the record
    /// is the bytes consumed, always `spec_size`.
    pub fn decode(buf: &[u8], off: usize, e: Endianness) -> (r: Result<(Self, usize), DecodeError>)
        ensures
            match r {
                Ok((v, n)) => off + Self::spec_size() <= buf@.len()
                    && n == Self::spec_size()
                    && v@ == Self::spec_decode(buf@, off as int, e),
                Err(err) => err == DecodeError::OutOfBounds
                    && off + Self::spec_size() > buf@.len(),
            },
    {
        if buf.len() < 8 || off > buf.len() - 8 {
            return Err(DecodeError::OutOfBounds);
        }
        Ok((Self::read_at(buf, off, e), 8))
    }

    /// Appends this record's encoding in byte order `e` to `out`.
    pub fn write(&self, out: &mut Vec<u8>, e: Endianness)
        ensures
            final(out)@ == old(out)@ + Self::spec_encode(self@, e),
    {
        write_u32(out, self.cpuid, e);
        write_u32(out, self.elf_hwcaps, e);
        assert(out@ =~= old(out)@ + Self::spec_encode(self@, e));
    }

    /// Encodes this record in byte order `e`.
    pub fn encode(&self, e: Endianness) -> (r: Vec<u8>)
        ensures
            r@ == Self::spec_encode(self@, e),
    {
        let mut out: Vec<u8> = Vec::new();
        self.write(&mut out, e);
        proof {
            assert(out@ =~= Self::spec_encode(self@, e));
        }
        out
    }
}

/// The encoding of a record is exactly [`ARMCpuInfo::spec_size`] bytes.
pub proof fn lemma_armcpuinfo_encode_len(w: ARMCpuInfo, e: Endianness)
    ensures
        ARMCpuInfo::spec_encode(w, e).len() == 8,
{
    lemma_encode_lens();
}

/// Reading back the encoding of `w` found at offset `off` yields `w`.
pub proof fn lemma_armcpuinfo_encode_at(b: Seq<u8>, off: int, w: ARMCpuInfo, e: Endianness)
    requires
        0 <= off,
        off + 8 <= b.len(),
        b.subrange(off, off + 8) == ARMCpuInfo::spec_encode(w, e),
    ensures
        ARMCpuInfo::spec_decode(b, off, e) == w,
{
    lemma_encode_lens();
    let enc0 = spec_encode_u32(w.cpuid, e);
    let enc1 = spec_encode_u32(w.elf_hwcaps, e);
    let pre1 = enc0 + enc1;
    assert(b.subrange(off, off + 8) == pre1);
    lemma_split_at(b, off, off + 4, off + 8, enc0, enc1);
    lemma_read_u32_at(b, off, w.cpuid, e);
    lemma_read_u32_at(b, off + 4, w.elf_hwcaps, e);
}

/// Round trip: decoding the encoding of a record yields the record, and
/// the encoding is exactly the record's fixed size.
pub proof fn lemma_armcpuinfo_roundtrip(w: ARMCpuInfo, e: Endianness)
    ensures
        ARMCpuInfo::spec_encode(w, e).len() == ARMCpuInfo::spec_size(),
        ARMCpuInfo::spec_decode(ARMCpuInfo::spec_encode(w, e), 0, e) == w,
{
    lemma_armcpuinfo_encode_len(w, e);
    let enc = ARMCpuInfo::spec_encode(w, e);
    assert(enc.subrange(0, 8) =~= enc);
    lemma_armcpuinfo_encode_at(enc, 0, w, e);
}

/// CPU information for non-x86 CPUs.
#[derive(Debug, Clone, PartialEq)]
pub struct OtherCpuInfo {
    pub processor_features: Vec<u64>,
}

/// The mathematical value of a [`OtherCpuInfo`]: the same fields with
/// sequences in place of vectors.
pub struct OtherCpuInfoView {
    pub processor_features: Seq<u64>,
}

impl View for OtherCpuInfo {
    type V = OtherCpuInfoView;

    open spec fn view(&self) -> OtherCpuInfoView {
        OtherCpuInfoView {
            processor_features: self.processor_features@,
        }
    }
}

impl OtherCpuInfoView {
    /// Well-formed: every sequence field has its fixed length.
    pub open spec fn wf(self) -> bool {
        self.processor_features.len() == 2
    }
}

impl OtherCpuInfo {
    /// The number of bytes this record occupies.
    pub open spec fn spec_size() -> nat {
        16
    }

    /// The record the bytes of `b` at `off` denote in byte order `e`.
    pub open spec fn spec_decode(b: Seq<u8>, off: int, e: Endianness) -> OtherCpuInfoView {
        OtherCpuInfoView {
            processor_features: spec_read_u64_seq(b, off, 2, e),
        }
    }

    /// The bytes the record `w` encodes to in byte order `e`.
    pub open spec fn spec_encode(w: OtherCpuInfoView, e: Endianness) -> Seq<u8> {
        spec_encode_u64_seq(w.processor_features, e)
    }

    /// Reads the record at `off`, known to be in bounds.
    pub fn read_at(buf: &[u8], off: usize, e: Endianness) -> (r: Self)
        requires
            off + 16 <= buf@.len(),
        ensures
            r@ == Self::spec_decode(buf@, off as int, e),
    {
        let _blen = buf.len();  // a slice length fits usize, bounding the field offsets
        OtherCpuInfo {
            processor_features: read_u64_vec(buf, off, 2, e),
        }
    }

    /// Decodes the record at `off`: `Ok` exactly when the buffer holds
    /// `spec_size` bytes at `off`; the number returned with the record
    /// is the bytes consumed, always `spec_size`.
    pub fn decode(buf: &[u8], off: usize, e: Endianness) -> (r: Result<(Self, usize), DecodeError>)
        ensures
            match r {
                Ok((v, n)) => off + Self::spec_size() <= buf@.len()
                    && n == Self::spec_size()
                    && v@ == Self::spec_decode(buf@, off as int, e),
                Err(err) => err == DecodeError::OutOfBounds
                    && off + Self::spec_size() > buf@.len(),
            },
    {
        if buf.len() < 16 || off > buf.len() - 16 {
            return Err(DecodeError::OutOfBounds);
        }
        Ok((Self::read_at(buf, off, e), 16))
    }

    /// Appends this record's encoding in byte order `e` to `out`.
    pub fn write(&self, out: &mut Vec<u8>, e: Endianness)
        ensures
            final(out)@ == old(out)@ + Self::spec_encode(self@, e),
    {
        write_u64_vec(out, &self.processor_features, e);
        assert(out@ =~= old(out)@ + Self::spec_encode(self@, e));
    }

    /// Encodes this record in byte order `e`.
    pub fn encode(&self, e: Endianness) -> (r: Vec<u8>)
        ensures
            r@ == Self::spec_encode(self@, e),
    {
        let mut out: Vec<u8> = Vec::new();
        self.write(&mut out, e);
        proof {
            assert(out@ =~= Self::spec_encode(self@, e));
        }
        out
    }
}

/// The encoding of a record is exactly [`OtherCpuInfo::spec_size`] bytes.
pub proof fn lemma_othercpuinfo_encode_len(w: OtherCpuInfoView, e: Endianness)
    requires
        w.wf(),
    ensures
        OtherCpuInfo::spec_encode(w, e).len() == 16,
{
    lemma_encode_lens();
    lemma_encode_u64_seq_len(w.processor_features, e);
}

/// Reading back the encoding of `w` found at offset `off` yields `w`.
pub proof fn lemma_othercpuinfo_encode_at(b: Seq<u8>, off: int, w: OtherCpuInfoView, e: Endianness)
    requires
        w.wf(),
        0 <= off,
        off + 16 <= b.len(),
        b.subrange(off, off + 16) == OtherCpuInfo::spec_encode(w, e),
    ensures
        OtherCpuInfo::spec_decode(b, off, e) == w,
{
    lemma_encode_lens();
    lemma_encode_u64_seq_len(w.processor_features, e);
    let enc0 = spec_encode_u64_seq(w.processor_features, e);
    assert(b.subrange(off, off + 16) == enc0);
    lemma_read_u64_seq_at(b, off, w.processor_features, e);
}

/// Round trip: decoding the encoding of a record yields the record, and
/// the encoding is exactly the record's fixed size.
pub proof fn lemma_othercpuinfo_roundtrip(w: OtherCpuInfoView, e: Endianness)
    requires
        w.wf(),
    ensures
        OtherCpuInfo::spec_encode(w, e).len() == OtherCpuInfo::spec_size(),
        OtherCpuInfo::spec_decode(OtherCpuInfo::spec_encode(w, e), 0, e) == w,
{
    lemma_othercpuinfo_encode_len(w, e);
    let enc = OtherCpuInfo::spec_encode(w, e);
    assert(enc.subrange(0, 16) =~= enc);
    lemma_othercpuinfo_encode_at(enc, 0, w, e);
}

/// Processor and operating system information.
///
/// `processor_architecture` is drawn from
/// [`ProcessorArchitecture`](crate::enums::ProcessorArchitecture) and
/// `platform_id` from [`PlatformId`](crate::enums::PlatformId).
#[derive(Debug, Clone, PartialEq)]
pub struct MINIDUMP_SYSTEM_INFO {
    pub processor_architecture: u16,
    pub processor_level: u16,
    pub processor_revision: u16,
    pub number_of_processors: u8,
    pub product_type: u8,
    pub major_version: u32,
    pub minor_version: u32,
    pub build_number: u32,
    pub platform_id: u32,
    pub csd_version_rva: u32,
    pub suite_mask: u16,
    pub reserved2: u16,
    pub cpu: CPU_INFORMATION,
}

/// The mathematical value of a [`MINIDUMP_SYSTEM_INFO`]: the same fields with
/// sequences in place of vectors.
pub struct MINIDUMP_SYSTEM_INFOView {
    pub processor_architecture: u16,
    pub processor_level: u16,
    pub processor_revision: u16,
    pub number_of_processors: u8,
    pub product_type: u8,
    pub major_version: u32,
    pub minor_version: u32,
    pub build_number: u32,
    pub platform_id: u32,
    pub csd_version_rva: u32,
    pub suite_mask: u16,
    pub reserved2: u16,
    pub cpu: CPU_INFORMATIONView,
}

impl View for MINIDUMP_SYSTEM_INFO {
    type V = MINIDUMP_SYSTEM_INFOView;

    open spec fn view(&self) -> MINIDUMP_SYSTEM_INFOView {
        MINIDUMP_SYSTEM_INFOView {
            processor_architecture: self.processor_architecture,
            processor_level: self.processor_level,
            processor_revision: self.processor_revision,
            number_of_processors: self.number_of_processors,
            product_type: self.product_type,
            major_version: self.major_version,
            minor_version: self.minor_version,
            build_number: self.build_number,
            platform_id: self.platform_id,
            csd_version_rva: self.csd_version_rva,
            suite_mask: self.suite_mask,
            reserved2: self.reserved2,
            cpu: self.cpu@,
        }
    }
}

impl MINIDUMP_SYSTEM_INFOView {
    /// Well-formed: every sequence field has its fixed length.
    pub open spec fn wf(self) -> bool {
        self.cpu.wf()
    }
}

impl MINIDUMP_SYSTEM_INFO {
    /// The number of bytes this record occupies.
    pub open spec fn spec_size() -> nat {
        56
    }

    /// The record the bytes of `b` at `off` denote in byte order `e`.
    pub open spec fn spec_decode(b: Seq<u8>, off: int, e: Endianness) -> MINIDUMP_SYSTEM_INFOView {
        MINIDUMP_SYSTEM_INFOView {
            processor_architecture: spec_read_u16(b, off, e),
            processor_level: spec_read_u16(b, off + 2, e),
            processor_revision: spec_read_u16(b, off + 4, e),
            number_of_processors: spec_read_u8(b, off + 6),
            product_type: spec_read_u8(b, off + 7),
            major_version: spec_read_u32(b, off + 8, e),
            minor_version: spec_read_u32(b, off + 12, e),
            build_number: spec_read_u32(b, off + 16, e),
            platform_id: spec_read_u32(b, off + 20, e),
            csd_version_rva: spec_read_u32(b, off + 24, e),
            suite_mask: spec_read_u16(b, off + 28, e),
            reserved2: spec_read_u16(b, off + 30, e),
            cpu: CPU_INFORMATION::spec_decode(b, off + 32, e),
        }
    }

    /// The bytes the record `w` encodes to in byte order `e`.
    pub open spec fn spec_encode(w: MINIDUMP_SYSTEM_INFOView, e: Endianness) -> Seq<u8> {
        spec_encode_u16(w.processor_architecture, e)
            + spec_encode_u16(w.processor_level, e)
            + spec_encode_u16(w.processor_revision, e)
            + seq![w.number_of_processors]
            + seq![w.product_type]
            + spec_encode_u32(w.major_version, e)
            + spec_encode_u32(w.minor_version, e)
            + spec_encode_u32(w.build_number, e)
            + spec_encode_u32(w.platform_id, e)
            + spec_encode_u32(w.csd_version_rva, e)
            + spec_encode_u16(w.suite_mask, e)
            + spec_encode_u16(w.reserved2, e)
            + CPU_INFORMATION::spec_encode(w.cpu, e)
    }

    /// Reads the record at `off`, known to be in bounds.
    pub fn read_at(buf: &[u8], off: usize, e: Endianness) -> (r: Self)
        requires
            off + 56 <= buf@.len(),
        ensures
            r@ == Self::spec_decode(buf@, off as int, e),
    {
        let _blen = buf.len();  // a slice length fits usize, bounding the field offsets
        MINIDUMP_SYSTEM_INFO {
            processor_architecture: read_u16(buf, off, e),
            processor_level: read_u16(buf, off + 2, e),
            processor_revision: read_u16(buf, off + 4, e),
            number_of_processors: read_u8(buf, off + 6),
            product_type: read_u8(buf, off + 7),
            major_version: read_u32(buf, off + 8, e),
            minor_version: read_u32(buf, off + 12, e),
            build_number: read_u32(buf, off + 16, e),
            platform_id: read_u32(buf, off + 20, e),
            csd_version_rva: read_u32(buf, off + 24, e),
            suite_mask: read_u16(buf, off + 28, e),
            reserved2: read_u16(buf, off + 30, e),
            cpu: CPU_INFORMATION::read_at(buf, off + 32, e),
        }
    }

    /// Decodes the record at `off`: `Ok` exactly when the buffer holds
    /// `spec_size` bytes at `off`; the number returned with the record
    /// is the bytes consumed, always `spec_size`.
    pub fn decode(buf: &[u8], off: usize, e: Endianness) -> (r: Result<(Self, usize), DecodeError>)
        ensures
            match r {
                Ok((v, n)) => off + Self::spec_size() <= buf@.len()
                    && n == Self::spec_size()
                    && v@ == Self::spec_decode(buf@, off as int, e),
                Err(err) => err == DecodeError::OutOfBounds
                    && off + Self::spec_size() > buf@.len(),
            },
    {
        if buf.len() < 56 || off > buf.len() - 56 {
            return Err(DecodeError::OutOfBounds);
        }
        Ok((Self::read_at(buf, off, e), 56))
    }

    /// Appends this record's encoding in byte order `e` to `out`.
    #[verifier::spinoff_prover]
    #[verifier::rlimit(100)]
    pub fn write(&self, out: &mut Vec<u8>, e: Endianness)
        ensures
            final(out)@ == old(out)@ + Self::spec_encode(self@, e),
    {
        let ghost enc0 = spec_encode_u16(self@.processor_architecture, e);
        let ghost enc1 = spec_encode_u16(self@.processor_level, e);
        let ghost enc2 = spec_encode_u16(self@.processor_revision, e);
        let ghost enc3 = seq![self.number_of_processors];
        let ghost enc4 = seq![self.product_type];
        let ghost enc5 = spec_encode_u32(self@.major_version, e);
        let ghost enc6 = spec_encode_u32(self@.minor_version, e);
        let ghost enc7 = spec_encode_u32(self@.build_number, e);
        let ghost enc8 = spec_encode_u32(self@.platform_id, e);
        let ghost enc9 = spec_encode_u32(self@.csd_version_rva, e);
        let ghost enc10 = spec_encode_u16(self@.suite_mask, e);
        let ghost enc11 = spec_encode_u16(self@.reserved2, e);
        let ghost enc12 = CPU_INFORMATION::spec_encode(self.cpu@, e);
        let ghost pre1 = enc0 + enc1;
        let ghost pre2 = pre1 + enc2;
        let ghost pre3 = pre2 + enc3;
        let ghost pre4 = pre3 + enc4;
        let ghost pre5 = pre4 + enc5;
        let ghost pre6 = pre5 + enc6;
        let ghost pre7 = pre6 + enc7;
        let ghost pre8 = pre7 + enc8;
        let ghost pre9 = pre8 + enc9;
        let ghost pre10 = pre9 + enc10;
        let ghost pre11 = pre10 + enc11;
        let ghost pre12 = pre11 + enc12;
        write_u16(out, self.processor_architecture, e);
        proof { assert(out@ == old(out)@ + enc0); }
        write_u16(out, self.processor_level, e);
        proof {
            lemma_seq_add_assoc(old(out)@, enc0, enc1);
            assert(out@ == old(out)@ + pre1);
        }
        write_u16(out, self.processor_revision, e);
        proof {
            lemma_seq_add_assoc(old(out)@, pre1, enc2);
            assert(out@ == old(out)@ + pre2);
        }
        write_u8(out, self.number_of_processors);
        proof {
            lemma_seq_add_assoc(old(out)@, pre2, enc3);
            assert(out@ == old(out)@ + pre3);
        }
        write_u8(out, self.product_type);
        proof {
            lemma_seq_add_assoc(old(out)@, pre3, enc4);
            assert(out@ == old(out)@ + pre4);
        }
        write_u32(out, self.major_version, e);
        proof {
            lemma_seq_add_assoc(old(out)@, pre4, enc5);
            assert(out@ == old(out)@ + pre5);
        }
        write_u32(out, self.minor_version, e);
        proof {
            lemma_seq_add_assoc(old(out)@, pre5, enc6);
            assert(out@ == old(out)@ + pre6);
        }
        write_u32(out, self.build_number, e);
        proof {
            lemma_seq_add_assoc(old(out)@, pre6, enc7);
            assert(out@ == old(out)@ + pre7);
        }
        write_u32(out, self.platform_id, e);
        proof {
            lemma_seq_add_assoc(old(out)@, pre7, enc8);
            assert(out@ == old(out)@ + pre8);
        }
        write_u32(out, self.csd_version_rva, e);
        proof {
            lemma_seq_add_assoc(old(out)@, pre8, enc9);
            assert(out@ == old(out)@ + pre9);
        }
        write_u16(out, self.suite_mask, e);
        proof {
            lemma_seq_add_assoc(old(out)@, pre9, enc10);
            assert(out@ == old(out)@ + pre10);
        }
        write_u16(out, self.reserved2, e);
        proof {
            lemma_seq_add_assoc(old(out)@, pre10, enc11);
            assert(out@ == old(out)@ + pre11);
        }
        self.cpu.write(out, e);
        proof {
            lemma_seq_add_assoc(old(out)@, pre11, enc12);
            assert(out@ == old(out)@ + pre12);
        }
        assert(out@ == old(out)@ + Self::spec_encode(self@, e));
    }

    /// Encodes this record in byte order `e`.
    pub fn encode(&self, e: Endianness) -> (r: Vec<u8>)
        ensures
            r@ == Self::spec_encode(self@, e),
    {
        let mut out: Vec<u8> = Vec::new();
        self.write(&mut out, e);
        proof {
            assert(out@ =~= Self::spec_encode(self@, e));
        }
        out
    }
}

/// The encoding of a record is exactly [`MINIDUMP_SYSTEM_INFO::spec_size`] bytes.
pub proof fn lemma_minidump_system_info_encode_len(w: MINIDUMP_SYSTEM_INFOView, e: Endianness)
    requires
        w.wf(),
    ensures
        MINIDUMP_SYSTEM_INFO::spec_encode(w, e).len() == 56,
{
    lemma_encode_lens();
    lemma_cpu_information_encode_len(w.cpu, e);
}

/// Reading back the encoding of `w` found at offset `off` yields `w`.
pub proof fn lemma_minidump_system_info_encode_at(b: Seq<u8>, off: int, w: MINIDUMP_SYSTEM_INFOView, e: Endianness)
    requires
        w.wf(),
        0 <= off,
        off + 56 <= b.len(),
        b.subrange(off, off + 56) == MINIDUMP_SYSTEM_INFO::spec_encode(w, e),
    ensures
        MINIDUMP_SYSTEM_INFO::spec_decode(b, off, e) == w,
{
    lemma_encode_lens();
    lemma_cpu_information_encode_len(w.cpu, e);
    let enc0 = spec_encode_u16(w.processor_architecture, e);
    let enc1 = spec_encode_u16(w.processor_level, e);
    let enc2 = spec_encode_u16(w.processor_revision, e);
    let enc3 = seq![w.number_of_processors];
    let enc4 = seq![w.product_type];
    let enc5 = spec_encode_u32(w.major_version, e);
    let enc6 = spec_encode_u32(w.minor_version, e);
    let enc7 = spec_encode_u32(w.build_number, e);
    let enc8 = spec_encode_u32(w.platform_id, e);
    let enc9 = spec_encode_u32(w.csd_version_rva, e);
    let enc10 = spec_encode_u16(w.suite_mask, e);
    let enc11 = spec_encode_u16(w.reserved2, e);
    let enc12 = CPU_INFORMATION::spec_encode(w.cpu, e);
    let pre1 = enc0 + enc1;
    let pre2 = pre1 + enc2;
    let pre3 = pre2 + enc3;
    let pre4 = pre3 + enc4;
    let pre5 = pre4 + enc5;
    let pre6 = pre5 + enc6;
    let pre7 = pre6 + enc7;
    let pre8 = pre7 + enc8;
    let pre9 = pre8 + enc9;
    let pre10 = pre9 + enc10;
    let pre11 = pre10 + enc11;
    let pre12 = pre11 + enc12;
    assert(b.subrange(off, off + 56) == pre12);
    lemma_split_at(b, off, off + 32, off + 56, pre11, enc12);
    lemma_split_at(b, off, off + 30, off + 32, pre10, enc11);
    lemma_split_at(b, off, off + 28, off + 30, pre9, enc10);
    lemma_split_at(b, off, off + 24, off + 28, pre8, enc9);
    lemma_split_at(b, off, off + 20, off + 24, pre7, enc8);
    lemma_split_at(b, off, off + 16, off + 20, pre6, enc7);
    lemma_split_at(b, off, off + 12, off + 16, pre5, enc6);
    lemma_split_at(b, off, off + 8, off + 12, pre4, enc5);
    lemma_split_at(b, off, off + 7, off + 8, pre3, enc4);
    lemma_split_at(b, off, off + 6, off + 7, pre2, enc3);
    lemma_split_at(b, off, off + 4, off + 6, pre1, enc2);
    lemma_split_at(b, off, off + 2, off + 4, enc0, enc1);
    lemma_read_u16_at(b, off, w.processor_architecture, e);
    lemma_read_u16_at(b, off + 2, w.processor_level, e);
    lemma_read_u16_at(b, off + 4, w.processor_revision, e);
    assert(b.subrange(off + 6, off + 6 + 1)[0] == b[off + 6]);
    assert(spec_read_u8(b, off + 6) == w.number_of_processors);
    assert(b.subrange(off + 7, off + 7 + 1)[0] == b[off + 7]);
    assert(spec_read_u8(b, off + 7) == w.product_type);
    lemma_read_u32_at(b, off + 8, w.major_version, e);
    lemma_read_u32_at(b, off + 12, w.minor_version, e);
    lemma_read_u32_at(b, off + 16, w.build_number, e);
    lemma_read_u32_at(b, off + 20, w.platform_id, e);
    lemma_read_u32_at(b, off + 24, w.csd_version_rva, e);
    lemma_read_u16_at(b, off + 28, w.suite_mask, e);
    lemma_read_u16_at(b, off + 30, w.reserved2, e);
    lemma_cpu_information_encode_at(b, off + 32, w.cpu, e);
}

/// Round trip: decoding the encoding of a record yields the record, and
/// the encoding is exactly the record's fixed size.
pub proof fn lemma_minidump_system_info_roundtrip(w: MINIDUMP_SYSTEM_INFOView, e: Endianness)
    requires
        w.wf(),
    ensures
        MINIDUMP_SYSTEM_INFO::spec_encode(w, e).len() == MINIDUMP_SYSTEM_INFO::spec_size(),
        MINIDUMP_SYSTEM_INFO::spec_decode(MINIDUMP_SYSTEM_INFO::spec_encode(w, e), 0, e) == w,
{
    lemma_minidump_system_info_encode_len(w, e);
    let enc = MINIDUMP_SYSTEM_INFO::spec_encode(w, e);
    assert(enc.subrange(0, 56) =~= enc);
    lemma_minidump_system_info_encode_at(enc, 0, w, e);
}

/// A date and time.
#[derive(Debug, Clone, PartialEq, Default, Eq)]
pub struct SYSTEMTIME {
    pub year: u16,
    pub month: u16,
    pub day_of_week: u16,
    pub day: u16,
    pub hour: u16,
    pub minute: u16,
    pub second: u16,
    pub milliseconds: u16,
}

impl View for SYSTEMTIME {
    type V = SYSTEMTIME;

    open spec fn view(&self) -> SYSTEMTIME {
        *self
    }
}

impl SYSTEMTIME {
    /// The number of bytes this record occupies.
    pub open spec fn spec_size() -> nat {
        16
    }

    /// The record the bytes of `b` at `off` denote in byte order `e`.
    pub open spec fn spec_decode(b: Seq<u8>, off: int, e: Endianness) -> SYSTEMTIME {
        SYSTEMTIME {
            year: spec_read_u16(b, off, e),
            month: spec_read_u16(b, off + 2, e),
            day_of_week: spec_read_u16(b, off + 4, e),
            day: spec_read_u16(b, off + 6, e),
            hour: spec_read_u16(b, off + 8, e),
            minute: spec_read_u16(b, off + 10, e),
            second: spec_read_u16(b, off + 12, e),
            milliseconds: spec_read_u16(b, off + 14, e),
        }
    }

    /// The bytes the record `w` encodes to in byte order `e`.
    pub open spec fn spec_encode(w: SYSTEMTIME, e: Endianness) -> Seq<u8> {
        spec_encode_u16(w.year, e)
            + spec_encode_u16(w.month, e)
            + spec_encode_u16(w.day_of_week, e)
            + spec_encode_u16(w.day, e)
            + spec_encode_u16(w.hour, e)
            + spec_encode_u16(w.minute, e)
            + spec_encode_u16(w.second, e)
            + spec_encode_u16(w.milliseconds, e)
    }

    /// Reads the record at `off`, known to be in bounds.
    pub fn read_at(buf: &[u8], off: usize, e: Endianness) -> (r: Self)
        requires
            off + 16 <= buf@.len(),
        ensures
            r@ == Self::spec_decode(buf@, off as int, e),
    {
        let _blen = buf.len();  // a slice length fits usize, bounding the field offsets
        SYSTEMTIME {
            year: read_u16(buf, off, e),
            month: read_u16(buf, off + 2, e),
            day_of_week: read_u16(buf, off + 4, e),
            day: read_u16(buf, off + 6, e),
            hour: read_u16(buf, off + 8, e),
            minute: read_u16(buf, off + 10, e),
            second: read_u16(buf, off + 12, e),
            milliseconds: read_u16(buf, off + 14, e),
        }
    }

    /// Decodes the record at `off`: `Ok` exactly when the buffer holds
    /// `spec_size` bytes at `off`; the number returned with the record
    /// is the bytes consumed, always `spec_size`.
    pub fn decode(buf: &[u8], off: usize, e: Endianness) -> (r: Result<(Self, usize), DecodeError>)
        ensures
            match r {
                Ok((v, n)) => off + Self::spec_size() <= buf@.len()
                    && n == Self::spec_size()
                    && v@ == Self::spec_decode(buf@, off as int, e),
                Err(err) => err == DecodeError::OutOfBounds
                    && off + Self::spec_size() > buf@.len(),
            },
    {
        if buf.len() < 16 || off > buf.len() - 16 {
            return Err(DecodeError::OutOfBounds);
        }
        Ok((Self::read_at(buf, off, e), 16))
    }

    /// Appends this record's encoding in byte order `e` to `out`.
    pub fn write(&self, out: &mut Vec<u8>, e: Endianness)
        ensures
            final(out)@ == old(out)@ + Self::spec_encode(self@, e),
    {
        write_u16(out, self.year, e);
        write_u16(out, self.month, e);
        write_u16(out, self.day_of_week, e);
        write_u16(out, self.day, e);
        write_u16(out, self.hour, e);
        write_u16(out, self.minute, e);
        write_u16(out, self.second, e);
        write_u16(out, self.milliseconds, e);
        assert(out@ =~= old(out)@ + Self::spec_encode(self@, e));
    }

    /// Encodes this record in byte order `e`.
    pub fn encode(&self, e: Endianness) -> (r: Vec<u8>)
        ensures
            r@ == Self::spec_encode(self@, e),
    {
        let mut out: Vec<u8> = Vec::new();
        self.write(&mut out, e);
        proof {
            assert(out@ =~= Self::spec_encode(self@, e));
        }
        out
    }
}

/// The encoding of a record is exactly [`SYSTEMTIME::spec_size`] bytes.
pub proof fn lemma_systemtime_encode_len(w: SYSTEMTIME, e: Endianness)
    ensures
        SYSTEMTIME::spec_encode(w, e).len() == 16,
{
    lemma_encode_lens();
}

/// Reading back the encoding of `w` found at offset `off` yields `w`.
pub proof fn lemma_systemtime_encode_at(b: Seq<u8>, off: int, w: SYSTEMTIME, e: Endianness)
    requires
        0 <= off,
        off + 16 <= b.len(),
        b.subrange(off, off + 16) == SYSTEMTIME::spec_encode(w, e),
    ensures
        SYSTEMTIME::spec_decode(b, off, e) == w,
{
    lemma_encode_lens();
    let enc0 = spec_encode_u16(w.year, e);
    let enc1 = spec_encode_u16(w.month, e);
    let enc2 = spec_encode_u16(w.day_of_week, e);
    let enc3 = spec_encode_u16(w.day, e);
    let enc4 = spec_encode_u16(w.hour, e);
    let enc5 = spec_encode_u16(w.minute, e);
    let enc6 = spec_encode_u16(w.second, e);
    let enc7 = spec_encode_u16(w.milliseconds, e);
    let pre1 = enc0 + enc1;
    let pre2 = pre1 + enc2;
    let pre3 = pre2 + enc3;
    let pre4 = pre3 + enc4;
    let pre5 = pre4 + enc5;
    let pre6 = pre5 + enc6;
    let pre7 = pre6 + enc7;
    assert(b.subrange(off, off + 16) == pre7);
    lemma_split_at(b, off, off + 14, off + 16, pre6, enc7);
    lemma_split_at(b, off, off + 12, off + 14, pre5, enc6);
    lemma_split_at(b, off, off + 10, off + 12, pre4, enc5);
    lemma_split_at(b, off, off + 8, off + 10, pre3, enc4);
    lemma_split_at(b, off, off + 6, off + 8, pre2, enc3);
    lemma_split_at(b, off, off + 4, off + 6, pre1, enc2);
    lemma_split_at(b, off, off + 2, off + 4, enc0, enc1);
    lemma_read_u16_at(b, off, w.year, e);
    lemma_read_u16_at(b, off + 2, w.month, e);
    lemma_read_u16_at(b, off + 4, w.day_of_week, e);
    lemma_read_u16_at(b, off + 6, w.day, e);
    lemma_read_u16_at(b, off + 8, w.hour, e);
    lemma_read_u16_at(b, off + 10, w.minute, e);
    lemma_read_u16_at(b, off + 12, w.second, e);
    lemma_read_u16_at(b, off + 14, w.milliseconds, e);
}

/// Round trip: decoding the encoding of a record yields the record, and
/// the encoding is exactly the record's fixed size.
pub proof fn lemma_systemtime_roundtrip(w: SYSTEMTIME, e: Endianness)
    ensures
        SYSTEMTIME::spec_encode(w, e).len() == SYSTEMTIME::spec_size(),
        SYSTEMTIME::spec_decode(SYSTEMTIME::spec_encode(w, e), 0, e) == w,
{
    lemma_systemtime_encode_len(w, e);
    let enc = SYSTEMTIME::spec_encode(w, e);
    assert(enc.subrange(0, 16) =~= enc);
    lemma_systemtime_encode_at(enc, 0, w, e);
}

/// Settings for a time zone.
#[derive(Debug, Clone, PartialEq)]
pub struct TIME_ZONE_INFORMATION {
    pub bias: i32,
    pub standard_name: Vec<u16>,
    pub standard_date: SYSTEMTIME,
    pub standard_bias: i32,
    pub daylight_name: Vec<u16>,
    pub daylight_date: SYSTEMTIME,
    pub daylight_bias: i32,
}

/// The mathematical value of a [`TIME_ZONE_INFORMATION`]: the same fields with
/// sequences in place of vectors.
pub struct TIME_ZONE_INFORMATIONView {
    pub bias: i32,
    pub standard_name: Seq<u16>,
    pub standard_date: SYSTEMTIME,
    pub standard_bias: i32,
    pub daylight_name: Seq<u16>,
    pub daylight_date: SYSTEMTIME,
    pub daylight_bias: i32,
}

impl View for TIME_ZONE_INFORMATION {
    type V = TIME_ZONE_INFORMATIONView;

    open spec fn view(&self) -> TIME_ZONE_INFORMATIONView {
        TIME_ZONE_INFORMATIONView {
            bias: self.bias,
            standard_name: self.standard_name@,
            standard_date: self.standard_date,
            standard_bias: self.standard_bias,
            daylight_name: self.daylight_name@,
            daylight_date: self.daylight_date,
            daylight_bias: self.daylight_bias,
        }
    }
}

impl TIME_ZONE_INFORMATIONView {
    /// Well-formed: every sequence field has its fixed length.
    pub open spec fn wf(self) -> bool {
        &&& self.standard_name.len() == 32
        &&& self.daylight_name.len() == 32
    }
}

impl TIME_ZONE_INFORMATION {
    /// The number of bytes this record occupies.
    pub open spec fn spec_size() -> nat {
        172
    }

    /// The record the bytes of `b` at `off` denote in byte order `e`.
    pub open spec fn spec_decode(b: Seq<u8>, off: int, e: Endianness) -> TIME_ZONE_INFORMATIONView {
        TIME_ZONE_INFORMATIONView {
            bias: spec_read_i32(b, off, e),
            standard_name: spec_read_u16_seq(b, off + 4, 32, e),
            standard_date: SYSTEMTIME::spec_decode(b, off + 68, e),
            standard_bias: spec_read_i32(b, off + 84, e),
            daylight_name: spec_read_u16_seq(b, off + 88, 32, e),
            daylight_date: SYSTEMTIME::spec_decode(b, off + 152, e),
            daylight_bias: spec_read_i32(b, off + 168, e),
        }
    }

    /// The bytes the record `w` encodes to in byte order `e`.
    pub open spec fn spec_encode(w: TIME_ZONE_INFORMATIONView, e: Endianness) -> Seq<u8> {
        spec_encode_i32(w.bias, e)
            + spec_encode_u16_seq(w.standard_name, e)
            + SYSTEMTIME::spec_encode(w.standard_date, e)
            + spec_encode_i32(w.standard_bias, e)
            + spec_encode_u16_seq(w.daylight_name, e)
            + SYSTEMTIME::spec_encode(w.daylight_date, e)
            + spec_encode_i32(w.daylight_bias, e)
    }

    /// Reads the record at `off`, known to be in bounds.
    pub fn read_at(buf: &[u8], off: usize, e: Endianness) -> (r: Self)
        requires
            off + 172 <= buf@.len(),
        ensures
            r@ == Self::spec_decode(buf@, off as int, e),
    {
        let _blen = buf.len();  // a slice length fits usize, bounding the field offsets
        TIME_ZONE_INFORMATION {
            bias: read_i32(buf, off, e),
            standard_name: read_u16_vec(buf, off + 4, 32, e),
            standard_date: SYSTEMTIME::read_at(buf, off + 68, e),
            standard_bias: read_i32(buf, off + 84, e),
            daylight_name: read_u16_vec(buf, off + 88, 32, e),
            daylight_date: SYSTEMTIME::read_at(buf, off + 152, e),
            daylight_bias: read_i32(buf, off + 168, e),
        }
    }

    /// Decodes the record at `off`: `Ok` exactly when the buffer holds
    /// `spec_size` bytes at `off`; the number returned with the record
    /// is the bytes consumed, always `spec_size`.
    pub fn decode(buf: &[u8], off: usize, e: Endianness) -> (r: Result<(Self, usize), DecodeError>)
        ensures
            match r {
                Ok((v, n)) => off + Self::spec_size() <= buf@.len()
                    && n == Self::spec_size()
                    && v@ == Self::spec_decode(buf@, off as int, e),
                Err(err) => err == DecodeError::OutOfBounds
                    && off + Self::spec_size() > buf@.len(),
            },
    {
        if buf.len() < 172 || off > buf.len() - 172 {
            return Err(DecodeError::OutOfBounds);
        }
        Ok((Self::read_at(buf, off, e), 172))
    }

    /// Appends this record's encoding in byte order `e` to `out`.
    pub fn write(&self, out: &mut Vec<u8>, e: Endianness)
        ensures
            final(out)@ == old(out)@ + Self::spec_encode(self@, e),
    {
        write_i32(out, self.bias, e);
        write_u16_vec(out, &self.standard_name, e);
        self.standard_date.write(out, e);
        write_i32(out, self.standard_bias, e);
        write_u16_vec(out, &self.daylight_name, e);
        self.daylight_date.write(out, e);
        write_i32(out, self.daylight_bias, e);
        assert(out@ =~= old(out)@ + Self::spec_encode(self@, e));
    }

    /// Encodes this record in byte order `e`.
    pub fn encode(&self, e: Endianness) -> (r: Vec<u8>)
        ensures
            r@ == Self::spec_encode(self@, e),
    {
        let mut out: Vec<u8> = Vec::new();
        self.write(&mut out, e);
        proof {
            assert(out@ =~= Self::spec_encode(self@, e));
        }
        out
    }
}

/// The encoding of a record is exactly [`TIME_ZONE_INFORMATION::spec_size`] bytes.
pub proof fn lemma_time_zone_information_encode_len(w: TIME_ZONE_INFORMATIONView, e: Endianness)
    requires
        w.wf(),
    ensures
        TIME_ZONE_INFORMATION::spec_encode(w, e).len() == 172,
{
    lemma_encode_lens();
    lemma_encode_u16_seq_len(w.standard_name, e);
    lemma_systemtime_encode_len(w.standard_date, e);
    lemma_encode_u16_seq_len(w.daylight_name, e);
    lemma_systemtime_encode_len(w.daylight_date, e);
}

/// Reading back the encoding of `w` found at offset `off` yields `w`.
pub proof fn lemma_time_zone_information_encode_at(b: Seq<u8>, off: int, w: TIME_ZONE_INFORMATIONView, e: Endianness)
    requires
        w.wf(),
        0 <= off,
        off + 172 <= b.len(),
        b.subrange(off, off + 172) == TIME_ZONE_INFORMATION::spec_encode(w, e),
    ensures
        TIME_ZONE_INFORMATION::spec_decode(b, off, e) == w,
{
    lemma_encode_lens();
    lemma_encode_u16_seq_len(w.standard_name, e);
    lemma_systemtime_encode_len(w.standard_date, e);
    lemma_encode_u16_seq_len(w.daylight_name, e);
    lemma_systemtime_encode_len(w.daylight_date, e);
    let enc0 = spec_encode_i32(w.bias, e);
    let enc1 = spec_encode_u16_seq(w.standard_name, e);
    let enc2 = SYSTEMTIME::spec_encode(w.standard_date, e);
    let enc3 = spec_encode_i32(w.standard_bias, e);
    let enc4 = spec_encode_u16_seq(w.daylight_name, e);
    let enc5 = SYSTEMTIME::spec_encode(w.daylight_date, e);
    let enc6 = spec_encode_i32(w.daylight_bias, e);
    let pre1 = enc0 + enc1;
    let pre2 = pre1 + enc2;
    let pre3 = pre2 + enc3;
    let pre4 = pre3 + enc4;
    let pre5 = pre4 + enc5;
    let pre6 = pre5 + enc6;
    assert(b.subrange(off, off + 172) == pre6);
    lemma_split_at(b, off, off + 168, off + 172, pre5, enc6);
    lemma_split_at(b, off, off + 152, off + 168, pre4, enc5);
    lemma_split_at(b, off, off + 88, off + 152, pre3, enc4);
    lemma_split_at(b, off, off + 84, off + 88, pre2, enc3);
    lemma_split_at(b, off, off + 68, off + 84, pre1, enc2);
    lemma_split_at(b, off, off + 4, off + 68, enc0, enc1);
    lemma_read_i32_at(b, off, w.bias, e);
    lemma_read_u16_seq_at(b, off + 4, w.standard_name, e);
    lemma_systemtime_encode_at(b, off + 68, w.standard_date, e);
    lemma_read_i32_at(b, off + 84, w.standard_bias, e);
    lemma_read_u16_seq_at(b, off + 88, w.daylight_name, e);
    lemma_systemtime_encode_at(b, off + 152, w.daylight_date, e);
    lemma_read_i32_at(b, off + 168, w.daylight_bias, e);
}

/// Round trip: decoding the encoding of a record yields the record, and
/// the encoding is exactly the record's fixed size.
pub proof fn lemma_time_zone_information_roundtrip(w: TIME_ZONE_INFORMATIONView, e: Endianness)
    requires
        w.wf(),
    ensures
        TIME_ZONE_INFORMATION::spec_encode(w, e).len() == TIME_ZONE_INFORMATION::spec_size(),
        TIME_ZONE_INFORMATION::spec_decode(TIME_ZONE_INFORMATION::spec_encode(w, e), 0, e) == w,
{
    lemma_time_zone_information_encode_len(w, e);
    let enc = TIME_ZONE_INFORMATION::spec_encode(w, e);
    assert(enc.subrange(0, 172) =~= enc);
    lemma_time_zone_information_encode_at(enc, 0, w, e);
}

/// The offset and size of one XSAVE entry inside the XSAVE context.
#[derive(Debug, Clone, Copy, PartialEq, Default, Eq)]
pub struct XSTATE_FEATURE {
    pub offset: u32,
    pub size: u32,
}

impl View for XSTATE_FEATURE {
    type V = XSTATE_FEATURE;

    open spec fn view(&self) -> XSTATE_FEATURE {
        *self
    }
}

impl XSTATE_FEATURE {
    /// The number of bytes this record occupies.
    pub open spec fn spec_size() -> nat {
        8
    }

    /// The record the bytes of `b` at `off` denote in byte order `e`.
    pub open spec fn spec_decode(b: Seq<u8>, off: int, e: Endianness) -> XSTATE_FEATURE {
        XSTATE_FEATURE {
            offset: spec_read_u32(b, off, e),
            size: spec_read_u32(b, off + 4, e),
        }
    }

    /// The bytes the record `w` encodes to in byte order `e`.
    pub open spec fn spec_encode(w: XSTATE_FEATURE, e: Endianness) -> Seq<u8> {
        spec_encode_u32(w.offset, e)
            + spec_encode_u32(w.size, e)
    }

    /// Reads the record at `off`, known to be in bounds.
    pub fn read_at(buf: &[u8], off: usize, e: Endianness) -> (r: Self)
        requires
            off + 8 <= buf@.len(),
        ensures
            r@ == Self::spec_decode(buf@, off as int, e),
    {
        let _blen = buf.len();  // a slice length fits usize, bounding the field offsets
        XSTATE_FEATURE {
            offset: read_u32(buf, off, e),
            size: read_u32(buf, off + 4, e),
        }
    }

    /// Decodes the record at `off`: `Ok` exactly when the buffer holds
    /// `spec_size` bytes at `off`; the number returned with the record
    /// is the bytes consumed, always `spec_size`.
    pub fn decode(buf: &[u8], off: usize, e: Endianness) -> (r: Result<(Self, usize), DecodeError>)
        ensures
            match r {
                Ok((v, n)) => off + Self::spec_size() <= buf@.len()
                    && n == Self::spec_size()
                    && v@ == Self::spec_decode(buf@, off as int, e),
                Err(err) => err == DecodeError::OutOfBounds
                    && off + Self::spec_size() > buf@.len(),
            },
    {
        if buf.len() < 8 || off > buf.len() - 8 {
            return Err(DecodeError::OutOfBounds);
        }
        Ok((Self::read_at(buf, off, e), 8))
    }

    /// Appends this record's encoding in byte order `e` to `out`.
    pub fn write(&self, out: &mut Vec<u8>, e: Endianness)
        ensures
            final(out)@ == old(out)@ + Self::spec_encode(self@, e),
    {
        write_u32(out, self.offset, e);
        write_u32(out, self.size, e);
        assert(out@ =~= old(out)@ + Self::spec_encode(self@, e));
    }

    /// Encodes this record in byte order `e`.
    pub fn encode(&self, e: Endianness) -> (r: Vec<u8>)
        ensures
            r@ == Self::spec_encode(self@, e),
    {
        let mut out: Vec<u8> = Vec::new();
        self.write(&mut out, e);
        proof {
            assert(out@ =~= Self::spec_encode(self@, e));
        }
        out
    }
}

/// The encoding of a record is exactly [`XSTATE_FEATURE::spec_size`] bytes.
pub proof fn lemma_xstate_feature_encode_len(w: XSTATE_FEATURE, e: Endianness)
    ensures
        XSTATE_FEATURE::spec_encode(w, e).len() == 8,
{
    lemma_encode_lens();
}

/// Reading back the encoding of `w` found at offset `off` yields `w`.
pub proof fn lemma_xstate_feature_encode_at(b: Seq<u8>, off: int, w: XSTATE_FEATURE, e: Endianness)
    requires
        0 <= off,
        off + 8 <= b.len(),
        b.subrange(off, off + 8) == XSTATE_FEATURE::spec_encode(w, e),
    ensures
        XSTATE_FEATURE::spec_decode(b, off, e) == w,
{
    lemma_encode_lens();
    let enc0 = spec_encode_u32(w.offset, e);
    let enc1 = spec_encode_u32(w.size, e);
    let pre1 = enc0 + enc1;
    assert(b.subrange(off, off + 8) == pre1);
    lemma_split_at(b, off, off + 4, off + 8, enc0, enc1);
    lemma_read_u32_at(b, off, w.offset, e);
    lemma_read_u32_at(b, off + 4, w.size, e);
}

/// Round trip: decoding the encoding of a record yields the record, and
/// the encoding is exactly the record's fixed size.
pub proof fn lemma_xstate_feature_roundtrip(w: XSTATE_FEATURE, e: Endianness)
    ensures
        XSTATE_FEATURE::spec_encode(w, e).len() == XSTATE_FEATURE::spec_size(),
        XSTATE_FEATURE::spec_decode(XSTATE_FEATURE::spec_encode(w, e), 0, e) == w,
{
    lemma_xstate_feature_encode_len(w, e);
    let enc = XSTATE_FEATURE::spec_encode(w, e);
    assert(enc.subrange(0, 8) =~= enc);
    lemma_xstate_feature_encode_at(enc, 0, w, e);
}


/// The `count` consecutive [`XSTATE_FEATURE`] records of `b` starting at `off`.
pub open spec fn spec_read_xstate_feature_seq(b: Seq<u8>, off: int, count: int, e: Endianness) -> Seq<
    XSTATE_FEATURE,
> {
    Seq::new(count as nat, |i: int| XSTATE_FEATURE::spec_decode(b, off + 8 * i, e))
}

/// The bytes a sequence of [`XSTATE_FEATURE`] records encodes to, in order.
pub open spec fn spec_encode_xstate_feature_seq(s: Seq<XSTATE_FEATURE>, e: Endianness) -> Seq<u8>
    decreases s.len(),
{
    if s.len() == 0 {
        Seq::empty()
    } else {
        XSTATE_FEATURE::spec_encode(s[0], e) + spec_encode_xstate_feature_seq(s.drop_first(), e)
    }
}

/// The flat encoding of `s` is 8 bytes per record.
pub proof fn lemma_encode_xstate_feature_seq_len(s: Seq<XSTATE_FEATURE>, e: Endianness)
    ensures
        spec_encode_xstate_feature_seq(s, e).len() == 8 * s.len(),
    decreases s.len(),
{
    if s.len() > 0 {
        lemma_xstate_feature_encode_len(s[0], e);
        lemma_encode_xstate_feature_seq_len(s.drop_first(), e);
    }
}

/// Appending one record appends its encoding.
pub proof fn lemma_encode_xstate_feature_seq_push(s: Seq<XSTATE_FEATURE>, x: XSTATE_FEATURE, e: Endianness)
    ensures
        spec_encode_xstate_feature_seq(s.push(x), e) == spec_encode_xstate_feature_seq(s, e) + XSTATE_FEATURE::spec_encode(
            x,
            e,
        ),
    decreases s.len(),
{
    if s.len() == 0 {
        assert(s.push(x).drop_first() =~= s);
        assert(spec_encode_xstate_feature_seq(s.push(x), e) =~= spec_encode_xstate_feature_seq(s, e)
            + XSTATE_FEATURE::spec_encode(x, e));
    } else {
        assert(s.push(x).drop_first() =~= s.drop_first().push(x));
        lemma_encode_xstate_feature_seq_push(s.drop_first(), x, e);
        assert(spec_encode_xstate_feature_seq(s.push(x), e) =~= spec_encode_xstate_feature_seq(s, e)
            + XSTATE_FEATURE::spec_encode(x, e));
    }
}

/// Reading back the flat encoding of `s` found at offset `off` yields `s`.
pub proof fn lemma_read_xstate_feature_seq_at(b: Seq<u8>, off: int, s: Seq<XSTATE_FEATURE>, e: Endianness)
    requires
        0 <= off,
        off + 8 * s.len() <= b.len(),
        b.subrange(off, off + 8 * s.len()) == spec_encode_xstate_feature_seq(s, e),
    ensures
        spec_read_xstate_feature_seq(b, off, s.len() as int, e) == s,
    decreases s.len(),
{
    if s.len() == 0 {
        assert(spec_read_xstate_feature_seq(b, off, 0, e) =~= s);
    } else {
        let rest = s.drop_first();
        lemma_xstate_feature_encode_len(s[0], e);
        lemma_encode_xstate_feature_seq_len(rest, e);
        let whole = b.subrange(off, off + 8 * s.len());
        let enc0 = XSTATE_FEATURE::spec_encode(s[0], e);
        let encr = spec_encode_xstate_feature_seq(rest, e);
        assert(spec_encode_xstate_feature_seq(s, e) == enc0 + encr);
        assert forall|j: int| 0 <= j < 8 implies b.subrange(off, off + 8)[j] == enc0[j] by {
            assert(whole[j] == (enc0 + encr)[j]);
            assert((enc0 + encr)[j] == enc0[j]);
            assert(b.subrange(off, off + 8)[j] == b[off + j]);
            assert(whole[j] == b[off + j]);
        }
        assert(b.subrange(off, off + 8) =~= enc0);
        lemma_xstate_feature_encode_at(b, off, s[0], e);
        assert forall|j: int| 0 <= j < 8 * rest.len() implies b.subrange(
            off + 8,
            off + 8 + 8 * rest.len(),
        )[j] == encr[j] by {
            assert(whole[8 + j] == (enc0 + encr)[8 + j]);
            assert((enc0 + encr)[8 + j] == encr[j]);
            assert(b.subrange(off + 8, off + 8 + 8 * rest.len())[j] == b[off + 8
                + j]);
            assert(whole[8 + j] == b[off + 8 + j]);
        }
        assert(b.subrange(off + 8, off + 8 + 8 * rest.len()) =~= encr);
        lemma_read_xstate_feature_seq_at(b, off + 8, rest, e);
        assert(spec_read_xstate_feature_seq(b, off, s.len() as int, e) =~= s) by {
            assert(forall|i: int| 0 < i < s.len()
                ==> spec_read_xstate_feature_seq(b, off + 8, rest.len() as int, e)[i - 1]
                    == #[trigger] s[i]);
        }
    }
}

/// Reads `count` consecutive [`XSTATE_FEATURE`] records of `buf` starting at `off`.
pub fn read_xstate_feature_vec(buf: &[u8], off: usize, count: usize, e: Endianness) -> (v: Vec<XSTATE_FEATURE>)
    requires
        off + 8 * count <= buf@.len(),
    ensures
        v@ == spec_read_xstate_feature_seq(buf@, off as int, count as int, e),
{
    let _blen = buf.len();  // a slice length fits usize, bounding the field offsets
    let mut v: Vec<XSTATE_FEATURE> = Vec::new();
    let mut i: usize = 0;
    while i < count
        invariant
            off + 8 * count <= buf@.len(),
            buf@.len() <= usize::MAX,
            i <= count,
            v@ =~= spec_read_xstate_feature_seq(buf@, off as int, count as int, e).take(i as int),
        decreases count - i,
    {
        v.push(XSTATE_FEATURE::read_at(buf, off + 8 * i, e));
        i = i + 1;
    }
    assert(v@ =~= spec_read_xstate_feature_seq(buf@, off as int, count as int, e));
    v
}

/// Appends the flat encoding of `v` in byte order `e` to `out`.
pub fn write_xstate_feature_vec(out: &mut Vec<u8>, v: &Vec<XSTATE_FEATURE>, e: Endianness)
    ensures
        final(out)@ == old(out)@ + spec_encode_xstate_feature_seq(v@, e),
{
    let mut i: usize = 0;
    while i < v.len()
        invariant
            i <= v@.len(),
            out@ == old(out)@ + spec_encode_xstate_feature_seq(v@.take(i as int), e),
        decreases v@.len() - i,
    {
        v[i].write(out, e);
        proof {
            lemma_encode_xstate_feature_seq_push(v@.take(i as int), v@[i as int], e);
            assert(v@.take(i + 1) =~= v@.take(i as int).push(v@[i as int]));
        }
        i = i + 1;
    }
    proof {
        assert(v@.take(v@.len() as int) =~= v@);
    }
}

/// A descriptor of the XSAVE context found at the end of each thread's CPU
/// context.
///
/// The bit `enabled_features & (1 << i)` indicates that `features[i]`
/// holds valid data.
#[derive(Debug, Clone, PartialEq)]
pub struct XSTATE_CONFIG_FEATURE_MSC_INFO {
    pub size_of_info: u32,
    pub context_size: u32,
    pub enabled_features: u64,
    pub features: Vec<XSTATE_FEATURE>,
}

/// The mathematical value of a [`XSTATE_CONFIG_FEATURE_MSC_INFO`]: the same fields with
/// sequences in place of vectors.
pub struct XSTATE_CONFIG_FEATURE_MSC_INFOView {
    pub size_of_info: u32,
    pub context_size: u32,
    pub enabled_features: u64,
    pub features: Seq<XSTATE_FEATURE>,
}

impl View for XSTATE_CONFIG_FEATURE_MSC_INFO {
    type V = XSTATE_CONFIG_FEATURE_MSC_INFOView;

    open spec fn view(&self) -> XSTATE_CONFIG_FEATURE_MSC_INFOView {
        XSTATE_CONFIG_FEATURE_MSC_INFOView {
            size_of_info: self.size_of_info,
            context_size: self.context_size,
            enabled_features: self.enabled_features,
            features: self.features@,
        }
    }
}

impl XSTATE_CONFIG_FEATURE_MSC_INFOView {
    /// Well-formed: every sequence field has its fixed length.
    pub open spec fn wf(self) -> bool {
        self.features.len() == 64
    }
}

impl XSTATE_CONFIG_FEATURE_MSC_INFO {
    /// The number of bytes this record occupies.
    pub open spec fn spec_size() -> nat {
        528
    }

    /// The record the bytes of `b` at `off` denote in byte order `e`.
    pub open spec fn spec_decode(b: Seq<u8>, off: int, e: Endianness) -> XSTATE_CONFIG_FEATURE_MSC_INFOView {
        XSTATE_CONFIG_FEATURE_MSC_INFOView {
            size_of_info: spec_read_u32(b, off, e),
            context_size: spec_read_u32(b, off + 4, e),
            enabled_features: spec_read_u64(b, off + 8, e),
            features: spec_read_xstate_feature_seq(b, off + 16, 64, e),
        }
    }

    /// The bytes the record `w` encodes to in byte order `e`.
    pub open spec fn spec_encode(w: XSTATE_CONFIG_FEATURE_MSC_INFOView, e: Endianness) -> Seq<u8> {
        spec_encode_u32(w.size_of_info, e)
            + spec_encode_u32(w.context_size, e)
            + spec_encode_u64(w.enabled_features, e)
            + spec_encode_xstate_feature_seq(w.features, e)
    }

    /// Reads the record at `off`, known to be in bounds.
    pub fn read_at(buf: &[u8], off: usize, e: Endianness) -> (r: Self)
        requires
            off + 528 <= buf@.len(),
        ensures
            r@ == Self::spec_decode(buf@, off as int, e),
    {
        let _blen = buf.len();  // a slice length fits usize, bounding the field offsets
        XSTATE_CONFIG_FEATURE_MSC_INFO {
            size_of_info: read_u32(buf, off, e),
            context_size: read_u32(buf, off + 4, e),
            enabled_features: read_u64(buf, off + 8, e),
            features: read_xstate_feature_vec(buf, off + 16, 64, e),
        }
    }

    /// Decodes the record at `off`: `Ok` exactly when the buffer holds
    /// `spec_size` bytes at `off`; the number returned with the record
    /// is the bytes consumed, always `spec_size`.
    pub fn decode(buf: &[u8], off: usize, e: Endianness) -> (r: Result<(Self, usize), DecodeError>)
        ensures
            match r {
                Ok((v, n)) => off + Self::spec_size() <= buf@.len()
                    && n == Self::spec_size()
                    && v@ == Self::spec_decode(buf@, off as int, e),
                Err(err) => err == DecodeError::OutOfBounds
                    && off + Self::spec_size() > buf@.len(),
            },
    {
        if buf.len() < 528 || off > buf.len() - 528 {
            return Err(DecodeError::OutOfBounds);
        }
        Ok((Self::read_at(buf, off, e), 528))
    }

    /// Appends this record's encoding in byte order `e` to `out`.
    pub fn write(&self, out: &mut Vec<u8>, e: Endianness)
        ensures
            final(out)@ == old(out)@ + Self::spec_encode(self@, e),
    {
        write_u32(out, self.size_of_info, e);
        write_u32(out, self.context_size, e);
        write_u64(out, self.enabled_features, e);
        write_xstate_feature_vec(out, &self.features, e);
        assert(out@ =~= old(out)@ + Self::spec_encode(self@, e));
    }

    /// Encodes this record in byte order `e`.
    pub fn encode(&self, e: Endianness) -> (r: Vec<u8>)
        ensures
            r@ == Self::spec_encode(self@, e),
    {
        let mut out: Vec<u8> = Vec::new();
        self.write(&mut out, e);
        proof {
            assert(out@ =~= Self::spec_encode(self@, e));
        }
        out
    }
}

/// The encoding of a record is exactly [`XSTATE_CONFIG_FEATURE_MSC_INFO::spec_size`] bytes.
pub proof fn lemma_xstate_config_feature_msc_info_encode_len(w: XSTATE_CONFIG_FEATURE_MSC_INFOView, e: Endianness)
    requires
        w.wf(),
    ensures
        XSTATE_CONFIG_FEATURE_MSC_INFO::spec_encode(w, e).len() == 528,
{
    lemma_encode_lens();
    lemma_encode_xstate_feature_seq_len(w.features, e);
}

/// Reading back the encoding of `w` found at offset `off` yields `w`.
pub proof fn lemma_xstate_config_feature_msc_info_encode_at(b: Seq<u8>, off: int, w: XSTATE_CONFIG_FEATURE_MSC_INFOView, e: Endianness)
    requires
        w.wf(),
        0 <= off,
        off + 528 <= b.len(),
        b.subrange(off, off + 528) == XSTATE_CONFIG_FEATURE_MSC_INFO::spec_encode(w, e),
    ensures
        XSTATE_CONFIG_FEATURE_MSC_INFO::spec_decode(b, off, e) == w,
{
    lemma_encode_lens();
    lemma_encode_xstate_feature_seq_len(w.features, e);
    let enc0 = spec_encode_u32(w.size_of_info, e);
    let enc1 = spec_encode_u32(w.context_size, e);
    let enc2 = spec_encode_u64(w.enabled_features, e);
    let enc3 = spec_encode_xstate_feature_seq(w.features, e);
    let pre1 = enc0 + enc1;
    let pre2 = pre1 + enc2;
    let pre3 = pre2 + enc3;
    assert(b.subrange(off, off + 528) == pre3);
    lemma_split_at(b, off, off + 16, off + 528, pre2, enc3);
    lemma_split_at(b, off, off + 8, off + 16, pre1, enc2);
    lemma_split_at(b, off, off + 4, off + 8, enc0, enc1);
    lemma_read_u32_at(b, off, w.size_of_info, e);
    lemma_read_u32_at(b, off + 4, w.context_size, e);
    lemma_read_u64_at(b, off + 8, w.enabled_features, e);
    lemma_read_xstate_feature_seq_at(b, off + 16, w.features, e);
}

/// Round trip: decoding the encoding of a record yields the record, and
/// the encoding is exactly the record's fixed size.
pub proof fn lemma_xstate_config_feature_msc_info_roundtrip(w: XSTATE_CONFIG_FEATURE_MSC_INFOView, e: Endianness)
    requires
        w.wf(),
    ensures
        XSTATE_CONFIG_FEATURE_MSC_INFO::spec_encode(w, e).len() == XSTATE_CONFIG_FEATURE_MSC_INFO::spec_size(),
        XSTATE_CONFIG_FEATURE_MSC_INFO::spec_decode(XSTATE_CONFIG_FEATURE_MSC_INFO::spec_encode(w, e), 0, e) == w,
{
    lemma_xstate_config_feature_msc_info_encode_len(w, e);
    let enc = XSTATE_CONFIG_FEATURE_MSC_INFO::spec_encode(w, e);
    assert(enc.subrange(0, 528) =~= enc);
    lemma_xstate_config_feature_msc_info_encode_at(enc, 0, w, e);
}


/// Builds a vector of `n` zero `u16`s.
fn zero_u16_vec(n: usize) -> (v: Vec<u16>)
    ensures
        v@ == Seq::new(n as nat, |i: int| 0u16),
{
    let mut v: Vec<u16> = Vec::new();
    let mut i: usize = 0;
    while i < n
        invariant
            i <= n,
            v@ =~= Seq::new(n as nat, |j: int| 0u16).take(i as int),
        decreases n - i,
    {
        v.push(0);
        i = i + 1;
    }
    assert(v@ =~= Seq::new(n as nat, |i: int| 0u16));
    v
}

impl TIME_ZONE_INFORMATION {
    /// The all-zero time zone record: no bias, blank names, zero dates.
    pub open spec fn spec_default() -> TIME_ZONE_INFORMATIONView {
        TIME_ZONE_INFORMATIONView {
            bias: 0,
            standard_name: Seq::new(32, |i: int| 0u16),
            standard_date: SYSTEMTIME {
                year: 0,
                month: 0,
                day_of_week: 0,
                day: 0,
                hour: 0,
                minute: 0,
                second: 0,
                milliseconds: 0,
            },
            standard_bias: 0,
            daylight_name: Seq::new(32, |i: int| 0u16),
            daylight_date: SYSTEMTIME {
                year: 0,
                month: 0,
                day_of_week: 0,
                day: 0,
                hour: 0,
                minute: 0,
                second: 0,
                milliseconds: 0,
            },
            daylight_bias: 0,
        }
    }
}

impl Default for TIME_ZONE_INFORMATION {
    /// The all-zero time zone record.
    fn default() -> (r: Self)
        ensures
            r@ == TIME_ZONE_INFORMATION::spec_default(),
            r@.wf(),
    {
        let r = TIME_ZONE_INFORMATION {
            bias: 0,
            standard_name: zero_u16_vec(32),
            standard_date: SYSTEMTIME {
                year: 0,
                month: 0,
                day_of_week: 0,
                day: 0,
                hour: 0,
                minute: 0,
                second: 0,
                milliseconds: 0,
            },
            standard_bias: 0,
            daylight_name: zero_u16_vec(32),
            daylight_date: SYSTEMTIME {
                year: 0,
                month: 0,
                day_of_week: 0,
                day: 0,
                hour: 0,
                minute: 0,
                second: 0,
                milliseconds: 0,
            },
            daylight_bias: 0,
        };
        r
    }
}

impl XSTATE_CONFIG_FEATURE_MSC_INFO {
    /// The empty XSAVE descriptor: its own size, no context, no features.
    pub open spec fn spec_default() -> XSTATE_CONFIG_FEATURE_MSC_INFOView {
        XSTATE_CONFIG_FEATURE_MSC_INFOView {
            size_of_info: 528,
            context_size: 0,
            enabled_features: 0,
            features: Seq::new(64, |i: int| XSTATE_FEATURE { offset: 0, size: 0 }),
        }
    }
}

impl Default for XSTATE_CONFIG_FEATURE_MSC_INFO {
    /// The empty XSAVE descriptor: `size_of_info` is this record's own fixed
    /// size, and no feature is enabled.
    fn default() -> (r: Self)
        ensures
            r@ == XSTATE_CONFIG_FEATURE_MSC_INFO::spec_default(),
            r@.wf(),
    {
        let mut features: Vec<XSTATE_FEATURE> = Vec::new();
        let mut i: usize = 0;
        while i < 64
            invariant
                i <= 64,
                features@ =~= Seq::new(64, |j: int| XSTATE_FEATURE { offset: 0, size: 0 }).take(
                    i as int,
                ),
            decreases 64 - i,
        {
            features.push(XSTATE_FEATURE { offset: 0, size: 0 });
            i = i + 1;
        }
        assert(features@ =~= Seq::new(64, |i: int| XSTATE_FEATURE { offset: 0, size: 0 }));
        XSTATE_CONFIG_FEATURE_MSC_INFO {
            size_of_info: 528,
            context_size: 0,
            enabled_features: 0,
            features,
        }
    }
}

impl XSTATE_CONFIG_FEATURE_MSC_INFO {
    /// Whether the descriptor `w` flags feature `i` as holding valid data.
    pub open spec fn spec_feature_enabled(w: XSTATE_CONFIG_FEATURE_MSC_INFOView, i: int) -> bool {
        0 <= i < 64 && w.enabled_features & (1u64 << (i as u64)) != 0
    }

    /// Gets an iterator over all the enabled features.
    pub fn iter(&self) -> (it: XstateFeatureIter)
        ensures
            it.spec_info() == self@,
            it.spec_idx() == 0,
    {
        let mut features: Vec<XSTATE_FEATURE> = Vec::new();
        let mut i: usize = 0;
        while i < self.features.len()
            invariant
                i <= self.features@.len(),
                features@ =~= self.features@.take(i as int),
            decreases self.features@.len() - i,
        {
            features.push(self.features[i]);
            i = i + 1;
        }
        assert(features@ =~= self.features@);
        let it = XstateFeatureIter {
            info: XSTATE_CONFIG_FEATURE_MSC_INFO {
                size_of_info: self.size_of_info,
                context_size: self.context_size,
                enabled_features: self.enabled_features,
                features,
            },
            idx: 0,
        };
        assert(it.spec_info() =~~= self@);
        it
    }
}

/// An iterator over the enabled features of an
/// [`XSTATE_CONFIG_FEATURE_MSC_INFO`], yielding each enabled index with its
/// entry, in increasing order of index.
#[derive(Debug)]
pub struct XstateFeatureIter {
    info: XSTATE_CONFIG_FEATURE_MSC_INFO,
    idx: usize,
}

impl XstateFeatureIter {
    /// The descriptor this iterator walks.
    pub closed spec fn spec_info(self) -> XSTATE_CONFIG_FEATURE_MSC_INFOView {
        self.info@
    }

    /// The next index the iterator will look at.
    pub closed spec fn spec_idx(self) -> int {
        self.idx as int
    }

    /// The next enabled feature at or after the current position: its index
    /// and entry, with every index skipped over disabled; or `None` when no
    /// enabled feature remains.
    pub fn next(&mut self) -> (r: Option<(usize, XSTATE_FEATURE)>)
        requires
            old(self).spec_info().wf(),
            0 <= old(self).spec_idx() <= 64,
        ensures
            final(self).spec_info() == old(self).spec_info(),
            match r {
                Some((i, f)) => {
                    let w = old(self).spec_info();
                    &&& old(self).spec_idx() <= i < 64
                    &&& XSTATE_CONFIG_FEATURE_MSC_INFO::spec_feature_enabled(w, i as int)
                    &&& f == w.features[i as int]
                    &&& final(self).spec_idx() == i + 1
                    &&& forall|j: int|
                        old(self).spec_idx() <= j < i
                            ==> !XSTATE_CONFIG_FEATURE_MSC_INFO::spec_feature_enabled(w, j)
                },
                None => {
                    &&& final(self).spec_idx() == 64
                    &&& forall|j: int|
                        old(self).spec_idx() <= j < 64
                            ==> !XSTATE_CONFIG_FEATURE_MSC_INFO::spec_feature_enabled(
                            old(self).spec_info(),
                            j,
                        )
                },
            },
    {
        while self.idx < 64
            invariant
                self.info == old(self).info,
                old(self).spec_idx() <= self.idx <= 64,
                self.info@.wf(),
                forall|j: int|
                    old(self).spec_idx() <= j < self.idx
                        ==> !XSTATE_CONFIG_FEATURE_MSC_INFO::spec_feature_enabled(self.info@, j),
            decreases 64 - self.idx,
        {
            let cur_idx = self.idx;
            self.idx = self.idx + 1;
            if (self.info.enabled_features & (1u64 << (cur_idx as u64))) != 0 {
                return Some((cur_idx, self.info.features[cur_idx]));
            }
        }
        None
    }
}

/// Several known entries in the `features` table of an
/// [`XSTATE_CONFIG_FEATURE_MSC_INFO`].
#[derive(Clone, Copy, Debug, PartialEq, Eq, Structural)]
pub enum XstateFeatureIndex {
    LEGACY_FLOATING_POINT,
    LEGACY_SSE,
    GSSE_AND_AVX,
    MPX_BNDREGS,
    MPX_BNDCSR,
    AVX512_KMASK,
    AVX512_ZMM_H,
    ACK512_ZMM,
    XSTATE_IPT,
    XSTATE_LWP,
}

impl XstateFeatureIndex {
    /// The feature-table index of this entry.
    pub open spec fn spec_to_index(self) -> usize {
        match self {
            XstateFeatureIndex::LEGACY_FLOATING_POINT => 0,
            XstateFeatureIndex::LEGACY_SSE => 1,
            XstateFeatureIndex::GSSE_AND_AVX => 2,
            XstateFeatureIndex::MPX_BNDREGS => 3,
            XstateFeatureIndex::MPX_BNDCSR => 4,
            XstateFeatureIndex::AVX512_KMASK => 5,
            XstateFeatureIndex::AVX512_ZMM_H => 6,
            XstateFeatureIndex::ACK512_ZMM => 7,
            XstateFeatureIndex::XSTATE_IPT => 8,
            XstateFeatureIndex::XSTATE_LWP => 62,
        }
    }

    /// The known entry at feature-table index `idx`, or `None` for any other
    /// index.
    pub open spec fn spec_from_index(idx: usize) -> Option<XstateFeatureIndex> {
        match idx {
            0 => Some(XstateFeatureIndex::LEGACY_FLOATING_POINT),
            1 => Some(XstateFeatureIndex::LEGACY_SSE),
            2 => Some(XstateFeatureIndex::GSSE_AND_AVX),
            3 => Some(XstateFeatureIndex::MPX_BNDREGS),
            4 => Some(XstateFeatureIndex::MPX_BNDCSR),
            5 => Some(XstateFeatureIndex::AVX512_KMASK),
            6 => Some(XstateFeatureIndex::AVX512_ZMM_H),
            7 => Some(XstateFeatureIndex::ACK512_ZMM),
            8 => Some(XstateFeatureIndex::XSTATE_IPT),
            62 => Some(XstateFeatureIndex::XSTATE_LWP),
            _ => None,
        }
    }

    /// The known entry at feature-table index `idx`, or `None` for any other
    /// index: an unknown index is never an error.
    pub fn from_index(idx: usize) -> (r: Option<Self>)
        ensures
            r == XstateFeatureIndex::spec_from_index(idx),
    {
        match idx {
            0 => Some(XstateFeatureIndex::LEGACY_FLOATING_POINT),
            1 => Some(XstateFeatureIndex::LEGACY_SSE),
            2 => Some(XstateFeatureIndex::GSSE_AND_AVX),
            3 => Some(XstateFeatureIndex::MPX_BNDREGS),
            4 => Some(XstateFeatureIndex::MPX_BNDCSR),
            5 => Some(XstateFeatureIndex::AVX512_KMASK),
            6 => Some(XstateFeatureIndex::AVX512_ZMM_H),
            7 => Some(XstateFeatureIndex::ACK512_ZMM),
            8 => Some(XstateFeatureIndex::XSTATE_IPT),
            62 => Some(XstateFeatureIndex::XSTATE_LWP),
            _ => None,
        }
    }

    /// The feature-table index of this entry.
    pub fn to_index(self) -> (r: usize)
        ensures
            r == self.spec_to_index(),
    {
        match self {
            XstateFeatureIndex::LEGACY_FLOATING_POINT => 0,
            XstateFeatureIndex::LEGACY_SSE => 1,
            XstateFeatureIndex::GSSE_AND_AVX => 2,
            XstateFeatureIndex::MPX_BNDREGS => 3,
            XstateFeatureIndex::MPX_BNDCSR => 4,
            XstateFeatureIndex::AVX512_KMASK => 5,
            XstateFeatureIndex::AVX512_ZMM_H => 6,
            XstateFeatureIndex::ACK512_ZMM => 7,
            XstateFeatureIndex::XSTATE_IPT => 8,
            XstateFeatureIndex::XSTATE_LWP => 62,
        }
    }
}

/// Round trip: the index of a known entry names that entry.
pub proof fn lemma_xstate_feature_index_roundtrip(v: XstateFeatureIndex)
    ensures
        XstateFeatureIndex::spec_from_index(v.spec_to_index()) == Some(v),
{
}

} // verus!
