//! Architecture-specific CPU context records.
//!
//! One raw byte region in a minidump holds the register snapshot of a
//! thread; which of these mutually exclusive layouts it follows is chosen
//! by the context flags, never guessed (see [`crate::flags`]).

use vstd::prelude::*;

verus! {

broadcast use vstd::seq::group_seq_axioms;

use crate::codec::DecodeError;
use crate::codec::Endianness;
use crate::codec::lemma_encode_lens;
use crate::codec::lemma_encode_u32_seq_len;
use crate::codec::lemma_encode_u64_seq_len;
use crate::codec::lemma_encode_u128_seq_len;
use crate::codec::lemma_split_at;
use crate::codec::lemma_seq_add_assoc;
use crate::codec::lemma_read_u16_at;
use crate::codec::lemma_read_u32_at;
use crate::codec::lemma_read_u32_seq_at;
use crate::codec::lemma_read_u64_at;
use crate::codec::lemma_read_u64_seq_at;
use crate::codec::lemma_read_u128_at;
use crate::codec::lemma_read_u128_seq_at;
use crate::codec::read_bytes;
use crate::codec::read_u8;
use crate::codec::read_u16;
use crate::codec::read_u32;
use crate::codec::read_u32_vec;
use crate::codec::read_u64;
use crate::codec::read_u64_vec;
use crate::codec::read_u128;
use crate::codec::read_u128_vec;
use crate::codec::spec_encode_u16;
use crate::codec::spec_encode_u32;
use crate::codec::spec_encode_u32_seq;
use crate::codec::spec_encode_u64;
use crate::codec::spec_encode_u64_seq;
use crate::codec::spec_encode_u128;
use crate::codec::spec_encode_u128_seq;
use crate::codec::spec_read_bytes;
use crate::codec::spec_read_u8;
use crate::codec::spec_read_u16;
use crate::codec::spec_read_u32;
use crate::codec::spec_read_u32_seq;
use crate::codec::spec_read_u64;
use crate::codec::spec_read_u64_seq;
use crate::codec::spec_read_u128;
use crate::codec::spec_read_u128_seq;
use crate::codec::write_bytes;
use crate::codec::write_u8;
use crate::codec::write_u16;
use crate::codec::write_u32;
use crate::codec::write_u32_vec;
use crate::codec::write_u64;
use crate::codec::write_u64_vec;
use crate::codec::write_u128;
use crate::codec::write_u128_vec;

/// Possible contents of the AMD64 context's `float_save` region.
///
/// This matches the definition of the struct with the same name from
/// WinNT.h (the 512-byte FXSAVE layout).
#[derive(Debug, Clone, PartialEq)]
pub struct XMM_SAVE_AREA32 {
    pub control_word: u16,
    pub status_word: u16,
    pub tag_word: u8,
    pub reserved1: u8,
    pub error_opcode: u16,
    pub error_offset: u32,
    pub error_selector: u16,
    pub reserved2: u16,
    pub data_offset: u32,
    pub data_selector: u16,
    pub reserved3: u16,
    pub mx_csr: u32,
    pub mx_csr_mask: u32,
    pub float_registers: Vec<u128>,
    pub xmm_registers: Vec<u128>,
    pub reserved4: Vec<u8>,
}

/// The mathematical value of a [`XMM_SAVE_AREA32`]: the same fields with
/// sequences in place of vectors.
pub struct XMM_SAVE_AREA32View {
    pub control_word: u16,
    pub status_word: u16,
    pub tag_word: u8,
    pub reserved1: u8,
    pub error_opcode: u16,
    pub error_offset: u32,
    pub error_selector: u16,
    pub reserved2: u16,
    pub data_offset: u32,
    pub data_selector: u16,
    pub reserved3: u16,
    pub mx_csr: u32,
    pub mx_csr_mask: u32,
    pub float_registers: Seq<u128>,
    pub xmm_registers: Seq<u128>,
    pub reserved4: Seq<u8>,
}

impl View for XMM_SAVE_AREA32 {
    type V = XMM_SAVE_AREA32View;

    open spec fn view(&self) -> XMM_SAVE_AREA32View {
        XMM_SAVE_AREA32View {
            control_word: self.control_word,
            status_word: self.status_word,
            tag_word: self.tag_word,
            reserved1: self.reserved1,
            error_opcode: self.error_opcode,
            error_offset: self.error_offset,
            error_selector: self.error_selector,
            reserved2: self.reserved2,
            data_offset: self.data_offset,
            data_selector: self.data_selector,
            reserved3: self.reserved3,
            mx_csr: self.mx_csr,
            mx_csr_mask: self.mx_csr_mask,
            float_registers: self.float_registers@,
            xmm_registers: self.xmm_registers@,
            reserved4: self.reserved4@,
        }
    }
}

impl XMM_SAVE_AREA32View {
    /// Well-formed: every sequence field has its fixed length.
    pub open spec fn wf(self) -> bool {
        &&& self.float_registers.len() == 8
        &&& self.xmm_registers.len() == 16
        &&& self.reserved4.len() == 96
    }
}

impl XMM_SAVE_AREA32 {
    /// The number of bytes this record occupies.
    pub open spec fn spec_size() -> nat {
        512
    }

    /// The record the bytes of `b` at `off` denote in byte order `e`.
    pub open spec fn spec_decode(b: Seq<u8>, off: int, e: Endianness) -> XMM_SAVE_AREA32View {
        XMM_SAVE_AREA32View {
            control_word: spec_read_u16(b, off, e),
            status_word: spec_read_u16(b, off + 2, e),
            tag_word: spec_read_u8(b, off + 4),
            reserved1: spec_read_u8(b, off + 5),
            error_opcode: spec_read_u16(b, off + 6, e),
            error_offset: spec_read_u32(b, off + 8, e),
            error_selector: spec_read_u16(b, off + 12, e),
            reserved2: spec_read_u16(b, off + 14, e),
            data_offset: spec_read_u32(b, off + 16, e),
            data_selector: spec_read_u16(b, off + 20, e),
            reserved3: spec_read_u16(b, off + 22, e),
            mx_csr: spec_read_u32(b, off + 24, e),
            mx_csr_mask: spec_read_u32(b, off + 28, e),
            float_registers: spec_read_u128_seq(b, off + 32, 8, e),
            xmm_registers: spec_read_u128_seq(b, off + 160, 16, e),
            reserved4: spec_read_bytes(b, off + 416, 96),
        }
    }

    /// The bytes the record `w` encodes to in byte order `e`.
    pub open spec fn spec_encode(w: XMM_SAVE_AREA32View, e: Endianness) -> Seq<u8> {
        spec_encode_u16(w.control_word, e)
            + spec_encode_u16(w.status_word, e)
            + seq![w.tag_word]
            + seq![w.reserved1]
            + spec_encode_u16(w.error_opcode, e)
            + spec_encode_u32(w.error_offset, e)
            + spec_encode_u16(w.error_selector, e)
            + spec_encode_u16(w.reserved2, e)
            + spec_encode_u32(w.data_offset, e)
            + spec_encode_u16(w.data_selector, e)
            + spec_encode_u16(w.reserved3, e)
            + spec_encode_u32(w.mx_csr, e)
            + spec_encode_u32(w.mx_csr_mask, e)
            + spec_encode_u128_seq(w.float_registers, e)
            + spec_encode_u128_seq(w.xmm_registers, e)
            + w.reserved4
    }

    /// Reads the record at `off`, known to be in bounds.
    pub fn read_at(buf: &[u8], off: usize, e: Endianness) -> (r: Self)
        requires
            off + 512 <= buf@.len(),
        ensures
            r@ == Self::spec_decode(buf@, off as int, e),
    {
        let _blen = buf.len();  // a slice length fits usize, bounding the field offsets
        XMM_SAVE_AREA32 {
            control_word: read_u16(buf, off, e),
            status_word: read_u16(buf, off + 2, e),
            tag_word: read_u8(buf, off + 4),
            reserved1: read_u8(buf, off + 5),
            error_opcode: read_u16(buf, off + 6, e),
            error_offset: read_u32(buf, off + 8, e),
            error_selector: read_u16(buf, off + 12, e),
            reserved2: read_u16(buf, off + 14, e),
            data_offset: read_u32(buf, off + 16, e),
            data_selector: read_u16(buf, off + 20, e),
            reserved3: read_u16(buf, off + 22, e),
            mx_csr: read_u32(buf, off + 24, e),
            mx_csr_mask: read_u32(buf, off + 28, e),
            float_registers: read_u128_vec(buf, off + 32, 8, e),
            xmm_registers: read_u128_vec(buf, off + 160, 16, e),
            reserved4: read_bytes(buf, off + 416, 96),
        }
    }

    /// Decodes the record at `off`: `Ok` exactly when the buffer holds
    /// `spec_size` bytes at `off`; the number returned with the record
    /// is the bytes consumed, always `spec_size`.
    pub fn decode(buf: &[u8], off: usize, e: Endianness) -> (r: Result<(Self, usize), DecodeError>)
        ensures
            match r {
                Ok((v, n)) => off + Self::spec_size() <= buf@.len()
                    && n == Self::spec_size()
                    && v@ == Self::spec_decode(buf@, off as int, e),
                Err(err) => err == DecodeError::OutOfBounds
                    && off + Self::spec_size() > buf@.len(),
            },
    {
        if buf.len() < 512 || off > buf.len() - 512 {
            return Err(DecodeError::OutOfBounds);
        }
        Ok((Self::read_at(buf, off, e), 512))
    }

    /// Appends this record's encoding in byte order `e` to `out`.
    #[verifier::spinoff_prover]
    #[verifier::rlimit(100)]
    pub fn write(&self, out: &mut Vec<u8>, e: Endianness)
        ensures
            final(out)@ == old(out)@ + Self::spec_encode(self@, e),
    {
        let ghost enc0 = spec_encode_u16(self@.control_word, e);
        let ghost enc1 = spec_encode_u16(self@.status_word, e);
        let ghost enc2 = seq![self.tag_word];
        let ghost enc3 = seq![self.reserved1];
        let ghost enc4 = spec_encode_u16(self@.error_opcode, e);
        let ghost enc5 = spec_encode_u32(self@.error_offset, e);
        let ghost enc6 = spec_encode_u16(self@.error_selector, e);
        let ghost enc7 = spec_encode_u16(self@.reserved2, e);
        let ghost enc8 = spec_encode_u32(self@.data_offset, e);
        let ghost enc9 = spec_encode_u16(self@.data_selector, e);
        let ghost enc10 = spec_encode_u16(self@.reserved3, e);
        let ghost enc11 = spec_encode_u32(self@.mx_csr, e);
        let ghost enc12 = spec_encode_u32(self@.mx_csr_mask, e);
        let ghost enc13 = spec_encode_u128_seq(self.float_registers@, e);
        let ghost enc14 = spec_encode_u128_seq(self.xmm_registers@, e);
        let ghost enc15 = self.reserved4@;
        let ghost pre1 = enc0 + enc1;
        let ghost pre2 = pre1 + enc2;
        let ghost pre3 = pre2 + enc3;
        let ghost pre4 = pre3 + enc4;
        let ghost pre5 = pre4 + enc5;
        let ghost pre6 = pre5 + enc6;
        let ghost pre7 = pre6 + enc7;
        let ghost pre8 = pre7 + enc8;
        let ghost pre9 = pre8 + enc9;
        let ghost pre10 = pre9 + enc10;
        let ghost pre11 = pre10 + enc11;
        let ghost pre12 = pre11 + enc12;
        let ghost pre13 = pre12 + enc13;
        let ghost pre14 = pre13 + enc14;
        let ghost pre15 = pre14 + enc15;
        write_u16(out, self.control_word, e);
        proof { assert(out@ == old(out)@ + enc0); }
        write_u16(out, self.status_word, e);
        proof {
            lemma_seq_add_assoc(old(out)@, enc0, enc1);
            assert(out@ == old(out)@ + pre1);
        }
        write_u8(out, self.tag_word);
        proof {
            lemma_seq_add_assoc(old(out)@, pre1, enc2);
            assert(out@ == old(out)@ + pre2);
        }
        write_u8(out, self.reserved1);
        proof {
            lemma_seq_add_assoc(old(out)@, pre2, enc3);
            assert(out@ == old(out)@ + pre3);
        }
        write_u16(out, self.error_opcode, e);
        proof {
            lemma_seq_add_assoc(old(out)@, pre3, enc4);
            assert(out@ == old(out)@ + pre4);
        }
        write_u32(out, self.error_offset, e);
        proof {
            lemma_seq_add_assoc(old(out)@, pre4, enc5);
            assert(out@ == old(out)@ + pre5);
        }
        write_u16(out, self.error_selector, e);
        proof {
            lemma_seq_add_assoc(old(out)@, pre5, enc6);
            assert(out@ == old(out)@ + pre6);
        }
        write_u16(out, self.reserved2, e);
        proof {
            lemma_seq_add_assoc(old(out)@, pre6, enc7);
            assert(out@ == old(out)@ + pre7);
        }
        write_u32(out, self.data_offset, e);
        proof {
            lemma_seq_add_assoc(old(out)@, pre7, enc8);
            assert(out@ == old(out)@ + pre8);
        }
        write_u16(out, self.data_selector, e);
        proof {
            lemma_seq_add_assoc(old(out)@, pre8, enc9);
            assert(out@ == old(out)@ + pre9);
        }
        write_u16(out, self.reserved3, e);
        proof {
            lemma_seq_add_assoc(old(out)@, pre9, enc10);
            assert(out@ == old(out)@ + pre10);
        }
        write_u32(out, self.mx_csr, e);
        proof {
            lemma_seq_add_assoc(old(out)@, pre10, enc11);
            assert(out@ == old(out)@ + pre11);
        }
        write_u32(out, self.mx_csr_mask, e);
        proof {
            lemma_seq_add_assoc(old(out)@, pre11, enc12);
            assert(out@ == old(out)@ + pre12);
        }
        write_u128_vec(out, &self.float_registers, e);
        proof {
            lemma_seq_add_assoc(old(out)@, pre12, enc13);
            assert(out@ == old(out)@ + pre13);
        }
        write_u128_vec(out, &self.xmm_registers, e);
        proof {
            lemma_seq_add_assoc(old(out)@, pre13, enc14);
            assert(out@ == old(out)@ + pre14);
        }
        write_bytes(out, &self.reserved4);
        proof {
            lemma_seq_add_assoc(old(out)@, pre14, enc15);
            assert(out@ == old(out)@ + pre15);
        }
        assert(out@ == old(out)@ + Self::spec_encode(self@, e));
    }

    /// Encodes this record in byte order `e`.
    pub fn encode(&self, e: Endianness) -> (r: Vec<u8>)
        ensures
            r@ == Self::spec_encode(self@, e),
    {
        let mut out: Vec<u8> = Vec::new();
        self.write(&mut out, e);
        proof {
            assert(out@ =~= Self::spec_encode(self@, e));
        }
        out
    }
}

/// The encoding of a record is exactly [`XMM_SAVE_AREA32::spec_size`] bytes.
pub proof fn lemma_xmm_save_area32_encode_len(w: XMM_SAVE_AREA32View, e: Endianness)
    requires
        w.wf(),
    ensures
        XMM_SAVE_AREA32::spec_encode(w, e).len() == 512,
{
    lemma_encode_lens();
    lemma_encode_u128_seq_len(w.float_registers, e);
    lemma_encode_u128_seq_len(w.xmm_registers, e);
}

/// Reading back the encoding of `w` found at offset `off` yields `w`.
pub proof fn lemma_xmm_save_area32_encode_at(b: Seq<u8>, off: int, w: XMM_SAVE_AREA32View, e: Endianness)
    requires
        w.wf(),
        0 <= off,
        off + 512 <= b.len(),
        b.subrange(off, off + 512) == XMM_SAVE_AREA32::spec_encode(w, e),
    ensures
        XMM_SAVE_AREA32::spec_decode(b, off, e) == w,
{
    lemma_encode_lens();
    lemma_encode_u128_seq_len(w.float_registers, e);
    lemma_encode_u128_seq_len(w.xmm_registers, e);
    let enc0 = spec_encode_u16(w.control_word, e);
    let enc1 = spec_encode_u16(w.status_word, e);
    let enc2 = seq![w.tag_word];
    let enc3 = seq![w.reserved1];
    let enc4 = spec_encode_u16(w.error_opcode, e);
    let enc5 = spec_encode_u32(w.error_offset, e);
    let enc6 = spec_encode_u16(w.error_selector, e);
    let enc7 = spec_encode_u16(w.reserved2, e);
    let enc8 = spec_encode_u32(w.data_offset, e);
    let enc9 = spec_encode_u16(w.data_selector, e);
    let enc10 = spec_encode_u16(w.reserved3, e);
    let enc11 = spec_encode_u32(w.mx_csr, e);
    let enc12 = spec_encode_u32(w.mx_csr_mask, e);
    let enc13 = spec_encode_u128_seq(w.float_registers, e);
    let enc14 = spec_encode_u128_seq(w.xmm_registers, e);
    let enc15 = w.reserved4;
    let pre1 = enc0 + enc1;
    let pre2 = pre1 + enc2;
    let pre3 = pre2 + enc3;
    let pre4 = pre3 + enc4;
    let pre5 = pre4 + enc5;
    let pre6 = pre5 + enc6;
    let pre7 = pre6 + enc7;
    let pre8 = pre7 + enc8;
    let pre9 = pre8 + enc9;
    let pre10 = pre9 + enc10;
    let pre11 = pre10 + enc11;
    let pre12 = pre11 + enc12;
    let pre13 = pre12 + enc13;
    let pre14 = pre13 + enc14;
    let pre15 = pre14 + enc15;
    assert(b.subrange(off, off + 512) == pre15);
    lemma_split_at(b, off, off + 416, off + 512, pre14, enc15);
    lemma_split_at(b, off, off + 160, off + 416, pre13, enc14);
    lemma_split_at(b, off, off + 32, off + 160, pre12, enc13);
    lemma_split_at(b, off, off + 28, off + 32, pre11, enc12);
    lemma_split_at(b, off, off + 24, off + 28, pre10, enc11);
    lemma_split_at(b, off, off + 22, off + 24, pre9, enc10);
    lemma_split_at(b, off, off + 20, off + 22, pre8, enc9);
    lemma_split_at(b, off, off + 16, off + 20, pre7, enc8);
    lemma_split_at(b, off, off + 14, off + 16, pre6, enc7);
    lemma_split_at(b, off, off + 12, off + 14, pre5, enc6);
    lemma_split_at(b, off, off + 8, off + 12, pre4, enc5);
    lemma_split_at(b, off, off + 6, off + 8, pre3, enc4);
    lemma_split_at(b, off, off + 5, off + 6, pre2, enc3);
    lemma_split_at(b, off, off + 4, off + 5, pre1, enc2);
    lemma_split_at(b, off, off + 2, off + 4, enc0, enc1);
    lemma_read_u16_at(b, off, w.control_word, e);
    lemma_read_u16_at(b, off + 2, w.status_word, e);
    assert(b.subrange(off + 4, off + 4 + 1)[0] == b[off + 4]);
    assert(spec_read_u8(b, off + 4) == w.tag_word);
    assert(b.subrange(off + 5, off + 5 + 1)[0] == b[off + 5]);
    assert(spec_read_u8(b, off + 5) == w.reserved1);
    lemma_read_u16_at(b, off + 6, w.error_opcode, e);
    lemma_read_u32_at(b, off + 8, w.error_offset, e);
    lemma_read_u16_at(b, off + 12, w.error_selector, e);
    lemma_read_u16_at(b, off + 14, w.reserved2, e);
    lemma_read_u32_at(b, off + 16, w.data_offset, e);
    lemma_read_u16_at(b, off + 20, w.data_selector, e);
    lemma_read_u16_at(b, off + 22, w.reserved3, e);
    lemma_read_u32_at(b, off + 24, w.mx_csr, e);
    lemma_read_u32_at(b, off + 28, w.mx_csr_mask, e);
    lemma_read_u128_seq_at(b, off + 32, w.float_registers, e);
    lemma_read_u128_seq_at(b, off + 160, w.xmm_registers, e);
    assert(spec_read_bytes(b, off + 416, 96) == w.reserved4);
}

/// Round trip: decoding the encoding of a record yields the record, and
/// the encoding is exactly the record's fixed size.
pub proof fn lemma_xmm_save_area32_roundtrip(w: XMM_SAVE_AREA32View, e: Endianness)
    requires
        w.wf(),
    ensures
        XMM_SAVE_AREA32::spec_encode(w, e).len() == XMM_SAVE_AREA32::spec_size(),
        XMM_SAVE_AREA32::spec_decode(XMM_SAVE_AREA32::spec_encode(w, e), 0, e) == w,
{
    lemma_xmm_save_area32_encode_len(w, e);
    let enc = XMM_SAVE_AREA32::spec_encode(w, e);
    assert(enc.subrange(0, 512) =~= enc);
    lemma_xmm_save_area32_encode_at(enc, 0, w, e);
}

/// Possible contents of the AMD64 context's `float_save` region.
///
/// This is defined as an anonymous struct inside an anonymous union in the
/// x86-64 CONTEXT struct in WinNT.h.
#[derive(Debug, Clone, PartialEq)]
pub struct SSE_REGISTERS {
    pub header: Vec<u128>,
    pub legacy: Vec<u128>,
    pub xmm0: u128,
    pub xmm1: u128,
    pub xmm2: u128,
    pub xmm3: u128,
    pub xmm4: u128,
    pub xmm5: u128,
    pub xmm6: u128,
    pub xmm7: u128,
    pub xmm8: u128,
    pub xmm9: u128,
    pub xmm10: u128,
    pub xmm11: u128,
    pub xmm12: u128,
    pub xmm13: u128,
    pub xmm14: u128,
    pub xmm15: u128,
}

/// The mathematical value of a [`SSE_REGISTERS`]: the same fields with
/// sequences in place of vectors.
pub struct SSE_REGISTERSView {
    pub header: Seq<u128>,
    pub legacy: Seq<u128>,
    pub xmm0: u128,
    pub xmm1: u128,
    pub xmm2: u128,
    pub xmm3: u128,
    pub xmm4: u128,
    pub xmm5: u128,
    pub xmm6: u128,
    pub xmm7: u128,
    pub xmm8: u128,
    pub xmm9: u128,
    pub xmm10: u128,
    pub xmm11: u128,
    pub xmm12: u128,
    pub xmm13: u128,
    pub xmm14: u128,
    pub xmm15: u128,
}

impl View for SSE_REGISTERS {
    type V = SSE_REGISTERSView;

    open spec fn view(&self) -> SSE_REGISTERSView {
        SSE_REGISTERSView {
            header: self.header@,
            legacy: self.legacy@,
            xmm0: self.xmm0,
            xmm1: self.xmm1,
            xmm2: self.xmm2,
            xmm3: self.xmm3,
            xmm4: self.xmm4,
            xmm5: self.xmm5,
            xmm6: self.xmm6,
            xmm7: self.xmm7,
            xmm8: self.xmm8,
            xmm9: self.xmm9,
            xmm10: self.xmm10,
            xmm11: self.xmm11,
            xmm12: self.xmm12,
            xmm13: self.xmm13,
            xmm14: self.xmm14,
            xmm15: self.xmm15,
        }
    }
}

impl SSE_REGISTERSView {
    /// Well-formed: every sequence field has its fixed length.
    pub open spec fn wf(self) -> bool {
        &&& self.header.len() == 2
        &&& self.legacy.len() == 8
    }
}

impl SSE_REGISTERS {
    /// The number of bytes this record occupies.
    pub open spec fn spec_size() -> nat {
        416
    }

    /// The record the bytes of `b` at `off` denote in byte order `e`.
    pub open spec fn spec_decode(b: Seq<u8>, off: int, e: Endianness) -> SSE_REGISTERSView {
        SSE_REGISTERSView {
            header: spec_read_u128_seq(b, off, 2, e),
            legacy: spec_read_u128_seq(b, off + 32, 8, e),
            xmm0: spec_read_u128(b, off + 160, e),
            xmm1: spec_read_u128(b, off + 176, e),
            xmm2: spec_read_u128(b, off + 192, e),
            xmm3: spec_read_u128(b, off + 208, e),
            xmm4: spec_read_u128(b, off + 224, e),
            xmm5: spec_read_u128(b, off + 240, e),
            xmm6: spec_read_u128(b, off + 256, e),
            xmm7: spec_read_u128(b, off + 272, e),
            xmm8: spec_read_u128(b, off + 288, e),
            xmm9: spec_read_u128(b, off + 304, e),
            xmm10: spec_read_u128(b, off + 320, e),
            xmm11: spec_read_u128(b, off + 336, e),
            xmm12: spec_read_u128(b, off + 352, e),
            xmm13: spec_read_u128(b, off + 368, e),
            xmm14: spec_read_u128(b, off + 384, e),
            xmm15: spec_read_u128(b, off + 400, e),
        }
    }

    /// The bytes the record `w` encodes to in byte order `e`.
    pub open spec fn spec_encode(w: SSE_REGISTERSView, e: Endianness) -> Seq<u8> {
        spec_encode_u128_seq(w.header, e)
            + spec_encode_u128_seq(w.legacy, e)
            + spec_encode_u128(w.xmm0, e)
            + spec_encode_u128(w.xmm1, e)
            + spec_encode_u128(w.xmm2, e)
            + spec_encode_u128(w.xmm3, e)
            + spec_encode_u128(w.xmm4, e)
            + spec_encode_u128(w.xmm5, e)
            + spec_encode_u128(w.xmm6, e)
            + spec_encode_u128(w.xmm7, e)
            + spec_encode_u128(w.xmm8, e)
            + spec_encode_u128(w.xmm9, e)
            + spec_encode_u128(w.xmm10, e)
            + spec_encode_u128(w.xmm11, e)
            + spec_encode_u128(w.xmm12, e)
            + spec_encode_u128(w.xmm13, e)
            + spec_encode_u128(w.xmm14, e)
            + spec_encode_u128(w.xmm15, e)
    }

    /// Reads the record at `off`, known to be in bounds.
    pub fn read_at(buf: &[u8], off: usize, e: Endianness) -> (r: Self)
        requires
            off + 416 <= buf@.len(),
        ensures
            r@ == Self::spec_decode(buf@, off as int, e),
    {
        let _blen = buf.len();  // a slice length fits usize, bounding the field offsets
        SSE_REGISTERS {
            header: read_u128_vec(buf, off, 2, e),
            legacy: read_u128_vec(buf, off + 32, 8, e),
            xmm0: read_u128(buf, off + 160, e),
            xmm1: read_u128(buf, off + 176, e),
            xmm2: read_u128(buf, off + 192, e),
            xmm3: read_u128(buf, off + 208, e),
            xmm4: read_u128(buf, off + 224, e),
            xmm5: read_u128(buf, off + 240, e),
            xmm6: read_u128(buf, off + 256, e),
            xmm7: read_u128(buf, off + 272, e),
            xmm8: read_u128(buf, off + 288, e),
            xmm9: read_u128(buf, off + 304, e),
            xmm10: read_u128(buf, off + 320, e),
            xmm11: read_u128(buf, off + 336, e),
            xmm12: read_u128(buf, off + 352, e),
            xmm13: read_u128(buf, off + 368, e),
            xmm14: read_u128(buf, off + 384, e),
            xmm15: read_u128(buf, off + 400, e),
        }
    }

    /// Decodes the record at `off`: `Ok` exactly when the buffer holds
    /// `spec_size` bytes at `off`; the number returned with the record
    /// is the bytes consumed, always `spec_size`.
    pub fn decode(buf: &[u8], off: usize, e: Endianness) -> (r: Result<(Self, usize), DecodeError>)
        ensures
            match r {
                Ok((v, n)) => off + Self::spec_size() <= buf@.len()
                    && n == Self::spec_size()
                    && v@ == Self::spec_decode(buf@, off as int, e),
                Err(err) => err == DecodeError::OutOfBounds
                    && off + Self::spec_size() > buf@.len(),
            },
    {
        if buf.len() < 416 || off > buf.len() - 416 {
            return Err(DecodeError::OutOfBounds);
        }
        Ok((Self::read_at(buf, off, e), 416))
    }

    /// Appends this record's encoding in byte order `e` to `out`.
    #[verifier::spinoff_prover]
    #[verifier::rlimit(100)]
    pub fn write(&self, out: &mut Vec<u8>, e: Endianness)
        ensures
            final(out)@ == old(out)@ + Self::spec_encode(self@, e),
    {
        let ghost enc0 = spec_encode_u128_seq(self.header@, e);
        let ghost enc1 = spec_encode_u128_seq(self.legacy@, e);
        let ghost enc2 = spec_encode_u128(self@.xmm0, e);
        let ghost enc3 = spec_encode_u128(self@.xmm1, e);
        let ghost enc4 = spec_encode_u128(self@.xmm2, e);
        let ghost enc5 = spec_encode_u128(self@.xmm3, e);
        let ghost enc6 = spec_encode_u128(self@.xmm4, e);
        let ghost enc7 = spec_encode_u128(self@.xmm5, e);
        let ghost enc8 = spec_encode_u128(self@.xmm6, e);
        let ghost enc9 = spec_encode_u128(self@.xmm7, e);
        let ghost enc10 = spec_encode_u128(self@.xmm8, e);
        let ghost enc11 = spec_encode_u128(self@.xmm9, e);
        let ghost enc12 = spec_encode_u128(self@.xmm10, e);
        let ghost enc13 = spec_encode_u128(self@.xmm11, e);
        let ghost enc14 = spec_encode_u128(self@.xmm12, e);
        let ghost enc15 = spec_encode_u128(self@.xmm13, e);
        let ghost enc16 = spec_encode_u128(self@.xmm14, e);
        let ghost enc17 = spec_encode_u128(self@.xmm15, e);
        let ghost pre1 = enc0 + enc1;
        let ghost pre2 = pre1 + enc2;
        let ghost pre3 = pre2 + enc3;
        let ghost pre4 = pre3 + enc4;
        let ghost pre5 = pre4 + enc5;
        let ghost pre6 = pre5 + enc6;
        let ghost pre7 = pre6 + enc7;
        let ghost pre8 = pre7 + enc8;
        let ghost pre9 = pre8 + enc9;
        let ghost pre10 = pre9 + enc10;
        let ghost pre11 = pre10 + enc11;
        let ghost pre12 = pre11 + enc12;
        let ghost pre13 = pre12 + enc13;
        let ghost pre14 = pre13 + enc14;
        let ghost pre15 = pre14 + enc15;
        let ghost pre16 = pre15 + enc16;
        let ghost pre17 = pre16 + enc17;
        write_u128_vec(out, &self.header, e);
        proof { assert(out@ == old(out)@ + enc0); }
        write_u128_vec(out, &self.legacy, e);
        proof {
            lemma_seq_add_assoc(old(out)@, enc0, enc1);
            assert(out@ == old(out)@ + pre1);
        }
        write_u128(out, self.xmm0, e);
        proof {
            lemma_seq_add_assoc(old(out)@, pre1, enc2);
            assert(out@ == old(out)@ + pre2);
        }
        write_u128(out, self.xmm1, e);
        proof {
            lemma_seq_add_assoc(old(out)@, pre2, enc3);
            assert(out@ == old(out)@ + pre3);
        }
        write_u128(out, self.xmm2, e);
        proof {
            lemma_seq_add_assoc(old(out)@, pre3, enc4);
            assert(out@ == old(out)@ + pre4);
        }
        write_u128(out, self.xmm3, e);
        proof {
            lemma_seq_add_assoc(old(out)@, pre4, enc5);
            assert(out@ == old(out)@ + pre5);
        }
        write_u128(out, self.xmm4, e);
        proof {
            lemma_seq_add_assoc(old(out)@, pre5, enc6);
            assert(out@ == old(out)@ + pre6);
        }
        write_u128(out, self.xmm5, e);
        proof {
            lemma_seq_add_assoc(old(out)@, pre6, enc7);
            assert(out@ == old(out)@ + pre7);
        }
        write_u128(out, self.xmm6, e);
        proof {
            lemma_seq_add_assoc(old(out)@, pre7, enc8);
            assert(out@ == old(out)@ + pre8);
        }
        write_u128(out, self.xmm7, e);
        proof {
            lemma_seq_add_assoc(old(out)@, pre8, enc9);
            assert(out@ == old(out)@ + pre9);
        }
        write_u128(out, self.xmm8, e);
        proof {
            lemma_seq_add_assoc(old(out)@, pre9, enc10);
            assert(out@ == old(out)@ + pre10);
        }
        write_u128(out, self.xmm9, e);
        proof {
            lemma_seq_add_assoc(old(out)@, pre10, enc11);
            assert(out@ == old(out)@ + pre11);
        }
        write_u128(out, self.xmm10, e);
        proof {
            lemma_seq_add_assoc(old(out)@, pre11, enc12);
            assert(out@ == old(out)@ + pre12);
        }
        write_u128(out, self.xmm11, e);
        proof {
            lemma_seq_add_assoc(old(out)@, pre12, enc13);
            assert(out@ == old(out)@ + pre13);
        }
        write_u128(out, self.xmm12, e);
        proof {
            lemma_seq_add_assoc(old(out)@, pre13, enc14);
            assert(out@ == old(out)@ + pre14);
        }
        write_u128(out, self.xmm13, e);
        proof {
            lemma_seq_add_assoc(old(out)@, pre14, enc15);
            assert(out@ == old(out)@ + pre15);
        }
        write_u128(out, self.xmm14, e);
        proof {
            lemma_seq_add_assoc(old(out)@, pre15, enc16);
            assert(out@ == old(out)@ + pre16);
        }
        write_u128(out, self.xmm15, e);
        proof {
            lemma_seq_add_assoc(old(out)@, pre16, enc17);
            assert(out@ == old(out)@ + pre17);
        }
        assert(out@ == old(out)@ + Self::spec_encode(self@, e));
    }

    /// Encodes this record in byte order `e`.
    pub fn encode(&self, e: Endianness) -> (r: Vec<u8>)
        ensures
            r@ == Self::spec_encode(self@, e),
    {
        let mut out: Vec<u8> = Vec::new();
        self.write(&mut out, e);
        proof {
            assert(out@ =~= Self::spec_encode(self@, e));
        }
        out
    }
}

/// The encoding of a record is exactly [`SSE_REGISTERS::spec_size`] bytes.
pub proof fn lemma_sse_registers_encode_len(w: SSE_REGISTERSView, e: Endianness)
    requires
        w.wf(),
    ensures
        SSE_REGISTERS::spec_encode(w, e).len() == 416,
{
    lemma_encode_lens();
    lemma_encode_u128_seq_len(w.header, e);
    lemma_encode_u128_seq_len(w.legacy, e);
}

/// Reading back the encoding of `w` found at offset `off` yields `w`.
pub proof fn lemma_sse_registers_encode_at(b: Seq<u8>, off: int, w: SSE_REGISTERSView, e: Endianness)
    requires
        w.wf(),
        0 <= off,
        off + 416 <= b.len(),
        b.subrange(off, off + 416) == SSE_REGISTERS::spec_encode(w, e),
    ensures
        SSE_REGISTERS::spec_decode(b, off, e) == w,
{
    lemma_encode_lens();
    lemma_encode_u128_seq_len(w.header, e);
    lemma_encode_u128_seq_len(w.legacy, e);
    let enc0 = spec_encode_u128_seq(w.header, e);
    let enc1 = spec_encode_u128_seq(w.legacy, e);
    let enc2 = spec_encode_u128(w.xmm0, e);
    let enc3 = spec_encode_u128(w.xmm1, e);
    let enc4 = spec_encode_u128(w.xmm2, e);
    let enc5 = spec_encode_u128(w.xmm3, e);
    let enc6 = spec_encode_u128(w.xmm4, e);
    let enc7 = spec_encode_u128(w.xmm5, e);
    let enc8 = spec_encode_u128(w.xmm6, e);
    let enc9 = spec_encode_u128(w.xmm7, e);
    let enc10 = spec_encode_u128(w.xmm8, e);
    let enc11 = spec_encode_u128(w.xmm9, e);
    let enc12 = spec_encode_u128(w.xmm10, e);
    let enc13 = spec_encode_u128(w.xmm11, e);
    let enc14 = spec_encode_u128(w.xmm12, e);
    let enc15 = spec_encode_u128(w.xmm13, e);
    let enc16 = spec_encode_u128(w.xmm14, e);
    let enc17 = spec_encode_u128(w.xmm15, e);
    let pre1 = enc0 + enc1;
    let pre2 = pre1 + enc2;
    let pre3 = pre2 + enc3;
    let pre4 = pre3 + enc4;
    let pre5 = pre4 + enc5;
    let pre6 = pre5 + enc6;
    let pre7 = pre6 + enc7;
    let pre8 = pre7 + enc8;
    let pre9 = pre8 + enc9;
    let pre10 = pre9 + enc10;
    let pre11 = pre10 + enc11;
    let pre12 = pre11 + enc12;
    let pre13 = pre12 + enc13;
    let pre14 = pre13 + enc14;
    let pre15 = pre14 + enc15;
    let pre16 = pre15 + enc16;
    let pre17 = pre16 + enc17;
    assert(b.subrange(off, off + 416) == pre17);
    lemma_split_at(b, off, off + 400, off + 416, pre16, enc17);
    lemma_split_at(b, off, off + 384, off + 400, pre15, enc16);
    lemma_split_at(b, off, off + 368, off + 384, pre14, enc15);
    lemma_split_at(b, off, off + 352, off + 368, pre13, enc14);
    lemma_split_at(b, off, off + 336, off + 352, pre12, enc13);
    lemma_split_at(b, off, off + 320, off + 336, pre11, enc12);
    lemma_split_at(b, off, off + 304, off + 320, pre10, enc11);
    lemma_split_at(b, off, off + 288, off + 304, pre9, enc10);
    lemma_split_at(b, off, off + 272, off + 288, pre8, enc9);
    lemma_split_at(b, off, off + 256, off + 272, pre7, enc8);
    lemma_split_at(b, off, off + 240, off + 256, pre6, enc7);
    lemma_split_at(b, off, off + 224, off + 240, pre5, enc6);
    lemma_split_at(b, off, off + 208, off + 224, pre4, enc5);
    lemma_split_at(b, off, off + 192, off + 208, pre3, enc4);
    lemma_split_at(b, off, off + 176, off + 192, pre2, enc3);
    lemma_split_at(b, off, off + 160, off + 176, pre1, enc2);
    lemma_split_at(b, off, off + 32, off + 160, enc0, enc1);
    lemma_read_u128_seq_at(b, off, w.header, e);
    lemma_read_u128_seq_at(b, off + 32, w.legacy, e);
    lemma_read_u128_at(b, off + 160, w.xmm0, e);
    lemma_read_u128_at(b, off + 176, w.xmm1, e);
    lemma_read_u128_at(b, off + 192, w.xmm2, e);
    lemma_read_u128_at(b, off + 208, w.xmm3, e);
    lemma_read_u128_at(b, off + 224, w.xmm4, e);
    lemma_read_u128_at(b, off + 240, w.xmm5, e);
    lemma_read_u128_at(b, off + 256, w.xmm6, e);
    lemma_read_u128_at(b, off + 272, w.xmm7, e);
    lemma_read_u128_at(b, off + 288, w.xmm8, e);
    lemma_read_u128_at(b, off + 304, w.xmm9, e);
    lemma_read_u128_at(b, off + 320, w.xmm10, e);
    lemma_read_u128_at(b, off + 336, w.xmm11, e);
    lemma_read_u128_at(b, off + 352, w.xmm12, e);
    lemma_read_u128_at(b, off + 368, w.xmm13, e);
    lemma_read_u128_at(b, off + 384, w.xmm14, e);
    lemma_read_u128_at(b, off + 400, w.xmm15, e);
}

/// Round trip: decoding the encoding of a record yields the record, and
/// the encoding is exactly the record's fixed size.
pub proof fn lemma_sse_registers_roundtrip(w: SSE_REGISTERSView, e: Endianness)
    requires
        w.wf(),
    ensures
        SSE_REGISTERS::spec_encode(w, e).len() == SSE_REGISTERS::spec_size(),
        SSE_REGISTERS::spec_decode(SSE_REGISTERS::spec_encode(w, e), 0, e) == w,
{
    lemma_sse_registers_encode_len(w, e);
    let enc = SSE_REGISTERS::spec_encode(w, e);
    assert(enc.subrange(0, 416) =~= enc);
    lemma_sse_registers_encode_at(enc, 0, w, e);
}

/// An x86-64 (amd64) CPU context.
///
/// This matches the definition of `CONTEXT` in WinNT.h for x86-64. The
/// `float_save` region is a union in the C headers; it is decoded here as
/// raw bytes, to be reinterpreted as an [`XMM_SAVE_AREA32`] or
/// [`SSE_REGISTERS`] by a further decode call as appropriate.
#[derive(Debug, Clone, PartialEq)]
pub struct CONTEXT_AMD64 {
    pub p1_home: u64,
    pub p2_home: u64,
    pub p3_home: u64,
    pub p4_home: u64,
    pub p5_home: u64,
    pub p6_home: u64,
    pub context_flags: u32,
    pub mx_csr: u32,
    pub cs: u16,
    pub ds: u16,
    pub es: u16,
    pub fs: u16,
    pub gs: u16,
    pub ss: u16,
    pub eflags: u32,
    pub dr0: u64,
    pub dr1: u64,
    pub dr2: u64,
    pub dr3: u64,
    pub dr6: u64,
    pub dr7: u64,
    pub rax: u64,
    pub rcx: u64,
    pub rdx: u64,
    pub rbx: u64,
    pub rsp: u64,
    pub rbp: u64,
    pub rsi: u64,
    pub rdi: u64,
    pub r8: u64,
    pub r9: u64,
    pub r10: u64,
    pub r11: u64,
    pub r12: u64,
    pub r13: u64,
    pub r14: u64,
    pub r15: u64,
    pub rip: u64,
    pub float_save: Vec<u8>,
    pub vector_register: Vec<u128>,
    pub vector_control: u64,
    pub debug_control: u64,
    pub last_branch_to_rip: u64,
    pub last_branch_from_rip: u64,
    pub last_exception_to_rip: u64,
    pub last_exception_from_rip: u64,
}

/// The mathematical value of a [`CONTEXT_AMD64`]: the same fields with
/// sequences in place of vectors.
pub struct CONTEXT_AMD64View {
    pub p1_home: u64,
    pub p2_home: u64,
    pub p3_home: u64,
    pub p4_home: u64,
    pub p5_home: u64,
    pub p6_home: u64,
    pub context_flags: u32,
    pub mx_csr: u32,
    pub cs: u16,
    pub ds: u16,
    pub es: u16,
    pub fs: u16,
    pub gs: u16,
    pub ss: u16,
    pub eflags: u32,
    pub dr0: u64,
    pub dr1: u64,
    pub dr2: u64,
    pub dr3: u64,
    pub dr6: u64,
    pub dr7: u64,
    pub rax: u64,
    pub rcx: u64,
    pub rdx: u64,
    pub rbx: u64,
    pub rsp: u64,
    pub rbp: u64,
    pub rsi: u64,
    pub rdi: u64,
    pub r8: u64,
    pub r9: u64,
    pub r10: u64,
    pub r11: u64,
    pub r12: u64,
    pub r13: u64,
    pub r14: u64,
    pub r15: u64,
    pub rip: u64,
    pub float_save: Seq<u8>,
    pub vector_register: Seq<u128>,
    pub vector_control: u64,
    pub debug_control: u64,
    pub last_branch_to_rip: u64,
    pub last_branch_from_rip: u64,
    pub last_exception_to_rip: u64,
    pub last_exception_from_rip: u64,
}

impl View for CONTEXT_AMD64 {
    type V = CONTEXT_AMD64View;

    open spec fn view(&self) -> CONTEXT_AMD64View {
        CONTEXT_AMD64View {
            p1_home: self.p1_home,
            p2_home: self.p2_home,
            p3_home: self.p3_home,
            p4_home: self.p4_home,
            p5_home: self.p5_home,
            p6_home: self.p6_home,
            context_flags: self.context_flags,
            mx_csr: self.mx_csr,
            cs: self.cs,
            ds: self.ds,
            es: self.es,
            fs: self.fs,
            gs: self.gs,
            ss: self.ss,
            eflags: self.eflags,
            dr0: self.dr0,
            dr1: self.dr1,
            dr2: self.dr2,
            dr3: self.dr3,
            dr6: self.dr6,
            dr7: self.dr7,
            rax: self.rax,
            rcx: self.rcx,
            rdx: self.rdx,
            rbx: self.rbx,
            rsp: self.rsp,
            rbp: self.rbp,
            rsi: self.rsi,
            rdi: self.rdi,
            r8: self.r8,
            r9: self.r9,
            r10: self.r10,
            r11: self.r11,
            r12: self.r12,
            r13: self.r13,
            r14: self.r14,
            r15: self.r15,
            rip: self.rip,
            float_save: self.float_save@,
            vector_register: self.vector_register@,
            vector_control: self.vector_control,
            debug_control: self.debug_control,
            last_branch_to_rip: self.last_branch_to_rip,
            last_branch_from_rip: self.last_branch_from_rip,
            last_exception_to_rip: self.last_exception_to_rip,
            last_exception_from_rip: self.last_exception_from_rip,
        }
    }
}

impl CONTEXT_AMD64View {
    /// Well-formed: every sequence field has its fixed length.
    pub open spec fn wf(self) -> bool {
        &&& self.float_save.len() == 512
        &&& self.vector_register.len() == 26
    }
}

impl CONTEXT_AMD64 {
    /// The number of bytes this record occupies.
    pub open spec fn spec_size() -> nat {
        1232
    }

    /// The record the bytes of `b` at `off` denote in byte order `e`.
    pub open spec fn spec_decode(b: Seq<u8>, off: int, e: Endianness) -> CONTEXT_AMD64View {
        CONTEXT_AMD64View {
            p1_home: spec_read_u64(b, off, e),
            p2_home: spec_read_u64(b, off + 8, e),
            p3_home: spec_read_u64(b, off + 16, e),
            p4_home: spec_read_u64(b, off + 24, e),
            p5_home: spec_read_u64(b, off + 32, e),
            p6_home: spec_read_u64(b, off + 40, e),
            context_flags: spec_read_u32(b, off + 48, e),
            mx_csr: spec_read_u32(b, off + 52, e),
            cs: spec_read_u16(b, off + 56, e),
            ds: spec_read_u16(b, off + 58, e),
            es: spec_read_u16(b, off + 60, e),
            fs: spec_read_u16(b, off + 62, e),
            gs: spec_read_u16(b, off + 64, e),
            ss: spec_read_u16(b, off + 66, e),
            eflags: spec_read_u32(b, off + 68, e),
            dr0: spec_read_u64(b, off + 72, e),
            dr1: spec_read_u64(b, off + 80, e),
            dr2: spec_read_u64(b, off + 88, e),
            dr3: spec_read_u64(b, off + 96, e),
            dr6: spec_read_u64(b, off + 104, e),
            dr7: spec_read_u64(b, off + 112, e),
            rax: spec_read_u64(b, off + 120, e),
            rcx: spec_read_u64(b, off + 128, e),
            rdx: spec_read_u64(b, off + 136, e),
            rbx: spec_read_u64(b, off + 144, e),
            rsp: spec_read_u64(b, off + 152, e),
            rbp: spec_read_u64(b, off + 160, e),
            rsi: spec_read_u64(b, off + 168, e),
            rdi: spec_read_u64(b, off + 176, e),
            r8: spec_read_u64(b, off + 184, e),
            r9: spec_read_u64(b, off + 192, e),
            r10: spec_read_u64(b, off + 200, e),
            r11: spec_read_u64(b, off + 208, e),
            r12: spec_read_u64(b, off + 216, e),
            r13: spec_read_u64(b, off + 224, e),
            r14: spec_read_u64(b, off + 232, e),
            r15: spec_read_u64(b, off + 240, e),
            rip: spec_read_u64(b, off + 248, e),
            float_save: spec_read_bytes(b, off + 256, 512),
            vector_register: spec_read_u128_seq(b, off + 768, 26, e),
            vector_control: spec_read_u64(b, off + 1184, e),
            debug_control: spec_read_u64(b, off + 1192, e),
            last_branch_to_rip: spec_read_u64(b, off + 1200, e),
            last_branch_from_rip: spec_read_u64(b, off + 1208, e),
            last_exception_to_rip: spec_read_u64(b, off + 1216, e),
            last_exception_from_rip: spec_read_u64(b, off + 1224, e),
        }
    }

    /// The bytes the record `w` encodes to in byte order `e`.
    pub open spec fn spec_encode(w: CONTEXT_AMD64View, e: Endianness) -> Seq<u8> {
        spec_encode_u64(w.p1_home, e)
            + spec_encode_u64(w.p2_home, e)
            + spec_encode_u64(w.p3_home, e)
            + spec_encode_u64(w.p4_home, e)
            + spec_encode_u64(w.p5_home, e)
            + spec_encode_u64(w.p6_home, e)
            + spec_encode_u32(w.context_flags, e)
            + spec_encode_u32(w.mx_csr, e)
            + spec_encode_u16(w.cs, e)
            + spec_encode_u16(w.ds, e)
            + spec_encode_u16(w.es, e)
            + spec_encode_u16(w.fs, e)
            + spec_encode_u16(w.gs, e)
            + spec_encode_u16(w.ss, e)
            + spec_encode_u32(w.eflags, e)
            + spec_encode_u64(w.dr0, e)
            + spec_encode_u64(w.dr1, e)
            + spec_encode_u64(w.dr2, e)
            + spec_encode_u64(w.dr3, e)
            + spec_encode_u64(w.dr6, e)
            + spec_encode_u64(w.dr7, e)
            + spec_encode_u64(w.rax, e)
            + spec_encode_u64(w.rcx, e)
            + spec_encode_u64(w.rdx, e)
            + spec_encode_u64(w.rbx, e)
            + spec_encode_u64(w.rsp, e)
            + spec_encode_u64(w.rbp, e)
            + spec_encode_u64(w.rsi, e)
            + spec_encode_u64(w.rdi, e)
            + spec_encode_u64(w.r8, e)
            + spec_encode_u64(w.r9, e)
            + spec_encode_u64(w.r10, e)
            + spec_encode_u64(w.r11, e)
            + spec_encode_u64(w.r12, e)
            + spec_encode_u64(w.r13, e)
            + spec_encode_u64(w.r14, e)
            + spec_encode_u64(w.r15, e)
            + spec_encode_u64(w.rip, e)
            + w.float_save
            + spec_encode_u128_seq(w.vector_register, e)
            + spec_encode_u64(w.vector_control, e)
            + spec_encode_u64(w.debug_control, e)
            + spec_encode_u64(w.last_branch_to_rip, e)
            + spec_encode_u64(w.last_branch_from_rip, e)
            + spec_encode_u64(w.last_exception_to_rip, e)
            + spec_encode_u64(w.last_exception_from_rip, e)
    }

    /// Reads the record at `off`, known to be in bounds.
    pub fn read_at(buf: &[u8], off: usize, e: Endianness) -> (r: Self)
        requires
            off + 1232 <= buf@.len(),
        ensures
            r@ == Self::spec_decode(buf@, off as int, e),
    {
        let _blen = buf.len();  // a slice length fits usize, bounding the field offsets
        CONTEXT_AMD64 {
            p1_home: read_u64(buf, off, e),
            p2_home: read_u64(buf, off + 8, e),
            p3_home: read_u64(buf, off + 16, e),
            p4_home: read_u64(buf, off + 24, e),
            p5_home: read_u64(buf, off + 32, e),
            p6_home: read_u64(buf, off + 40, e),
            context_flags: read_u32(buf, off + 48, e),
            mx_csr: read_u32(buf, off + 52, e),
            cs: read_u16(buf, off + 56, e),
            ds: read_u16(buf, off + 58, e),
            es: read_u16(buf, off + 60, e),
            fs: read_u16(buf, off + 62, e),
            gs: read_u16(buf, off + 64, e),
            ss: read_u16(buf, off + 66, e),
            eflags: read_u32(buf, off + 68, e),
            dr0: read_u64(buf, off + 72, e),
            dr1: read_u64(buf, off + 80, e),
            dr2: read_u64(buf, off + 88, e),
            dr3: read_u64(buf, off + 96, e),
            dr6: read_u64(buf, off + 104, e),
            dr7: read_u64(buf, off + 112, e),
            rax: read_u64(buf, off + 120, e),
            rcx: read_u64(buf, off + 128, e),
            rdx: read_u64(buf, off + 136, e),
            rbx: read_u64(buf, off + 144, e),
            rsp: read_u64(buf, off + 152, e),
            rbp: read_u64(buf, off + 160, e),
            rsi: read_u64(buf, off + 168, e),
            rdi: read_u64(buf, off + 176, e),
            r8: read_u64(buf, off + 184, e),
            r9: read_u64(buf, off + 192, e),
            r10: read_u64(buf, off + 200, e),
            r11: read_u64(buf, off + 208, e),
            r12: read_u64(buf, off + 216, e),
            r13: read_u64(buf, off + 224, e),
            r14: read_u64(buf, off + 232, e),
            r15: read_u64(buf, off + 240, e),
            rip: read_u64(buf, off + 248, e),
            float_save: read_bytes(buf, off + 256, 512),
            vector_register: read_u128_vec(buf, off + 768, 26, e),
            vector_control: read_u64(buf, off + 1184, e),
            debug_control: read_u64(buf, off + 1192, e),
            last_branch_to_rip: read_u64(buf, off + 1200, e),
            last_branch_from_rip: read_u64(buf, off + 1208, e),
            last_exception_to_rip: read_u64(buf, off + 1216, e),
            last_exception_from_rip: read_u64(buf, off + 1224, e),
        }
    }

    /// Decodes the record at `off`: `Ok` exactly when the buffer holds
    /// `spec_size` bytes at `off`; the number returned with the record
    /// is the bytes consumed, always `spec_size`.
    pub fn decode(buf: &[u8], off: usize, e: Endianness) -> (r: Result<(Self, usize), DecodeError>)
        ensures
            match r {
                Ok((v, n)) => off + Self::spec_size() <= buf@.len()
                    && n == Self::spec_size()
                    && v@ == Self::spec_decode(buf@, off as int, e),
                Err(err) => err == DecodeError::OutOfBounds
                    && off + Self::spec_size() > buf@.len(),
            },
    {
        if buf.len() < 1232 || off > buf.len() - 1232 {
            return Err(DecodeError::OutOfBounds);
        }
        Ok((Self::read_at(buf, off, e), 1232))
    }

    /// Appends this record's encoding in byte order `e` to `out`.
    #[verifier::spinoff_prover]
    #[verifier::rlimit(100)]
    pub fn write(&self, out: &mut Vec<u8>, e: Endianness)
        ensures
            final(out)@ == old(out)@ + Self::spec_encode(self@, e),
    {
        let ghost enc0 = spec_encode_u64(self@.p1_home, e);
        let ghost enc1 = spec_encode_u64(self@.p2_home, e);
        let ghost enc2 = spec_encode_u64(self@.p3_home, e);
        let ghost enc3 = spec_encode_u64(self@.p4_home, e);
        let ghost enc4 = spec_encode_u64(self@.p5_home, e);
        let ghost enc5 = spec_encode_u64(self@.p6_home, e);
        let ghost enc6 = spec_encode_u32(self@.context_flags, e);
        let ghost enc7 = spec_encode_u32(self@.mx_csr, e);
        let ghost enc8 = spec_encode_u16(self@.cs, e);
        let ghost enc9 = spec_encode_u16(self@.ds, e);
        let ghost enc10 = spec_encode_u16(self@.es, e);
        let ghost enc11 = spec_encode_u16(self@.fs, e);
        let ghost enc12 = spec_encode_u16(self@.gs, e);
        let ghost enc13 = spec_encode_u16(self@.ss, e);
        let ghost enc14 = spec_encode_u32(self@.eflags, e);
        let ghost enc15 = spec_encode_u64(self@.dr0, e);
        let ghost enc16 = spec_encode_u64(self@.dr1, e);
        let ghost enc17 = spec_encode_u64(self@.dr2, e);
        let ghost enc18 = spec_encode_u64(self@.dr3, e);
        let ghost enc19 = spec_encode_u64(self@.dr6, e);
        let ghost enc20 = spec_encode_u64(self@.dr7, e);
        let ghost enc21 = spec_encode_u64(self@.rax, e);
        let ghost enc22 = spec_encode_u64(self@.rcx, e);
        let ghost enc23 = spec_encode_u64(self@.rdx, e);
        let ghost enc24 = spec_encode_u64(self@.rbx, e);
        let ghost enc25 = spec_encode_u64(self@.rsp, e);
        let ghost enc26 = spec_encode_u64(self@.rbp, e);
        let ghost enc27 = spec_encode_u64(self@.rsi, e);
        let ghost enc28 = spec_encode_u64(self@.rdi, e);
        let ghost enc29 = spec_encode_u64(self@.r8, e);
        let ghost enc30 = spec_encode_u64(self@.r9, e);
        let ghost enc31 = spec_encode_u64(self@.r10, e);
        let ghost enc32 = spec_encode_u64(self@.r11, e);
        let ghost enc33 = spec_encode_u64(self@.r12, e);
        let ghost enc34 = spec_encode_u64(self@.r13, e);
        let ghost enc35 = spec_encode_u64(self@.r14, e);
        let ghost enc36 = spec_encode_u64(self@.r15, e);
        let ghost enc37 = spec_encode_u64(self@.rip, e);
        let ghost enc38 = self.float_save@;
        let ghost enc39 = spec_encode_u128_seq(self.vector_register@, e);
        let ghost enc40 = spec_encode_u64(self@.vector_control, e);
        let ghost enc41 = spec_encode_u64(self@.debug_control, e);
        let ghost enc42 = spec_encode_u64(self@.last_branch_to_rip, e);
        let ghost enc43 = spec_encode_u64(self@.last_branch_from_rip, e);
        let ghost enc44 = spec_encode_u64(self@.last_exception_to_rip, e);
        let ghost enc45 = spec_encode_u64(self@.last_exception_from_rip, e);
        let ghost pre1 = enc0 + enc1;
        let ghost pre2 = pre1 + enc2;
        let ghost pre3 = pre2 + enc3;
        let ghost pre4 = pre3 + enc4;
        let ghost pre5 = pre4 + enc5;
        let ghost pre6 = pre5 + enc6;
        let ghost pre7 = pre6 + enc7;
        let ghost pre8 = pre7 + enc8;
        let ghost pre9 = pre8 + enc9;
        let ghost pre10 = pre9 + enc10;
        let ghost pre11 = pre10 + enc11;
        let ghost pre12 = pre11 + enc12;
        let ghost pre13 = pre12 + enc13;
        let ghost pre14 = pre13 + enc14;
        let ghost pre15 = pre14 + enc15;
        let ghost pre16 = pre15 + enc16;
        let ghost pre17 = pre16 + enc17;
        let ghost pre18 = pre17 + enc18;
        let ghost pre19 = pre18 + enc19;
        let ghost pre20 = pre19 + enc20;
        let ghost pre21 = pre20 + enc21;
        let ghost pre22 = pre21 + enc22;
        let ghost pre23 = pre22 + enc23;
        let ghost pre24 = pre23 + enc24;
        let ghost pre25 = pre24 + enc25;
        let ghost pre26 = pre25 + enc26;
        let ghost pre27 = pre26 + enc27;
        let ghost pre28 = pre27 + enc28;
        let ghost pre29 = pre28 + enc29;
        let ghost pre30 = pre29 + enc30;
        let ghost pre31 = pre30 + enc31;
        let ghost pre32 = pre31 + enc32;
        let ghost pre33 = pre32 + enc33;
        let ghost pre34 = pre33 + enc34;
        let ghost pre35 = pre34 + enc35;
        let ghost pre36 = pre35 + enc36;
        let ghost pre37 = pre36 + enc37;
        let ghost pre38 = pre37 + enc38;
        let ghost pre39 = pre38 + enc39;
        let ghost pre40 = pre39 + enc40;
        let ghost pre41 = pre40 + enc41;
        let ghost pre42 = pre41 + enc42;
        let ghost pre43 = pre42 + enc43;
        let ghost pre44 = pre43 + enc44;
        let ghost pre45 = pre44 + enc45;
        write_u64(out, self.p1_home, e);
        proof { assert(out@ == old(out)@ + enc0); }
        write_u64(out, self.p2_home, e);
        proof {
            lemma_seq_add_assoc(old(out)@, enc0, enc1);
            assert(out@ == old(out)@ + pre1);
        }
        write_u64(out, self.p3_home, e);
        proof {
            lemma_seq_add_assoc(old(out)@, pre1, enc2);
            assert(out@ == old(out)@ + pre2);
        }
        write_u64(out, self.p4_home, e);
        proof {
            lemma_seq_add_assoc(old(out)@, pre2, enc3);
            assert(out@ == old(out)@ + pre3);
        }
        write_u64(out, self.p5_home, e);
        proof {
            lemma_seq_add_assoc(old(out)@, pre3, enc4);
            assert(out@ == old(out)@ + pre4);
        }
        write_u64(out, self.p6_home, e);
        proof {
            lemma_seq_add_assoc(old(out)@, pre4, enc5);
            assert(out@ == old(out)@ + pre5);
        }
        write_u32(out, self.context_flags, e);
        proof {
            lemma_seq_add_assoc(old(out)@, pre5, enc6);
            assert(out@ == old(out)@ + pre6);
        }
        write_u32(out, self.mx_csr, e);
        proof {
            lemma_seq_add_assoc(old(out)@, pre6, enc7);
            assert(out@ == old(out)@ + pre7);
        }
        write_u16(out, self.cs, e);
        proof {
            lemma_seq_add_assoc(old(out)@, pre7, enc8);
            assert(out@ == old(out)@ + pre8);
        }
        write_u16(out, self.ds, e);
        proof {
            lemma_seq_add_assoc(old(out)@, pre8, enc9);
            assert(out@ == old(out)@ + pre9);
        }
        write_u16(out, self.es, e);
        proof {
            lemma_seq_add_assoc(old(out)@, pre9, enc10);
            assert(out@ == old(out)@ + pre10);
        }
        write_u16(out, self.fs, e);
        proof {
            lemma_seq_add_assoc(old(out)@, pre10, enc11);
            assert(out@ == old(out)@ + pre11);
        }
        write_u16(out, self.gs, e);
        proof {
            lemma_seq_add_assoc(old(out)@, pre11, enc12);
            assert(out@ == old(out)@ + pre12);
        }
        write_u16(out, self.ss, e);
        proof {
            lemma_seq_add_assoc(old(out)@, pre12, enc13);
            assert(out@ == old(out)@ + pre13);
        }
        write_u32(out, self.eflags, e);
        proof {
            lemma_seq_add_assoc(old(out)@, pre13, enc14);
            assert(out@ == old(out)@ + pre14);
        }
        write_u64(out, self.dr0, e);
        proof {
            lemma_seq_add_assoc(old(out)@, pre14, enc15);
            assert(out@ == old(out)@ + pre15);
        }
        write_u64(out, self.dr1, e);
        proof {
            lemma_seq_add_assoc(old(out)@, pre15, enc16);
            assert(out@ == old(out)@ + pre16);
        }
        write_u64(out, self.dr2, e);
        proof {
            lemma_seq_add_assoc(old(out)@, pre16, enc17);
            assert(out@ == old(out)@ + pre17);
        }
        write_u64(out, self.dr3, e);
        proof {
            lemma_seq_add_assoc(old(out)@, pre17, enc18);
            assert(out@ == old(out)@ + pre18);
        }
        write_u64(out, self.dr6, e);
        proof {
            lemma_seq_add_assoc(old(out)@, pre18, enc19);
            assert(out@ == old(out)@ + pre19);
        }
        write_u64(out, self.dr7, e);
        proof {
            lemma_seq_add_assoc(old(out)@, pre19, enc20);
            assert(out@ == old(out)@ + pre20);
        }
        write_u64(out, self.rax, e);
        proof {
            lemma_seq_add_assoc(old(out)@, pre20, enc21);
            assert(out@ == old(out)@ + pre21);
        }
        write_u64(out, self.rcx, e);
        proof {
            lemma_seq_add_assoc(old(out)@, pre21, enc22);
            assert(out@ == old(out)@ + pre22);
        }
        write_u64(out, self.rdx, e);
        proof {
            lemma_seq_add_assoc(old(out)@, pre22, enc23);
            assert(out@ == old(out)@ + pre23);
        }
        write_u64(out, self.rbx, e);
        proof {
            lemma_seq_add_assoc(old(out)@, pre23, enc24);
            assert(out@ == old(out)@ + pre24);
        }
        write_u64(out, self.rsp, e);
        proof {
            lemma_seq_add_assoc(old(out)@, pre24, enc25);
            assert(out@ == old(out)@ + pre25);
        }
        write_u64(out, self.rbp, e);
        proof {
            lemma_seq_add_assoc(old(out)@, pre25, enc26);
            assert(out@ == old(out)@ + pre26);
        }
        write_u64(out, self.rsi, e);
        proof {
            lemma_seq_add_assoc(old(out)@, pre26, enc27);
            assert(out@ == old(out)@ + pre27);
        }
        write_u64(out, self.rdi, e);
        proof {
            lemma_seq_add_assoc(old(out)@, pre27, enc28);
            assert(out@ == old(out)@ + pre28);
        }
        write_u64(out, self.r8, e);
        proof {
            lemma_seq_add_assoc(old(out)@, pre28, enc29);
            assert(out@ == old(out)@ + pre29);
        }
        write_u64(out, self.r9, e);
        proof {
            lemma_seq_add_assoc(old(out)@, pre29, enc30);
            assert(out@ == old(out)@ + pre30);
        }
        write_u64(out, self.r10, e);
        proof {
            lemma_seq_add_assoc(old(out)@, pre30, enc31);
            assert(out@ == old(out)@ + pre31);
        }
        write_u64(out, self.r11, e);
        proof {
            lemma_seq_add_assoc(old(out)@, pre31, enc32);
            assert(out@ == old(out)@ + pre32);
        }
        write_u64(out, self.r12, e);
        proof {
            lemma_seq_add_assoc(old(out)@, pre32, enc33);
            assert(out@ == old(out)@ + pre33);
        }
        write_u64(out, self.r13, e);
        proof {
            lemma_seq_add_assoc(old(out)@, pre33, enc34);
            assert(out@ == old(out)@ + pre34);
        }
        write_u64(out, self.r14, e);
        proof {
            lemma_seq_add_assoc(old(out)@, pre34, enc35);
            assert(out@ == old(out)@ + pre35);
        }
        write_u64(out, self.r15, e);
        proof {
            lemma_seq_add_assoc(old(out)@, pre35, enc36);
            assert(out@ == old(out)@ + pre36);
        }
        write_u64(out, self.rip, e);
        proof {
            lemma_seq_add_assoc(old(out)@, pre36, enc37);
            assert(out@ == old(out)@ + pre37);
        }
        write_bytes(out, &self.float_save);
        proof {
            lemma_seq_add_assoc(old(out)@, pre37, enc38);
            assert(out@ == old(out)@ + pre38);
        }
        write_u128_vec(out, &self.vector_register, e);
        proof {
            lemma_seq_add_assoc(old(out)@, pre38, enc39);
            assert(out@ == old(out)@ + pre39);
        }
        write_u64(out, self.vector_control, e);
        proof {
            lemma_seq_add_assoc(old(out)@, pre39, enc40);
            assert(out@ == old(out)@ + pre40);
        }
        write_u64(out, self.debug_control, e);
        proof {
            lemma_seq_add_assoc(old(out)@, pre40, enc41);
            assert(out@ == old(out)@ + pre41);
        }
        write_u64(out, self.last_branch_to_rip, e);
        proof {
            lemma_seq_add_assoc(old(out)@, pre41, enc42);
            assert(out@ == old(out)@ + pre42);
        }
        write_u64(out, self.last_branch_from_rip, e);
        proof {
            lemma_seq_add_assoc(old(out)@, pre42, enc43);
            assert(out@ == old(out)@ + pre43);
        }
        write_u64(out, self.last_exception_to_rip, e);
        proof {
            lemma_seq_add_assoc(old(out)@, pre43, enc44);
            assert(out@ == old(out)@ + pre44);
        }
        write_u64(out, self.last_exception_from_rip, e);
        proof {
            lemma_seq_add_assoc(old(out)@, pre44, enc45);
            assert(out@ == old(out)@ + pre45);
        }
        assert(out@ == old(out)@ + Self::spec_encode(self@, e));
    }

    /// Encodes this record in byte order `e`.
    pub fn encode(&self, e: Endianness) -> (r: Vec<u8>)
        ensures
            r@ == Self::spec_encode(self@, e),
    {
        let mut out: Vec<u8> = Vec::new();
        self.write(&mut out, e);
        proof {
            assert(out@ =~= Self::spec_encode(self@, e));
        }
        out
    }
}

/// The encoding of a record is exactly [`CONTEXT_AMD64::spec_size`] bytes.
pub proof fn lemma_context_amd64_encode_len(w: CONTEXT_AMD64View, e: Endianness)
    requires
        w.wf(),
    ensures
        CONTEXT_AMD64::spec_encode(w, e).len() == 1232,
{
    lemma_encode_lens();
    lemma_encode_u128_seq_len(w.vector_register, e);
}

/// Reading back the encoding of `w` found at offset `off` yields `w`.
pub proof fn lemma_context_amd64_encode_at(b: Seq<u8>, off: int, w: CONTEXT_AMD64View, e: Endianness)
    requires
        w.wf(),
        0 <= off,
        off + 1232 <= b.len(),
        b.subrange(off, off + 1232) == CONTEXT_AMD64::spec_encode(w, e),
    ensures
        CONTEXT_AMD64::spec_decode(b, off, e) == w,
{
    lemma_encode_lens();
    lemma_encode_u128_seq_len(w.vector_register, e);
    let enc0 = spec_encode_u64(w.p1_home, e);
    let enc1 = spec_encode_u64(w.p2_home, e);
    let enc2 = spec_encode_u64(w.p3_home, e);
    let enc3 = spec_encode_u64(w.p4_home, e);
    let enc4 = spec_encode_u64(w.p5_home, e);
    let enc5 = spec_encode_u64(w.p6_home, e);
    let enc6 = spec_encode_u32(w.context_flags, e);
    let enc7 = spec_encode_u32(w.mx_csr, e);
    let enc8 = spec_encode_u16(w.cs, e);
    let enc9 = spec_encode_u16(w.ds, e);
    let enc10 = spec_encode_u16(w.es, e);
    let enc11 = spec_encode_u16(w.fs, e);
    let enc12 = spec_encode_u16(w.gs, e);
    let enc13 = spec_encode_u16(w.ss, e);
    let enc14 = spec_encode_u32(w.eflags, e);
    let enc15 = spec_encode_u64(w.dr0, e);
    let enc16 = spec_encode_u64(w.dr1, e);
    let enc17 = spec_encode_u64(w.dr2, e);
    let enc18 = spec_encode_u64(w.dr3, e);
    let enc19 = spec_encode_u64(w.dr6, e);
    let enc20 = spec_encode_u64(w.dr7, e);
    let enc21 = spec_encode_u64(w.rax, e);
    let enc22 = spec_encode_u64(w.rcx, e);
    let enc23 = spec_encode_u64(w.rdx, e);
    let enc24 = spec_encode_u64(w.rbx, e);
    let enc25 = spec_encode_u64(w.rsp, e);
    let enc26 = spec_encode_u64(w.rbp, e);
    let enc27 = spec_encode_u64(w.rsi, e);
    let enc28 = spec_encode_u64(w.rdi, e);
    let enc29 = spec_encode_u64(w.r8, e);
    let enc30 = spec_encode_u64(w.r9, e);
    let enc31 = spec_encode_u64(w.r10, e);
    let enc32 = spec_encode_u64(w.r11, e);
    let enc33 = spec_encode_u64(w.r12, e);
    let enc34 = spec_encode_u64(w.r13, e);
    let enc35 = spec_encode_u64(w.r14, e);
    let enc36 = spec_encode_u64(w.r15, e);
    let enc37 = spec_encode_u64(w.rip, e);
    let enc38 = w.float_save;
    let enc39 = spec_encode_u128_seq(w.vector_register, e);
    let enc40 = spec_encode_u64(w.vector_control, e);
    let enc41 = spec_encode_u64(w.debug_control, e);
    let enc42 = spec_encode_u64(w.last_branch_to_rip, e);
    let enc43 = spec_encode_u64(w.last_branch_from_rip, e);
    let enc44 = spec_encode_u64(w.last_exception_to_rip, e);
    let enc45 = spec_encode_u64(w.last_exception_from_rip, e);
    let pre1 = enc0 + enc1;
    let pre2 = pre1 + enc2;
    let pre3 = pre2 + enc3;
    let pre4 = pre3 + enc4;
    let pre5 = pre4 + enc5;
    let pre6 = pre5 + enc6;
    let pre7 = pre6 + enc7;
    let pre8 = pre7 + enc8;
    let pre9 = pre8 + enc9;
    let pre10 = pre9 + enc10;
    let pre11 = pre10 + enc11;
    let pre12 = pre11 + enc12;
    let pre13 = pre12 + enc13;
    let pre14 = pre13 + enc14;
    let pre15 = pre14 + enc15;
    let pre16 = pre15 + enc16;
    let pre17 = pre16 + enc17;
    let pre18 = pre17 + enc18;
    let pre19 = pre18 + enc19;
    let pre20 = pre19 + enc20;
    let pre21 = pre20 + enc21;
    let pre22 = pre21 + enc22;
    let pre23 = pre22 + enc23;
    let pre24 = pre23 + enc24;
    let pre25 = pre24 + enc25;
    let pre26 = pre25 + enc26;
    let pre27 = pre26 + enc27;
    let pre28 = pre27 + enc28;
    let pre29 = pre28 + enc29;
    let pre30 = pre29 + enc30;
    let pre31 = pre30 + enc31;
    let pre32 = pre31 + enc32;
    let pre33 = pre32 + enc33;
    let pre34 = pre33 + enc34;
    let pre35 = pre34 + enc35;
    let pre36 = pre35 + enc36;
    let pre37 = pre36 + enc37;
    let pre38 = pre37 + enc38;
    let pre39 = pre38 + enc39;
    let pre40 = pre39 + enc40;
    let pre41 = pre40 + enc41;
    let pre42 = pre41 + enc42;
    let pre43 = pre42 + enc43;
    let pre44 = pre43 + enc44;
    let pre45 = pre44 + enc45;
    assert(b.subrange(off, off + 1232) == pre45);
    lemma_split_at(b, off, off + 1224, off + 1232, pre44, enc45);
    lemma_split_at(b, off, off + 1216, off + 1224, pre43, enc44);
    lemma_split_at(b, off, off + 1208, off + 1216, pre42, enc43);
    lemma_split_at(b, off, off + 1200, off + 1208, pre41, enc42);
    lemma_split_at(b, off, off + 1192, off + 1200, pre40, enc41);
    lemma_split_at(b, off, off + 1184, off + 1192, pre39, enc40);
    lemma_split_at(b, off, off + 768, off + 1184, pre38, enc39);
    lemma_split_at(b, off, off + 256, off + 768, pre37, enc38);
    lemma_split_at(b, off, off + 248, off + 256, pre36, enc37);
    lemma_split_at(b, off, off + 240, off + 248, pre35, enc36);
    lemma_split_at(b, off, off + 232, off + 240, pre34, enc35);
    lemma_split_at(b, off, off + 224, off + 232, pre33, enc34);
    lemma_split_at(b, off, off + 216, off + 224, pre32, enc33);
    lemma_split_at(b, off, off + 208, off + 216, pre31, enc32);
    lemma_split_at(b, off, off + 200, off + 208, pre30, enc31);
    lemma_split_at(b, off, off + 192, off + 200, pre29, enc30);
    lemma_split_at(b, off, off + 184, off + 192, pre28, enc29);
    lemma_split_at(b, off, off + 176, off + 184, pre27, enc28);
    lemma_split_at(b, off, off + 168, off + 176, pre26, enc27);
    lemma_split_at(b, off, off + 160, off + 168, pre25, enc26);
    lemma_split_at(b, off, off + 152, off + 160, pre24, enc25);
    lemma_split_at(b, off, off + 144, off + 152, pre23, enc24);
    lemma_split_at(b, off, off + 136, off + 144, pre22, enc23);
    lemma_split_at(b, off, off + 128, off + 136, pre21, enc22);
    lemma_split_at(b, off, off + 120, off + 128, pre20, enc21);
    lemma_split_at(b, off, off + 112, off + 120, pre19, enc20);
    lemma_split_at(b, off, off + 104, off + 112, pre18, enc19);
    lemma_split_at(b, off, off + 96, off + 104, pre17, enc18);
    lemma_split_at(b, off, off + 88, off + 96, pre16, enc17);
    lemma_split_at(b, off, off + 80, off + 88, pre15, enc16);
    lemma_split_at(b, off, off + 72, off + 80, pre14, enc15);
    lemma_split_at(b, off, off + 68, off + 72, pre13, enc14);
    lemma_split_at(b, off, off + 66, off + 68, pre12, enc13);
    lemma_split_at(b, off, off + 64, off + 66, pre11, enc12);
    lemma_split_at(b, off, off + 62, off + 64, pre10, enc11);
    lemma_split_at(b, off, off + 60, off + 62, pre9, enc10);
    lemma_split_at(b, off, off + 58, off + 60, pre8, enc9);
    lemma_split_at(b, off, off + 56, off + 58, pre7, enc8);
    lemma_split_at(b, off, off + 52, off + 56, pre6, enc7);
    lemma_split_at(b, off, off + 48, off + 52, pre5, enc6);
    lemma_split_at(b, off, off + 40, off + 48, pre4, enc5);
    lemma_split_at(b, off, off + 32, off + 40, pre3, enc4);
    lemma_split_at(b, off, off + 24, off + 32, pre2, enc3);
    lemma_split_at(b, off, off + 16, off + 24, pre1, enc2);
    lemma_split_at(b, off, off + 8, off + 16, enc0, enc1);
    lemma_read_u64_at(b, off, w.p1_home, e);
    lemma_read_u64_at(b, off + 8, w.p2_home, e);
    lemma_read_u64_at(b, off + 16, w.p3_home, e);
    lemma_read_u64_at(b, off + 24, w.p4_home, e);
    lemma_read_u64_at(b, off + 32, w.p5_home, e);
    lemma_read_u64_at(b, off + 40, w.p6_home, e);
    lemma_read_u32_at(b, off + 48, w.context_flags, e);
    lemma_read_u32_at(b, off + 52, w.mx_csr, e);
    lemma_read_u16_at(b, off + 56, w.cs, e);
    lemma_read_u16_at(b, off + 58, w.ds, e);
    lemma_read_u16_at(b, off + 60, w.es, e);
    lemma_read_u16_at(b, off + 62, w.fs, e);
    lemma_read_u16_at(b, off + 64, w.gs, e);
    lemma_read_u16_at(b, off + 66, w.ss, e);
    lemma_read_u32_at(b, off + 68, w.eflags, e);
    lemma_read_u64_at(b, off + 72, w.dr0, e);
    lemma_read_u64_at(b, off + 80, w.dr1, e);
    lemma_read_u64_at(b, off + 88, w.dr2, e);
    lemma_read_u64_at(b, off + 96, w.dr3, e);
    lemma_read_u64_at(b, off + 104, w.dr6, e);
    lemma_read_u64_at(b, off + 112, w.dr7, e);
    lemma_read_u64_at(b, off + 120, w.rax, e);
    lemma_read_u64_at(b, off + 128, w.rcx, e);
    lemma_read_u64_at(b, off + 136, w.rdx, e);
    lemma_read_u64_at(b, off + 144, w.rbx, e);
    lemma_read_u64_at(b, off + 152, w.rsp, e);
    lemma_read_u64_at(b, off + 160, w.rbp, e);
    lemma_read_u64_at(b, off + 168, w.rsi, e);
    lemma_read_u64_at(b, off + 176, w.rdi, e);
    lemma_read_u64_at(b, off + 184, w.r8, e);
    lemma_read_u64_at(b, off + 192, w.r9, e);
    lemma_read_u64_at(b, off + 200, w.r10, e);
    lemma_read_u64_at(b, off + 208, w.r11, e);
    lemma_read_u64_at(b, off + 216, w.r12, e);
    lemma_read_u64_at(b, off + 224, w.r13, e);
    lemma_read_u64_at(b, off + 232, w.r14, e);
    lemma_read_u64_at(b, off + 240, w.r15, e);
    lemma_read_u64_at(b, off + 248, w.rip, e);
    assert(spec_read_bytes(b, off + 256, 512) == w.float_save);
    lemma_read_u128_seq_at(b, off + 768, w.vector_register, e);
    lemma_read_u64_at(b, off + 1184, w.vector_control, e);
    lemma_read_u64_at(b, off + 1192, w.debug_control, e);
    lemma_read_u64_at(b, off + 1200, w.last_branch_to_rip, e);
    lemma_read_u64_at(b, off + 1208, w.last_branch_from_rip, e);
    lemma_read_u64_at(b, off + 1216, w.last_exception_to_rip, e);
    lemma_read_u64_at(b, off + 1224, w.last_exception_from_rip, e);
}

/// Round trip: decoding the encoding of a record yields the record, and
/// the encoding is exactly the record's fixed size.
pub proof fn lemma_context_amd64_roundtrip(w: CONTEXT_AMD64View, e: Endianness)
    requires
        w.wf(),
    ensures
        CONTEXT_AMD64::spec_encode(w, e).len() == CONTEXT_AMD64::spec_size(),
        CONTEXT_AMD64::spec_decode(CONTEXT_AMD64::spec_encode(w, e), 0, e) == w,
{
    lemma_context_amd64_encode_len(w, e);
    let enc = CONTEXT_AMD64::spec_encode(w, e);
    assert(enc.subrange(0, 1232) =~= enc);
    lemma_context_amd64_encode_at(enc, 0, w, e);
}

/// ARM floating point state.
#[derive(Debug, Clone, PartialEq)]
pub struct FLOATING_SAVE_AREA_ARM {
    pub fpscr: u64,
    pub regs: Vec<u64>,
    pub extra: Vec<u32>,
}

/// The mathematical value of a [`FLOATING_SAVE_AREA_ARM`]: the same fields with
/// sequences in place of vectors.
pub struct FLOATING_SAVE_AREA_ARMView {
    pub fpscr: u64,
    pub regs: Seq<u64>,
    pub extra: Seq<u32>,
}

impl View for FLOATING_SAVE_AREA_ARM {
    type V = FLOATING_SAVE_AREA_ARMView;

    open spec fn view(&self) -> FLOATING_SAVE_AREA_ARMView {
        FLOATING_SAVE_AREA_ARMView {
            fpscr: self.fpscr,
            regs: self.regs@,
            extra: self.extra@,
        }
    }
}

impl FLOATING_SAVE_AREA_ARMView {
    /// Well-formed: every sequence field has its fixed length.
    pub open spec fn wf(self) -> bool {
        &&& self.regs.len() == 32
        &&& self.extra.len() == 8
    }
}

impl FLOATING_SAVE_AREA_ARM {
    /// The number of bytes this record occupies.
    pub open spec fn spec_size() -> nat {
        296
    }

    /// The record the bytes of `b` at `off` denote in byte order `e`.
    pub open spec fn spec_decode(b: Seq<u8>, off: int, e: Endianness) -> FLOATING_SAVE_AREA_ARMView {
        FLOATING_SAVE_AREA_ARMView {
            fpscr: spec_read_u64(b, off, e),
            regs: spec_read_u64_seq(b, off + 8, 32, e),
            extra: spec_read_u32_seq(b, off + 264, 8, e),
        }
    }

    /// The bytes the record `w` encodes to in byte order `e`.
    pub open spec fn spec_encode(w: FLOATING_SAVE_AREA_ARMView, e: Endianness) -> Seq<u8> {
        spec_encode_u64(w.fpscr, e)
            + spec_encode_u64_seq(w.regs, e)
            + spec_encode_u32_seq(w.extra, e)
    }

    /// Reads the record at `off`, known to be in bounds.
    pub fn read_at(buf: &[u8], off: usize, e: Endianness) -> (r: Self)
        requires
            off + 296 <= buf@.len(),
        ensures
            r@ == Self::spec_decode(buf@, off as int, e),
    {
        let _blen = buf.len();  // a slice length fits usize, bounding the field offsets
        FLOATING_SAVE_AREA_ARM {
            fpscr: read_u64(buf, off, e),
            regs: read_u64_vec(buf, off + 8, 32, e),
            extra: read_u32_vec(buf, off + 264, 8, e),
        }
    }

    /// Decodes the record at `off`: `Ok` exactly when the buffer holds
    /// `spec_size` bytes at `off`; the number returned with the record
    /// is the bytes consumed, always `spec_size`.
    pub fn decode(buf: &[u8], off: usize, e: Endianness) -> (r: Result<(Self, usize), DecodeError>)
        ensures
            match r {
                Ok((v, n)) => off + Self::spec_size() <= buf@.len()
                    && n == Self::spec_size()
                    && v@ == Self::spec_decode(buf@, off as int, e),
                Err(err) => err == DecodeError::OutOfBounds
                    && off + Self::spec_size() > buf@.len(),
            },
    {
        if buf.len() < 296 || off > buf.len() - 296 {
            return Err(DecodeError::OutOfBounds);
        }
        Ok((Self::read_at(buf, off, e), 296))
    }

    /// Appends this record's encoding in byte order `e` to `out`.
    pub fn write(&self, out: &mut Vec<u8>, e: Endianness)
        ensures
            final(out)@ == old(out)@ + Self::spec_encode(self@, e),
    {
        write_u64(out, self.fpscr, e);
        write_u64_vec(out, &self.regs, e);
        write_u32_vec(out, &self.extra, e);
        assert(out@ =~= old(out)@ + Self::spec_encode(self@, e));
    }

    /// Encodes this record in byte order `e`.
    pub fn encode(&self, e: Endianness) -> (r: Vec<u8>)
        ensures
            r@ == Self::spec_encode(self@, e),
    {
        let mut out: Vec<u8> = Vec::new();
        self.write(&mut out, e);
        proof {
            assert(out@ =~= Self::spec_encode(self@, e));
        }
        out
    }
}

/// The encoding of a record is exactly [`FLOATING_SAVE_AREA_ARM::spec_size`] bytes.
pub proof fn lemma_floating_save_area_arm_encode_len(w: FLOATING_SAVE_AREA_ARMView, e: Endianness)
    requires
        w.wf(),
    ensures
        FLOATING_SAVE_AREA_ARM::spec_encode(w, e).len() == 296,
{
    lemma_encode_lens();
    lemma_encode_u64_seq_len(w.regs, e);
    lemma_encode_u32_seq_len(w.extra, e);
}

/// Reading back the encoding of `w` found at offset `off` yields `w`.
pub proof fn lemma_floating_save_area_arm_encode_at(b: Seq<u8>, off: int, w: FLOATING_SAVE_AREA_ARMView, e: Endianness)
    requires
        w.wf(),
        0 <= off,
        off + 296 <= b.len(),
        b.subrange(off, off + 296) == FLOATING_SAVE_AREA_ARM::spec_encode(w, e),
    ensures
        FLOATING_SAVE_AREA_ARM::spec_decode(b, off, e) == w,
{
    lemma_encode_lens();
    lemma_encode_u64_seq_len(w.regs, e);
    lemma_encode_u32_seq_len(w.extra, e);
    let enc0 = spec_encode_u64(w.fpscr, e);
    let enc1 = spec_encode_u64_seq(w.regs, e);
    let enc2 = spec_encode_u32_seq(w.extra, e);
    let pre1 = enc0 + enc1;
    let pre2 = pre1 + enc2;
    assert(b.subrange(off, off + 296) == pre2);
    lemma_split_at(b, off, off + 264, off + 296, pre1, enc2);
    lemma_split_at(b, off, off + 8, off + 264, enc0, enc1);
    lemma_read_u64_at(b, off, w.fpscr, e);
    lemma_read_u64_seq_at(b, off + 8, w.regs, e);
    lemma_read_u32_seq_at(b, off + 264, w.extra, e);
}

/// Round trip: decoding the encoding of a record yields the record, and
/// the encoding is exactly the record's fixed size.
pub proof fn lemma_floating_save_area_arm_roundtrip(w: FLOATING_SAVE_AREA_ARMView, e: Endianness)
    requires
        w.wf(),
    ensures
        FLOATING_SAVE_AREA_ARM::spec_encode(w, e).len() == FLOATING_SAVE_AREA_ARM::spec_size(),
        FLOATING_SAVE_AREA_ARM::spec_decode(FLOATING_SAVE_AREA_ARM::spec_encode(w, e), 0, e) == w,
{
    lemma_floating_save_area_arm_encode_len(w, e);
    let enc = FLOATING_SAVE_AREA_ARM::spec_encode(w, e);
    assert(enc.subrange(0, 296) =~= enc);
    lemma_floating_save_area_arm_encode_at(enc, 0, w, e);
}

/// An ARM CPU context (a Breakpad extension; it does not match the
/// definition of `CONTEXT` for ARM in WinNT.h).
#[derive(Debug, Clone, PartialEq)]
pub struct CONTEXT_ARM {
    pub context_flags: u32,
    pub iregs: Vec<u32>,
    pub cpsr: u32,
    pub float_save: FLOATING_SAVE_AREA_ARM,
}

/// The mathematical value of a [`CONTEXT_ARM`]: the same fields with
/// sequences in place of vectors.
pub struct CONTEXT_ARMView {
    pub context_flags: u32,
    pub iregs: Seq<u32>,
    pub cpsr: u32,
    pub float_save: FLOATING_SAVE_AREA_ARMView,
}

impl View for CONTEXT_ARM {
    type V = CONTEXT_ARMView;

    open spec fn view(&self) -> CONTEXT_ARMView {
        CONTEXT_ARMView {
            context_flags: self.context_flags,
            iregs: self.iregs@,
            cpsr: self.cpsr,
            float_save: self.float_save@,
        }
    }
}

impl CONTEXT_ARMView {
    /// Well-formed: every sequence field has its fixed length.
    pub open spec fn wf(self) -> bool {
        &&& self.iregs.len() == 16
        &&& self.float_save.wf()
    }
}

impl CONTEXT_ARM {
    /// The number of bytes this record occupies.
    pub open spec fn spec_size() -> nat {
        368
    }

    /// The record the bytes of `b` at `off` denote in byte order `e`.
    pub open spec fn spec_decode(b: Seq<u8>, off: int, e: Endianness) -> CONTEXT_ARMView {
        CONTEXT_ARMView {
            context_flags: spec_read_u32(b, off, e),
            iregs: spec_read_u32_seq(b, off + 4, 16, e),
            cpsr: spec_read_u32(b, off + 68, e),
            float_save: FLOATING_SAVE_AREA_ARM::spec_decode(b, off + 72, e),
        }
    }

    /// The bytes the record `w` encodes to in byte order `e`.
    pub open spec fn spec_encode(w: CONTEXT_ARMView, e: Endianness) -> Seq<u8> {
        spec_encode_u32(w.context_flags, e)
            + spec_encode_u32_seq(w.iregs, e)
            + spec_encode_u32(w.cpsr, e)
            + FLOATING_SAVE_AREA_ARM::spec_encode(w.float_save, e)
    }

    /// Reads the record at `off`, known to be in bounds.
    pub fn read_at(buf: &[u8], off: usize, e: Endianness) -> (r: Self)
        requires
            off + 368 <= buf@.len(),
        ensures
            r@ == Self::spec_decode(buf@, off as int, e),
    {
        let _blen = buf.len();  // a slice length fits usize, bounding the field offsets
        CONTEXT_ARM {
            context_flags: read_u32(buf, off, e),
            iregs: read_u32_vec(buf, off + 4, 16, e),
            cpsr: read_u32(buf, off + 68, e),
            float_save: FLOATING_SAVE_AREA_ARM::read_at(buf, off + 72, e),
        }
    }

    /// Decodes the record at `off`: `Ok` exactly when the buffer holds
    /// `spec_size` bytes at `off`; the number returned with the record
    /// is the bytes consumed, always `spec_size`.
    pub fn decode(buf: &[u8], off: usize, e: Endianness) -> (r: Result<(Self, usize), DecodeError>)
        ensures
            match r {
                Ok((v, n)) => off + Self::spec_size() <= buf@.len()
                    && n == Self::spec_size()
                    && v@ == Self::spec_decode(buf@, off as int, e),
                Err(err) => err == DecodeError::OutOfBounds
                    && off + Self::spec_size() > buf@.len(),
            },
    {
        if buf.len() < 368 || off > buf.len() - 368 {
            return Err(DecodeError::OutOfBounds);
        }
        Ok((Self::read_at(buf, off, e), 368))
    }

    /// Appends this record's encoding in byte order `e` to `out`.
    pub fn write(&self, out: &mut Vec<u8>, e: Endianness)
        ensures
            final(out)@ == old(out)@ + Self::spec_encode(self@, e),
    {
        write_u32(out, self.context_flags, e);
        write_u32_vec(out, &self.iregs, e);
        write_u32(out, self.cpsr, e);
        self.float_save.write(out, e);
        assert(out@ =~= old(out)@ + Self::spec_encode(self@, e));
    }

    /// Encodes this record in byte order `e`.
    pub fn encode(&self, e: Endianness) -> (r: Vec<u8>)
        ensures
            r@ == Self::spec_encode(self@, e),
    {
        let mut out: Vec<u8> = Vec::new();
        self.write(&mut out, e);
        proof {
            assert(out@ =~= Self::spec_encode(self@, e));
        }
        out
    }
}

/// The encoding of a record is exactly [`CONTEXT_ARM::spec_size`] bytes.
pub proof fn lemma_context_arm_encode_len(w: CONTEXT_ARMView, e: Endianness)
    requires
        w.wf(),
    ensures
        CONTEXT_ARM::spec_encode(w, e).len() == 368,
{
    lemma_encode_lens();
    lemma_encode_u32_seq_len(w.iregs, e);
    lemma_floating_save_area_arm_encode_len(w.float_save, e);
}

/// Reading back the encoding of `w` found at offset `off` yields `w`.
pub proof fn lemma_context_arm_encode_at(b: Seq<u8>, off: int, w: CONTEXT_ARMView, e: Endianness)
    requires
        w.wf(),
        0 <= off,
        off + 368 <= b.len(),
        b.subrange(off, off + 368) == CONTEXT_ARM::spec_encode(w, e),
    ensures
        CONTEXT_ARM::spec_decode(b, off, e) == w,
{
    lemma_encode_lens();
    lemma_encode_u32_seq_len(w.iregs, e);
    lemma_floating_save_area_arm_encode_len(w.float_save, e);
    let enc0 = spec_encode_u32(w.context_flags, e);
    let enc1 = spec_encode_u32_seq(w.iregs, e);
    let enc2 = spec_encode_u32(w.cpsr, e);
    let enc3 = FLOATING_SAVE_AREA_ARM::spec_encode(w.float_save, e);
    let pre1 = enc0 + enc1;
    let pre2 = pre1 + enc2;
    let pre3 = pre2 + enc3;
    assert(b.subrange(off, off + 368) == pre3);
    lemma_split_at(b, off, off + 72, off + 368, pre2, enc3);
    lemma_split_at(b, off, off + 68, off + 72, pre1, enc2);
    lemma_split_at(b, off, off + 4, off + 68, enc0, enc1);
    lemma_read_u32_at(b, off, w.context_flags, e);
    lemma_read_u32_seq_at(b, off + 4, w.iregs, e);
    lemma_read_u32_at(b, off + 68, w.cpsr, e);
    lemma_floating_save_area_arm_encode_at(b, off + 72, w.float_save, e);
}

/// Round trip: decoding the encoding of a record yields the record, and
/// the encoding is exactly the record's fixed size.
pub proof fn lemma_context_arm_roundtrip(w: CONTEXT_ARMView, e: Endianness)
    requires
        w.wf(),
    ensures
        CONTEXT_ARM::spec_encode(w, e).len() == CONTEXT_ARM::spec_size(),
        CONTEXT_ARM::spec_decode(CONTEXT_ARM::spec_encode(w, e), 0, e) == w,
{
    lemma_context_arm_encode_len(w, e);
    let enc = CONTEXT_ARM::spec_encode(w, e);
    assert(enc.subrange(0, 368) =~= enc);
    lemma_context_arm_encode_at(enc, 0, w, e);
}

/// aarch64 floating point state (old Breakpad layout).
#[derive(Debug, Clone, PartialEq)]
pub struct FLOATING_SAVE_AREA_ARM64_OLD {
    pub fpsr: u32,
    pub fpcr: u32,
    pub regs: Vec<u128>,
}

/// The mathematical value of a [`FLOATING_SAVE_AREA_ARM64_OLD`]: the same fields with
/// sequences in place of vectors.
pub struct FLOATING_SAVE_AREA_ARM64_OLDView {
    pub fpsr: u32,
    pub fpcr: u32,
    pub regs: Seq<u128>,
}

impl View for FLOATING_SAVE_AREA_ARM64_OLD {
    type V = FLOATING_SAVE_AREA_ARM64_OLDView;

    open spec fn view(&self) -> FLOATING_SAVE_AREA_ARM64_OLDView {
        FLOATING_SAVE_AREA_ARM64_OLDView {
            fpsr: self.fpsr,
            fpcr: self.fpcr,
            regs: self.regs@,
        }
    }
}

impl FLOATING_SAVE_AREA_ARM64_OLDView {
    /// Well-formed: every sequence field has its fixed length.
    pub open spec fn wf(self) -> bool {
        self.regs.len() == 32
    }
}

impl FLOATING_SAVE_AREA_ARM64_OLD {
    /// The number of bytes this record occupies.
    pub open spec fn spec_size() -> nat {
        520
    }

    /// The record the bytes of `b` at `off` denote in byte order `e`.
    pub open spec fn spec_decode(b: Seq<u8>, off: int, e: Endianness) -> FLOATING_SAVE_AREA_ARM64_OLDView {
        FLOATING_SAVE_AREA_ARM64_OLDView {
            fpsr: spec_read_u32(b, off, e),
            fpcr: spec_read_u32(b, off + 4, e),
            regs: spec_read_u128_seq(b, off + 8, 32, e),
        }
    }

    /// The bytes the record `w` encodes to in byte order `e`.
    pub open spec fn spec_encode(w: FLOATING_SAVE_AREA_ARM64_OLDView, e: Endianness) -> Seq<u8> {
        spec_encode_u32(w.fpsr, e)
            + spec_encode_u32(w.fpcr, e)
            + spec_encode_u128_seq(w.regs, e)
    }

    /// Reads the record at `off`, known to be in bounds.
    pub fn read_at(buf: &[u8], off: usize, e: Endianness) -> (r: Self)
        requires
            off + 520 <= buf@.len(),
        ensures
            r@ == Self::spec_decode(buf@, off as int, e),
    {
        let _blen = buf.len();  // a slice length fits usize, bounding the field offsets
        FLOATING_SAVE_AREA_ARM64_OLD {
            fpsr: read_u32(buf, off, e),
            fpcr: read_u32(buf, off + 4, e),
            regs: read_u128_vec(buf, off + 8, 32, e),
        }
    }

    /// Decodes the record at `off`: `Ok` exactly when the buffer holds
    /// `spec_size` bytes at `off`; the number returned with the record
    /// is the bytes consumed, always `spec_size`.
    pub fn decode(buf: &[u8], off: usize, e: Endianness) -> (r: Result<(Self, usize), DecodeError>)
        ensures
            match r {
                Ok((v, n)) => off + Self::spec_size() <= buf@.len()
                    && n == Self::spec_size()
                    && v@ == Self::spec_decode(buf@, off as int, e),
                Err(err) => err == DecodeError::OutOfBounds
                    && off + Self::spec_size() > buf@.len(),
            },
    {
        if buf.len() < 520 || off > buf.len() - 520 {
            return Err(DecodeError::OutOfBounds);
        }
        Ok((Self::read_at(buf, off, e), 520))
    }

    /// Appends this record's encoding in byte order `e` to `out`.
    pub fn write(&self, out: &mut Vec<u8>, e: Endianness)
        ensures
            final(out)@ == old(out)@ + Self::spec_encode(self@, e),
    {
        write_u32(out, self.fpsr, e);
        write_u32(out, self.fpcr, e);
        write_u128_vec(out, &self.regs, e);
        assert(out@ =~= old(out)@ + Self::spec_encode(self@, e));
    }

    /// Encodes this record in byte order `e`.
    pub fn encode(&self, e: Endianness) -> (r: Vec<u8>)
        ensures
            r@ == Self::spec_encode(self@, e),
    {
        let mut out: Vec<u8> = Vec::new();
        self.write(&mut out, e);
        proof {
            assert(out@ =~= Self::spec_encode(self@, e));
        }
        out
    }
}

/// The encoding of a record is exactly [`FLOATING_SAVE_AREA_ARM64_OLD::spec_size`] bytes.
pub proof fn lemma_floating_save_area_arm64_old_encode_len(w: FLOATING_SAVE_AREA_ARM64_OLDView, e: Endianness)
    requires
        w.wf(),
    ensures
        FLOATING_SAVE_AREA_ARM64_OLD::spec_encode(w, e).len() == 520,
{
    lemma_encode_lens();
    lemma_encode_u128_seq_len(w.regs, e);
}

/// Reading back the encoding of `w` found at offset `off` yields `w`.
pub proof fn lemma_floating_save_area_arm64_old_encode_at(b: Seq<u8>, off: int, w: FLOATING_SAVE_AREA_ARM64_OLDView, e: Endianness)
    requires
        w.wf(),
        0 <= off,
        off + 520 <= b.len(),
        b.subrange(off, off + 520) == FLOATING_SAVE_AREA_ARM64_OLD::spec_encode(w, e),
    ensures
        FLOATING_SAVE_AREA_ARM64_OLD::spec_decode(b, off, e) == w,
{
    lemma_encode_lens();
    lemma_encode_u128_seq_len(w.regs, e);
    let enc0 = spec_encode_u32(w.fpsr, e);
    let enc1 = spec_encode_u32(w.fpcr, e);
    let enc2 = spec_encode_u128_seq(w.regs, e);
    let pre1 = enc0 + enc1;
    let pre2 = pre1 + enc2;
    assert(b.subrange(off, off + 520) == pre2);
    lemma_split_at(b, off, off + 8, off + 520, pre1, enc2);
    lemma_split_at(b, off, off + 4, off + 8, enc0, enc1);
    lemma_read_u32_at(b, off, w.fpsr, e);
    lemma_read_u32_at(b, off + 4, w.fpcr, e);
    lemma_read_u128_seq_at(b, off + 8, w.regs, e);
}

/// Round trip: decoding the encoding of a record yields the record, and
/// the encoding is exactly the record's fixed size.
pub proof fn lemma_floating_save_area_arm64_old_roundtrip(w: FLOATING_SAVE_AREA_ARM64_OLDView, e: Endianness)
    requires
        w.wf(),
    ensures
        FLOATING_SAVE_AREA_ARM64_OLD::spec_encode(w, e).len() == FLOATING_SAVE_AREA_ARM64_OLD::spec_size(),
        FLOATING_SAVE_AREA_ARM64_OLD::spec_decode(FLOATING_SAVE_AREA_ARM64_OLD::spec_encode(w, e), 0, e) == w,
{
    lemma_floating_save_area_arm64_old_encode_len(w, e);
    let enc = FLOATING_SAVE_AREA_ARM64_OLD::spec_encode(w, e);
    assert(enc.subrange(0, 520) =~= enc);
    lemma_floating_save_area_arm64_old_encode_at(enc, 0, w, e);
}

/// An old aarch64 (arm64) CPU context (a Breakpad extension).
///
/// The external layout is packed: the 64-bit fields are not aligned.
#[derive(Debug, Clone, PartialEq)]
pub struct CONTEXT_ARM64_OLD {
    pub context_flags: u64,
    pub iregs: Vec<u64>,
    pub pc: u64,
    pub cpsr: u32,
    pub float_save: FLOATING_SAVE_AREA_ARM64_OLD,
}

/// The mathematical value of a [`CONTEXT_ARM64_OLD`]: the same fields with
/// sequences in place of vectors.
pub struct CONTEXT_ARM64_OLDView {
    pub context_flags: u64,
    pub iregs: Seq<u64>,
    pub pc: u64,
    pub cpsr: u32,
    pub float_save: FLOATING_SAVE_AREA_ARM64_OLDView,
}

impl View for CONTEXT_ARM64_OLD {
    type V = CONTEXT_ARM64_OLDView;

    open spec fn view(&self) -> CONTEXT_ARM64_OLDView {
        CONTEXT_ARM64_OLDView {
            context_flags: self.context_flags,
            iregs: self.iregs@,
            pc: self.pc,
            cpsr: self.cpsr,
            float_save: self.float_save@,
        }
    }
}

impl CONTEXT_ARM64_OLDView {
    /// Well-formed: every sequence field has its fixed length.
    pub open spec fn wf(self) -> bool {
        &&& self.iregs.len() == 32
        &&& self.float_save.wf()
    }
}

impl CONTEXT_ARM64_OLD {
    /// The number of bytes this record occupies.
    pub open spec fn spec_size() -> nat {
        796
    }

    /// The record the bytes of `b` at `off` denote in byte order `e`.
    pub open spec fn spec_decode(b: Seq<u8>, off: int, e: Endianness) -> CONTEXT_ARM64_OLDView {
        CONTEXT_ARM64_OLDView {
            context_flags: spec_read_u64(b, off, e),
            iregs: spec_read_u64_seq(b, off + 8, 32, e),
            pc: spec_read_u64(b, off + 264, e),
            cpsr: spec_read_u32(b, off + 272, e),
            float_save: FLOATING_SAVE_AREA_ARM64_OLD::spec_decode(b, off + 276, e),
        }
    }

    /// The bytes the record `w` encodes to in byte order `e`.
    pub open spec fn spec_encode(w: CONTEXT_ARM64_OLDView, e: Endianness) -> Seq<u8> {
        spec_encode_u64(w.context_flags, e)
            + spec_encode_u64_seq(w.iregs, e)
            + spec_encode_u64(w.pc, e)
            + spec_encode_u32(w.cpsr, e)
            + FLOATING_SAVE_AREA_ARM64_OLD::spec_encode(w.float_save, e)
    }

    /// Reads the record at `off`, known to be in bounds.
    pub fn read_at(buf: &[u8], off: usize, e: Endianness) -> (r: Self)
        requires
            off + 796 <= buf@.len(),
        ensures
            r@ == Self::spec_decode(buf@, off as int, e),
    {
        let _blen = buf.len();  // a slice length fits usize, bounding the field offsets
        CONTEXT_ARM64_OLD {
            context_flags: read_u64(buf, off, e),
            iregs: read_u64_vec(buf, off + 8, 32, e),
            pc: read_u64(buf, off + 264, e),
            cpsr: read_u32(buf, off + 272, e),
            float_save: FLOATING_SAVE_AREA_ARM64_OLD::read_at(buf, off + 276, e),
        }
    }

    /// Decodes the record at `off`: `Ok` exactly when the buffer holds
    /// `spec_size` bytes at `off`; the number returned with the record
    /// is the bytes consumed, always `spec_size`.
    pub fn decode(buf: &[u8], off: usize, e: Endianness) -> (r: Result<(Self, usize), DecodeError>)
        ensures
            match r {
                Ok((v, n)) => off + Self::spec_size() <= buf@.len()
                    && n == Self::spec_size()
                    && v@ == Self::spec_decode(buf@, off as int, e),
                Err(err) => err == DecodeError::OutOfBounds
                    && off + Self::spec_size() > buf@.len(),
            },
    {
        if buf.len() < 796 || off > buf.len() - 796 {
            return Err(DecodeError::OutOfBounds);
        }
        Ok((Self::read_at(buf, off, e), 796))
    }

    /// Appends this record's encoding in byte order `e` to `out`.
    pub fn write(&self, out: &mut Vec<u8>, e: Endianness)
        ensures
            final(out)@ == old(out)@ + Self::spec_encode(self@, e),
    {
        write_u64(out, self.context_flags, e);
        write_u64_vec(out, &self.iregs, e);
        write_u64(out, self.pc, e);
        write_u32(out, self.cpsr, e);
        self.float_save.write(out, e);
        assert(out@ =~= old(out)@ + Self::spec_encode(self@, e));
    }

    /// Encodes this record in byte order `e`.
    pub fn encode(&self, e: Endianness) -> (r: Vec<u8>)
        ensures
            r@ == Self::spec_encode(self@, e),
    {
        let mut out: Vec<u8> = Vec::new();
        self.write(&mut out, e);
        proof {
            assert(out@ =~= Self::spec_encode(self@, e));
        }
        out
    }
}

/// The encoding of a record is exactly [`CONTEXT_ARM64_OLD::spec_size`] bytes.
pub proof fn lemma_context_arm64_old_encode_len(w: CONTEXT_ARM64_OLDView, e: Endianness)
    requires
        w.wf(),
    ensures
        CONTEXT_ARM64_OLD::spec_encode(w, e).len() == 796,
{
    lemma_encode_lens();
    lemma_encode_u64_seq_len(w.iregs, e);
    lemma_floating_save_area_arm64_old_encode_len(w.float_save, e);
}

/// Reading back the encoding of `w` found at offset `off` yields `w`.
pub proof fn lemma_context_arm64_old_encode_at(b: Seq<u8>, off: int, w: CONTEXT_ARM64_OLDView, e: Endianness)
    requires
        w.wf(),
        0 <= off,
        off + 796 <= b.len(),
        b.subrange(off, off + 796) == CONTEXT_ARM64_OLD::spec_encode(w, e),
    ensures
        CONTEXT_ARM64_OLD::spec_decode(b, off, e) == w,
{
    lemma_encode_lens();
    lemma_encode_u64_seq_len(w.iregs, e);
    lemma_floating_save_area_arm64_old_encode_len(w.float_save, e);
    let enc0 = spec_encode_u64(w.context_flags, e);
    let enc1 = spec_encode_u64_seq(w.iregs, e);
    let enc2 = spec_encode_u64(w.pc, e);
    let enc3 = spec_encode_u32(w.cpsr, e);
    let enc4 = FLOATING_SAVE_AREA_ARM64_OLD::spec_encode(w.float_save, e);
    let pre1 = enc0 + enc1;
    let pre2 = pre1 + enc2;
    let pre3 = pre2 + enc3;
    let pre4 = pre3 + enc4;
    assert(b.subrange(off, off + 796) == pre4);
    lemma_split_at(b, off, off + 276, off + 796, pre3, enc4);
    lemma_split_at(b, off, off + 272, off + 276, pre2, enc3);
    lemma_split_at(b, off, off + 264, off + 272, pre1, enc2);
    lemma_split_at(b, off, off + 8, off + 264, enc0, enc1);
    lemma_read_u64_at(b, off, w.context_flags, e);
    lemma_read_u64_seq_at(b, off + 8, w.iregs, e);
    lemma_read_u64_at(b, off + 264, w.pc, e);
    lemma_read_u32_at(b, off + 272, w.cpsr, e);
    lemma_floating_save_area_arm64_old_encode_at(b, off + 276, w.float_save, e);
}

/// Round trip: decoding the encoding of a record yields the record, and
/// the encoding is exactly the record's fixed size.
pub proof fn lemma_context_arm64_old_roundtrip(w: CONTEXT_ARM64_OLDView, e: Endianness)
    requires
        w.wf(),
    ensures
        CONTEXT_ARM64_OLD::spec_encode(w, e).len() == CONTEXT_ARM64_OLD::spec_size(),
        CONTEXT_ARM64_OLD::spec_decode(CONTEXT_ARM64_OLD::spec_encode(w, e), 0, e) == w,
{
    lemma_context_arm64_old_encode_len(w, e);
    let enc = CONTEXT_ARM64_OLD::spec_encode(w, e);
    assert(enc.subrange(0, 796) =~= enc);
    lemma_context_arm64_old_encode_at(enc, 0, w, e);
}

/// aarch64 floating point state.
#[derive(Debug, Clone, PartialEq)]
pub struct FLOATING_SAVE_AREA_ARM64 {
    pub regs: Vec<u128>,
    pub fpsr: u32,
    pub fpcr: u32,
}

/// The mathematical value of a [`FLOATING_SAVE_AREA_ARM64`]: the same fields with
/// sequences in place of vectors.
pub struct FLOATING_SAVE_AREA_ARM64View {
    pub regs: Seq<u128>,
    pub fpsr: u32,
    pub fpcr: u32,
}

impl View for FLOATING_SAVE_AREA_ARM64 {
    type V = FLOATING_SAVE_AREA_ARM64View;

    open spec fn view(&self) -> FLOATING_SAVE_AREA_ARM64View {
        FLOATING_SAVE_AREA_ARM64View {
            regs: self.regs@,
            fpsr: self.fpsr,
            fpcr: self.fpcr,
        }
    }
}

impl FLOATING_SAVE_AREA_ARM64View {
    /// Well-formed: every sequence field has its fixed length.
    pub open spec fn wf(self) -> bool {
        self.regs.len() == 32
    }
}

impl FLOATING_SAVE_AREA_ARM64 {
    /// The number of bytes this record occupies.
    pub open spec fn spec_size() -> nat {
        520
    }

    /// The record the bytes of `b` at `off` denote in byte order `e`.
    pub open spec fn spec_decode(b: Seq<u8>, off: int, e: Endianness) -> FLOATING_SAVE_AREA_ARM64View {
        FLOATING_SAVE_AREA_ARM64View {
            regs: spec_read_u128_seq(b, off, 32, e),
            fpsr: spec_read_u32(b, off + 512, e),
            fpcr: spec_read_u32(b, off + 516, e),
        }
    }

    /// The bytes the record `w` encodes to in byte order `e`.
    pub open spec fn spec_encode(w: FLOATING_SAVE_AREA_ARM64View, e: Endianness) -> Seq<u8> {
        spec_encode_u128_seq(w.regs, e)
            + spec_encode_u32(w.fpsr, e)
            + spec_encode_u32(w.fpcr, e)
    }

    /// Reads the record at `off`, known to be in bounds.
    pub fn read_at(buf: &[u8], off: usize, e: Endianness) -> (r: Self)
        requires
            off + 520 <= buf@.len(),
        ensures
            r@ == Self::spec_decode(buf@, off as int, e),
    {
        let _blen = buf.len();  // a slice length fits usize, bounding the field offsets
        FLOATING_SAVE_AREA_ARM64 {
            regs: read_u128_vec(buf, off, 32, e),
            fpsr: read_u32(buf, off + 512, e),
            fpcr: read_u32(buf, off + 516, e),
        }
    }

    /// Decodes the record at `off`: `Ok` exactly when the buffer holds
    /// `spec_size` bytes at `off`; the number returned with the record
    /// is the bytes consumed, always `spec_size`.
    pub fn decode(buf: &[u8], off: usize, e: Endianness) -> (r: Result<(Self, usize), DecodeError>)
        ensures
            match r {
                Ok((v, n)) => off + Self::spec_size() <= buf@.len()
                    && n == Self::spec_size()
                    && v@ == Self::spec_decode(buf@, off as int, e),
                Err(err) => err == DecodeError::OutOfBounds
                    && off + Self::spec_size() > buf@.len(),
            },
    {
        if buf.len() < 520 || off > buf.len() - 520 {
            return Err(DecodeError::OutOfBounds);
        }
        Ok((Self::read_at(buf, off, e), 520))
    }

    /// Appends this record's encoding in byte order `e` to `out`.
    pub fn write(&self, out: &mut Vec<u8>, e: Endianness)
        ensures
            final(out)@ == old(out)@ + Self::spec_encode(self@, e),
    {
        write_u128_vec(out, &self.regs, e);
        write_u32(out, self.fpsr, e);
        write_u32(out, self.fpcr, e);
        assert(out@ =~= old(out)@ + Self::spec_encode(self@, e));
    }

    /// Encodes this record in byte order `e`.
    pub fn encode(&self, e: Endianness) -> (r: Vec<u8>)
        ensures
            r@ == Self::spec_encode(self@, e),
    {
        let mut out: Vec<u8> = Vec::new();
        self.write(&mut out, e);
        proof {
            assert(out@ =~= Self::spec_encode(self@, e));
        }
        out
    }
}

/// The encoding of a record is exactly [`FLOATING_SAVE_AREA_ARM64::spec_size`] bytes.
pub proof fn lemma_floating_save_area_arm64_encode_len(w: FLOATING_SAVE_AREA_ARM64View, e: Endianness)
    requires
        w.wf(),
    ensures
        FLOATING_SAVE_AREA_ARM64::spec_encode(w, e).len() == 520,
{
    lemma_encode_lens();
    lemma_encode_u128_seq_len(w.regs, e);
}

/// Reading back the encoding of `w` found at offset `off` yields `w`.
pub proof fn lemma_floating_save_area_arm64_encode_at(b: Seq<u8>, off: int, w: FLOATING_SAVE_AREA_ARM64View, e: Endianness)
    requires
        w.wf(),
        0 <= off,
        off + 520 <= b.len(),
        b.subrange(off, off + 520) == FLOATING_SAVE_AREA_ARM64::spec_encode(w, e),
    ensures
        FLOATING_SAVE_AREA_ARM64::spec_decode(b, off, e) == w,
{
    lemma_encode_lens();
    lemma_encode_u128_seq_len(w.regs, e);
    let enc0 = spec_encode_u128_seq(w.regs, e);
    let enc1 = spec_encode_u32(w.fpsr, e);
    let enc2 = spec_encode_u32(w.fpcr, e);
    let pre1 = enc0 + enc1;
    let pre2 = pre1 + enc2;
    assert(b.subrange(off, off + 520) == pre2);
    lemma_split_at(b, off, off + 516, off + 520, pre1, enc2);
    lemma_split_at(b, off, off + 512, off + 516, enc0, enc1);
    lemma_read_u128_seq_at(b, off, w.regs, e);
    lemma_read_u32_at(b, off + 512, w.fpsr, e);
    lemma_read_u32_at(b, off + 516, w.fpcr, e);
}

/// Round trip: decoding the encoding of a record yields the record, and
/// the encoding is exactly the record's fixed size.
pub proof fn lemma_floating_save_area_arm64_roundtrip(w: FLOATING_SAVE_AREA_ARM64View, e: Endianness)
    requires
        w.wf(),
    ensures
        FLOATING_SAVE_AREA_ARM64::spec_encode(w, e).len() == FLOATING_SAVE_AREA_ARM64::spec_size(),
        FLOATING_SAVE_AREA_ARM64::spec_decode(FLOATING_SAVE_AREA_ARM64::spec_encode(w, e), 0, e) == w,
{
    lemma_floating_save_area_arm64_encode_len(w, e);
    let enc = FLOATING_SAVE_AREA_ARM64::spec_encode(w, e);
    assert(enc.subrange(0, 520) =~= enc);
    lemma_floating_save_area_arm64_encode_at(enc, 0, w, e);
}

/// An aarch64 (arm64) CPU context (a Breakpad extension; it does not match
/// the definition of `CONTEXT` for aarch64 in WinNT.h).
#[derive(Debug, Clone, PartialEq)]
pub struct CONTEXT_ARM64 {
    pub context_flags: u32,
    pub cpsr: u32,
    pub iregs: Vec<u64>,
    pub pc: u64,
    pub float_save: FLOATING_SAVE_AREA_ARM64,
    pub bcr: Vec<u32>,
    pub bvr: Vec<u64>,
    pub wcr: Vec<u32>,
    pub wvr: Vec<u64>,
}

/// The mathematical value of a [`CONTEXT_ARM64`]: the same fields with
/// sequences in place of vectors.
pub struct CONTEXT_ARM64View {
    pub context_flags: u32,
    pub cpsr: u32,
    pub iregs: Seq<u64>,
    pub pc: u64,
    pub float_save: FLOATING_SAVE_AREA_ARM64View,
    pub bcr: Seq<u32>,
    pub bvr: Seq<u64>,
    pub wcr: Seq<u32>,
    pub wvr: Seq<u64>,
}

impl View for CONTEXT_ARM64 {
    type V = CONTEXT_ARM64View;

    open spec fn view(&self) -> CONTEXT_ARM64View {
        CONTEXT_ARM64View {
            context_flags: self.context_flags,
            cpsr: self.cpsr,
            iregs: self.iregs@,
            pc: self.pc,
            float_save: self.float_save@,
            bcr: self.bcr@,
            bvr: self.bvr@,
            wcr: self.wcr@,
            wvr: self.wvr@,
        }
    }
}

impl CONTEXT_ARM64View {
    /// Well-formed: every sequence field has its fixed length.
    pub open spec fn wf(self) -> bool {
        &&& self.iregs.len() == 32
        &&& self.float_save.wf()
        &&& self.bcr.len() == 8
        &&& self.bvr.len() == 8
        &&& self.wcr.len() == 2
        &&& self.wvr.len() == 2
    }
}

impl CONTEXT_ARM64 {
    /// The number of bytes this record occupies.
    pub open spec fn spec_size() -> nat {
        912
    }

    /// The record the bytes of `b` at `off` denote in byte order `e`.
    pub open spec fn spec_decode(b: Seq<u8>, off: int, e: Endianness) -> CONTEXT_ARM64View {
        CONTEXT_ARM64View {
            context_flags: spec_read_u32(b, off, e),
            cpsr: spec_read_u32(b, off + 4, e),
            iregs: spec_read_u64_seq(b, off + 8, 32, e),
            pc: spec_read_u64(b, off + 264, e),
            float_save: FLOATING_SAVE_AREA_ARM64::spec_decode(b, off + 272, e),
            bcr: spec_read_u32_seq(b, off + 792, 8, e),
            bvr: spec_read_u64_seq(b, off + 824, 8, e),
            wcr: spec_read_u32_seq(b, off + 888, 2, e),
            wvr: spec_read_u64_seq(b, off + 896, 2, e),
        }
    }

    /// The bytes the record `w` encodes to in byte order `e`.
    pub open spec fn spec_encode(w: CONTEXT_ARM64View, e: Endianness) -> Seq<u8> {
        spec_encode_u32(w.context_flags, e)
            + spec_encode_u32(w.cpsr, e)
            + spec_encode_u64_seq(w.iregs, e)
            + spec_encode_u64(w.pc, e)
            + FLOATING_SAVE_AREA_ARM64::spec_encode(w.float_save, e)
            + spec_encode_u32_seq(w.bcr, e)
            + spec_encode_u64_seq(w.bvr, e)
            + spec_encode_u32_seq(w.wcr, e)
            + spec_encode_u64_seq(w.wvr, e)
    }

    /// Reads the record at `off`, known to be in bounds.
    pub fn read_at(buf: &[u8], off: usize, e: Endianness) -> (r: Self)
        requires
            off + 912 <= buf@.len(),
        ensures
            r@ == Self::spec_decode(buf@, off as int, e),
    {
        let _blen = buf.len();  // a slice length fits usize, bounding the field offsets
        CONTEXT_ARM64 {
            context_flags: read_u32(buf, off, e),
            cpsr: read_u32(buf, off + 4, e),
            iregs: read_u64_vec(buf, off + 8, 32, e),
            pc: read_u64(buf, off + 264, e),
            float_save: FLOATING_SAVE_AREA_ARM64::read_at(buf, off + 272, e),
            bcr: read_u32_vec(buf, off + 792, 8, e),
            bvr: read_u64_vec(buf, off + 824, 8, e),
            wcr: read_u32_vec(buf, off + 888, 2, e),
            wvr: read_u64_vec(buf, off + 896, 2, e),
        }
    }

    /// Decodes the record at `off`: `Ok` exactly when the buffer holds
    /// `spec_size` bytes at `off`; the number returned with the record
    /// is the bytes consumed, always `spec_size`.
    pub fn decode(buf: &[u8], off: usize, e: Endianness) -> (r: Result<(Self, usize), DecodeError>)
        ensures
            match r {
                Ok((v, n)) => off + Self::spec_size() <= buf@.len()
                    && n == Self::spec_size()
                    && v@ == Self::spec_decode(buf@, off as int, e),
                Err(err) => err == DecodeError::OutOfBounds
                    && off + Self::spec_size() > buf@.len(),
            },
    {
        if buf.len() < 912 || off > buf.len() - 912 {
            return Err(DecodeError::OutOfBounds);
        }
        Ok((Self::read_at(buf, off, e), 912))
    }

    /// Appends this record's encoding in byte order `e` to `out`.
    #[verifier::spinoff_prover]
    #[verifier::rlimit(100)]
    pub fn write(&self, out: &mut Vec<u8>, e: Endianness)
        ensures
            final(out)@ == old(out)@ + Self::spec_encode(self@, e),
    {
        let ghost enc0 = spec_encode_u32(self@.context_flags, e);
        let ghost enc1 = spec_encode_u32(self@.cpsr, e);
        let ghost enc2 = spec_encode_u64_seq(self.iregs@, e);
        let ghost enc3 = spec_encode_u64(self@.pc, e);
        let ghost enc4 = FLOATING_SAVE_AREA_ARM64::spec_encode(self.float_save@, e);
        let ghost enc5 = spec_encode_u32_seq(self.bcr@, e);
        let ghost enc6 = spec_encode_u64_seq(self.bvr@, e);
        let ghost enc7 = spec_encode_u32_seq(self.wcr@, e);
        let ghost enc8 = spec_encode_u64_seq(self.wvr@, e);
        let ghost pre1 = enc0 + enc1;
        let ghost pre2 = pre1 + enc2;
        let ghost pre3 = pre2 + enc3;
        let ghost pre4 = pre3 + enc4;
        let ghost pre5 = pre4 + enc5;
        let ghost pre6 = pre5 + enc6;
        let ghost pre7 = pre6 + enc7;
        let ghost pre8 = pre7 + enc8;
        write_u32(out, self.context_flags, e);
        proof { assert(out@ == old(out)@ + enc0); }
        write_u32(out, self.cpsr, e);
        proof {
            lemma_seq_add_assoc(old(out)@, enc0, enc1);
            assert(out@ == old(out)@ + pre1);
        }
        write_u64_vec(out, &self.iregs, e);
        proof {
            lemma_seq_add_assoc(old(out)@, pre1, enc2);
            assert(out@ == old(out)@ + pre2);
        }
        write_u64(out, self.pc, e);
        proof {
            lemma_seq_add_assoc(old(out)@, pre2, enc3);
            assert(out@ == old(out)@ + pre3);
        }
        self.float_save.write(out, e);
        proof {
            lemma_seq_add_assoc(old(out)@, pre3, enc4);
            assert(out@ == old(out)@ + pre4);
        }
        write_u32_vec(out, &self.bcr, e);
        proof {
            lemma_seq_add_assoc(old(out)@, pre4, enc5);
            assert(out@ == old(out)@ + pre5);
        }
        write_u64_vec(out, &self.bvr, e);
        proof {
            lemma_seq_add_assoc(old(out)@, pre5, enc6);
            assert(out@ == old(out)@ + pre6);
        }
        write_u32_vec(out, &self.wcr, e);
        proof {
            lemma_seq_add_assoc(old(out)@, pre6, enc7);
            assert(out@ == old(out)@ + pre7);
        }
        write_u64_vec(out, &self.wvr, e);
        proof {
            lemma_seq_add_assoc(old(out)@, pre7, enc8);
            assert(out@ == old(out)@ + pre8);
        }
        assert(out@ == old(out)@ + Self::spec_encode(self@, e));
    }

    /// Encodes this record in byte order `e`.
    pub fn encode(&self, e: Endianness) -> (r: Vec<u8>)
        ensures
            r@ == Self::spec_encode(self@, e),
    {
        let mut out: Vec<u8> = Vec::new();
        self.write(&mut out, e);
        proof {
            assert(out@ =~= Self::spec_encode(self@, e));
        }
        out
    }
}

/// The encoding of a record is exactly [`CONTEXT_ARM64::spec_size`] bytes.
pub proof fn lemma_context_arm64_encode_len(w: CONTEXT_ARM64View, e: Endianness)
    requires
        w.wf(),
    ensures
        CONTEXT_ARM64::spec_encode(w, e).len() == 912,
{
    lemma_encode_lens();
    lemma_encode_u64_seq_len(w.iregs, e);
    lemma_floating_save_area_arm64_encode_len(w.float_save, e);
    lemma_encode_u32_seq_len(w.bcr, e);
    lemma_encode_u64_seq_len(w.bvr, e);
    lemma_encode_u32_seq_len(w.wcr, e);
    lemma_encode_u64_seq_len(w.wvr, e);
}

/// Reading back the encoding of `w` found at offset `off` yields `w`.
pub proof fn lemma_context_arm64_encode_at(b: Seq<u8>, off: int, w: CONTEXT_ARM64View, e: Endianness)
    requires
        w.wf(),
        0 <= off,
        off + 912 <= b.len(),
        b.subrange(off, off + 912) == CONTEXT_ARM64::spec_encode(w, e),
    ensures
        CONTEXT_ARM64::spec_decode(b, off, e) == w,
{
    lemma_encode_lens();
    lemma_encode_u64_seq_len(w.iregs, e);
    lemma_floating_save_area_arm64_encode_len(w.float_save, e);
    lemma_encode_u32_seq_len(w.bcr, e);
    lemma_encode_u64_seq_len(w.bvr, e);
    lemma_encode_u32_seq_len(w.wcr, e);
    lemma_encode_u64_seq_len(w.wvr, e);
    let enc0 = spec_encode_u32(w.context_flags, e);
    let enc1 = spec_encode_u32(w.cpsr, e);
    let enc2 = spec_encode_u64_seq(w.iregs, e);
    let enc3 = spec_encode_u64(w.pc, e);
    let enc4 = FLOATING_SAVE_AREA_ARM64::spec_encode(w.float_save, e);
    let enc5 = spec_encode_u32_seq(w.bcr, e);
    let enc6 = spec_encode_u64_seq(w.bvr, e);
    let enc7 = spec_encode_u32_seq(w.wcr, e);
    let enc8 = spec_encode_u64_seq(w.wvr, e);
    let pre1 = enc0 + enc1;
    let pre2 = pre1 + enc2;
    let pre3 = pre2 + enc3;
    let pre4 = pre3 + enc4;
    let pre5 = pre4 + enc5;
    let pre6 = pre5 + enc6;
    let pre7 = pre6 + enc7;
    let pre8 = pre7 + enc8;
    assert(b.subrange(off, off + 912) == pre8);
    lemma_split_at(b, off, off + 896, off + 912, pre7, enc8);
    lemma_split_at(b, off, off + 888, off + 896, pre6, enc7);
    lemma_split_at(b, off, off + 824, off + 888, pre5, enc6);
    lemma_split_at(b, off, off + 792, off + 824, pre4, enc5);
    lemma_split_at(b, off, off + 272, off + 792, pre3, enc4);
    lemma_split_at(b, off, off + 264, off + 272, pre2, enc3);
    lemma_split_at(b, off, off + 8, off + 264, pre1, enc2);
    lemma_split_at(b, off, off + 4, off + 8, enc0, enc1);
    lemma_read_u32_at(b, off, w.context_flags, e);
    lemma_read_u32_at(b, off + 4, w.cpsr, e);
    lemma_read_u64_seq_at(b, off + 8, w.iregs, e);
    lemma_read_u64_at(b, off + 264, w.pc, e);
    lemma_floating_save_area_arm64_encode_at(b, off + 272, w.float_save, e);
    lemma_read_u32_seq_at(b, off + 792, w.bcr, e);
    lemma_read_u64_seq_at(b, off + 824, w.bvr, e);
    lemma_read_u32_seq_at(b, off + 888, w.wcr, e);
    lemma_read_u64_seq_at(b, off + 896, w.wvr, e);
}

/// Round trip: decoding the encoding of a record yields the record, and
/// the encoding is exactly the record's fixed size.
pub proof fn lemma_context_arm64_roundtrip(w: CONTEXT_ARM64View, e: Endianness)
    requires
        w.wf(),
    ensures
        CONTEXT_ARM64::spec_encode(w, e).len() == CONTEXT_ARM64::spec_size(),
        CONTEXT_ARM64::spec_decode(CONTEXT_ARM64::spec_encode(w, e), 0, e) == w,
{
    lemma_context_arm64_encode_len(w, e);
    let enc = CONTEXT_ARM64::spec_encode(w, e);
    assert(enc.subrange(0, 912) =~= enc);
    lemma_context_arm64_encode_at(enc, 0, w, e);
}

/// MIPS floating point state.
#[derive(Debug, Clone, PartialEq)]
pub struct FLOATING_SAVE_AREA_MIPS {
    pub regs: Vec<u64>,
    pub fpcsr: u32,
    pub fir: u32,
}

/// The mathematical value of a [`FLOATING_SAVE_AREA_MIPS`]: the same fields with
/// sequences in place of vectors.
pub struct FLOATING_SAVE_AREA_MIPSView {
    pub regs: Seq<u64>,
    pub fpcsr: u32,
    pub fir: u32,
}

impl View for FLOATING_SAVE_AREA_MIPS {
    type V = FLOATING_SAVE_AREA_MIPSView;

    open spec fn view(&self) -> FLOATING_SAVE_AREA_MIPSView {
        FLOATING_SAVE_AREA_MIPSView {
            regs: self.regs@,
            fpcsr: self.fpcsr,
            fir: self.fir,
        }
    }
}

impl FLOATING_SAVE_AREA_MIPSView {
    /// Well-formed: every sequence field has its fixed length.
    pub open spec fn wf(self) -> bool {
        self.regs.len() == 32
    }
}

impl FLOATING_SAVE_AREA_MIPS {
    /// The number of bytes this record occupies.
    pub open spec fn spec_size() -> nat {
        264
    }

    /// The record the bytes of `b` at `off` denote in byte order `e`.
    pub open spec fn spec_decode(b: Seq<u8>, off: int, e: Endianness) -> FLOATING_SAVE_AREA_MIPSView {
        FLOATING_SAVE_AREA_MIPSView {
            regs: spec_read_u64_seq(b, off, 32, e),
            fpcsr: spec_read_u32(b, off + 256, e),
            fir: spec_read_u32(b, off + 260, e),
        }
    }

    /// The bytes the record `w` encodes to in byte order `e`.
    pub open spec fn spec_encode(w: FLOATING_SAVE_AREA_MIPSView, e: Endianness) -> Seq<u8> {
        spec_encode_u64_seq(w.regs, e)
            + spec_encode_u32(w.fpcsr, e)
            + spec_encode_u32(w.fir, e)
    }

    /// Reads the record at `off`, known to be in bounds.
    pub fn read_at(buf: &[u8], off: usize, e: Endianness) -> (r: Self)
        requires
            off + 264 <= buf@.len(),
        ensures
            r@ == Self::spec_decode(buf@, off as int, e),
    {
        let _blen = buf.len();  // a slice length fits usize, bounding the field offsets
        FLOATING_SAVE_AREA_MIPS {
            regs: read_u64_vec(buf, off, 32, e),
            fpcsr: read_u32(buf, off + 256, e),
            fir: read_u32(buf, off + 260, e),
        }
    }

    /// Decodes the record at `off`: `Ok` exactly when the buffer holds
    /// `spec_size` bytes at `off`; the number returned with the record
    /// is the bytes consumed, always `spec_size`.
    pub fn decode(buf: &[u8], off: usize, e: Endianness) -> (r: Result<(Self, usize), DecodeError>)
        ensures
            match r {
                Ok((v, n)) => off + Self::spec_size() <= buf@.len()
                    && n == Self::spec_size()
                    && v@ == Self::spec_decode(buf@, off as int, e),
                Err(err) => err == DecodeError::OutOfBounds
                    && off + Self::spec_size() > buf@.len(),
            },
    {
        if buf.len() < 264 || off > buf.len() - 264 {
            return Err(DecodeError::OutOfBounds);
        }
        Ok((Self::read_at(buf, off, e), 264))
    }

    /// Appends this record's encoding in byte order `e` to `out`.
    pub fn write(&self, out: &mut Vec<u8>, e: Endianness)
        ensures
            final(out)@ == old(out)@ + Self::spec_encode(self@, e),
    {
        write_u64_vec(out, &self.regs, e);
        write_u32(out, self.fpcsr, e);
        write_u32(out, self.fir, e);
        assert(out@ =~= old(out)@ + Self::spec_encode(self@, e));
    }

    /// Encodes this record in byte order `e`.
    pub fn encode(&self, e: Endianness) -> (r: Vec<u8>)
        ensures
            r@ == Self::spec_encode(self@, e),
    {
        let mut out: Vec<u8> = Vec::new();
        self.write(&mut out, e);
        proof {
            assert(out@ =~= Self::spec_encode(self@, e));
        }
        out
    }
}

/// The encoding of a record is exactly [`FLOATING_SAVE_AREA_MIPS::spec_size`] bytes.
pub proof fn lemma_floating_save_area_mips_encode_len(w: FLOATING_SAVE_AREA_MIPSView, e: Endianness)
    requires
        w.wf(),
    ensures
        FLOATING_SAVE_AREA_MIPS::spec_encode(w, e).len() == 264,
{
    lemma_encode_lens();
    lemma_encode_u64_seq_len(w.regs, e);
}

/// Reading back the encoding of `w` found at offset `off` yields `w`.
pub proof fn lemma_floating_save_area_mips_encode_at(b: Seq<u8>, off: int, w: FLOATING_SAVE_AREA_MIPSView, e: Endianness)
    requires
        w.wf(),
        0 <= off,
        off + 264 <= b.len(),
        b.subrange(off, off + 264) == FLOATING_SAVE_AREA_MIPS::spec_encode(w, e),
    ensures
        FLOATING_SAVE_AREA_MIPS::spec_decode(b, off, e) == w,
{
    lemma_encode_lens();
    lemma_encode_u64_seq_len(w.regs, e);
    let enc0 = spec_encode_u64_seq(w.regs, e);
    let enc1 = spec_encode_u32(w.fpcsr, e);
    let enc2 = spec_encode_u32(w.fir, e);
    let pre1 = enc0 + enc1;
    let pre2 = pre1 + enc2;
    assert(b.subrange(off, off + 264) == pre2);
    lemma_split_at(b, off, off + 260, off + 264, pre1, enc2);
    lemma_split_at(b, off, off + 256, off + 260, enc0, enc1);
    lemma_read_u64_seq_at(b, off, w.regs, e);
    lemma_read_u32_at(b, off + 256, w.fpcsr, e);
    lemma_read_u32_at(b, off + 260, w.fir, e);
}

/// Round trip: decoding the encoding of a record yields the record, and
/// the encoding is exactly the record's fixed size.
pub proof fn lemma_floating_save_area_mips_roundtrip(w: FLOATING_SAVE_AREA_MIPSView, e: Endianness)
    requires
        w.wf(),
    ensures
        FLOATING_SAVE_AREA_MIPS::spec_encode(w, e).len() == FLOATING_SAVE_AREA_MIPS::spec_size(),
        FLOATING_SAVE_AREA_MIPS::spec_decode(FLOATING_SAVE_AREA_MIPS::spec_encode(w, e), 0, e) == w,
{
    lemma_floating_save_area_mips_encode_len(w, e);
    let enc = FLOATING_SAVE_AREA_MIPS::spec_encode(w, e);
    assert(enc.subrange(0, 264) =~= enc);
    lemma_floating_save_area_mips_encode_at(enc, 0, w, e);
}

/// A MIPS CPU context (a Breakpad extension, as there is no definition of
/// `CONTEXT` for MIPS in WinNT.h).
#[derive(Debug, Clone, PartialEq)]
pub struct CONTEXT_MIPS {
    pub context_flags: u32,
    pub _pad0: u32,
    pub iregs: Vec<u64>,
    pub mdhi: u64,
    pub mdlo: u64,
    pub hi: Vec<u32>,
    pub lo: Vec<u32>,
    pub dsp_control: u32,
    pub _pad1: u32,
    pub epc: u64,
    pub badvaddr: u64,
    pub status: u32,
    pub cause: u32,
    pub float_save: FLOATING_SAVE_AREA_MIPS,
}

/// The mathematical value of a [`CONTEXT_MIPS`]: the same fields with
/// sequences in place of vectors.
pub struct CONTEXT_MIPSView {
    pub context_flags: u32,
    pub _pad0: u32,
    pub iregs: Seq<u64>,
    pub mdhi: u64,
    pub mdlo: u64,
    pub hi: Seq<u32>,
    pub lo: Seq<u32>,
    pub dsp_control: u32,
    pub _pad1: u32,
    pub epc: u64,
    pub badvaddr: u64,
    pub status: u32,
    pub cause: u32,
    pub float_save: FLOATING_SAVE_AREA_MIPSView,
}

impl View for CONTEXT_MIPS {
    type V = CONTEXT_MIPSView;

    open spec fn view(&self) -> CONTEXT_MIPSView {
        CONTEXT_MIPSView {
            context_flags: self.context_flags,
            _pad0: self._pad0,
            iregs: self.iregs@,
            mdhi: self.mdhi,
            mdlo: self.mdlo,
            hi: self.hi@,
            lo: self.lo@,
            dsp_control: self.dsp_control,
            _pad1: self._pad1,
            epc: self.epc,
            badvaddr: self.badvaddr,
            status: self.status,
            cause: self.cause,
            float_save: self.float_save@,
        }
    }
}

impl CONTEXT_MIPSView {
    /// Well-formed: every sequence field has its fixed length.
    pub open spec fn wf(self) -> bool {
        &&& self.iregs.len() == 32
        &&& self.hi.len() == 3
        &&& self.lo.len() == 3
        &&& self.float_save.wf()
    }
}

impl CONTEXT_MIPS {
    /// The number of bytes this record occupies.
    pub open spec fn spec_size() -> nat {
        600
    }

    /// The record the bytes of `b` at `off` denote in byte order `e`.
    pub open spec fn spec_decode(b: Seq<u8>, off: int, e: Endianness) -> CONTEXT_MIPSView {
        CONTEXT_MIPSView {
            context_flags: spec_read_u32(b, off, e),
            _pad0: spec_read_u32(b, off + 4, e),
            iregs: spec_read_u64_seq(b, off + 8, 32, e),
            mdhi: spec_read_u64(b, off + 264, e),
            mdlo: spec_read_u64(b, off + 272, e),
            hi: spec_read_u32_seq(b, off + 280, 3, e),
            lo: spec_read_u32_seq(b, off + 292, 3, e),
            dsp_control: spec_read_u32(b, off + 304, e),
            _pad1: spec_read_u32(b, off + 308, e),
            epc: spec_read_u64(b, off + 312, e),
            badvaddr: spec_read_u64(b, off + 320, e),
            status: spec_read_u32(b, off + 328, e),
            cause: spec_read_u32(b, off + 332, e),
            float_save: FLOATING_SAVE_AREA_MIPS::spec_decode(b, off + 336, e),
        }
    }

    /// The bytes the record `w` encodes to in byte order `e`.
    pub open spec fn spec_encode(w: CONTEXT_MIPSView, e: Endianness) -> Seq<u8> {
        spec_encode_u32(w.context_flags, e)
            + spec_encode_u32(w._pad0, e)
            + spec_encode_u64_seq(w.iregs, e)
            + spec_encode_u64(w.mdhi, e)
            + spec_encode_u64(w.mdlo, e)
            + spec_encode_u32_seq(w.hi, e)
            + spec_encode_u32_seq(w.lo, e)
            + spec_encode_u32(w.dsp_control, e)
            + spec_encode_u32(w._pad1, e)
            + spec_encode_u64(w.epc, e)
            + spec_encode_u64(w.badvaddr, e)
            + spec_encode_u32(w.status, e)
            + spec_encode_u32(w.cause, e)
            + FLOATING_SAVE_AREA_MIPS::spec_encode(w.float_save, e)
    }

    /// Reads the record at `off`, known to be in bounds.
    pub fn read_at(buf: &[u8], off: usize, e: Endianness) -> (r: Self)
        requires
            off + 600 <= buf@.len(),
        ensures
            r@ == Self::spec_decode(buf@, off as int, e),
    {
        let _blen = buf.len();  // a slice length fits usize, bounding the field offsets
        CONTEXT_MIPS {
            context_flags: read_u32(buf, off, e),
            _pad0: read_u32(buf, off + 4, e),
            iregs: read_u64_vec(buf, off + 8, 32, e),
            mdhi: read_u64(buf, off + 264, e),
            mdlo: read_u64(buf, off + 272, e),
            hi: read_u32_vec(buf, off + 280, 3, e),
            lo: read_u32_vec(buf, off + 292, 3, e),
            dsp_control: read_u32(buf, off + 304, e),
            _pad1: read_u32(buf, off + 308, e),
            epc: read_u64(buf, off + 312, e),
            badvaddr: read_u64(buf, off + 320, e),
            status: read_u32(buf, off + 328, e),
            cause: read_u32(buf, off + 332, e),
            float_save: FLOATING_SAVE_AREA_MIPS::read_at(buf, off + 336, e),
        }
    }

    /// Decodes the record at `off`: `Ok` exactly when the buffer holds
    /// `spec_size` bytes at `off`; the number returned with the record
    /// is the bytes consumed, always `spec_size`.
    pub fn decode(buf: &[u8], off: usize, e: Endianness) -> (r: Result<(Self, usize), DecodeError>)
        ensures
            match r {
                Ok((v, n)) => off + Self::spec_size() <= buf@.len()
                    && n == Self::spec_size()
                    && v@ == Self::spec_decode(buf@, off as int, e),
                Err(err) => err == DecodeError::OutOfBounds
                    && off + Self::spec_size() > buf@.len(),
            },
    {
        if buf.len() < 600 || off > buf.len() - 600 {
            return Err(DecodeError::OutOfBounds);
        }
        Ok((Self::read_at(buf, off, e), 600))
    }

    /// Appends this record's encoding in byte order `e` to `out`.
    #[verifier::spinoff_prover]
    #[verifier::rlimit(100)]
    pub fn write(&self, out: &mut Vec<u8>, e: Endianness)
        ensures
            final(out)@ == old(out)@ + Self::spec_encode(self@, e),
    {
        let ghost enc0 = spec_encode_u32(self@.context_flags, e);
        let ghost enc1 = spec_encode_u32(self@._pad0, e);
        let ghost enc2 = spec_encode_u64_seq(self.iregs@, e);
        let ghost enc3 = spec_encode_u64(self@.mdhi, e);
        let ghost enc4 = spec_encode_u64(self@.mdlo, e);
        let ghost enc5 = spec_encode_u32_seq(self.hi@, e);
        let ghost enc6 = spec_encode_u32_seq(self.lo@, e);
        let ghost enc7 = spec_encode_u32(self@.dsp_control, e);
        let ghost enc8 = spec_encode_u32(self@._pad1, e);
        let ghost enc9 = spec_encode_u64(self@.epc, e);
        let ghost enc10 = spec_encode_u64(self@.badvaddr, e);
        let ghost enc11 = spec_encode_u32(self@.status, e);
        let ghost enc12 = spec_encode_u32(self@.cause, e);
        let ghost enc13 = FLOATING_SAVE_AREA_MIPS::spec_encode(self.float_save@, e);
        let ghost pre1 = enc0 + enc1;
        let ghost pre2 = pre1 + enc2;
        let ghost pre3 = pre2 + enc3;
        let ghost pre4 = pre3 + enc4;
        let ghost pre5 = pre4 + enc5;
        let ghost pre6 = pre5 + enc6;
        let ghost pre7 = pre6 + enc7;
        let ghost pre8 = pre7 + enc8;
        let ghost pre9 = pre8 + enc9;
        let ghost pre10 = pre9 + enc10;
        let ghost pre11 = pre10 + enc11;
        let ghost pre12 = pre11 + enc12;
        let ghost pre13 = pre12 + enc13;
        write_u32(out, self.context_flags, e);
        proof { assert(out@ == old(out)@ + enc0); }
        write_u32(out, self._pad0, e);
        proof {
            lemma_seq_add_assoc(old(out)@, enc0, enc1);
            assert(out@ == old(out)@ + pre1);
        }
        write_u64_vec(out, &self.iregs, e);
        proof {
            lemma_seq_add_assoc(old(out)@, pre1, enc2);
            assert(out@ == old(out)@ + pre2);
        }
        write_u64(out, self.mdhi, e);
        proof {
            lemma_seq_add_assoc(old(out)@, pre2, enc3);
            assert(out@ == old(out)@ + pre3);
        }
        write_u64(out, self.mdlo, e);
        proof {
            lemma_seq_add_assoc(old(out)@, pre3, enc4);
            assert(out@ == old(out)@ + pre4);
        }
        write_u32_vec(out, &self.hi, e);
        proof {
            lemma_seq_add_assoc(old(out)@, pre4, enc5);
            assert(out@ == old(out)@ + pre5);
        }
        write_u32_vec(out, &self.lo, e);
        proof {
            lemma_seq_add_assoc(old(out)@, pre5, enc6);
            assert(out@ == old(out)@ + pre6);
        }
        write_u32(out, self.dsp_control, e);
        proof {
            lemma_seq_add_assoc(old(out)@, pre6, enc7);
            assert(out@ == old(out)@ + pre7);
        }
        write_u32(out, self._pad1, e);
        proof {
            lemma_seq_add_assoc(old(out)@, pre7, enc8);
            assert(out@ == old(out)@ + pre8);
        }
        write_u64(out, self.epc, e);
        proof {
            lemma_seq_add_assoc(old(out)@, pre8, enc9);
            assert(out@ == old(out)@ + pre9);
        }
        write_u64(out, self.badvaddr, e);
        proof {
            lemma_seq_add_assoc(old(out)@, pre9, enc10);
            assert(out@ == old(out)@ + pre10);
        }
        write_u32(out, self.status, e);
        proof {
            lemma_seq_add_assoc(old(out)@, pre10, enc11);
            assert(out@ == old(out)@ + pre11);
        }
        write_u32(out, self.cause, e);
        proof {
            lemma_seq_add_assoc(old(out)@, pre11, enc12);
            assert(out@ == old(out)@ + pre12);
        }
        self.float_save.write(out, e);
        proof {
            lemma_seq_add_assoc(old(out)@, pre12, enc13);
            assert(out@ == old(out)@ + pre13);
        }
        assert(out@ == old(out)@ + Self::spec_encode(self@, e));
    }

    /// Encodes this record in byte order `e`.
    pub fn encode(&self, e: Endianness) -> (r: Vec<u8>)
        ensures
            r@ == Self::spec_encode(self@, e),
    {
        let mut out: Vec<u8> = Vec::new();
        self.write(&mut out, e);
        proof {
            assert(out@ =~= Self::spec_encode(self@, e));
        }
        out
    }
}

/// The encoding of a record is exactly [`CONTEXT_MIPS::spec_size`] bytes.
pub proof fn lemma_context_mips_encode_len(w: CONTEXT_MIPSView, e: Endianness)
    requires
        w.wf(),
    ensures
        CONTEXT_MIPS::spec_encode(w, e).len() == 600,
{
    lemma_encode_lens();
    lemma_encode_u64_seq_len(w.iregs, e);
    lemma_encode_u32_seq_len(w.hi, e);
    lemma_encode_u32_seq_len(w.lo, e);
    lemma_floating_save_area_mips_encode_len(w.float_save, e);
}

/// Reading back the encoding of `w` found at offset `off` yields `w`.
pub proof fn lemma_context_mips_encode_at(b: Seq<u8>, off: int, w: CONTEXT_MIPSView, e: Endianness)
    requires
        w.wf(),
        0 <= off,
        off + 600 <= b.len(),
        b.subrange(off, off + 600) == CONTEXT_MIPS::spec_encode(w, e),
    ensures
        CONTEXT_MIPS::spec_decode(b, off, e) == w,
{
    lemma_encode_lens();
    lemma_encode_u64_seq_len(w.iregs, e);
    lemma_encode_u32_seq_len(w.hi, e);
    lemma_encode_u32_seq_len(w.lo, e);
    lemma_floating_save_area_mips_encode_len(w.float_save, e);
    let enc0 = spec_encode_u32(w.context_flags, e);
    let enc1 = spec_encode_u32(w._pad0, e);
    let enc2 = spec_encode_u64_seq(w.iregs, e);
    let enc3 = spec_encode_u64(w.mdhi, e);
    let enc4 = spec_encode_u64(w.mdlo, e);
    let enc5 = spec_encode_u32_seq(w.hi, e);
    let enc6 = spec_encode_u32_seq(w.lo, e);
    let enc7 = spec_encode_u32(w.dsp_control, e);
    let enc8 = spec_encode_u32(w._pad1, e);
    let enc9 = spec_encode_u64(w.epc, e);
    let enc10 = spec_encode_u64(w.badvaddr, e);
    let enc11 = spec_encode_u32(w.status, e);
    let enc12 = spec_encode_u32(w.cause, e);
    let enc13 = FLOATING_SAVE_AREA_MIPS::spec_encode(w.float_save, e);
    let pre1 = enc0 + enc1;
    let pre2 = pre1 + enc2;
    let pre3 = pre2 + enc3;
    let pre4 = pre3 + enc4;
    let pre5 = pre4 + enc5;
    let pre6 = pre5 + enc6;
    let pre7 = pre6 + enc7;
    let pre8 = pre7 + enc8;
    let pre9 = pre8 + enc9;
    let pre10 = pre9 + enc10;
    let pre11 = pre10 + enc11;
    let pre12 = pre11 + enc12;
    let pre13 = pre12 + enc13;
    assert(b.subrange(off, off + 600) == pre13);
    lemma_split_at(b, off, off + 336, off + 600, pre12, enc13);
    lemma_split_at(b, off, off + 332, off + 336, pre11, enc12);
    lemma_split_at(b, off, off + 328, off + 332, pre10, enc11);
    lemma_split_at(b, off, off + 320, off + 328, pre9, enc10);
    lemma_split_at(b, off, off + 312, off + 320, pre8, enc9);
    lemma_split_at(b, off, off + 308, off + 312, pre7, enc8);
    lemma_split_at(b, off, off + 304, off + 308, pre6, enc7);
    lemma_split_at(b, off, off + 292, off + 304, pre5, enc6);
    lemma_split_at(b, off, off + 280, off + 292, pre4, enc5);
    lemma_split_at(b, off, off + 272, off + 280, pre3, enc4);
    lemma_split_at(b, off, off + 264, off + 272, pre2, enc3);
    lemma_split_at(b, off, off + 8, off + 264, pre1, enc2);
    lemma_split_at(b, off, off + 4, off + 8, enc0, enc1);
    lemma_read_u32_at(b, off, w.context_flags, e);
    lemma_read_u32_at(b, off + 4, w._pad0, e);
    lemma_read_u64_seq_at(b, off + 8, w.iregs, e);
    lemma_read_u64_at(b, off + 264, w.mdhi, e);
    lemma_read_u64_at(b, off + 272, w.mdlo, e);
    lemma_read_u32_seq_at(b, off + 280, w.hi, e);
    lemma_read_u32_seq_at(b, off + 292, w.lo, e);
    lemma_read_u32_at(b, off + 304, w.dsp_control, e);
    lemma_read_u32_at(b, off + 308, w._pad1, e);
    lemma_read_u64_at(b, off + 312, w.epc, e);
    lemma_read_u64_at(b, off + 320, w.badvaddr, e);
    lemma_read_u32_at(b, off + 328, w.status, e);
    lemma_read_u32_at(b, off + 332, w.cause, e);
    lemma_floating_save_area_mips_encode_at(b, off + 336, w.float_save, e);
}

/// Round trip: decoding the encoding of a record yields the record, and
/// the encoding is exactly the record's fixed size.
pub proof fn lemma_context_mips_roundtrip(w: CONTEXT_MIPSView, e: Endianness)
    requires
        w.wf(),
    ensures
        CONTEXT_MIPS::spec_encode(w, e).len() == CONTEXT_MIPS::spec_size(),
        CONTEXT_MIPS::spec_decode(CONTEXT_MIPS::spec_encode(w, e), 0, e) == w,
{
    lemma_context_mips_encode_len(w, e);
    let enc = CONTEXT_MIPS::spec_encode(w, e);
    assert(enc.subrange(0, 600) =~= enc);
    lemma_context_mips_encode_at(enc, 0, w, e);
}

/// PPC floating point state.
#[derive(Debug, Clone, PartialEq)]
pub struct FLOATING_SAVE_AREA_PPC {
    pub fpregs: Vec<u64>,
    pub fpscr_pad: u32,
    pub fpscr: u32,
}

/// The mathematical value of a [`FLOATING_SAVE_AREA_PPC`]: the same fields with
/// sequences in place of vectors.
pub struct FLOATING_SAVE_AREA_PPCView {
    pub fpregs: Seq<u64>,
    pub fpscr_pad: u32,
    pub fpscr: u32,
}

impl View for FLOATING_SAVE_AREA_PPC {
    type V = FLOATING_SAVE_AREA_PPCView;

    open spec fn view(&self) -> FLOATING_SAVE_AREA_PPCView {
        FLOATING_SAVE_AREA_PPCView {
            fpregs: self.fpregs@,
            fpscr_pad: self.fpscr_pad,
            fpscr: self.fpscr,
        }
    }
}

impl FLOATING_SAVE_AREA_PPCView {
    /// Well-formed: every sequence field has its fixed length.
    pub open spec fn wf(self) -> bool {
        self.fpregs.len() == 32
    }
}

impl FLOATING_SAVE_AREA_PPC {
    /// The number of bytes this record occupies.
    pub open spec fn spec_size() -> nat {
        264
    }

    /// The record the bytes of `b` at `off` denote in byte order `e`.
    pub open spec fn spec_decode(b: Seq<u8>, off: int, e: Endianness) -> FLOATING_SAVE_AREA_PPCView {
        FLOATING_SAVE_AREA_PPCView {
            fpregs: spec_read_u64_seq(b, off, 32, e),
            fpscr_pad: spec_read_u32(b, off + 256, e),
            fpscr: spec_read_u32(b, off + 260, e),
        }
    }

    /// The bytes the record `w` encodes to in byte order `e`.
    pub open spec fn spec_encode(w: FLOATING_SAVE_AREA_PPCView, e: Endianness) -> Seq<u8> {
        spec_encode_u64_seq(w.fpregs, e)
            + spec_encode_u32(w.fpscr_pad, e)
            + spec_encode_u32(w.fpscr, e)
    }

    /// Reads the record at `off`, known to be in bounds.
    pub fn read_at(buf: &[u8], off: usize, e: Endianness) -> (r: Self)
        requires
            off + 264 <= buf@.len(),
        ensures
            r@ == Self::spec_decode(buf@, off as int, e),
    {
        let _blen = buf.len();  // a slice length fits usize, bounding the field offsets
        FLOATING_SAVE_AREA_PPC {
            fpregs: read_u64_vec(buf, off, 32, e),
            fpscr_pad: read_u32(buf, off + 256, e),
            fpscr: read_u32(buf, off + 260, e),
        }
    }

    /// Decodes the record at `off`: `Ok` exactly when the buffer holds
    /// `spec_size` bytes at `off`; the number returned with the record
    /// is the bytes consumed, always `spec_size`.
    pub fn decode(buf: &[u8], off: usize, e: Endianness) -> (r: Result<(Self, usize), DecodeError>)
        ensures
            match r {
                Ok((v, n)) => off + Self::spec_size() <= buf@.len()
                    && n == Self::spec_size()
                    && v@ == Self::spec_decode(buf@, off as int, e),
                Err(err) => err == DecodeError::OutOfBounds
                    && off + Self::spec_size() > buf@.len(),
            },
    {
        if buf.len() < 264 || off > buf.len() - 264 {
            return Err(DecodeError::OutOfBounds);
        }
        Ok((Self::read_at(buf, off, e), 264))
    }

    /// Appends this record's encoding in byte order `e` to `out`.
    pub fn write(&self, out: &mut Vec<u8>, e: Endianness)
        ensures
            final(out)@ == old(out)@ + Self::spec_encode(self@, e),
    {
        write_u64_vec(out, &self.fpregs, e);
        write_u32(out, self.fpscr_pad, e);
        write_u32(out, self.fpscr, e);
        assert(out@ =~= old(out)@ + Self::spec_encode(self@, e));
    }

    /// Encodes this record in byte order `e`.
    pub fn encode(&self, e: Endianness) -> (r: Vec<u8>)
        ensures
            r@ == Self::spec_encode(self@, e),
    {
        let mut out: Vec<u8> = Vec::new();
        self.write(&mut out, e);
        proof {
            assert(out@ =~= Self::spec_encode(self@, e));
        }
        out
    }
}

/// The encoding of a record is exactly [`FLOATING_SAVE_AREA_PPC::spec_size`] bytes.
pub proof fn lemma_floating_save_area_ppc_encode_len(w: FLOATING_SAVE_AREA_PPCView, e: Endianness)
    requires
        w.wf(),
    ensures
        FLOATING_SAVE_AREA_PPC::spec_encode(w, e).len() == 264,
{
    lemma_encode_lens();
    lemma_encode_u64_seq_len(w.fpregs, e);
}

/// Reading back the encoding of `w` found at offset `off` yields `w`.
pub proof fn lemma_floating_save_area_ppc_encode_at(b: Seq<u8>, off: int, w: FLOATING_SAVE_AREA_PPCView, e: Endianness)
    requires
        w.wf(),
        0 <= off,
        off + 264 <= b.len(),
        b.subrange(off, off + 264) == FLOATING_SAVE_AREA_PPC::spec_encode(w, e),
    ensures
        FLOATING_SAVE_AREA_PPC::spec_decode(b, off, e) == w,
{
    lemma_encode_lens();
    lemma_encode_u64_seq_len(w.fpregs, e);
    let enc0 = spec_encode_u64_seq(w.fpregs, e);
    let enc1 = spec_encode_u32(w.fpscr_pad, e);
    let enc2 = spec_encode_u32(w.fpscr, e);
    let pre1 = enc0 + enc1;
    let pre2 = pre1 + enc2;
    assert(b.subrange(off, off + 264) == pre2);
    lemma_split_at(b, off, off + 260, off + 264, pre1, enc2);
    lemma_split_at(b, off, off + 256, off + 260, enc0, enc1);
    lemma_read_u64_seq_at(b, off, w.fpregs, e);
    lemma_read_u32_at(b, off + 256, w.fpscr_pad, e);
    lemma_read_u32_at(b, off + 260, w.fpscr, e);
}

/// Round trip: decoding the encoding of a record yields the record, and
/// the encoding is exactly the record's fixed size.
pub proof fn lemma_floating_save_area_ppc_roundtrip(w: FLOATING_SAVE_AREA_PPCView, e: Endianness)
    requires
        w.wf(),
    ensures
        FLOATING_SAVE_AREA_PPC::spec_encode(w, e).len() == FLOATING_SAVE_AREA_PPC::spec_size(),
        FLOATING_SAVE_AREA_PPC::spec_decode(FLOATING_SAVE_AREA_PPC::spec_encode(w, e), 0, e) == w,
{
    lemma_floating_save_area_ppc_encode_len(w, e);
    let enc = FLOATING_SAVE_AREA_PPC::spec_encode(w, e);
    assert(enc.subrange(0, 264) =~= enc);
    lemma_floating_save_area_ppc_encode_at(enc, 0, w, e);
}

/// PPC vector state.
#[derive(Debug, Clone, PartialEq)]
pub struct VECTOR_SAVE_AREA_PPC {
    pub save_vr: Vec<u128>,
    pub save_vscr: u128,
    pub save_pad5: Vec<u32>,
    pub save_vrvalid: u32,
    pub save_pad6: Vec<u32>,
}

/// The mathematical value of a [`VECTOR_SAVE_AREA_PPC`]: the same fields with
/// sequences in place of vectors.
pub struct VECTOR_SAVE_AREA_PPCView {
    pub save_vr: Seq<u128>,
    pub save_vscr: u128,
    pub save_pad5: Seq<u32>,
    pub save_vrvalid: u32,
    pub save_pad6: Seq<u32>,
}

impl View for VECTOR_SAVE_AREA_PPC {
    type V = VECTOR_SAVE_AREA_PPCView;

    open spec fn view(&self) -> VECTOR_SAVE_AREA_PPCView {
        VECTOR_SAVE_AREA_PPCView {
            save_vr: self.save_vr@,
            save_vscr: self.save_vscr,
            save_pad5: self.save_pad5@,
            save_vrvalid: self.save_vrvalid,
            save_pad6: self.save_pad6@,
        }
    }
}

impl VECTOR_SAVE_AREA_PPCView {
    /// Well-formed: every sequence field has its fixed length.
    pub open spec fn wf(self) -> bool {
        &&& self.save_vr.len() == 32
        &&& self.save_pad5.len() == 4
        &&& self.save_pad6.len() == 7
    }
}

impl VECTOR_SAVE_AREA_PPC {
    /// The number of bytes this record occupies.
    pub open spec fn spec_size() -> nat {
        576
    }

    /// The record the bytes of `b` at `off` denote in byte order `e`.
    pub open spec fn spec_decode(b: Seq<u8>, off: int, e: Endianness) -> VECTOR_SAVE_AREA_PPCView {
        VECTOR_SAVE_AREA_PPCView {
            save_vr: spec_read_u128_seq(b, off, 32, e),
            save_vscr: spec_read_u128(b, off + 512, e),
            save_pad5: spec_read_u32_seq(b, off + 528, 4, e),
            save_vrvalid: spec_read_u32(b, off + 544, e),
            save_pad6: spec_read_u32_seq(b, off + 548, 7, e),
        }
    }

    /// The bytes the record `w` encodes to in byte order `e`.
    pub open spec fn spec_encode(w: VECTOR_SAVE_AREA_PPCView, e: Endianness) -> Seq<u8> {
        spec_encode_u128_seq(w.save_vr, e)
            + spec_encode_u128(w.save_vscr, e)
            + spec_encode_u32_seq(w.save_pad5, e)
            + spec_encode_u32(w.save_vrvalid, e)
            + spec_encode_u32_seq(w.save_pad6, e)
    }

    /// Reads the record at `off`, known to be in bounds.
    pub fn read_at(buf: &[u8], off: usize, e: Endianness) -> (r: Self)
        requires
            off + 576 <= buf@.len(),
        ensures
            r@ == Self::spec_decode(buf@, off as int, e),
    {
        let _blen = buf.len();  // a slice length fits usize, bounding the field offsets
        VECTOR_SAVE_AREA_PPC {
            save_vr: read_u128_vec(buf, off, 32, e),
            save_vscr: read_u128(buf, off + 512, e),
            save_pad5: read_u32_vec(buf, off + 528, 4, e),
            save_vrvalid: read_u32(buf, off + 544, e),
            save_pad6: read_u32_vec(buf, off + 548, 7, e),
        }
    }

    /// Decodes the record at `off`: `Ok` exactly when the buffer holds
    /// `spec_size` bytes at `off`; the number returned with the record
    /// is the bytes consumed, always `spec_size`.
    pub fn decode(buf: &[u8], off: usize, e: Endianness) -> (r: Result<(Self, usize), DecodeError>)
        ensures
            match r {
                Ok((v, n)) => off + Self::spec_size() <= buf@.len()
                    && n == Self::spec_size()
                    && v@ == Self::spec_decode(buf@, off as int, e),
                Err(err) => err == DecodeError::OutOfBounds
                    && off + Self::spec_size() > buf@.len(),
            },
    {
        if buf.len() < 576 || off > buf.len() - 576 {
            return Err(DecodeError::OutOfBounds);
        }
        Ok((Self::read_at(buf, off, e), 576))
    }

    /// Appends this record's encoding in byte order `e` to `out`.
    pub fn write(&self, out: &mut Vec<u8>, e: Endianness)
        ensures
            final(out)@ == old(out)@ + Self::spec_encode(self@, e),
    {
        write_u128_vec(out, &self.save_vr, e);
        write_u128(out, self.save_vscr, e);
        write_u32_vec(out, &self.save_pad5, e);
        write_u32(out, self.save_vrvalid, e);
        write_u32_vec(out, &self.save_pad6, e);
        assert(out@ =~= old(out)@ + Self::spec_encode(self@, e));
    }

    /// Encodes this record in byte order `e`.
    pub fn encode(&self, e: Endianness) -> (r: Vec<u8>)
        ensures
            r@ == Self::spec_encode(self@, e),
    {
        let mut out: Vec<u8> = Vec::new();
        self.write(&mut out, e);
        proof {
            assert(out@ =~= Self::spec_encode(self@, e));
        }
        out
    }
}

/// The encoding of a record is exactly [`VECTOR_SAVE_AREA_PPC::spec_size`] bytes.
pub proof fn lemma_vector_save_area_ppc_encode_len(w: VECTOR_SAVE_AREA_PPCView, e: Endianness)
    requires
        w.wf(),
    ensures
        VECTOR_SAVE_AREA_PPC::spec_encode(w, e).len() == 576,
{
    lemma_encode_lens();
    lemma_encode_u128_seq_len(w.save_vr, e);
    lemma_encode_u32_seq_len(w.save_pad5, e);
    lemma_encode_u32_seq_len(w.save_pad6, e);
}

/// Reading back the encoding of `w` found at offset `off` yields `w`.
pub proof fn lemma_vector_save_area_ppc_encode_at(b: Seq<u8>, off: int, w: VECTOR_SAVE_AREA_PPCView, e: Endianness)
    requires
        w.wf(),
        0 <= off,
        off + 576 <= b.len(),
        b.subrange(off, off + 576) == VECTOR_SAVE_AREA_PPC::spec_encode(w, e),
    ensures
        VECTOR_SAVE_AREA_PPC::spec_decode(b, off, e) == w,
{
    lemma_encode_lens();
    lemma_encode_u128_seq_len(w.save_vr, e);
    lemma_encode_u32_seq_len(w.save_pad5, e);
    lemma_encode_u32_seq_len(w.save_pad6, e);
    let enc0 = spec_encode_u128_seq(w.save_vr, e);
    let enc1 = spec_encode_u128(w.save_vscr, e);
    let enc2 = spec_encode_u32_seq(w.save_pad5, e);
    let enc3 = spec_encode_u32(w.save_vrvalid, e);
    let enc4 = spec_encode_u32_seq(w.save_pad6, e);
    let pre1 = enc0 + enc1;
    let pre2 = pre1 + enc2;
    let pre3 = pre2 + enc3;
    let pre4 = pre3 + enc4;
    assert(b.subrange(off, off + 576) == pre4);
    lemma_split_at(b, off, off + 548, off + 576, pre3, enc4);
    lemma_split_at(b, off, off + 544, off + 548, pre2, enc3);
    lemma_split_at(b, off, off + 528, off + 544, pre1, enc2);
    lemma_split_at(b, off, off + 512, off + 528, enc0, enc1);
    lemma_read_u128_seq_at(b, off, w.save_vr, e);
    lemma_read_u128_at(b, off + 512, w.save_vscr, e);
    lemma_read_u32_seq_at(b, off + 528, w.save_pad5, e);
    lemma_read_u32_at(b, off + 544, w.save_vrvalid, e);
    lemma_read_u32_seq_at(b, off + 548, w.save_pad6, e);
}

/// Round trip: decoding the encoding of a record yields the record, and
/// the encoding is exactly the record's fixed size.
pub proof fn lemma_vector_save_area_ppc_roundtrip(w: VECTOR_SAVE_AREA_PPCView, e: Endianness)
    requires
        w.wf(),
    ensures
        VECTOR_SAVE_AREA_PPC::spec_encode(w, e).len() == VECTOR_SAVE_AREA_PPC::spec_size(),
        VECTOR_SAVE_AREA_PPC::spec_decode(VECTOR_SAVE_AREA_PPC::spec_encode(w, e), 0, e) == w,
{
    lemma_vector_save_area_ppc_encode_len(w, e);
    let enc = VECTOR_SAVE_AREA_PPC::spec_encode(w, e);
    assert(enc.subrange(0, 576) =~= enc);
    lemma_vector_save_area_ppc_encode_at(enc, 0, w, e);
}

/// A PPC CPU context (a Breakpad extension, as there is no definition of
/// `CONTEXT` for PPC in WinNT.h).
#[derive(Debug, Clone, PartialEq)]
pub struct CONTEXT_PPC {
    pub context_flags: u32,
    pub srr0: u32,
    pub srr1: u32,
    pub gpr: Vec<u32>,
    pub cr: u32,
    pub xer: u32,
    pub lr: u32,
    pub ctr: u32,
    pub mq: u32,
    pub vrsave: u32,
    pub float_save: FLOATING_SAVE_AREA_PPC,
    pub vector_save: VECTOR_SAVE_AREA_PPC,
}

/// The mathematical value of a [`CONTEXT_PPC`]: the same fields with
/// sequences in place of vectors.
pub struct CONTEXT_PPCView {
    pub context_flags: u32,
    pub srr0: u32,
    pub srr1: u32,
    pub gpr: Seq<u32>,
    pub cr: u32,
    pub xer: u32,
    pub lr: u32,
    pub ctr: u32,
    pub mq: u32,
    pub vrsave: u32,
    pub float_save: FLOATING_SAVE_AREA_PPCView,
    pub vector_save: VECTOR_SAVE_AREA_PPCView,
}

impl View for CONTEXT_PPC {
    type V = CONTEXT_PPCView;

    open spec fn view(&self) -> CONTEXT_PPCView {
        CONTEXT_PPCView {
            context_flags: self.context_flags,
            srr0: self.srr0,
            srr1: self.srr1,
            gpr: self.gpr@,
            cr: self.cr,
            xer: self.xer,
            lr: self.lr,
            ctr: self.ctr,
            mq: self.mq,
            vrsave: self.vrsave,
            float_save: self.float_save@,
            vector_save: self.vector_save@,
        }
    }
}

impl CONTEXT_PPCView {
    /// Well-formed: every sequence field has its fixed length.
    pub open spec fn wf(self) -> bool {
        &&& self.gpr.len() == 32
        &&& self.float_save.wf()
        &&& self.vector_save.wf()
    }
}

impl CONTEXT_PPC {
    /// The number of bytes this record occupies.
    pub open spec fn spec_size() -> nat {
        1004
    }

    /// The record the bytes of `b` at `off` denote in byte order `e`.
    pub open spec fn spec_decode(b: Seq<u8>, off: int, e: Endianness) -> CONTEXT_PPCView {
        CONTEXT_PPCView {
            context_flags: spec_read_u32(b, off, e),
            srr0: spec_read_u32(b, off + 4, e),
            srr1: spec_read_u32(b, off + 8, e),
            gpr: spec_read_u32_seq(b, off + 12, 32, e),
            cr: spec_read_u32(b, off + 140, e),
            xer: spec_read_u32(b, off + 144, e),
            lr: spec_read_u32(b, off + 148, e),
            ctr: spec_read_u32(b, off + 152, e),
            mq: spec_read_u32(b, off + 156, e),
            vrsave: spec_read_u32(b, off + 160, e),
            float_save: FLOATING_SAVE_AREA_PPC::spec_decode(b, off + 164, e),
            vector_save: VECTOR_SAVE_AREA_PPC::spec_decode(b, off + 428, e),
        }
    }

    /// The bytes the record `w` encodes to in byte order `e`.
    pub open spec fn spec_encode(w: CONTEXT_PPCView, e: Endianness) -> Seq<u8> {
        spec_encode_u32(w.context_flags, e)
            + spec_encode_u32(w.srr0, e)
            + spec_encode_u32(w.srr1, e)
            + spec_encode_u32_seq(w.gpr, e)
            + spec_encode_u32(w.cr, e)
            + spec_encode_u32(w.xer, e)
            + spec_encode_u32(w.lr, e)
            + spec_encode_u32(w.ctr, e)
            + spec_encode_u32(w.mq, e)
            + spec_encode_u32(w.vrsave, e)
            + FLOATING_SAVE_AREA_PPC::spec_encode(w.float_save, e)
            + VECTOR_SAVE_AREA_PPC::spec_encode(w.vector_save, e)
    }

    /// Reads the record at `off`, known to be in bounds.
    pub fn read_at(buf: &[u8], off: usize, e: Endianness) -> (r: Self)
        requires
            off + 1004 <= buf@.len(),
        ensures
            r@ == Self::spec_decode(buf@, off as int, e),
    {
        let _blen = buf.len();  // a slice length fits usize, bounding the field offsets
        CONTEXT_PPC {
            context_flags: read_u32(buf, off, e),
            srr0: read_u32(buf, off + 4, e),
            srr1: read_u32(buf, off + 8, e),
            gpr: read_u32_vec(buf, off + 12, 32, e),
            cr: read_u32(buf, off + 140, e),
            xer: read_u32(buf, off + 144, e),
            lr: read_u32(buf, off + 148, e),
            ctr: read_u32(buf, off + 152, e),
            mq: read_u32(buf, off + 156, e),
            vrsave: read_u32(buf, off + 160, e),
            float_save: FLOATING_SAVE_AREA_PPC::read_at(buf, off + 164, e),
            vector_save: VECTOR_SAVE_AREA_PPC::read_at(buf, off + 428, e),
        }
    }

    /// Decodes the record at `off`: `Ok` exactly when the buffer holds
    /// `spec_size` bytes at `off`; the number returned with the record
    /// is the bytes consumed, always `spec_size`.
    pub fn decode(buf: &[u8], off: usize, e: Endianness) -> (r: Result<(Self, usize), DecodeError>)
        ensures
            match r {
                Ok((v, n)) => off + Self::spec_size() <= buf@.len()
                    && n == Self::spec_size()
                    && v@ == Self::spec_decode(buf@, off as int, e),
                Err(err) => err == DecodeError::OutOfBounds
                    && off + Self::spec_size() > buf@.len(),
            },
    {
        if buf.len() < 1004 || off > buf.len() - 1004 {
            return Err(DecodeError::OutOfBounds);
        }
        Ok((Self::read_at(buf, off, e), 1004))
    }

    /// Appends this record's encoding in byte order `e` to `out`.
    #[verifier::spinoff_prover]
    #[verifier::rlimit(100)]
    pub fn write(&self, out: &mut Vec<u8>, e: Endianness)
        ensures
            final(out)@ == old(out)@ + Self::spec_encode(self@, e),
    {
        let ghost enc0 = spec_encode_u32(self@.context_flags, e);
        let ghost enc1 = spec_encode_u32(self@.srr0, e);
        let ghost enc2 = spec_encode_u32(self@.srr1, e);
        let ghost enc3 = spec_encode_u32_seq(self.gpr@, e);
        let ghost enc4 = spec_encode_u32(self@.cr, e);
        let ghost enc5 = spec_encode_u32(self@.xer, e);
        let ghost enc6 = spec_encode_u32(self@.lr, e);
        let ghost enc7 = spec_encode_u32(self@.ctr, e);
        let ghost enc8 = spec_encode_u32(self@.mq, e);
        let ghost enc9 = spec_encode_u32(self@.vrsave, e);
        let ghost enc10 = FLOATING_SAVE_AREA_PPC::spec_encode(self.float_save@, e);
        let ghost enc11 = VECTOR_SAVE_AREA_PPC::spec_encode(self.vector_save@, e);
        let ghost pre1 = enc0 + enc1;
        let ghost pre2 = pre1 + enc2;
        let ghost pre3 = pre2 + enc3;
        let ghost pre4 = pre3 + enc4;
        let ghost pre5 = pre4 + enc5;
        let ghost pre6 = pre5 + enc6;
        let ghost pre7 = pre6 + enc7;
        let ghost pre8 = pre7 + enc8;
        let ghost pre9 = pre8 + enc9;
        let ghost pre10 = pre9 + enc10;
        let ghost pre11 = pre10 + enc11;
        write_u32(out, self.context_flags, e);
        proof { assert(out@ == old(out)@ + enc0); }
        write_u32(out, self.srr0, e);
        proof {
            lemma_seq_add_assoc(old(out)@, enc0, enc1);
            assert(out@ == old(out)@ + pre1);
        }
        write_u32(out, self.srr1, e);
        proof {
            lemma_seq_add_assoc(old(out)@, pre1, enc2);
            assert(out@ == old(out)@ + pre2);
        }
        write_u32_vec(out, &self.gpr, e);
        proof {
            lemma_seq_add_assoc(old(out)@, pre2, enc3);
            assert(out@ == old(out)@ + pre3);
        }
        write_u32(out, self.cr, e);
        proof {
            lemma_seq_add_assoc(old(out)@, pre3, enc4);
            assert(out@ == old(out)@ + pre4);
        }
        write_u32(out, self.xer, e);
        proof {
            lemma_seq_add_assoc(old(out)@, pre4, enc5);
            assert(out@ == old(out)@ + pre5);
        }
        write_u32(out, self.lr, e);
        proof {
            lemma_seq_add_assoc(old(out)@, pre5, enc6);
            assert(out@ == old(out)@ + pre6);
        }
        write_u32(out, self.ctr, e);
        proof {
            lemma_seq_add_assoc(old(out)@, pre6, enc7);
            assert(out@ == old(out)@ + pre7);
        }
        write_u32(out, self.mq, e);
        proof {
            lemma_seq_add_assoc(old(out)@, pre7, enc8);
            assert(out@ == old(out)@ + pre8);
        }
        write_u32(out, self.vrsave, e);
        proof {
            lemma_seq_add_assoc(old(out)@, pre8, enc9);
            assert(out@ == old(out)@ + pre9);
        }
        self.float_save.write(out, e);
        proof {
            lemma_seq_add_assoc(old(out)@, pre9, enc10);
            assert(out@ == old(out)@ + pre10);
        }
        self.vector_save.write(out, e);
        proof {
            lemma_seq_add_assoc(old(out)@, pre10, enc11);
            assert(out@ == old(out)@ + pre11);
        }
        assert(out@ == old(out)@ + Self::spec_encode(self@, e));
    }

    /// Encodes this record in byte order `e`.
    pub fn encode(&self, e: Endianness) -> (r: Vec<u8>)
        ensures
            r@ == Self::spec_encode(self@, e),
    {
        let mut out: Vec<u8> = Vec::new();
        self.write(&mut out, e);
        proof {
            assert(out@ =~= Self::spec_encode(self@, e));
        }
        out
    }
}

/// The encoding of a record is exactly [`CONTEXT_PPC::spec_size`] bytes.
pub proof fn lemma_context_ppc_encode_len(w: CONTEXT_PPCView, e: Endianness)
    requires
        w.wf(),
    ensures
        CONTEXT_PPC::spec_encode(w, e).len() == 1004,
{
    lemma_encode_lens();
    lemma_encode_u32_seq_len(w.gpr, e);
    lemma_floating_save_area_ppc_encode_len(w.float_save, e);
    lemma_vector_save_area_ppc_encode_len(w.vector_save, e);
}

/// Reading back the encoding of `w` found at offset `off` yields `w`.
pub proof fn lemma_context_ppc_encode_at(b: Seq<u8>, off: int, w: CONTEXT_PPCView, e: Endianness)
    requires
        w.wf(),
        0 <= off,
        off + 1004 <= b.len(),
        b.subrange(off, off + 1004) == CONTEXT_PPC::spec_encode(w, e),
    ensures
        CONTEXT_PPC::spec_decode(b, off, e) == w,
{
    lemma_encode_lens();
    lemma_encode_u32_seq_len(w.gpr, e);
    lemma_floating_save_area_ppc_encode_len(w.float_save, e);
    lemma_vector_save_area_ppc_encode_len(w.vector_save, e);
    let enc0 = spec_encode_u32(w.context_flags, e);
    let enc1 = spec_encode_u32(w.srr0, e);
    let enc2 = spec_encode_u32(w.srr1, e);
    let enc3 = spec_encode_u32_seq(w.gpr, e);
    let enc4 = spec_encode_u32(w.cr, e);
    let enc5 = spec_encode_u32(w.xer, e);
    let enc6 = spec_encode_u32(w.lr, e);
    let enc7 = spec_encode_u32(w.ctr, e);
    let enc8 = spec_encode_u32(w.mq, e);
    let enc9 = spec_encode_u32(w.vrsave, e);
    let enc10 = FLOATING_SAVE_AREA_PPC::spec_encode(w.float_save, e);
    let enc11 = VECTOR_SAVE_AREA_PPC::spec_encode(w.vector_save, e);
    let pre1 = enc0 + enc1;
    let pre2 = pre1 + enc2;
    let pre3 = pre2 + enc3;
    let pre4 = pre3 + enc4;
    let pre5 = pre4 + enc5;
    let pre6 = pre5 + enc6;
    let pre7 = pre6 + enc7;
    let pre8 = pre7 + enc8;
    let pre9 = pre8 + enc9;
    let pre10 = pre9 + enc10;
    let pre11 = pre10 + enc11;
    assert(b.subrange(off, off + 1004) == pre11);
    lemma_split_at(b, off, off + 428, off + 1004, pre10, enc11);
    lemma_split_at(b, off, off + 164, off + 428, pre9, enc10);
    lemma_split_at(b, off, off + 160, off + 164, pre8, enc9);
    lemma_split_at(b, off, off + 156, off + 160, pre7, enc8);
    lemma_split_at(b, off, off + 152, off + 156, pre6, enc7);
    lemma_split_at(b, off, off + 148, off + 152, pre5, enc6);
    lemma_split_at(b, off, off + 144, off + 148, pre4, enc5);
    lemma_split_at(b, off, off + 140, off + 144, pre3, enc4);
    lemma_split_at(b, off, off + 12, off + 140, pre2, enc3);
    lemma_split_at(b, off, off + 8, off + 12, pre1, enc2);
    lemma_split_at(b, off, off + 4, off + 8, enc0, enc1);
    lemma_read_u32_at(b, off, w.context_flags, e);
    lemma_read_u32_at(b, off + 4, w.srr0, e);
    lemma_read_u32_at(b, off + 8, w.srr1, e);
    lemma_read_u32_seq_at(b, off + 12, w.gpr, e);
    lemma_read_u32_at(b, off + 140, w.cr, e);
    lemma_read_u32_at(b, off + 144, w.xer, e);
    lemma_read_u32_at(b, off + 148, w.lr, e);
    lemma_read_u32_at(b, off + 152, w.ctr, e);
    lemma_read_u32_at(b, off + 156, w.mq, e);
    lemma_read_u32_at(b, off + 160, w.vrsave, e);
    lemma_floating_save_area_ppc_encode_at(b, off + 164, w.float_save, e);
    lemma_vector_save_area_ppc_encode_at(b, off + 428, w.vector_save, e);
}

/// Round trip: decoding the encoding of a record yields the record, and
/// the encoding is exactly the record's fixed size.
pub proof fn lemma_context_ppc_roundtrip(w: CONTEXT_PPCView, e: Endianness)
    requires
        w.wf(),
    ensures
        CONTEXT_PPC::spec_encode(w, e).len() == CONTEXT_PPC::spec_size(),
        CONTEXT_PPC::spec_decode(CONTEXT_PPC::spec_encode(w, e), 0, e) == w,
{
    lemma_context_ppc_encode_len(w, e);
    let enc = CONTEXT_PPC::spec_encode(w, e);
    assert(enc.subrange(0, 1004) =~= enc);
    lemma_context_ppc_encode_at(enc, 0, w, e);
}

/// A PPC64 CPU context (a Breakpad extension, as there is no definition of
/// `CONTEXT` for PPC64 in WinNT.h).
#[derive(Debug, Clone, PartialEq)]
pub struct CONTEXT_PPC64 {
    pub context_flags: u64,
    pub srr0: u64,
    pub srr1: u64,
    pub gpr: Vec<u64>,
    pub cr: u64,
    pub xer: u64,
    pub lr: u64,
    pub ctr: u64,
    pub vrsave: u64,
    pub float_save: FLOATING_SAVE_AREA_PPC,
    pub vector_save: VECTOR_SAVE_AREA_PPC,
}

/// The mathematical value of a [`CONTEXT_PPC64`]: the same fields with
/// sequences in place of vectors.
pub struct CONTEXT_PPC64View {
    pub context_flags: u64,
    pub srr0: u64,
    pub srr1: u64,
    pub gpr: Seq<u64>,
    pub cr: u64,
    pub xer: u64,
    pub lr: u64,
    pub ctr: u64,
    pub vrsave: u64,
    pub float_save: FLOATING_SAVE_AREA_PPCView,
    pub vector_save: VECTOR_SAVE_AREA_PPCView,
}

impl View for CONTEXT_PPC64 {
    type V = CONTEXT_PPC64View;

    open spec fn view(&self) -> CONTEXT_PPC64View {
        CONTEXT_PPC64View {
            context_flags: self.context_flags,
            srr0: self.srr0,
            srr1: self.srr1,
            gpr: self.gpr@,
            cr: self.cr,
            xer: self.xer,
            lr: self.lr,
            ctr: self.ctr,
            vrsave: self.vrsave,
            float_save: self.float_save@,
            vector_save: self.vector_save@,
        }
    }
}

impl CONTEXT_PPC64View {
    /// Well-formed: every sequence field has its fixed length.
    pub open spec fn wf(self) -> bool {
        &&& self.gpr.len() == 32
        &&& self.float_save.wf()
        &&& self.vector_save.wf()
    }
}

impl CONTEXT_PPC64 {
    /// The number of bytes this record occupies.
    pub open spec fn spec_size() -> nat {
        1160
    }

    /// The record the bytes of `b` at `off` denote in byte order `e`.
    pub open spec fn spec_decode(b: Seq<u8>, off: int, e: Endianness) -> CONTEXT_PPC64View {
        CONTEXT_PPC64View {
            context_flags: spec_read_u64(b, off, e),
            srr0: spec_read_u64(b, off + 8, e),
            srr1: spec_read_u64(b, off + 16, e),
            gpr: spec_read_u64_seq(b, off + 24, 32, e),
            cr: spec_read_u64(b, off + 280, e),
            xer: spec_read_u64(b, off + 288, e),
            lr: spec_read_u64(b, off + 296, e),
            ctr: spec_read_u64(b, off + 304, e),
            vrsave: spec_read_u64(b, off + 312, e),
            float_save: FLOATING_SAVE_AREA_PPC::spec_decode(b, off + 320, e),
            vector_save: VECTOR_SAVE_AREA_PPC::spec_decode(b, off + 584, e),
        }
    }

    /// The bytes the record `w` encodes to in byte order `e`.
    pub open spec fn spec_encode(w: CONTEXT_PPC64View, e: Endianness) -> Seq<u8> {
        spec_encode_u64(w.context_flags, e)
            + spec_encode_u64(w.srr0, e)
            + spec_encode_u64(w.srr1, e)
            + spec_encode_u64_seq(w.gpr, e)
            + spec_encode_u64(w.cr, e)
            + spec_encode_u64(w.xer, e)
            + spec_encode_u64(w.lr, e)
            + spec_encode_u64(w.ctr, e)
            + spec_encode_u64(w.vrsave, e)
            + FLOATING_SAVE_AREA_PPC::spec_encode(w.float_save, e)
            + VECTOR_SAVE_AREA_PPC::spec_encode(w.vector_save, e)
    }

    /// Reads the record at `off`, known to be in bounds.
    pub fn read_at(buf: &[u8], off: usize, e: Endianness) -> (r: Self)
        requires
            off + 1160 <= buf@.len(),
        ensures
            r@ == Self::spec_decode(buf@, off as int, e),
    {
        let _blen = buf.len();  // a slice length fits usize, bounding the field offsets
        CONTEXT_PPC64 {
            context_flags: read_u64(buf, off, e),
            srr0: read_u64(buf, off + 8, e),
            srr1: read_u64(buf, off + 16, e),
            gpr: read_u64_vec(buf, off + 24, 32, e),
            cr: read_u64(buf, off + 280, e),
            xer: read_u64(buf, off + 288, e),
            lr: read_u64(buf, off + 296, e),
            ctr: read_u64(buf, off + 304, e),
            vrsave: read_u64(buf, off + 312, e),
            float_save: FLOATING_SAVE_AREA_PPC::read_at(buf, off + 320, e),
            vector_save: VECTOR_SAVE_AREA_PPC::read_at(buf, off + 584, e),
        }
    }

    /// Decodes the record at `off`: `Ok` exactly when the buffer holds
    /// `spec_size` bytes at `off`; the number returned with the record
    /// is the bytes consumed, always `spec_size`.
    pub fn decode(buf: &[u8], off: usize, e: Endianness) -> (r: Result<(Self, usize), DecodeError>)
        ensures
            match r {
                Ok((v, n)) => off + Self::spec_size() <= buf@.len()
                    && n == Self::spec_size()
                    && v@ == Self::spec_decode(buf@, off as int, e),
                Err(err) => err == DecodeError::OutOfBounds
                    && off + Self::spec_size() > buf@.len(),
            },
    {
        if buf.len() < 1160 || off > buf.len() - 1160 {
            return Err(DecodeError::OutOfBounds);
        }
        Ok((Self::read_at(buf, off, e), 1160))
    }

    /// Appends this record's encoding in byte order `e` to `out`.
    #[verifier::spinoff_prover]
    #[verifier::rlimit(100)]
    pub fn write(&self, out: &mut Vec<u8>, e: Endianness)
        ensures
            final(out)@ == old(out)@ + Self::spec_encode(self@, e),
    {
        let ghost enc0 = spec_encode_u64(self@.context_flags, e);
        let ghost enc1 = spec_encode_u64(self@.srr0, e);
        let ghost enc2 = spec_encode_u64(self@.srr1, e);
        let ghost enc3 = spec_encode_u64_seq(self.gpr@, e);
        let ghost enc4 = spec_encode_u64(self@.cr, e);
        let ghost enc5 = spec_encode_u64(self@.xer, e);
        let ghost enc6 = spec_encode_u64(self@.lr, e);
        let ghost enc7 = spec_encode_u64(self@.ctr, e);
        let ghost enc8 = spec_encode_u64(self@.vrsave, e);
        let ghost enc9 = FLOATING_SAVE_AREA_PPC::spec_encode(self.float_save@, e);
        let ghost enc10 = VECTOR_SAVE_AREA_PPC::spec_encode(self.vector_save@, e);
        let ghost pre1 = enc0 + enc1;
        let ghost pre2 = pre1 + enc2;
        let ghost pre3 = pre2 + enc3;
        let ghost pre4 = pre3 + enc4;
        let ghost pre5 = pre4 + enc5;
        let ghost pre6 = pre5 + enc6;
        let ghost pre7 = pre6 + enc7;
        let ghost pre8 = pre7 + enc8;
        let ghost pre9 = pre8 + enc9;
        let ghost pre10 = pre9 + enc10;
        write_u64(out, self.context_flags, e);
        proof { assert(out@ == old(out)@ + enc0); }
        write_u64(out, self.srr0, e);
        proof {
            lemma_seq_add_assoc(old(out)@, enc0, enc1);
            assert(out@ == old(out)@ + pre1);
        }
        write_u64(out, self.srr1, e);
        proof {
            lemma_seq_add_assoc(old(out)@, pre1, enc2);
            assert(out@ == old(out)@ + pre2);
        }
        write_u64_vec(out, &self.gpr, e);
        proof {
            lemma_seq_add_assoc(old(out)@, pre2, enc3);
            assert(out@ == old(out)@ + pre3);
        }
        write_u64(out, self.cr, e);
        proof {
            lemma_seq_add_assoc(old(out)@, pre3, enc4);
            assert(out@ == old(out)@ + pre4);
        }
        write_u64(out, self.xer, e);
        proof {
            lemma_seq_add_assoc(old(out)@, pre4, enc5);
            assert(out@ == old(out)@ + pre5);
        }
        write_u64(out, self.lr, e);
        proof {
            lemma_seq_add_assoc(old(out)@, pre5, enc6);
            assert(out@ == old(out)@ + pre6);
        }
        write_u64(out, self.ctr, e);
        proof {
            lemma_seq_add_assoc(old(out)@, pre6, enc7);
            assert(out@ == old(out)@ + pre7);
        }
        write_u64(out, self.vrsave, e);
        proof {
            lemma_seq_add_assoc(old(out)@, pre7, enc8);
            assert(out@ == old(out)@ + pre8);
        }
        self.float_save.write(out, e);
        proof {
            lemma_seq_add_assoc(old(out)@, pre8, enc9);
            assert(out@ == old(out)@ + pre9);
        }
        self.vector_save.write(out, e);
        proof {
            lemma_seq_add_assoc(old(out)@, pre9, enc10);
            assert(out@ == old(out)@ + pre10);
        }
        assert(out@ == old(out)@ + Self::spec_encode(self@, e));
    }

    /// Encodes this record in byte order `e`.
    pub fn encode(&self, e: Endianness) -> (r: Vec<u8>)
        ensures
            r@ == Self::spec_encode(self@, e),
    {
        let mut out: Vec<u8> = Vec::new();
        self.write(&mut out, e);
        proof {
            assert(out@ =~= Self::spec_encode(self@, e));
        }
        out
    }
}

/// The encoding of a record is exactly [`CONTEXT_PPC64::spec_size`] bytes.
pub proof fn lemma_context_ppc64_encode_len(w: CONTEXT_PPC64View, e: Endianness)
    requires
        w.wf(),
    ensures
        CONTEXT_PPC64::spec_encode(w, e).len() == 1160,
{
    lemma_encode_lens();
    lemma_encode_u64_seq_len(w.gpr, e);
    lemma_floating_save_area_ppc_encode_len(w.float_save, e);
    lemma_vector_save_area_ppc_encode_len(w.vector_save, e);
}

/// Reading back the encoding of `w` found at offset `off` yields `w`.
pub proof fn lemma_context_ppc64_encode_at(b: Seq<u8>, off: int, w: CONTEXT_PPC64View, e: Endianness)
    requires
        w.wf(),
        0 <= off,
        off + 1160 <= b.len(),
        b.subrange(off, off + 1160) == CONTEXT_PPC64::spec_encode(w, e),
    ensures
        CONTEXT_PPC64::spec_decode(b, off, e) == w,
{
    lemma_encode_lens();
    lemma_encode_u64_seq_len(w.gpr, e);
    lemma_floating_save_area_ppc_encode_len(w.float_save, e);
    lemma_vector_save_area_ppc_encode_len(w.vector_save, e);
    let enc0 = spec_encode_u64(w.context_flags, e);
    let enc1 = spec_encode_u64(w.srr0, e);
    let enc2 = spec_encode_u64(w.srr1, e);
    let enc3 = spec_encode_u64_seq(w.gpr, e);
    let enc4 = spec_encode_u64(w.cr, e);
    let enc5 = spec_encode_u64(w.xer, e);
    let enc6 = spec_encode_u64(w.lr, e);
    let enc7 = spec_encode_u64(w.ctr, e);
    let enc8 = spec_encode_u64(w.vrsave, e);
    let enc9 = FLOATING_SAVE_AREA_PPC::spec_encode(w.float_save, e);
    let enc10 = VECTOR_SAVE_AREA_PPC::spec_encode(w.vector_save, e);
    let pre1 = enc0 + enc1;
    let pre2 = pre1 + enc2;
    let pre3 = pre2 + enc3;
    let pre4 = pre3 + enc4;
    let pre5 = pre4 + enc5;
    let pre6 = pre5 + enc6;
    let pre7 = pre6 + enc7;
    let pre8 = pre7 + enc8;
    let pre9 = pre8 + enc9;
    let pre10 = pre9 + enc10;
    assert(b.subrange(off, off + 1160) == pre10);
    lemma_split_at(b, off, off + 584, off + 1160, pre9, enc10);
    lemma_split_at(b, off, off + 320, off + 584, pre8, enc9);
    lemma_split_at(b, off, off + 312, off + 320, pre7, enc8);
    lemma_split_at(b, off, off + 304, off + 312, pre6, enc7);
    lemma_split_at(b, off, off + 296, off + 304, pre5, enc6);
    lemma_split_at(b, off, off + 288, off + 296, pre4, enc5);
    lemma_split_at(b, off, off + 280, off + 288, pre3, enc4);
    lemma_split_at(b, off, off + 24, off + 280, pre2, enc3);
    lemma_split_at(b, off, off + 16, off + 24, pre1, enc2);
    lemma_split_at(b, off, off + 8, off + 16, enc0, enc1);
    lemma_read_u64_at(b, off, w.context_flags, e);
    lemma_read_u64_at(b, off + 8, w.srr0, e);
    lemma_read_u64_at(b, off + 16, w.srr1, e);
    lemma_read_u64_seq_at(b, off + 24, w.gpr, e);
    lemma_read_u64_at(b, off + 280, w.cr, e);
    lemma_read_u64_at(b, off + 288, w.xer, e);
    lemma_read_u64_at(b, off + 296, w.lr, e);
    lemma_read_u64_at(b, off + 304, w.ctr, e);
    lemma_read_u64_at(b, off + 312, w.vrsave, e);
    lemma_floating_save_area_ppc_encode_at(b, off + 320, w.float_save, e);
    lemma_vector_save_area_ppc_encode_at(b, off + 584, w.vector_save, e);
}

/// Round trip: decoding the encoding of a record yields the record, and
/// the encoding is exactly the record's fixed size.
pub proof fn lemma_context_ppc64_roundtrip(w: CONTEXT_PPC64View, e: Endianness)
    requires
        w.wf(),
    ensures
        CONTEXT_PPC64::spec_encode(w, e).len() == CONTEXT_PPC64::spec_size(),
        CONTEXT_PPC64::spec_decode(CONTEXT_PPC64::spec_encode(w, e), 0, e) == w,
{
    lemma_context_ppc64_encode_len(w, e);
    let enc = CONTEXT_PPC64::spec_encode(w, e);
    assert(enc.subrange(0, 1160) =~= enc);
    lemma_context_ppc64_encode_at(enc, 0, w, e);
}

/// SPARC floating point state.
#[derive(Debug, Clone, PartialEq)]
pub struct FLOATING_SAVE_AREA_SPARC {
    pub regs: Vec<u64>,
    pub filler: u64,
    pub fsr: u64,
}

/// The mathematical value of a [`FLOATING_SAVE_AREA_SPARC`]: the same fields with
/// sequences in place of vectors.
pub struct FLOATING_SAVE_AREA_SPARCView {
    pub regs: Seq<u64>,
    pub filler: u64,
    pub fsr: u64,
}

impl View for FLOATING_SAVE_AREA_SPARC {
    type V = FLOATING_SAVE_AREA_SPARCView;

    open spec fn view(&self) -> FLOATING_SAVE_AREA_SPARCView {
        FLOATING_SAVE_AREA_SPARCView {
            regs: self.regs@,
            filler: self.filler,
            fsr: self.fsr,
        }
    }
}

impl FLOATING_SAVE_AREA_SPARCView {
    /// Well-formed: every sequence field has its fixed length.
    pub open spec fn wf(self) -> bool {
        self.regs.len() == 32
    }
}

impl FLOATING_SAVE_AREA_SPARC {
    /// The number of bytes this record occupies.
    pub open spec fn spec_size() -> nat {
        272
    }

    /// The record the bytes of `b` at `off` denote in byte order `e`.
    pub open spec fn spec_decode(b: Seq<u8>, off: int, e: Endianness) -> FLOATING_SAVE_AREA_SPARCView {
        FLOATING_SAVE_AREA_SPARCView {
            regs: spec_read_u64_seq(b, off, 32, e),
            filler: spec_read_u64(b, off + 256, e),
            fsr: spec_read_u64(b, off + 264, e),
        }
    }

    /// The bytes the record `w` encodes to in byte order `e`.
    pub open spec fn spec_encode(w: FLOATING_SAVE_AREA_SPARCView, e: Endianness) -> Seq<u8> {
        spec_encode_u64_seq(w.regs, e)
            + spec_encode_u64(w.filler, e)
            + spec_encode_u64(w.fsr, e)
    }

    /// Reads the record at `off`, known to be in bounds.
    pub fn read_at(buf: &[u8], off: usize, e: Endianness) -> (r: Self)
        requires
            off + 272 <= buf@.len(),
        ensures
            r@ == Self::spec_decode(buf@, off as int, e),
    {
        let _blen = buf.len();  // a slice length fits usize, bounding the field offsets
        FLOATING_SAVE_AREA_SPARC {
            regs: read_u64_vec(buf, off, 32, e),
            filler: read_u64(buf, off + 256, e),
            fsr: read_u64(buf, off + 264, e),
        }
    }

    /// Decodes the record at `off`: `Ok` exactly when the buffer holds
    /// `spec_size` bytes at `off`; the number returned with the record
    /// is the bytes consumed, always `spec_size`.
    pub fn decode(buf: &[u8], off: usize, e: Endianness) -> (r: Result<(Self, usize), DecodeError>)
        ensures
            match r {
                Ok((v, n)) => off + Self::spec_size() <= buf@.len()
                    && n == Self::spec_size()
                    && v@ == Self::spec_decode(buf@, off as int, e),
                Err(err) => err == DecodeError::OutOfBounds
                    && off + Self::spec_size() > buf@.len(),
            },
    {
        if buf.len() < 272 || off > buf.len() - 272 {
            return Err(DecodeError::OutOfBounds);
        }
        Ok((Self::read_at(buf, off, e), 272))
    }

    /// Appends this record's encoding in byte order `e` to `out`.
    pub fn write(&self, out: &mut Vec<u8>, e: Endianness)
        ensures
            final(out)@ == old(out)@ + Self::spec_encode(self@, e),
    {
        write_u64_vec(out, &self.regs, e);
        write_u64(out, self.filler, e);
        write_u64(out, self.fsr, e);
        assert(out@ =~= old(out)@ + Self::spec_encode(self@, e));
    }

    /// Encodes this record in byte order `e`.
    pub fn encode(&self, e: Endianness) -> (r: Vec<u8>)
        ensures
            r@ == Self::spec_encode(self@, e),
    {
        let mut out: Vec<u8> = Vec::new();
        self.write(&mut out, e);
        proof {
            assert(out@ =~= Self::spec_encode(self@, e));
        }
        out
    }
}

/// The encoding of a record is exactly [`FLOATING_SAVE_AREA_SPARC::spec_size`] bytes.
pub proof fn lemma_floating_save_area_sparc_encode_len(w: FLOATING_SAVE_AREA_SPARCView, e: Endianness)
    requires
        w.wf(),
    ensures
        FLOATING_SAVE_AREA_SPARC::spec_encode(w, e).len() == 272,
{
    lemma_encode_lens();
    lemma_encode_u64_seq_len(w.regs, e);
}

/// Reading back the encoding of `w` found at offset `off` yields `w`.
pub proof fn lemma_floating_save_area_sparc_encode_at(b: Seq<u8>, off: int, w: FLOATING_SAVE_AREA_SPARCView, e: Endianness)
    requires
        w.wf(),
        0 <= off,
        off + 272 <= b.len(),
        b.subrange(off, off + 272) == FLOATING_SAVE_AREA_SPARC::spec_encode(w, e),
    ensures
        FLOATING_SAVE_AREA_SPARC::spec_decode(b, off, e) == w,
{
    lemma_encode_lens();
    lemma_encode_u64_seq_len(w.regs, e);
    let enc0 = spec_encode_u64_seq(w.regs, e);
    let enc1 = spec_encode_u64(w.filler, e);
    let enc2 = spec_encode_u64(w.fsr, e);
    let pre1 = enc0 + enc1;
    let pre2 = pre1 + enc2;
    assert(b.subrange(off, off + 272) == pre2);
    lemma_split_at(b, off, off + 264, off + 272, pre1, enc2);
    lemma_split_at(b, off, off + 256, off + 264, enc0, enc1);
    lemma_read_u64_seq_at(b, off, w.regs, e);
    lemma_read_u64_at(b, off + 256, w.filler, e);
    lemma_read_u64_at(b, off + 264, w.fsr, e);
}

/// Round trip: decoding the encoding of a record yields the record, and
/// the encoding is exactly the record's fixed size.
pub proof fn lemma_floating_save_area_sparc_roundtrip(w: FLOATING_SAVE_AREA_SPARCView, e: Endianness)
    requires
        w.wf(),
    ensures
        FLOATING_SAVE_AREA_SPARC::spec_encode(w, e).len() == FLOATING_SAVE_AREA_SPARC::spec_size(),
        FLOATING_SAVE_AREA_SPARC::spec_decode(FLOATING_SAVE_AREA_SPARC::spec_encode(w, e), 0, e) == w,
{
    lemma_floating_save_area_sparc_encode_len(w, e);
    let enc = FLOATING_SAVE_AREA_SPARC::spec_encode(w, e);
    assert(enc.subrange(0, 272) =~= enc);
    lemma_floating_save_area_sparc_encode_at(enc, 0, w, e);
}

/// A SPARC CPU context (a Breakpad extension, as there is no definition of
/// `CONTEXT` for SPARC in WinNT.h).
#[derive(Debug, Clone, PartialEq)]
pub struct CONTEXT_SPARC {
    pub context_flags: u32,
    pub flag_pad: u32,
    pub g_r: Vec<u64>,
    pub ccr: u64,
    pub pc: u64,
    pub npc: u64,
    pub y: u64,
    pub asi: u64,
    pub fprs: u64,
    pub float_save: FLOATING_SAVE_AREA_SPARC,
}

/// The mathematical value of a [`CONTEXT_SPARC`]: the same fields with
/// sequences in place of vectors.
pub struct CONTEXT_SPARCView {
    pub context_flags: u32,
    pub flag_pad: u32,
    pub g_r: Seq<u64>,
    pub ccr: u64,
    pub pc: u64,
    pub npc: u64,
    pub y: u64,
    pub asi: u64,
    pub fprs: u64,
    pub float_save: FLOATING_SAVE_AREA_SPARCView,
}

impl View for CONTEXT_SPARC {
    type V = CONTEXT_SPARCView;

    open spec fn view(&self) -> CONTEXT_SPARCView {
        CONTEXT_SPARCView {
            context_flags: self.context_flags,
            flag_pad: self.flag_pad,
            g_r: self.g_r@,
            ccr: self.ccr,
            pc: self.pc,
            npc: self.npc,
            y: self.y,
            asi: self.asi,
            fprs: self.fprs,
            float_save: self.float_save@,
        }
    }
}

impl CONTEXT_SPARCView {
    /// Well-formed: every sequence field has its fixed length.
    pub open spec fn wf(self) -> bool {
        &&& self.g_r.len() == 32
        &&& self.float_save.wf()
    }
}

impl CONTEXT_SPARC {
    /// The number of bytes this record occupies.
    pub open spec fn spec_size() -> nat {
        584
    }

    /// The record the bytes of `b` at `off` denote in byte order `e`.
    pub open spec fn spec_decode(b: Seq<u8>, off: int, e: Endianness) -> CONTEXT_SPARCView {
        CONTEXT_SPARCView {
            context_flags: spec_read_u32(b, off, e),
            flag_pad: spec_read_u32(b, off + 4, e),
            g_r: spec_read_u64_seq(b, off + 8, 32, e),
            ccr: spec_read_u64(b, off + 264, e),
            pc: spec_read_u64(b, off + 272, e),
            npc: spec_read_u64(b, off + 280, e),
            y: spec_read_u64(b, off + 288, e),
            asi: spec_read_u64(b, off + 296, e),
            fprs: spec_read_u64(b, off + 304, e),
            float_save: FLOATING_SAVE_AREA_SPARC::spec_decode(b, off + 312, e),
        }
    }

    /// The bytes the record `w` encodes to in byte order `e`.
    pub open spec fn spec_encode(w: CONTEXT_SPARCView, e: Endianness) -> Seq<u8> {
        spec_encode_u32(w.context_flags, e)
            + spec_encode_u32(w.flag_pad, e)
            + spec_encode_u64_seq(w.g_r, e)
            + spec_encode_u64(w.ccr, e)
            + spec_encode_u64(w.pc, e)
            + spec_encode_u64(w.npc, e)
            + spec_encode_u64(w.y, e)
            + spec_encode_u64(w.asi, e)
            + spec_encode_u64(w.fprs, e)
            + FLOATING_SAVE_AREA_SPARC::spec_encode(w.float_save, e)
    }

    /// Reads the record at `off`, known to be in bounds.
    pub fn read_at(buf: &[u8], off: usize, e: Endianness) -> (r: Self)
        requires
            off + 584 <= buf@.len(),
        ensures
            r@ == Self::spec_decode(buf@, off as int, e),
    {
        let _blen = buf.len();  // a slice length fits usize, bounding the field offsets
        CONTEXT_SPARC {
            context_flags: read_u32(buf, off, e),
            flag_pad: read_u32(buf, off + 4, e),
            g_r: read_u64_vec(buf, off + 8, 32, e),
            ccr: read_u64(buf, off + 264, e),
            pc: read_u64(buf, off + 272, e),
            npc: read_u64(buf, off + 280, e),
            y: read_u64(buf, off + 288, e),
            asi: read_u64(buf, off + 296, e),
            fprs: read_u64(buf, off + 304, e),
            float_save: FLOATING_SAVE_AREA_SPARC::read_at(buf, off + 312, e),
        }
    }

    /// Decodes the record at `off`: `Ok` exactly when the buffer holds
    /// `spec_size` bytes at `off`; the number returned with the record
    /// is the bytes consumed, always `spec_size`.
    pub fn decode(buf: &[u8], off: usize, e: Endianness) -> (r: Result<(Self, usize), DecodeError>)
        ensures
            match r {
                Ok((v, n)) => off + Self::spec_size() <= buf@.len()
                    && n == Self::spec_size()
                    && v@ == Self::spec_decode(buf@, off as int, e),
                Err(err) => err == DecodeError::OutOfBounds
                    && off + Self::spec_size() > buf@.len(),
            },
    {
        if buf.len() < 584 || off > buf.len() - 584 {
            return Err(DecodeError::OutOfBounds);
        }
        Ok((Self::read_at(buf, off, e), 584))
    }

    /// Appends this record's encoding in byte order `e` to `out`.
    #[verifier::spinoff_prover]
    #[verifier::rlimit(100)]
    pub fn write(&self, out: &mut Vec<u8>, e: Endianness)
        ensures
            final(out)@ == old(out)@ + Self::spec_encode(self@, e),
    {
        let ghost enc0 = spec_encode_u32(self@.context_flags, e);
        let ghost enc1 = spec_encode_u32(self@.flag_pad, e);
        let ghost enc2 = spec_encode_u64_seq(self.g_r@, e);
        let ghost enc3 = spec_encode_u64(self@.ccr, e);
        let ghost enc4 = spec_encode_u64(self@.pc, e);
        let ghost enc5 = spec_encode_u64(self@.npc, e);
        let ghost enc6 = spec_encode_u64(self@.y, e);
        let ghost enc7 = spec_encode_u64(self@.asi, e);
        let ghost enc8 = spec_encode_u64(self@.fprs, e);
        let ghost enc9 = FLOATING_SAVE_AREA_SPARC::spec_encode(self.float_save@, e);
        let ghost pre1 = enc0 + enc1;
        let ghost pre2 = pre1 + enc2;
        let ghost pre3 = pre2 + enc3;
        let ghost pre4 = pre3 + enc4;
        let ghost pre5 = pre4 + enc5;
        let ghost pre6 = pre5 + enc6;
        let ghost pre7 = pre6 + enc7;
        let ghost pre8 = pre7 + enc8;
        let ghost pre9 = pre8 + enc9;
        write_u32(out, self.context_flags, e);
        proof { assert(out@ == old(out)@ + enc0); }
        write_u32(out, self.flag_pad, e);
        proof {
            lemma_seq_add_assoc(old(out)@, enc0, enc1);
            assert(out@ == old(out)@ + pre1);
        }
        write_u64_vec(out, &self.g_r, e);
        proof {
            lemma_seq_add_assoc(old(out)@, pre1, enc2);
            assert(out@ == old(out)@ + pre2);
        }
        write_u64(out, self.ccr, e);
        proof {
            lemma_seq_add_assoc(old(out)@, pre2, enc3);
            assert(out@ == old(out)@ + pre3);
        }
        write_u64(out, self.pc, e);
        proof {
            lemma_seq_add_assoc(old(out)@, pre3, enc4);
            assert(out@ == old(out)@ + pre4);
        }
        write_u64(out, self.npc, e);
        proof {
            lemma_seq_add_assoc(old(out)@, pre4, enc5);
            assert(out@ == old(out)@ + pre5);
        }
        write_u64(out, self.y, e);
        proof {
            lemma_seq_add_assoc(old(out)@, pre5, enc6);
            assert(out@ == old(out)@ + pre6);
        }
        write_u64(out, self.asi, e);
        proof {
            lemma_seq_add_assoc(old(out)@, pre6, enc7);
            assert(out@ == old(out)@ + pre7);
        }
        write_u64(out, self.fprs, e);
        proof {
            lemma_seq_add_assoc(old(out)@, pre7, enc8);
            assert(out@ == old(out)@ + pre8);
        }
        self.float_save.write(out, e);
        proof {
            lemma_seq_add_assoc(old(out)@, pre8, enc9);
            assert(out@ == old(out)@ + pre9);
        }
        assert(out@ == old(out)@ + Self::spec_encode(self@, e));
    }

    /// Encodes this record in byte order `e`.
    pub fn encode(&self, e: Endianness) -> (r: Vec<u8>)
        ensures
            r@ == Self::spec_encode(self@, e),
    {
        let mut out: Vec<u8> = Vec::new();
        self.write(&mut out, e);
        proof {
            assert(out@ =~= Self::spec_encode(self@, e));
        }
        out
    }
}

/// The encoding of a record is exactly [`CONTEXT_SPARC::spec_size`] bytes.
pub proof fn lemma_context_sparc_encode_len(w: CONTEXT_SPARCView, e: Endianness)
    requires
        w.wf(),
    ensures
        CONTEXT_SPARC::spec_encode(w, e).len() == 584,
{
    lemma_encode_lens();
    lemma_encode_u64_seq_len(w.g_r, e);
    lemma_floating_save_area_sparc_encode_len(w.float_save, e);
}

/// Reading back the encoding of `w` found at offset `off` yields `w`.
pub proof fn lemma_context_sparc_encode_at(b: Seq<u8>, off: int, w: CONTEXT_SPARCView, e: Endianness)
    requires
        w.wf(),
        0 <= off,
        off + 584 <= b.len(),
        b.subrange(off, off + 584) == CONTEXT_SPARC::spec_encode(w, e),
    ensures
        CONTEXT_SPARC::spec_decode(b, off, e) == w,
{
    lemma_encode_lens();
    lemma_encode_u64_seq_len(w.g_r, e);
    lemma_floating_save_area_sparc_encode_len(w.float_save, e);
    let enc0 = spec_encode_u32(w.context_flags, e);
    let enc1 = spec_encode_u32(w.flag_pad, e);
    let enc2 = spec_encode_u64_seq(w.g_r, e);
    let enc3 = spec_encode_u64(w.ccr, e);
    let enc4 = spec_encode_u64(w.pc, e);
    let enc5 = spec_encode_u64(w.npc, e);
    let enc6 = spec_encode_u64(w.y, e);
    let enc7 = spec_encode_u64(w.asi, e);
    let enc8 = spec_encode_u64(w.fprs, e);
    let enc9 = FLOATING_SAVE_AREA_SPARC::spec_encode(w.float_save, e);
    let pre1 = enc0 + enc1;
    let pre2 = pre1 + enc2;
    let pre3 = pre2 + enc3;
    let pre4 = pre3 + enc4;
    let pre5 = pre4 + enc5;
    let pre6 = pre5 + enc6;
    let pre7 = pre6 + enc7;
    let pre8 = pre7 + enc8;
    let pre9 = pre8 + enc9;
    assert(b.subrange(off, off + 584) == pre9);
    lemma_split_at(b, off, off + 312, off + 584, pre8, enc9);
    lemma_split_at(b, off, off + 304, off + 312, pre7, enc8);
    lemma_split_at(b, off, off + 296, off + 304, pre6, enc7);
    lemma_split_at(b, off, off + 288, off + 296, pre5, enc6);
    lemma_split_at(b, off, off + 280, off + 288, pre4, enc5);
    lemma_split_at(b, off, off + 272, off + 280, pre3, enc4);
    lemma_split_at(b, off, off + 264, off + 272, pre2, enc3);
    lemma_split_at(b, off, off + 8, off + 264, pre1, enc2);
    lemma_split_at(b, off, off + 4, off + 8, enc0, enc1);
    lemma_read_u32_at(b, off, w.context_flags, e);
    lemma_read_u32_at(b, off + 4, w.flag_pad, e);
    lemma_read_u64_seq_at(b, off + 8, w.g_r, e);
    lemma_read_u64_at(b, off + 264, w.ccr, e);
    lemma_read_u64_at(b, off + 272, w.pc, e);
    lemma_read_u64_at(b, off + 280, w.npc, e);
    lemma_read_u64_at(b, off + 288, w.y, e);
    lemma_read_u64_at(b, off + 296, w.asi, e);
    lemma_read_u64_at(b, off + 304, w.fprs, e);
    lemma_floating_save_area_sparc_encode_at(b, off + 312, w.float_save, e);
}

/// Round trip: decoding the encoding of a record yields the record, and
/// the encoding is exactly the record's fixed size.
pub proof fn lemma_context_sparc_roundtrip(w: CONTEXT_SPARCView, e: Endianness)
    requires
        w.wf(),
    ensures
        CONTEXT_SPARC::spec_encode(w, e).len() == CONTEXT_SPARC::spec_size(),
        CONTEXT_SPARC::spec_decode(CONTEXT_SPARC::spec_encode(w, e), 0, e) == w,
{
    lemma_context_sparc_encode_len(w, e);
    let enc = CONTEXT_SPARC::spec_encode(w, e);
    assert(enc.subrange(0, 584) =~= enc);
    lemma_context_sparc_encode_at(enc, 0, w, e);
}

/// x86 floating point state, matching the `FLOATING_SAVE_AREA` struct from
/// WinNT.h.
#[derive(Debug, Clone, PartialEq)]
pub struct FLOATING_SAVE_AREA_X86 {
    pub control_word: u32,
    pub status_word: u32,
    pub tag_word: u32,
    pub error_offset: u32,
    pub error_selector: u32,
    pub data_offset: u32,
    pub data_selector: u32,
    pub register_area: Vec<u8>,
    pub cr0_npx_state: u32,
}

/// The mathematical value of a [`FLOATING_SAVE_AREA_X86`]: the same fields with
/// sequences in place of vectors.
pub struct FLOATING_SAVE_AREA_X86View {
    pub control_word: u32,
    pub status_word: u32,
    pub tag_word: u32,
    pub error_offset: u32,
    pub error_selector: u32,
    pub data_offset: u32,
    pub data_selector: u32,
    pub register_area: Seq<u8>,
    pub cr0_npx_state: u32,
}

impl View for FLOATING_SAVE_AREA_X86 {
    type V = FLOATING_SAVE_AREA_X86View;

    open spec fn view(&self) -> FLOATING_SAVE_AREA_X86View {
        FLOATING_SAVE_AREA_X86View {
            control_word: self.control_word,
            status_word: self.status_word,
            tag_word: self.tag_word,
            error_offset: self.error_offset,
            error_selector: self.error_selector,
            data_offset: self.data_offset,
            data_selector: self.data_selector,
            register_area: self.register_area@,
            cr0_npx_state: self.cr0_npx_state,
        }
    }
}

impl FLOATING_SAVE_AREA_X86View {
    /// Well-formed: every sequence field has its fixed length.
    pub open spec fn wf(self) -> bool {
        self.register_area.len() == 80
    }
}

impl FLOATING_SAVE_AREA_X86 {
    /// The number of bytes this record occupies.
    pub open spec fn spec_size() -> nat {
        112
    }

    /// The record the bytes of `b` at `off` denote in byte order `e`.
    pub open spec fn spec_decode(b: Seq<u8>, off: int, e: Endianness) -> FLOATING_SAVE_AREA_X86View {
        FLOATING_SAVE_AREA_X86View {
            control_word: spec_read_u32(b, off, e),
            status_word: spec_read_u32(b, off + 4, e),
            tag_word: spec_read_u32(b, off + 8, e),
            error_offset: spec_read_u32(b, off + 12, e),
            error_selector: spec_read_u32(b, off + 16, e),
            data_offset: spec_read_u32(b, off + 20, e),
            data_selector: spec_read_u32(b, off + 24, e),
            register_area: spec_read_bytes(b, off + 28, 80),
            cr0_npx_state: spec_read_u32(b, off + 108, e),
        }
    }

    /// The bytes the record `w` encodes to in byte order `e`.
    pub open spec fn spec_encode(w: FLOATING_SAVE_AREA_X86View, e: Endianness) -> Seq<u8> {
        spec_encode_u32(w.control_word, e)
            + spec_encode_u32(w.status_word, e)
            + spec_encode_u32(w.tag_word, e)
            + spec_encode_u32(w.error_offset, e)
            + spec_encode_u32(w.error_selector, e)
            + spec_encode_u32(w.data_offset, e)
            + spec_encode_u32(w.data_selector, e)
            + w.register_area
            + spec_encode_u32(w.cr0_npx_state, e)
    }

    /// Reads the record at `off`, known to be in bounds.
    pub fn read_at(buf: &[u8], off: usize, e: Endianness) -> (r: Self)
        requires
            off + 112 <= buf@.len(),
        ensures
            r@ == Self::spec_decode(buf@, off as int, e),
    {
        let _blen = buf.len();  // a slice length fits usize, bounding the field offsets
        FLOATING_SAVE_AREA_X86 {
            control_word: read_u32(buf, off, e),
            status_word: read_u32(buf, off + 4, e),
            tag_word: read_u32(buf, off + 8, e),
            error_offset: read_u32(buf, off + 12, e),
            error_selector: read_u32(buf, off + 16, e),
            data_offset: read_u32(buf, off + 20, e),
            data_selector: read_u32(buf, off + 24, e),
            register_area: read_bytes(buf, off + 28, 80),
            cr0_npx_state: read_u32(buf, off + 108, e),
        }
    }

    /// Decodes the record at `off`: `Ok` exactly when the buffer holds
    /// `spec_size` bytes at `off`; the number returned with the record
    /// is the bytes consumed, always `spec_size`.
    pub fn decode(buf: &[u8], off: usize, e: Endianness) -> (r: Result<(Self, usize), DecodeError>)
        ensures
            match r {
                Ok((v, n)) => off + Self::spec_size() <= buf@.len()
                    && n == Self::spec_size()
                    && v@ == Self::spec_decode(buf@, off as int, e),
                Err(err) => err == DecodeError::OutOfBounds
                    && off + Self::spec_size() > buf@.len(),
            },
    {
        if buf.len() < 112 || off > buf.len() - 112 {
            return Err(DecodeError::OutOfBounds);
        }
        Ok((Self::read_at(buf, off, e), 112))
    }

    /// Appends this record's encoding in byte order `e` to `out`.
    #[verifier::spinoff_prover]
    #[verifier::rlimit(100)]
    pub fn write(&self, out: &mut Vec<u8>, e: Endianness)
        ensures
            final(out)@ == old(out)@ + Self::spec_encode(self@, e),
    {
        let ghost enc0 = spec_encode_u32(self@.control_word, e);
        let ghost enc1 = spec_encode_u32(self@.status_word, e);
        let ghost enc2 = spec_encode_u32(self@.tag_word, e);
        let ghost enc3 = spec_encode_u32(self@.error_offset, e);
        let ghost enc4 = spec_encode_u32(self@.error_selector, e);
        let ghost enc5 = spec_encode_u32(self@.data_offset, e);
        let ghost enc6 = spec_encode_u32(self@.data_selector, e);
        let ghost enc7 = self.register_area@;
        let ghost enc8 = spec_encode_u32(self@.cr0_npx_state, e);
        let ghost pre1 = enc0 + enc1;
        let ghost pre2 = pre1 + enc2;
        let ghost pre3 = pre2 + enc3;
        let ghost pre4 = pre3 + enc4;
        let ghost pre5 = pre4 + enc5;
        let ghost pre6 = pre5 + enc6;
        let ghost pre7 = pre6 + enc7;
        let ghost pre8 = pre7 + enc8;
        write_u32(out, self.control_word, e);
        proof { assert(out@ == old(out)@ + enc0); }
        write_u32(out, self.status_word, e);
        proof {
            lemma_seq_add_assoc(old(out)@, enc0, enc1);
            assert(out@ == old(out)@ + pre1);
        }
        write_u32(out, self.tag_word, e);
        proof {
            lemma_seq_add_assoc(old(out)@, pre1, enc2);
            assert(out@ == old(out)@ + pre2);
        }
        write_u32(out, self.error_offset, e);
        proof {
            lemma_seq_add_assoc(old(out)@, pre2, enc3);
            assert(out@ == old(out)@ + pre3);
        }
        write_u32(out, self.error_selector, e);
        proof {
            lemma_seq_add_assoc(old(out)@, pre3, enc4);
            assert(out@ == old(out)@ + pre4);
        }
        write_u32(out, self.data_offset, e);
        proof {
            lemma_seq_add_assoc(old(out)@, pre4, enc5);
            assert(out@ == old(out)@ + pre5);
        }
        write_u32(out, self.data_selector, e);
        proof {
            lemma_seq_add_assoc(old(out)@, pre5, enc6);
            assert(out@ == old(out)@ + pre6);
        }
        write_bytes(out, &self.register_area);
        proof {
            lemma_seq_add_assoc(old(out)@, pre6, enc7);
            assert(out@ == old(out)@ + pre7);
        }
        write_u32(out, self.cr0_npx_state, e);
        proof {
            lemma_seq_add_assoc(old(out)@, pre7, enc8);
            assert(out@ == old(out)@ + pre8);
        }
        assert(out@ == old(out)@ + Self::spec_encode(self@, e));
    }

    /// Encodes this record in byte order `e`.
    pub fn encode(&self, e: Endianness) -> (r: Vec<u8>)
        ensures
            r@ == Self::spec_encode(self@, e),
    {
        let mut out: Vec<u8> = Vec::new();
        self.write(&mut out, e);
        proof {
            assert(out@ =~= Self::spec_encode(self@, e));
        }
        out
    }
}

/// The encoding of a record is exactly [`FLOATING_SAVE_AREA_X86::spec_size`] bytes.
pub proof fn lemma_floating_save_area_x86_encode_len(w: FLOATING_SAVE_AREA_X86View, e: Endianness)
    requires
        w.wf(),
    ensures
        FLOATING_SAVE_AREA_X86::spec_encode(w, e).len() == 112,
{
    lemma_encode_lens();
}

/// Reading back the encoding of `w` found at offset `off` yields `w`.
pub proof fn lemma_floating_save_area_x86_encode_at(b: Seq<u8>, off: int, w: FLOATING_SAVE_AREA_X86View, e: Endianness)
    requires
        w.wf(),
        0 <= off,
        off + 112 <= b.len(),
        b.subrange(off, off + 112) == FLOATING_SAVE_AREA_X86::spec_encode(w, e),
    ensures
        FLOATING_SAVE_AREA_X86::spec_decode(b, off, e) == w,
{
    lemma_encode_lens();
    let enc0 = spec_encode_u32(w.control_word, e);
    let enc1 = spec_encode_u32(w.status_word, e);
    let enc2 = spec_encode_u32(w.tag_word, e);
    let enc3 = spec_encode_u32(w.error_offset, e);
    let enc4 = spec_encode_u32(w.error_selector, e);
    let enc5 = spec_encode_u32(w.data_offset, e);
    let enc6 = spec_encode_u32(w.data_selector, e);
    let enc7 = w.register_area;
    let enc8 = spec_encode_u32(w.cr0_npx_state, e);
    let pre1 = enc0 + enc1;
    let pre2 = pre1 + enc2;
    let pre3 = pre2 + enc3;
    let pre4 = pre3 + enc4;
    let pre5 = pre4 + enc5;
    let pre6 = pre5 + enc6;
    let pre7 = pre6 + enc7;
    let pre8 = pre7 + enc8;
    assert(b.subrange(off, off + 112) == pre8);
    lemma_split_at(b, off, off + 108, off + 112, pre7, enc8);
    lemma_split_at(b, off, off + 28, off + 108, pre6, enc7);
    lemma_split_at(b, off, off + 24, off + 28, pre5, enc6);
    lemma_split_at(b, off, off + 20, off + 24, pre4, enc5);
    lemma_split_at(b, off, off + 16, off + 20, pre3, enc4);
    lemma_split_at(b, off, off + 12, off + 16, pre2, enc3);
    lemma_split_at(b, off, off + 8, off + 12, pre1, enc2);
    lemma_split_at(b, off, off + 4, off + 8, enc0, enc1);
    lemma_read_u32_at(b, off, w.control_word, e);
    lemma_read_u32_at(b, off + 4, w.status_word, e);
    lemma_read_u32_at(b, off + 8, w.tag_word, e);
    lemma_read_u32_at(b, off + 12, w.error_offset, e);
    lemma_read_u32_at(b, off + 16, w.error_selector, e);
    lemma_read_u32_at(b, off + 20, w.data_offset, e);
    lemma_read_u32_at(b, off + 24, w.data_selector, e);
    assert(spec_read_bytes(b, off + 28, 80) == w.register_area);
    lemma_read_u32_at(b, off + 108, w.cr0_npx_state, e);
}

/// Round trip: decoding the encoding of a record yields the record, and
/// the encoding is exactly the record's fixed size.
pub proof fn lemma_floating_save_area_x86_roundtrip(w: FLOATING_SAVE_AREA_X86View, e: Endianness)
    requires
        w.wf(),
    ensures
        FLOATING_SAVE_AREA_X86::spec_encode(w, e).len() == FLOATING_SAVE_AREA_X86::spec_size(),
        FLOATING_SAVE_AREA_X86::spec_decode(FLOATING_SAVE_AREA_X86::spec_encode(w, e), 0, e) == w,
{
    lemma_floating_save_area_x86_encode_len(w, e);
    let enc = FLOATING_SAVE_AREA_X86::spec_encode(w, e);
    assert(enc.subrange(0, 112) =~= enc);
    lemma_floating_save_area_x86_encode_at(enc, 0, w, e);
}

/// An x86 CPU context, matching the definition of `CONTEXT` in WinNT.h for
/// x86.
#[derive(Debug, Clone, PartialEq)]
pub struct CONTEXT_X86 {
    pub context_flags: u32,
    pub dr0: u32,
    pub dr1: u32,
    pub dr2: u32,
    pub dr3: u32,
    pub dr6: u32,
    pub dr7: u32,
    pub float_save: FLOATING_SAVE_AREA_X86,
    pub gs: u32,
    pub fs: u32,
    pub es: u32,
    pub ds: u32,
    pub edi: u32,
    pub esi: u32,
    pub ebx: u32,
    pub edx: u32,
    pub ecx: u32,
    pub eax: u32,
    pub ebp: u32,
    pub eip: u32,
    pub cs: u32,
    pub eflags: u32,
    pub esp: u32,
    pub ss: u32,
    pub extended_registers: Vec<u8>,
}

/// The mathematical value of a [`CONTEXT_X86`]: the same fields with
/// sequences in place of vectors.
pub struct CONTEXT_X86View {
    pub context_flags: u32,
    pub dr0: u32,
    pub dr1: u32,
    pub dr2: u32,
    pub dr3: u32,
    pub dr6: u32,
    pub dr7: u32,
    pub float_save: FLOATING_SAVE_AREA_X86View,
    pub gs: u32,
    pub fs: u32,
    pub es: u32,
    pub ds: u32,
    pub edi: u32,
    pub esi: u32,
    pub ebx: u32,
    pub edx: u32,
    pub ecx: u32,
    pub eax: u32,
    pub ebp: u32,
    pub eip: u32,
    pub cs: u32,
    pub eflags: u32,
    pub esp: u32,
    pub ss: u32,
    pub extended_registers: Seq<u8>,
}

impl View for CONTEXT_X86 {
    type V = CONTEXT_X86View;

    open spec fn view(&self) -> CONTEXT_X86View {
        CONTEXT_X86View {
            context_flags: self.context_flags,
            dr0: self.dr0,
            dr1: self.dr1,
            dr2: self.dr2,
            dr3: self.dr3,
            dr6: self.dr6,
            dr7: self.dr7,
            float_save: self.float_save@,
            gs: self.gs,
            fs: self.fs,
            es: self.es,
            ds: self.ds,
            edi: self.edi,
            esi: self.esi,
            ebx: self.ebx,
            edx: self.edx,
            ecx: self.ecx,
            eax: self.eax,
            ebp: self.ebp,
            eip: self.eip,
            cs: self.cs,
            eflags: self.eflags,
            esp: self.esp,
            ss: self.ss,
            extended_registers: self.extended_registers@,
        }
    }
}

impl CONTEXT_X86View {
    /// Well-formed: every sequence field has its fixed length.
    pub open spec fn wf(self) -> bool {
        &&& self.float_save.wf()
        &&& self.extended_registers.len() == 512
    }
}

impl CONTEXT_X86 {
    /// The number of bytes this record occupies.
    pub open spec fn spec_size() -> nat {
        716
    }

    /// The record the bytes of `b` at `off` denote in byte order `e`.
    pub open spec fn spec_decode(b: Seq<u8>, off: int, e: Endianness) -> CONTEXT_X86View {
        CONTEXT_X86View {
            context_flags: spec_read_u32(b, off, e),
            dr0: spec_read_u32(b, off + 4, e),
            dr1: spec_read_u32(b, off + 8, e),
            dr2: spec_read_u32(b, off + 12, e),
            dr3: spec_read_u32(b, off + 16, e),
            dr6: spec_read_u32(b, off + 20, e),
            dr7: spec_read_u32(b, off + 24, e),
            float_save: FLOATING_SAVE_AREA_X86::spec_decode(b, off + 28, e),
            gs: spec_read_u32(b, off + 140, e),
            fs: spec_read_u32(b, off + 144, e),
            es: spec_read_u32(b, off + 148, e),
            ds: spec_read_u32(b, off + 152, e),
            edi: spec_read_u32(b, off + 156, e),
            esi: spec_read_u32(b, off + 160, e),
            ebx: spec_read_u32(b, off + 164, e),
            edx: spec_read_u32(b, off + 168, e),
            ecx: spec_read_u32(b, off + 172, e),
            eax: spec_read_u32(b, off + 176, e),
            ebp: spec_read_u32(b, off + 180, e),
            eip: spec_read_u32(b, off + 184, e),
            cs: spec_read_u32(b, off + 188, e),
            eflags: spec_read_u32(b, off + 192, e),
            esp: spec_read_u32(b, off + 196, e),
            ss: spec_read_u32(b, off + 200, e),
            extended_registers: spec_read_bytes(b, off + 204, 512),
        }
    }

    /// The bytes the record `w` encodes to in byte order `e`.
    pub open spec fn spec_encode(w: CONTEXT_X86View, e: Endianness) -> Seq<u8> {
        spec_encode_u32(w.context_flags, e)
            + spec_encode_u32(w.dr0, e)
            + spec_encode_u32(w.dr1, e)
            + spec_encode_u32(w.dr2, e)
            + spec_encode_u32(w.dr3, e)
            + spec_encode_u32(w.dr6, e)
            + spec_encode_u32(w.dr7, e)
            + FLOATING_SAVE_AREA_X86::spec_encode(w.float_save, e)
            + spec_encode_u32(w.gs, e)
            + spec_encode_u32(w.fs, e)
            + spec_encode_u32(w.es, e)
            + spec_encode_u32(w.ds, e)
            + spec_encode_u32(w.edi, e)
            + spec_encode_u32(w.esi, e)
            + spec_encode_u32(w.ebx, e)
            + spec_encode_u32(w.edx, e)
            + spec_encode_u32(w.ecx, e)
            + spec_encode_u32(w.eax, e)
            + spec_encode_u32(w.ebp, e)
            + spec_encode_u32(w.eip, e)
            + spec_encode_u32(w.cs, e)
            + spec_encode_u32(w.eflags, e)
            + spec_encode_u32(w.esp, e)
            + spec_encode_u32(w.ss, e)
            + w.extended_registers
    }

    /// Reads the record at `off`, known to be in bounds.
    pub fn read_at(buf: &[u8], off: usize, e: Endianness) -> (r: Self)
        requires
            off + 716 <= buf@.len(),
        ensures
            r@ == Self::spec_decode(buf@, off as int, e),
    {
        let _blen = buf.len();  // a slice length fits usize, bounding the field offsets
        CONTEXT_X86 {
            context_flags: read_u32(buf, off, e),
            dr0: read_u32(buf, off + 4, e),
            dr1: read_u32(buf, off + 8, e),
            dr2: read_u32(buf, off + 12, e),
            dr3: read_u32(buf, off + 16, e),
            dr6: read_u32(buf, off + 20, e),
            dr7: read_u32(buf, off + 24, e),
            float_save: FLOATING_SAVE_AREA_X86::read_at(buf, off + 28, e),
            gs: read_u32(buf, off + 140, e),
            fs: read_u32(buf, off + 144, e),
            es: read_u32(buf, off + 148, e),
            ds: read_u32(buf, off + 152, e),
            edi: read_u32(buf, off + 156, e),
            esi: read_u32(buf, off + 160, e),
            ebx: read_u32(buf, off + 164, e),
            edx: read_u32(buf, off + 168, e),
            ecx: read_u32(buf, off + 172, e),
            eax: read_u32(buf, off + 176, e),
            ebp: read_u32(buf, off + 180, e),
            eip: read_u32(buf, off + 184, e),
            cs: read_u32(buf, off + 188, e),
            eflags: read_u32(buf, off + 192, e),
            esp: read_u32(buf, off + 196, e),
            ss: read_u32(buf, off + 200, e),
            extended_registers: read_bytes(buf, off + 204, 512),
        }
    }

    /// Decodes the record at `off`: `Ok` exactly when the buffer holds
    /// `spec_size` bytes at `off`; the number returned with the record
    /// is the bytes consumed, always `spec_size`.
    pub fn decode(buf: &[u8], off: usize, e: Endianness) -> (r: Result<(Self, usize), DecodeError>)
        ensures
            match r {
                Ok((v, n)) => off + Self::spec_size() <= buf@.len()
                    && n == Self::spec_size()
                    && v@ == Self::spec_decode(buf@, off as int, e),
                Err(err) => err == DecodeError::OutOfBounds
                    && off + Self::spec_size() > buf@.len(),
            },
    {
        if buf.len() < 716 || off > buf.len() - 716 {
            return Err(DecodeError::OutOfBounds);
        }
        Ok((Self::read_at(buf, off, e), 716))
    }

    /// Appends this record's encoding in byte order `e` to `out`.
    #[verifier::spinoff_prover]
    #[verifier::rlimit(100)]
    pub fn write(&self, out: &mut Vec<u8>, e: Endianness)
        ensures
            final(out)@ == old(out)@ + Self::spec_encode(self@, e),
    {
        let ghost enc0 = spec_encode_u32(self@.context_flags, e);
        let ghost enc1 = spec_encode_u32(self@.dr0, e);
        let ghost enc2 = spec_encode_u32(self@.dr1, e);
        let ghost enc3 = spec_encode_u32(self@.dr2, e);
        let ghost enc4 = spec_encode_u32(self@.dr3, e);
        let ghost enc5 = spec_encode_u32(self@.dr6, e);
        let ghost enc6 = spec_encode_u32(self@.dr7, e);
        let ghost enc7 = FLOATING_SAVE_AREA_X86::spec_encode(self.float_save@, e);
        let ghost enc8 = spec_encode_u32(self@.gs, e);
        let ghost enc9 = spec_encode_u32(self@.fs, e);
        let ghost enc10 = spec_encode_u32(self@.es, e);
        let ghost enc11 = spec_encode_u32(self@.ds, e);
        let ghost enc12 = spec_encode_u32(self@.edi, e);
        let ghost enc13 = spec_encode_u32(self@.esi, e);
        let ghost enc14 = spec_encode_u32(self@.ebx, e);
        let ghost enc15 = spec_encode_u32(self@.edx, e);
        let ghost enc16 = spec_encode_u32(self@.ecx, e);
        let ghost enc17 = spec_encode_u32(self@.eax, e);
        let ghost enc18 = spec_encode_u32(self@.ebp, e);
        let ghost enc19 = spec_encode_u32(self@.eip, e);
        let ghost enc20 = spec_encode_u32(self@.cs, e);
        let ghost enc21 = spec_encode_u32(self@.eflags, e);
        let ghost enc22 = spec_encode_u32(self@.esp, e);
        let ghost enc23 = spec_encode_u32(self@.ss, e);
        let ghost enc24 = self.extended_registers@;
        let ghost pre1 = enc0 + enc1;
        let ghost pre2 = pre1 + enc2;
        let ghost pre3 = pre2 + enc3;
        let ghost pre4 = pre3 + enc4;
        let ghost pre5 = pre4 + enc5;
        let ghost pre6 = pre5 + enc6;
        let ghost pre7 = pre6 + enc7;
        let ghost pre8 = pre7 + enc8;
        let ghost pre9 = pre8 + enc9;
        let ghost pre10 = pre9 + enc10;
        let ghost pre11 = pre10 + enc11;
        let ghost pre12 = pre11 + enc12;
        let ghost pre13 = pre12 + enc13;
        let ghost pre14 = pre13 + enc14;
        let ghost pre15 = pre14 + enc15;
        let ghost pre16 = pre15 + enc16;
        let ghost pre17 = pre16 + enc17;
        let ghost pre18 = pre17 + enc18;
        let ghost pre19 = pre18 + enc19;
        let ghost pre20 = pre19 + enc20;
        let ghost pre21 = pre20 + enc21;
        let ghost pre22 = pre21 + enc22;
        let ghost pre23 = pre22 + enc23;
        let ghost pre24 = pre23 + enc24;
        write_u32(out, self.context_flags, e);
        proof { assert(out@ == old(out)@ + enc0); }
        write_u32(out, self.dr0, e);
        proof {
            lemma_seq_add_assoc(old(out)@, enc0, enc1);
            assert(out@ == old(out)@ + pre1);
        }
        write_u32(out, self.dr1, e);
        proof {
            lemma_seq_add_assoc(old(out)@, pre1, enc2);
            assert(out@ == old(out)@ + pre2);
        }
        write_u32(out, self.dr2, e);
        proof {
            lemma_seq_add_assoc(old(out)@, pre2, enc3);
            assert(out@ == old(out)@ + pre3);
        }
        write_u32(out, self.dr3, e);
        proof {
            lemma_seq_add_assoc(old(out)@, pre3, enc4);
            assert(out@ == old(out)@ + pre4);
        }
        write_u32(out, self.dr6, e);
        proof {
            lemma_seq_add_assoc(old(out)@, pre4, enc5);
            assert(out@ == old(out)@ + pre5);
        }
        write_u32(out, self.dr7, e);
        proof {
            lemma_seq_add_assoc(old(out)@, pre5, enc6);
            assert(out@ == old(out)@ + pre6);
        }
        self.float_save.write(out, e);
        proof {
            lemma_seq_add_assoc(old(out)@, pre6, enc7);
            assert(out@ == old(out)@ + pre7);
        }
        write_u32(out, self.gs, e);
        proof {
            lemma_seq_add_assoc(old(out)@, pre7, enc8);
            assert(out@ == old(out)@ + pre8);
        }
        write_u32(out, self.fs, e);
        proof {
            lemma_seq_add_assoc(old(out)@, pre8, enc9);
            assert(out@ == old(out)@ + pre9);
        }
        write_u32(out, self.es, e);
        proof {
            lemma_seq_add_assoc(old(out)@, pre9, enc10);
            assert(out@ == old(out)@ + pre10);
        }
        write_u32(out, self.ds, e);
        proof {
            lemma_seq_add_assoc(old(out)@, pre10, enc11);
            assert(out@ == old(out)@ + pre11);
        }
        write_u32(out, self.edi, e);
        proof {
            lemma_seq_add_assoc(old(out)@, pre11, enc12);
            assert(out@ == old(out)@ + pre12);
        }
        write_u32(out, self.esi, e);
        proof {
            lemma_seq_add_assoc(old(out)@, pre12, enc13);
            assert(out@ == old(out)@ + pre13);
        }
        write_u32(out, self.ebx, e);
        proof {
            lemma_seq_add_assoc(old(out)@, pre13, enc14);
            assert(out@ == old(out)@ + pre14);
        }
        write_u32(out, self.edx, e);
        proof {
            lemma_seq_add_assoc(old(out)@, pre14, enc15);
            assert(out@ == old(out)@ + pre15);
        }
        write_u32(out, self.ecx, e);
        proof {
            lemma_seq_add_assoc(old(out)@, pre15, enc16);
            assert(out@ == old(out)@ + pre16);
        }
        write_u32(out, self.eax, e);
        proof {
            lemma_seq_add_assoc(old(out)@, pre16, enc17);
            assert(out@ == old(out)@ + pre17);
        }
        write_u32(out, self.ebp, e);
        proof {
            lemma_seq_add_assoc(old(out)@, pre17, enc18);
            assert(out@ == old(out)@ + pre18);
        }
        write_u32(out, self.eip, e);
        proof {
            lemma_seq_add_assoc(old(out)@, pre18, enc19);
            assert(out@ == old(out)@ + pre19);
        }
        write_u32(out, self.cs, e);
        proof {
            lemma_seq_add_assoc(old(out)@, pre19, enc20);
            assert(out@ == old(out)@ + pre20);
        }
        write_u32(out, self.eflags, e);
        proof {
            lemma_seq_add_assoc(old(out)@, pre20, enc21);
            assert(out@ == old(out)@ + pre21);
        }
        write_u32(out, self.esp, e);
        proof {
            lemma_seq_add_assoc(old(out)@, pre21, enc22);
            assert(out@ == old(out)@ + pre22);
        }
        write_u32(out, self.ss, e);
        proof {
            lemma_seq_add_assoc(old(out)@, pre22, enc23);
            assert(out@ == old(out)@ + pre23);
        }
        write_bytes(out, &self.extended_registers);
        proof {
            lemma_seq_add_assoc(old(out)@, pre23, enc24);
            assert(out@ == old(out)@ + pre24);
        }
        assert(out@ == old(out)@ + Self::spec_encode(self@, e));
    }

    /// Encodes this record in byte order `e`.
    pub fn encode(&self, e: Endianness) -> (r: Vec<u8>)
        ensures
            r@ == Self::spec_encode(self@, e),
    {
        let mut out: Vec<u8> = Vec::new();
        self.write(&mut out, e);
        proof {
            assert(out@ =~= Self::spec_encode(self@, e));
        }
        out
    }
}

/// The encoding of a record is exactly [`CONTEXT_X86::spec_size`] bytes.
pub proof fn lemma_context_x86_encode_len(w: CONTEXT_X86View, e: Endianness)
    requires
        w.wf(),
    ensures
        CONTEXT_X86::spec_encode(w, e).len() == 716,
{
    lemma_encode_lens();
    lemma_floating_save_area_x86_encode_len(w.float_save, e);
}

/// Reading back the encoding of `w` found at offset `off` yields `w`.
pub proof fn lemma_context_x86_encode_at(b: Seq<u8>, off: int, w: CONTEXT_X86View, e: Endianness)
    requires
        w.wf(),
        0 <= off,
        off + 716 <= b.len(),
        b.subrange(off, off + 716) == CONTEXT_X86::spec_encode(w, e),
    ensures
        CONTEXT_X86::spec_decode(b, off, e) == w,
{
    lemma_encode_lens();
    lemma_floating_save_area_x86_encode_len(w.float_save, e);
    let enc0 = spec_encode_u32(w.context_flags, e);
    let enc1 = spec_encode_u32(w.dr0, e);
    let enc2 = spec_encode_u32(w.dr1, e);
    let enc3 = spec_encode_u32(w.dr2, e);
    let enc4 = spec_encode_u32(w.dr3, e);
    let enc5 = spec_encode_u32(w.dr6, e);
    let enc6 = spec_encode_u32(w.dr7, e);
    let enc7 = FLOATING_SAVE_AREA_X86::spec_encode(w.float_save, e);
    let enc8 = spec_encode_u32(w.gs, e);
    let enc9 = spec_encode_u32(w.fs, e);
    let enc10 = spec_encode_u32(w.es, e);
    let enc11 = spec_encode_u32(w.ds, e);
    let enc12 = spec_encode_u32(w.edi, e);
    let enc13 = spec_encode_u32(w.esi, e);
    let enc14 = spec_encode_u32(w.ebx, e);
    let enc15 = spec_encode_u32(w.edx, e);
    let enc16 = spec_encode_u32(w.ecx, e);
    let enc17 = spec_encode_u32(w.eax, e);
    let enc18 = spec_encode_u32(w.ebp, e);
    let enc19 = spec_encode_u32(w.eip, e);
    let enc20 = spec_encode_u32(w.cs, e);
    let enc21 = spec_encode_u32(w.eflags, e);
    let enc22 = spec_encode_u32(w.esp, e);
    let enc23 = spec_encode_u32(w.ss, e);
    let enc24 = w.extended_registers;
    let pre1 = enc0 + enc1;
    let pre2 = pre1 + enc2;
    let pre3 = pre2 + enc3;
    let pre4 = pre3 + enc4;
    let pre5 = pre4 + enc5;
    let pre6 = pre5 + enc6;
    let pre7 = pre6 + enc7;
    let pre8 = pre7 + enc8;
    let pre9 = pre8 + enc9;
    let pre10 = pre9 + enc10;
    let pre11 = pre10 + enc11;
    let pre12 = pre11 + enc12;
    let pre13 = pre12 + enc13;
    let pre14 = pre13 + enc14;
    let pre15 = pre14 + enc15;
    let pre16 = pre15 + enc16;
    let pre17 = pre16 + enc17;
    let pre18 = pre17 + enc18;
    let pre19 = pre18 + enc19;
    let pre20 = pre19 + enc20;
    let pre21 = pre20 + enc21;
    let pre22 = pre21 + enc22;
    let pre23 = pre22 + enc23;
    let pre24 = pre23 + enc24;
    assert(b.subrange(off, off + 716) == pre24);
    lemma_split_at(b, off, off + 204, off + 716, pre23, enc24);
    lemma_split_at(b, off, off + 200, off + 204, pre22, enc23);
    lemma_split_at(b, off, off + 196, off + 200, pre21, enc22);
    lemma_split_at(b, off, off + 192, off + 196, pre20, enc21);
    lemma_split_at(b, off, off + 188, off + 192, pre19, enc20);
    lemma_split_at(b, off, off + 184, off + 188, pre18, enc19);
    lemma_split_at(b, off, off + 180, off + 184, pre17, enc18);
    lemma_split_at(b, off, off + 176, off + 180, pre16, enc17);
    lemma_split_at(b, off, off + 172, off + 176, pre15, enc16);
    lemma_split_at(b, off, off + 168, off + 172, pre14, enc15);
    lemma_split_at(b, off, off + 164, off + 168, pre13, enc14);
    lemma_split_at(b, off, off + 160, off + 164, pre12, enc13);
    lemma_split_at(b, off, off + 156, off + 160, pre11, enc12);
    lemma_split_at(b, off, off + 152, off + 156, pre10, enc11);
    lemma_split_at(b, off, off + 148, off + 152, pre9, enc10);
    lemma_split_at(b, off, off + 144, off + 148, pre8, enc9);
    lemma_split_at(b, off, off + 140, off + 144, pre7, enc8);
    lemma_split_at(b, off, off + 28, off + 140, pre6, enc7);
    lemma_split_at(b, off, off + 24, off + 28, pre5, enc6);
    lemma_split_at(b, off, off + 20, off + 24, pre4, enc5);
    lemma_split_at(b, off, off + 16, off + 20, pre3, enc4);
    lemma_split_at(b, off, off + 12, off + 16, pre2, enc3);
    lemma_split_at(b, off, off + 8, off + 12, pre1, enc2);
    lemma_split_at(b, off, off + 4, off + 8, enc0, enc1);
    lemma_read_u32_at(b, off, w.context_flags, e);
    lemma_read_u32_at(b, off + 4, w.dr0, e);
    lemma_read_u32_at(b, off + 8, w.dr1, e);
    lemma_read_u32_at(b, off + 12, w.dr2, e);
    lemma_read_u32_at(b, off + 16, w.dr3, e);
    lemma_read_u32_at(b, off + 20, w.dr6, e);
    lemma_read_u32_at(b, off + 24, w.dr7, e);
    lemma_floating_save_area_x86_encode_at(b, off + 28, w.float_save, e);
    lemma_read_u32_at(b, off + 140, w.gs, e);
    lemma_read_u32_at(b, off + 144, w.fs, e);
    lemma_read_u32_at(b, off + 148, w.es, e);
    lemma_read_u32_at(b, off + 152, w.ds, e);
    lemma_read_u32_at(b, off + 156, w.edi, e);
    lemma_read_u32_at(b, off + 160, w.esi, e);
    lemma_read_u32_at(b, off + 164, w.ebx, e);
    lemma_read_u32_at(b, off + 168, w.edx, e);
    lemma_read_u32_at(b, off + 172, w.ecx, e);
    lemma_read_u32_at(b, off + 176, w.eax, e);
    lemma_read_u32_at(b, off + 180, w.ebp, e);
    lemma_read_u32_at(b, off + 184, w.eip, e);
    lemma_read_u32_at(b, off + 188, w.cs, e);
    lemma_read_u32_at(b, off + 192, w.eflags, e);
    lemma_read_u32_at(b, off + 196, w.esp, e);
    lemma_read_u32_at(b, off + 200, w.ss, e);
    assert(spec_read_bytes(b, off + 204, 512) == w.extended_registers);
}

/// Round trip: decoding the encoding of a record yields the record, and
/// the encoding is exactly the record's fixed size.
pub proof fn lemma_context_x86_roundtrip(w: CONTEXT_X86View, e: Endianness)
    requires
        w.wf(),
    ensures
        CONTEXT_X86::spec_encode(w, e).len() == CONTEXT_X86::spec_size(),
        CONTEXT_X86::spec_decode(CONTEXT_X86::spec_encode(w, e), 0, e) == w,
{
    lemma_context_x86_encode_len(w, e);
    let enc = CONTEXT_X86::spec_encode(w, e);
    assert(enc.subrange(0, 716) =~= enc);
    lemma_context_x86_encode_at(enc, 0, w, e);
}

} // verus!
