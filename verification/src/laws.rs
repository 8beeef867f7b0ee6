//! Determinism of decoding, stated and proved.
//!
//! Every decoder's contract already pins its result to a specification
//! function of the bytes, the offset and the byte order, so two calls on the
//! same input return the same record and the same count of bytes consumed.
//! The lemmas here state the stronger reading for representative records:
//! the decoded record depends only on the record's own bytes, wherever in
//! whatever buffer they sit.

use vstd::prelude::*;

verus! {

broadcast use vstd::seq::group_seq_axioms;

use crate::codec::Endianness;
use crate::codec::lemma_read_u32_depends_on_bytes;
use crate::codec::lemma_read_u64_depends_on_bytes;
use crate::codeview::GUID;
use crate::records::MINIDUMP_DIRECTORY;
use crate::records::MINIDUMP_HEADER;
use crate::records::MINIDUMP_LOCATION_DESCRIPTOR;

/// Within two buffers that agree on one record's bytes, the two subranges a
/// field occupies agree as well.
proof fn lemma_field_bytes_agree(
    b1: Seq<u8>,
    off1: int,
    b2: Seq<u8>,
    off2: int,
    size: int,
    o: int,
    s: int,
)
    requires
        0 <= off1,
        off1 + size <= b1.len(),
        0 <= off2,
        off2 + size <= b2.len(),
        b1.subrange(off1, off1 + size) == b2.subrange(off2, off2 + size),
        0 <= o,
        s >= 0,
        o + s <= size,
    ensures
        b1.subrange(off1 + o, off1 + o + s) == b2.subrange(off2 + o, off2 + o + s),
{
    assert forall|j: int| 0 <= j < s implies #[trigger] b1.subrange(off1 + o, off1 + o + s)[j]
        == b2.subrange(off2 + o, off2 + o + s)[j] by {
        assert(b1.subrange(off1, off1 + size)[o + j] == b1[off1 + o + j]);
        assert(b2.subrange(off2, off2 + size)[o + j] == b2[off2 + o + j]);
        assert(b1.subrange(off1 + o, off1 + o + s)[j] == b1[off1 + o + j]);
        assert(b2.subrange(off2 + o, off2 + o + s)[j] == b2[off2 + o + j]);
    }
    assert(b1.subrange(off1 + o, off1 + o + s) =~= b2.subrange(off2 + o, off2 + o + s));
}

/// Determinism of location-descriptor decoding: the decoded record is a
/// function of the record's own bytes and the byte order alone.
pub proof fn lemma_location_descriptor_decode_deterministic(
    b1: Seq<u8>,
    off1: int,
    b2: Seq<u8>,
    off2: int,
    e: Endianness,
)
    requires
        0 <= off1,
        off1 + 8 <= b1.len(),
        0 <= off2,
        off2 + 8 <= b2.len(),
        b1.subrange(off1, off1 + 8) == b2.subrange(off2, off2 + 8),
    ensures
        MINIDUMP_LOCATION_DESCRIPTOR::spec_decode(b1, off1, e)
            == MINIDUMP_LOCATION_DESCRIPTOR::spec_decode(b2, off2, e),
{
    lemma_field_bytes_agree(b1, off1, b2, off2, 8, 0, 4);
    lemma_read_u32_depends_on_bytes(b1, off1, b2, off2, e);
    lemma_field_bytes_agree(b1, off1, b2, off2, 8, 4, 4);
    lemma_read_u32_depends_on_bytes(b1, off1 + 4, b2, off2 + 4, e);
}

/// Determinism of directory-entry decoding: the decoded record is a
/// function of the record's own bytes and the byte order alone.
pub proof fn lemma_directory_decode_deterministic(
    b1: Seq<u8>,
    off1: int,
    b2: Seq<u8>,
    off2: int,
    e: Endianness,
)
    requires
        0 <= off1,
        off1 + 12 <= b1.len(),
        0 <= off2,
        off2 + 12 <= b2.len(),
        b1.subrange(off1, off1 + 12) == b2.subrange(off2, off2 + 12),
    ensures
        MINIDUMP_DIRECTORY::spec_decode(b1, off1, e) == MINIDUMP_DIRECTORY::spec_decode(
            b2,
            off2,
            e,
        ),
{
    lemma_field_bytes_agree(b1, off1, b2, off2, 12, 0, 4);
    lemma_read_u32_depends_on_bytes(b1, off1, b2, off2, e);
    lemma_field_bytes_agree(b1, off1, b2, off2, 12, 4, 8);
    lemma_location_descriptor_decode_deterministic(b1, off1 + 4, b2, off2 + 4, e);
}

/// Determinism of header decoding: the decoded record is a function of the
/// record's own bytes and the byte order alone.
pub proof fn lemma_header_decode_deterministic(
    b1: Seq<u8>,
    off1: int,
    b2: Seq<u8>,
    off2: int,
    e: Endianness,
)
    requires
        0 <= off1,
        off1 + 32 <= b1.len(),
        0 <= off2,
        off2 + 32 <= b2.len(),
        b1.subrange(off1, off1 + 32) == b2.subrange(off2, off2 + 32),
    ensures
        MINIDUMP_HEADER::spec_decode(b1, off1, e) == MINIDUMP_HEADER::spec_decode(b2, off2, e),
{
    lemma_field_bytes_agree(b1, off1, b2, off2, 32, 0, 4);
    lemma_read_u32_depends_on_bytes(b1, off1, b2, off2, e);
    lemma_field_bytes_agree(b1, off1, b2, off2, 32, 4, 4);
    lemma_read_u32_depends_on_bytes(b1, off1 + 4, b2, off2 + 4, e);
    lemma_field_bytes_agree(b1, off1, b2, off2, 32, 8, 4);
    lemma_read_u32_depends_on_bytes(b1, off1 + 8, b2, off2 + 8, e);
    lemma_field_bytes_agree(b1, off1, b2, off2, 32, 12, 4);
    lemma_read_u32_depends_on_bytes(b1, off1 + 12, b2, off2 + 12, e);
    lemma_field_bytes_agree(b1, off1, b2, off2, 32, 16, 4);
    lemma_read_u32_depends_on_bytes(b1, off1 + 16, b2, off2 + 16, e);
    lemma_field_bytes_agree(b1, off1, b2, off2, 32, 20, 4);
    lemma_read_u32_depends_on_bytes(b1, off1 + 20, b2, off2 + 20, e);
    lemma_field_bytes_agree(b1, off1, b2, off2, 32, 24, 8);
    lemma_read_u64_depends_on_bytes(b1, off1 + 24, b2, off2 + 24, e);
}

/// Determinism of GUID decoding: the decoded record is a function of the
/// record's own bytes and the byte order alone.
pub proof fn lemma_guid_decode_deterministic(
    b1: Seq<u8>,
    off1: int,
    b2: Seq<u8>,
    off2: int,
    e: Endianness,
)
    requires
        0 <= off1,
        off1 + 16 <= b1.len(),
        0 <= off2,
        off2 + 16 <= b2.len(),
        b1.subrange(off1, off1 + 16) == b2.subrange(off2, off2 + 16),
    ensures
        GUID::spec_decode(b1, off1, e) == GUID::spec_decode(b2, off2, e),
{
    lemma_field_bytes_agree(b1, off1, b2, off2, 16, 0, 4);
    lemma_read_u32_depends_on_bytes(b1, off1, b2, off2, e);
    lemma_field_bytes_agree(b1, off1, b2, off2, 16, 4, 2);
    crate::codec::lemma_read_u16_depends_on_bytes(b1, off1 + 4, b2, off2 + 4, e);
    lemma_field_bytes_agree(b1, off1, b2, off2, 16, 6, 2);
    crate::codec::lemma_read_u16_depends_on_bytes(b1, off1 + 6, b2, off2 + 6, e);
    lemma_field_bytes_agree(b1, off1, b2, off2, 16, 8, 8);
    assert(GUID::spec_decode(b1, off1, e).data4 =~= GUID::spec_decode(b2, off2, e).data4);
}

} // verus!
