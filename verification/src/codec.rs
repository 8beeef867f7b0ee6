//! The primitive codec: fixed-width integers and byte runs read from (and, for
//! testing round trips, written to) a byte buffer at a given offset with an
//! explicit byte order.
//!
//! Every reader is specified against a `spec_read_*` function of the byte
//! sequence alone, so decoding the same bytes twice necessarily yields the
//! same value; every writer is specified against the matching `spec_encode_*`
//! function, and the `lemma_read_*_at` lemmas tie the two together for the
//! per-record round-trip proofs.

use vstd::prelude::*;

verus! {

broadcast use vstd::seq::group_seq_axioms;

use vstd::bytes::spec_u16_from_le_bytes;
use vstd::bytes::spec_u16_to_le_bytes;
use vstd::bytes::spec_u32_from_le_bytes;
use vstd::bytes::spec_u32_to_le_bytes;
use vstd::bytes::spec_u64_from_le_bytes;
use vstd::bytes::spec_u64_to_le_bytes;
use vstd::bytes::spec_u128_from_le_bytes;
use vstd::bytes::spec_u128_to_le_bytes;
use vstd::bytes::lemma_auto_spec_u16_to_from_le_bytes;
use vstd::bytes::lemma_auto_spec_u32_to_from_le_bytes;
use vstd::bytes::lemma_auto_spec_u64_to_from_le_bytes;
use vstd::bytes::lemma_auto_spec_u128_to_from_le_bytes;
use vstd::bytes::u16_from_le_bytes;
use vstd::bytes::u16_to_le_bytes;
use vstd::bytes::u32_from_le_bytes;
use vstd::bytes::u32_to_le_bytes;
use vstd::bytes::u64_from_le_bytes;
use vstd::bytes::u64_to_le_bytes;
use vstd::bytes::u128_from_le_bytes;
use vstd::bytes::u128_to_le_bytes;
use vstd::slice::slice_subrange;

/// The byte order a record was produced with.
///
/// The format can be little- or big-endian depending on the producer, so the
/// order is an explicit parameter of every decode call, never inferred from
/// the platform running the decoder.
#[derive(Clone, Copy, PartialEq, Eq, Structural, Debug)]
pub enum Endianness {
    Little,
    Big,
}

/// Why a decode call failed.
#[derive(Clone, Copy, PartialEq, Eq, Structural, Debug)]
pub enum DecodeError {
    /// A read would exceed the buffer length. Always fatal to that decode
    /// call; never silently truncated.
    OutOfBounds,
    /// A length-prefixed string lacks its required terminator byte.
    MissingTerminator,
    /// A context selector flag matches no known architecture layout.
    UnrecognizedArchitecture,
}

/// The outcome of decoding one record of a versioned family.
#[derive(Clone, Copy, PartialEq, Eq, Structural, Debug)]
pub enum VersionedOutcome {
    /// The version the discriminator declared was decoded in full.
    Complete,
    /// The discriminator claimed more data than the buffer holds; the decoder
    /// fell back to the largest version the buffer supports.
    TruncatedVersionedRecord,
}

// ---------------------------------------------------------------------------
// Specification: what the bytes at an offset mean.
// ---------------------------------------------------------------------------

/// The `n` bytes of `b` starting at `off`.
pub open spec fn spec_read_bytes(b: Seq<u8>, off: int, n: int) -> Seq<u8> {
    b.subrange(off, off + n)
}

/// The byte of `b` at `off`.
pub open spec fn spec_read_u8(b: Seq<u8>, off: int) -> u8 {
    b[off]
}

/// The two bytes of `b` at `off` as a `u16` in byte order `e`.
pub open spec fn spec_read_u16(b: Seq<u8>, off: int, e: Endianness) -> u16 {
    match e {
        Endianness::Little => spec_u16_from_le_bytes(b.subrange(off, off + 2)),
        Endianness::Big => spec_u16_from_le_bytes(b.subrange(off, off + 2).reverse()),
    }
}

/// The four bytes of `b` at `off` as a `u32` in byte order `e`.
pub open spec fn spec_read_u32(b: Seq<u8>, off: int, e: Endianness) -> u32 {
    match e {
        Endianness::Little => spec_u32_from_le_bytes(b.subrange(off, off + 4)),
        Endianness::Big => spec_u32_from_le_bytes(b.subrange(off, off + 4).reverse()),
    }
}

/// The eight bytes of `b` at `off` as a `u64` in byte order `e`.
pub open spec fn spec_read_u64(b: Seq<u8>, off: int, e: Endianness) -> u64 {
    match e {
        Endianness::Little => spec_u64_from_le_bytes(b.subrange(off, off + 8)),
        Endianness::Big => spec_u64_from_le_bytes(b.subrange(off, off + 8).reverse()),
    }
}

/// The sixteen bytes of `b` at `off` as a `u128` in byte order `e`.
pub open spec fn spec_read_u128(b: Seq<u8>, off: int, e: Endianness) -> u128 {
    match e {
        Endianness::Little => spec_u128_from_le_bytes(b.subrange(off, off + 16)),
        Endianness::Big => spec_u128_from_le_bytes(b.subrange(off, off + 16).reverse()),
    }
}

/// The four bytes of `b` at `off` as an `i32` (two's complement) in byte
/// order `e`.
pub open spec fn spec_read_i32(b: Seq<u8>, off: int, e: Endianness) -> i32 {
    spec_read_u32(b, off, e) as i32
}

// ---------------------------------------------------------------------------
// Specification: the bytes a value encodes to.
// ---------------------------------------------------------------------------

/// The two bytes `x` encodes to in byte order `e`.
pub open spec fn spec_encode_u16(x: u16, e: Endianness) -> Seq<u8> {
    match e {
        Endianness::Little => spec_u16_to_le_bytes(x),
        Endianness::Big => spec_u16_to_le_bytes(x).reverse(),
    }
}

/// The four bytes `x` encodes to in byte order `e`.
pub open spec fn spec_encode_u32(x: u32, e: Endianness) -> Seq<u8> {
    match e {
        Endianness::Little => spec_u32_to_le_bytes(x),
        Endianness::Big => spec_u32_to_le_bytes(x).reverse(),
    }
}

/// The eight bytes `x` encodes to in byte order `e`.
pub open spec fn spec_encode_u64(x: u64, e: Endianness) -> Seq<u8> {
    match e {
        Endianness::Little => spec_u64_to_le_bytes(x),
        Endianness::Big => spec_u64_to_le_bytes(x).reverse(),
    }
}

/// The sixteen bytes `x` encodes to in byte order `e`.
pub open spec fn spec_encode_u128(x: u128, e: Endianness) -> Seq<u8> {
    match e {
        Endianness::Little => spec_u128_to_le_bytes(x),
        Endianness::Big => spec_u128_to_le_bytes(x).reverse(),
    }
}

/// The four bytes `x` encodes to in byte order `e`.
pub open spec fn spec_encode_i32(x: i32, e: Endianness) -> Seq<u8> {
    spec_encode_u32(x as u32, e)
}

// ---------------------------------------------------------------------------
// Length and round-trip facts about the encodings.
// ---------------------------------------------------------------------------

/// The length of every fixed-width encoding.
pub proof fn lemma_encode_lens()
    ensures
        forall|x: u16, e: Endianness| (#[trigger] spec_encode_u16(x, e)).len() == 2,
        forall|x: u32, e: Endianness| (#[trigger] spec_encode_u32(x, e)).len() == 4,
        forall|x: u64, e: Endianness| (#[trigger] spec_encode_u64(x, e)).len() == 8,
        forall|x: u128, e: Endianness| (#[trigger] spec_encode_u128(x, e)).len() == 16,
        forall|x: i32, e: Endianness| (#[trigger] spec_encode_i32(x, e)).len() == 4,
{
    lemma_auto_spec_u16_to_from_le_bytes();
    lemma_auto_spec_u32_to_from_le_bytes();
    lemma_auto_spec_u64_to_from_le_bytes();
    lemma_auto_spec_u128_to_from_le_bytes();
}

/// Reading back the encoding of `x` found at offset `off` yields `x`.
pub proof fn lemma_read_u16_at(b: Seq<u8>, off: int, x: u16, e: Endianness)
    requires
        0 <= off,
        off + 2 <= b.len(),
        b.subrange(off, off + 2) == spec_encode_u16(x, e),
    ensures
        spec_read_u16(b, off, e) == x,
{
    lemma_auto_spec_u16_to_from_le_bytes();
    assert(spec_u16_to_le_bytes(x).len() == 2);
    if e is Big {
        assert(b.subrange(off, off + 2).reverse() =~= spec_u16_to_le_bytes(x));
    } else {
        assert(b.subrange(off, off + 2) =~= spec_u16_to_le_bytes(x));
    }
    assert(spec_u16_from_le_bytes(spec_u16_to_le_bytes(x)) == x);
}

/// Reading back the encoding of `x` found at offset `off` yields `x`.
pub proof fn lemma_read_u32_at(b: Seq<u8>, off: int, x: u32, e: Endianness)
    requires
        0 <= off,
        off + 4 <= b.len(),
        b.subrange(off, off + 4) == spec_encode_u32(x, e),
    ensures
        spec_read_u32(b, off, e) == x,
{
    lemma_auto_spec_u32_to_from_le_bytes();
    assert(spec_u32_to_le_bytes(x).len() == 4);
    if e is Big {
        assert(b.subrange(off, off + 4).reverse() =~= spec_u32_to_le_bytes(x));
    } else {
        assert(b.subrange(off, off + 4) =~= spec_u32_to_le_bytes(x));
    }
    assert(spec_u32_from_le_bytes(spec_u32_to_le_bytes(x)) == x);
}

/// Reading back the encoding of `x` found at offset `off` yields `x`.
pub proof fn lemma_read_u64_at(b: Seq<u8>, off: int, x: u64, e: Endianness)
    requires
        0 <= off,
        off + 8 <= b.len(),
        b.subrange(off, off + 8) == spec_encode_u64(x, e),
    ensures
        spec_read_u64(b, off, e) == x,
{
    lemma_auto_spec_u64_to_from_le_bytes();
    assert(spec_u64_to_le_bytes(x).len() == 8);
    if e is Big {
        assert(b.subrange(off, off + 8).reverse() =~= spec_u64_to_le_bytes(x));
    } else {
        assert(b.subrange(off, off + 8) =~= spec_u64_to_le_bytes(x));
    }
    assert(spec_u64_from_le_bytes(spec_u64_to_le_bytes(x)) == x);
}

/// Reading back the encoding of `x` found at offset `off` yields `x`.
pub proof fn lemma_read_u128_at(b: Seq<u8>, off: int, x: u128, e: Endianness)
    requires
        0 <= off,
        off + 16 <= b.len(),
        b.subrange(off, off + 16) == spec_encode_u128(x, e),
    ensures
        spec_read_u128(b, off, e) == x,
{
    lemma_auto_spec_u128_to_from_le_bytes();
    assert(spec_u128_to_le_bytes(x).len() == 16);
    if e is Big {
        assert(b.subrange(off, off + 16).reverse() =~= spec_u128_to_le_bytes(x));
    } else {
        assert(b.subrange(off, off + 16) =~= spec_u128_to_le_bytes(x));
    }
    assert(spec_u128_from_le_bytes(spec_u128_to_le_bytes(x)) == x);
}

/// Reading back the encoding of `x` found at offset `off` yields `x`.
pub proof fn lemma_read_i32_at(b: Seq<u8>, off: int, x: i32, e: Endianness)
    requires
        0 <= off,
        off + 4 <= b.len(),
        b.subrange(off, off + 4) == spec_encode_i32(x, e),
    ensures
        spec_read_i32(b, off, e) == x,
{
    lemma_read_u32_at(b, off, x as u32, e);
    assert((x as u32) as i32 == x) by (bit_vector);
}

// ---------------------------------------------------------------------------
// Executable readers.
// ---------------------------------------------------------------------------

/// Copies the `n` bytes of `buf` starting at `off`, reversed.
fn read_bytes_rev(buf: &[u8], off: usize, n: usize) -> (v: Vec<u8>)
    requires
        off + n <= buf@.len(),
    ensures
        v@ == buf@.subrange(off as int, off + n).reverse(),
{
    let _blen = buf.len();  // a slice length fits usize, bounding the field offsets
    let ghost sub = buf@.subrange(off as int, off + n);
    let mut v: Vec<u8> = Vec::new();
    let mut i: usize = 0;
    while i < n
        invariant
            off + n <= buf@.len(),
            buf@.len() <= usize::MAX,
            i <= n,
            sub == buf@.subrange(off as int, off + n),
            v@ == sub.reverse().take(i as int),
        decreases n - i,
    {
        let b = buf[off + n - 1 - i];
        v.push(b);
        assert(sub.reverse().take(i + 1) =~= sub.reverse().take(i as int).push(b));
        i = i + 1;
    }
    assert(v@ =~= sub.reverse());
    v
}

/// Reads the byte of `buf` at `off`.
pub fn read_u8(buf: &[u8], off: usize) -> (r: u8)
    requires
        off < buf@.len(),
    ensures
        r == spec_read_u8(buf@, off as int),
{
    buf[off]
}

/// Reads two bytes of `buf` at `off` as a `u16` in byte order `e`.
pub fn read_u16(buf: &[u8], off: usize, e: Endianness) -> (r: u16)
    requires
        off + 2 <= buf@.len(),
    ensures
        r == spec_read_u16(buf@, off as int, e),
{
    let _blen = buf.len();  // a slice length fits usize, bounding the field offsets
    match e {
        Endianness::Little => u16_from_le_bytes(slice_subrange(buf, off, off + 2)),
        Endianness::Big => {
            let v = read_bytes_rev(buf, off, 2);
            u16_from_le_bytes(v.as_slice())
        },
    }
}

/// Reads four bytes of `buf` at `off` as a `u32` in byte order `e`.
pub fn read_u32(buf: &[u8], off: usize, e: Endianness) -> (r: u32)
    requires
        off + 4 <= buf@.len(),
    ensures
        r == spec_read_u32(buf@, off as int, e),
{
    let _blen = buf.len();  // a slice length fits usize, bounding the field offsets
    match e {
        Endianness::Little => u32_from_le_bytes(slice_subrange(buf, off, off + 4)),
        Endianness::Big => {
            let v = read_bytes_rev(buf, off, 4);
            u32_from_le_bytes(v.as_slice())
        },
    }
}

/// Reads eight bytes of `buf` at `off` as a `u64` in byte order `e`.
pub fn read_u64(buf: &[u8], off: usize, e: Endianness) -> (r: u64)
    requires
        off + 8 <= buf@.len(),
    ensures
        r == spec_read_u64(buf@, off as int, e),
{
    let _blen = buf.len();  // a slice length fits usize, bounding the field offsets
    match e {
        Endianness::Little => u64_from_le_bytes(slice_subrange(buf, off, off + 8)),
        Endianness::Big => {
            let v = read_bytes_rev(buf, off, 8);
            u64_from_le_bytes(v.as_slice())
        },
    }
}

/// Reads sixteen bytes of `buf` at `off` as a `u128` in byte order `e`.
pub fn read_u128(buf: &[u8], off: usize, e: Endianness) -> (r: u128)
    requires
        off + 16 <= buf@.len(),
    ensures
        r == spec_read_u128(buf@, off as int, e),
{
    let _blen = buf.len();  // a slice length fits usize, bounding the field offsets
    match e {
        Endianness::Little => u128_from_le_bytes(slice_subrange(buf, off, off + 16)),
        Endianness::Big => {
            let v = read_bytes_rev(buf, off, 16);
            u128_from_le_bytes(v.as_slice())
        },
    }
}

/// Reads four bytes of `buf` at `off` as an `i32` in byte order `e`.
pub fn read_i32(buf: &[u8], off: usize, e: Endianness) -> (r: i32)
    requires
        off + 4 <= buf@.len(),
    ensures
        r == spec_read_i32(buf@, off as int, e),
{
    read_u32(buf, off, e) as i32
}

/// Copies the `n` bytes of `buf` starting at `off`.
pub fn read_bytes(buf: &[u8], off: usize, n: usize) -> (v: Vec<u8>)
    requires
        off + n <= buf@.len(),
    ensures
        v@ == spec_read_bytes(buf@, off as int, n as int),
{
    let _blen = buf.len();  // a slice length fits usize, bounding the field offsets
    let ghost sub = buf@.subrange(off as int, off + n);
    let mut v: Vec<u8> = Vec::new();
    let mut i: usize = 0;
    while i < n
        invariant
            off + n <= buf@.len(),
            buf@.len() <= usize::MAX,
            i <= n,
            sub == buf@.subrange(off as int, off + n),
            v@ == sub.take(i as int),
        decreases n - i,
    {
        let b = buf[off + i];
        v.push(b);
        assert(sub.take(i + 1) =~= sub.take(i as int).push(b));
        i = i + 1;
    }
    assert(v@ =~= sub);
    v
}

// ---------------------------------------------------------------------------
// Sequences of fixed-width values (the decoded form of array fields).
// ---------------------------------------------------------------------------

/// The `count` consecutive `u16`s of `b` starting at `off`.
pub open spec fn spec_read_u16_seq(b: Seq<u8>, off: int, count: int, e: Endianness) -> Seq<u16> {
    Seq::new(count as nat, |i: int| spec_read_u16(b, off + 2 * i, e))
}

/// The `count` consecutive `u32`s of `b` starting at `off`.
pub open spec fn spec_read_u32_seq(b: Seq<u8>, off: int, count: int, e: Endianness) -> Seq<u32> {
    Seq::new(count as nat, |i: int| spec_read_u32(b, off + 4 * i, e))
}

/// The `count` consecutive `u64`s of `b` starting at `off`.
pub open spec fn spec_read_u64_seq(b: Seq<u8>, off: int, count: int, e: Endianness) -> Seq<u64> {
    Seq::new(count as nat, |i: int| spec_read_u64(b, off + 8 * i, e))
}

/// The `count` consecutive `u128`s of `b` starting at `off`.
pub open spec fn spec_read_u128_seq(b: Seq<u8>, off: int, count: int, e: Endianness) -> Seq<u128> {
    Seq::new(count as nat, |i: int| spec_read_u128(b, off + 16 * i, e))
}

/// Reads `count` consecutive `u16`s of `buf` starting at `off`.
pub fn read_u16_vec(buf: &[u8], off: usize, count: usize, e: Endianness) -> (v: Vec<u16>)
    requires
        off + 2 * count <= buf@.len(),
    ensures
        v@ == spec_read_u16_seq(buf@, off as int, count as int, e),
{
    let _blen = buf.len();  // a slice length fits usize, bounding the field offsets
    let mut v: Vec<u16> = Vec::new();
    let mut i: usize = 0;
    while i < count
        invariant
            off + 2 * count <= buf@.len(),
            buf@.len() <= usize::MAX,
            i <= count,
            v@ =~= spec_read_u16_seq(buf@, off as int, count as int, e).take(i as int),
        decreases count - i,
    {
        v.push(read_u16(buf, off + 2 * i, e));
        i = i + 1;
    }
    assert(v@ =~= spec_read_u16_seq(buf@, off as int, count as int, e));
    v
}

/// Reads `count` consecutive `u32`s of `buf` starting at `off`.
pub fn read_u32_vec(buf: &[u8], off: usize, count: usize, e: Endianness) -> (v: Vec<u32>)
    requires
        off + 4 * count <= buf@.len(),
    ensures
        v@ == spec_read_u32_seq(buf@, off as int, count as int, e),
{
    let _blen = buf.len();  // a slice length fits usize, bounding the field offsets
    let mut v: Vec<u32> = Vec::new();
    let mut i: usize = 0;
    while i < count
        invariant
            off + 4 * count <= buf@.len(),
            buf@.len() <= usize::MAX,
            i <= count,
            v@ =~= spec_read_u32_seq(buf@, off as int, count as int, e).take(i as int),
        decreases count - i,
    {
        v.push(read_u32(buf, off + 4 * i, e));
        i = i + 1;
    }
    assert(v@ =~= spec_read_u32_seq(buf@, off as int, count as int, e));
    v
}

/// Reads `count` consecutive `u64`s of `buf` starting at `off`.
pub fn read_u64_vec(buf: &[u8], off: usize, count: usize, e: Endianness) -> (v: Vec<u64>)
    requires
        off + 8 * count <= buf@.len(),
    ensures
        v@ == spec_read_u64_seq(buf@, off as int, count as int, e),
{
    let _blen = buf.len();  // a slice length fits usize, bounding the field offsets
    let mut v: Vec<u64> = Vec::new();
    let mut i: usize = 0;
    while i < count
        invariant
            off + 8 * count <= buf@.len(),
            buf@.len() <= usize::MAX,
            i <= count,
            v@ =~= spec_read_u64_seq(buf@, off as int, count as int, e).take(i as int),
        decreases count - i,
    {
        v.push(read_u64(buf, off + 8 * i, e));
        i = i + 1;
    }
    assert(v@ =~= spec_read_u64_seq(buf@, off as int, count as int, e));
    v
}

/// Reads `count` consecutive `u128`s of `buf` starting at `off`.
pub fn read_u128_vec(buf: &[u8], off: usize, count: usize, e: Endianness) -> (v: Vec<u128>)
    requires
        off + 16 * count <= buf@.len(),
    ensures
        v@ == spec_read_u128_seq(buf@, off as int, count as int, e),
{
    let _blen = buf.len();  // a slice length fits usize, bounding the field offsets
    let mut v: Vec<u128> = Vec::new();
    let mut i: usize = 0;
    while i < count
        invariant
            off + 16 * count <= buf@.len(),
            buf@.len() <= usize::MAX,
            i <= count,
            v@ =~= spec_read_u128_seq(buf@, off as int, count as int, e).take(i as int),
        decreases count - i,
    {
        v.push(read_u128(buf, off + 16 * i, e));
        i = i + 1;
    }
    assert(v@ =~= spec_read_u128_seq(buf@, off as int, count as int, e));
    v
}

// ---------------------------------------------------------------------------
// Executable writers (the encoders used for round-trip testing).
// ---------------------------------------------------------------------------

/// Appends `bs` to `out` in order.
fn append_fwd(out: &mut Vec<u8>, bs: &[u8])
    ensures
        final(out)@ == old(out)@ + bs@,
{
    let mut i: usize = 0;
    while i < bs.len()
        invariant
            i <= bs@.len(),
            out@ == old(out)@ + bs@.take(i as int),
        decreases bs@.len() - i,
    {
        let b = bs[i];
        out.push(b);
        assert(bs@.take(i + 1) =~= bs@.take(i as int).push(b));
        assert(out@ =~= old(out)@ + bs@.take(i + 1));
        i = i + 1;
    }
    assert(out@ =~= old(out)@ + bs@);
}

/// Appends `bs` to `out` in reverse order.
fn append_rev(out: &mut Vec<u8>, bs: &[u8])
    ensures
        final(out)@ == old(out)@ + bs@.reverse(),
{
    let ghost rev = bs@.reverse();
    let n = bs.len();
    let mut i: usize = 0;
    while i < n
        invariant
            n == bs@.len(),
            rev == bs@.reverse(),
            i <= n,
            out@ == old(out)@ + rev.take(i as int),
        decreases n - i,
    {
        let b = bs[n - 1 - i];
        out.push(b);
        assert(rev.take(i + 1) =~= rev.take(i as int).push(b));
        assert(out@ =~= old(out)@ + rev.take(i + 1));
        i = i + 1;
    }
    assert(out@ =~= old(out)@ + rev);
}

/// Appends the single byte `x` to `out`.
pub fn write_u8(out: &mut Vec<u8>, x: u8)
    ensures
        final(out)@ == old(out)@ + seq![x],
{
    out.push(x);
    assert(out@ =~= old(out)@ + seq![x]);
}

/// Appends the encoding of `x` in byte order `e` to `out`.
pub fn write_u16(out: &mut Vec<u8>, x: u16, e: Endianness)
    ensures
        final(out)@ == old(out)@ + spec_encode_u16(x, e),
{
    let bs = u16_to_le_bytes(x);
    match e {
        Endianness::Little => append_fwd(out, bs.as_slice()),
        Endianness::Big => append_rev(out, bs.as_slice()),
    }
}

/// Appends the encoding of `x` in byte order `e` to `out`.
pub fn write_u32(out: &mut Vec<u8>, x: u32, e: Endianness)
    ensures
        final(out)@ == old(out)@ + spec_encode_u32(x, e),
{
    let bs = u32_to_le_bytes(x);
    match e {
        Endianness::Little => append_fwd(out, bs.as_slice()),
        Endianness::Big => append_rev(out, bs.as_slice()),
    }
}

/// Appends the encoding of `x` in byte order `e` to `out`.
pub fn write_u64(out: &mut Vec<u8>, x: u64, e: Endianness)
    ensures
        final(out)@ == old(out)@ + spec_encode_u64(x, e),
{
    let bs = u64_to_le_bytes(x);
    match e {
        Endianness::Little => append_fwd(out, bs.as_slice()),
        Endianness::Big => append_rev(out, bs.as_slice()),
    }
}

/// Appends the encoding of `x` in byte order `e` to `out`.
pub fn write_u128(out: &mut Vec<u8>, x: u128, e: Endianness)
    ensures
        final(out)@ == old(out)@ + spec_encode_u128(x, e),
{
    let bs = u128_to_le_bytes(x);
    match e {
        Endianness::Little => append_fwd(out, bs.as_slice()),
        Endianness::Big => append_rev(out, bs.as_slice()),
    }
}

/// Appends the encoding of `x` in byte order `e` to `out`.
pub fn write_i32(out: &mut Vec<u8>, x: i32, e: Endianness)
    ensures
        final(out)@ == old(out)@ + spec_encode_i32(x, e),
{
    write_u32(out, x as u32, e);
}

/// Appends the bytes of `bs` to `out` unchanged.
pub fn write_bytes(out: &mut Vec<u8>, bs: &Vec<u8>)
    ensures
        final(out)@ == old(out)@ + bs@,
{
    append_fwd(out, bs.as_slice());
}


// ---------------------------------------------------------------------------
// Flat encodings of sequences of fixed-width values.
// ---------------------------------------------------------------------------

/// The bytes a sequence of `u16`s encodes to, in order, in byte order `e`.
pub open spec fn spec_encode_u16_seq(s: Seq<u16>, e: Endianness) -> Seq<u8>
    decreases s.len(),
{
    if s.len() == 0 {
        Seq::empty()
    } else {
        spec_encode_u16(s[0], e) + spec_encode_u16_seq(s.drop_first(), e)
    }
}

/// The flat encoding of `s` is `2` bytes per element.
pub proof fn lemma_encode_u16_seq_len(s: Seq<u16>, e: Endianness)
    ensures
        spec_encode_u16_seq(s, e).len() == 2 * s.len(),
    decreases s.len(),
{
    lemma_encode_lens();
    if s.len() > 0 {
        lemma_encode_u16_seq_len(s.drop_first(), e);
    }
}

/// Appending one element appends its encoding.
pub proof fn lemma_encode_u16_seq_push(s: Seq<u16>, x: u16, e: Endianness)
    ensures
        spec_encode_u16_seq(s.push(x), e) == spec_encode_u16_seq(s, e) + spec_encode_u16(x, e),
    decreases s.len(),
{
    if s.len() == 0 {
        assert(s.push(x).drop_first() =~= s);
        assert(spec_encode_u16_seq(s.push(x), e) =~= spec_encode_u16_seq(s, e)
            + spec_encode_u16(x, e));
    } else {
        assert(s.push(x).drop_first() =~= s.drop_first().push(x));
        lemma_encode_u16_seq_push(s.drop_first(), x, e);
        assert(spec_encode_u16_seq(s.push(x), e) =~= spec_encode_u16_seq(s, e)
            + spec_encode_u16(x, e));
    }
}

/// Reading back the flat encoding of `s` found at offset `off` yields `s`.
pub proof fn lemma_read_u16_seq_at(b: Seq<u8>, off: int, s: Seq<u16>, e: Endianness)
    requires
        0 <= off,
        off + 2 * s.len() <= b.len(),
        b.subrange(off, off + 2 * s.len()) == spec_encode_u16_seq(s, e),
    ensures
        spec_read_u16_seq(b, off, s.len() as int, e) == s,
    decreases s.len(),
{
    lemma_encode_lens();
    if s.len() == 0 {
        assert(spec_read_u16_seq(b, off, 0, e) =~= s);
    } else {
        let rest = s.drop_first();
        lemma_encode_u16_seq_len(rest, e);
        let whole = b.subrange(off, off + 2 * s.len());
        let enc0 = spec_encode_u16(s[0], e);
        let encr = spec_encode_u16_seq(rest, e);
        assert(spec_encode_u16_seq(s, e) == enc0 + encr);
        assert forall|j: int| 0 <= j < 2 implies b.subrange(off, off + 2)[j] == enc0[j] by {
            assert(whole[j] == (enc0 + encr)[j]);
            assert((enc0 + encr)[j] == enc0[j]);
            assert(b.subrange(off, off + 2)[j] == b[off + j]);
            assert(whole[j] == b[off + j]);
        }
        assert(b.subrange(off, off + 2) =~= enc0);
        lemma_read_u16_at(b, off, s[0], e);
        assert forall|j: int| 0 <= j < 2 * rest.len() implies b.subrange(
            off + 2,
            off + 2 + 2 * rest.len(),
        )[j] == encr[j] by {
            assert(whole[2 + j] == (enc0 + encr)[2 + j]);
            assert((enc0 + encr)[2 + j] == encr[j]);
            assert(b.subrange(off + 2, off + 2 + 2 * rest.len())[j] == b[off + 2 + j]);
            assert(whole[2 + j] == b[off + 2 + j]);
        }
        assert(b.subrange(off + 2, off + 2 + 2 * rest.len()) =~= encr);
        lemma_read_u16_seq_at(b, off + 2, rest, e);
        assert(spec_read_u16_seq(b, off, s.len() as int, e) =~= s) by {
            assert(forall|i: int| 0 < i < s.len()
                ==> spec_read_u16_seq(b, off + 2, rest.len() as int, e)[i - 1]
                    == #[trigger] s[i]);
        }
    }
}

/// Appends the flat encoding of `v` in byte order `e` to `out`.
pub fn write_u16_vec(out: &mut Vec<u8>, v: &Vec<u16>, e: Endianness)
    ensures
        final(out)@ == old(out)@ + spec_encode_u16_seq(v@, e),
{
    let mut i: usize = 0;
    while i < v.len()
        invariant
            i <= v@.len(),
            out@ == old(out)@ + spec_encode_u16_seq(v@.take(i as int), e),
        decreases v@.len() - i,
    {
        write_u16(out, v[i], e);
        proof {
            lemma_encode_u16_seq_push(v@.take(i as int), v@[i as int], e);
            assert(v@.take(i + 1) =~= v@.take(i as int).push(v@[i as int]));
        }
        i = i + 1;
    }
    proof {
        assert(v@.take(v@.len() as int) =~= v@);
    }
}

/// The bytes a sequence of `u32`s encodes to, in order, in byte order `e`.
pub open spec fn spec_encode_u32_seq(s: Seq<u32>, e: Endianness) -> Seq<u8>
    decreases s.len(),
{
    if s.len() == 0 {
        Seq::empty()
    } else {
        spec_encode_u32(s[0], e) + spec_encode_u32_seq(s.drop_first(), e)
    }
}

/// The flat encoding of `s` is `4` bytes per element.
pub proof fn lemma_encode_u32_seq_len(s: Seq<u32>, e: Endianness)
    ensures
        spec_encode_u32_seq(s, e).len() == 4 * s.len(),
    decreases s.len(),
{
    lemma_encode_lens();
    if s.len() > 0 {
        lemma_encode_u32_seq_len(s.drop_first(), e);
    }
}

/// Appending one element appends its encoding.
pub proof fn lemma_encode_u32_seq_push(s: Seq<u32>, x: u32, e: Endianness)
    ensures
        spec_encode_u32_seq(s.push(x), e) == spec_encode_u32_seq(s, e) + spec_encode_u32(x, e),
    decreases s.len(),
{
    if s.len() == 0 {
        assert(s.push(x).drop_first() =~= s);
        assert(spec_encode_u32_seq(s.push(x), e) =~= spec_encode_u32_seq(s, e)
            + spec_encode_u32(x, e));
    } else {
        assert(s.push(x).drop_first() =~= s.drop_first().push(x));
        lemma_encode_u32_seq_push(s.drop_first(), x, e);
        assert(spec_encode_u32_seq(s.push(x), e) =~= spec_encode_u32_seq(s, e)
            + spec_encode_u32(x, e));
    }
}

/// Reading back the flat encoding of `s` found at offset `off` yields `s`.
pub proof fn lemma_read_u32_seq_at(b: Seq<u8>, off: int, s: Seq<u32>, e: Endianness)
    requires
        0 <= off,
        off + 4 * s.len() <= b.len(),
        b.subrange(off, off + 4 * s.len()) == spec_encode_u32_seq(s, e),
    ensures
        spec_read_u32_seq(b, off, s.len() as int, e) == s,
    decreases s.len(),
{
    lemma_encode_lens();
    if s.len() == 0 {
        assert(spec_read_u32_seq(b, off, 0, e) =~= s);
    } else {
        let rest = s.drop_first();
        lemma_encode_u32_seq_len(rest, e);
        let whole = b.subrange(off, off + 4 * s.len());
        let enc0 = spec_encode_u32(s[0], e);
        let encr = spec_encode_u32_seq(rest, e);
        assert(spec_encode_u32_seq(s, e) == enc0 + encr);
        assert forall|j: int| 0 <= j < 4 implies b.subrange(off, off + 4)[j] == enc0[j] by {
            assert(whole[j] == (enc0 + encr)[j]);
            assert((enc0 + encr)[j] == enc0[j]);
            assert(b.subrange(off, off + 4)[j] == b[off + j]);
            assert(whole[j] == b[off + j]);
        }
        assert(b.subrange(off, off + 4) =~= enc0);
        lemma_read_u32_at(b, off, s[0], e);
        assert forall|j: int| 0 <= j < 4 * rest.len() implies b.subrange(
            off + 4,
            off + 4 + 4 * rest.len(),
        )[j] == encr[j] by {
            assert(whole[4 + j] == (enc0 + encr)[4 + j]);
            assert((enc0 + encr)[4 + j] == encr[j]);
            assert(b.subrange(off + 4, off + 4 + 4 * rest.len())[j] == b[off + 4 + j]);
            assert(whole[4 + j] == b[off + 4 + j]);
        }
        assert(b.subrange(off + 4, off + 4 + 4 * rest.len()) =~= encr);
        lemma_read_u32_seq_at(b, off + 4, rest, e);
        assert(spec_read_u32_seq(b, off, s.len() as int, e) =~= s) by {
            assert(forall|i: int| 0 < i < s.len()
                ==> spec_read_u32_seq(b, off + 4, rest.len() as int, e)[i - 1]
                    == #[trigger] s[i]);
        }
    }
}

/// Appends the flat encoding of `v` in byte order `e` to `out`.
pub fn write_u32_vec(out: &mut Vec<u8>, v: &Vec<u32>, e: Endianness)
    ensures
        final(out)@ == old(out)@ + spec_encode_u32_seq(v@, e),
{
    let mut i: usize = 0;
    while i < v.len()
        invariant
            i <= v@.len(),
            out@ == old(out)@ + spec_encode_u32_seq(v@.take(i as int), e),
        decreases v@.len() - i,
    {
        write_u32(out, v[i], e);
        proof {
            lemma_encode_u32_seq_push(v@.take(i as int), v@[i as int], e);
            assert(v@.take(i + 1) =~= v@.take(i as int).push(v@[i as int]));
        }
        i = i + 1;
    }
    proof {
        assert(v@.take(v@.len() as int) =~= v@);
    }
}

/// The bytes a sequence of `u64`s encodes to, in order, in byte order `e`.
pub open spec fn spec_encode_u64_seq(s: Seq<u64>, e: Endianness) -> Seq<u8>
    decreases s.len(),
{
    if s.len() == 0 {
        Seq::empty()
    } else {
        spec_encode_u64(s[0], e) + spec_encode_u64_seq(s.drop_first(), e)
    }
}

/// The flat encoding of `s` is `8` bytes per element.
pub proof fn lemma_encode_u64_seq_len(s: Seq<u64>, e: Endianness)
    ensures
        spec_encode_u64_seq(s, e).len() == 8 * s.len(),
    decreases s.len(),
{
    lemma_encode_lens();
    if s.len() > 0 {
        lemma_encode_u64_seq_len(s.drop_first(), e);
    }
}

/// Appending one element appends its encoding.
pub proof fn lemma_encode_u64_seq_push(s: Seq<u64>, x: u64, e: Endianness)
    ensures
        spec_encode_u64_seq(s.push(x), e) == spec_encode_u64_seq(s, e) + spec_encode_u64(x, e),
    decreases s.len(),
{
    if s.len() == 0 {
        assert(s.push(x).drop_first() =~= s);
        assert(spec_encode_u64_seq(s.push(x), e) =~= spec_encode_u64_seq(s, e)
            + spec_encode_u64(x, e));
    } else {
        assert(s.push(x).drop_first() =~= s.drop_first().push(x));
        lemma_encode_u64_seq_push(s.drop_first(), x, e);
        assert(spec_encode_u64_seq(s.push(x), e) =~= spec_encode_u64_seq(s, e)
            + spec_encode_u64(x, e));
    }
}

/// Reading back the flat encoding of `s` found at offset `off` yields `s`.
pub proof fn lemma_read_u64_seq_at(b: Seq<u8>, off: int, s: Seq<u64>, e: Endianness)
    requires
        0 <= off,
        off + 8 * s.len() <= b.len(),
        b.subrange(off, off + 8 * s.len()) == spec_encode_u64_seq(s, e),
    ensures
        spec_read_u64_seq(b, off, s.len() as int, e) == s,
    decreases s.len(),
{
    lemma_encode_lens();
    if s.len() == 0 {
        assert(spec_read_u64_seq(b, off, 0, e) =~= s);
    } else {
        let rest = s.drop_first();
        lemma_encode_u64_seq_len(rest, e);
        let whole = b.subrange(off, off + 8 * s.len());
        let enc0 = spec_encode_u64(s[0], e);
        let encr = spec_encode_u64_seq(rest, e);
        assert(spec_encode_u64_seq(s, e) == enc0 + encr);
        assert forall|j: int| 0 <= j < 8 implies b.subrange(off, off + 8)[j] == enc0[j] by {
            assert(whole[j] == (enc0 + encr)[j]);
            assert((enc0 + encr)[j] == enc0[j]);
            assert(b.subrange(off, off + 8)[j] == b[off + j]);
            assert(whole[j] == b[off + j]);
        }
        assert(b.subrange(off, off + 8) =~= enc0);
        lemma_read_u64_at(b, off, s[0], e);
        assert forall|j: int| 0 <= j < 8 * rest.len() implies b.subrange(
            off + 8,
            off + 8 + 8 * rest.len(),
        )[j] == encr[j] by {
            assert(whole[8 + j] == (enc0 + encr)[8 + j]);
            assert((enc0 + encr)[8 + j] == encr[j]);
            assert(b.subrange(off + 8, off + 8 + 8 * rest.len())[j] == b[off + 8 + j]);
            assert(whole[8 + j] == b[off + 8 + j]);
        }
        assert(b.subrange(off + 8, off + 8 + 8 * rest.len()) =~= encr);
        lemma_read_u64_seq_at(b, off + 8, rest, e);
        assert(spec_read_u64_seq(b, off, s.len() as int, e) =~= s) by {
            assert(forall|i: int| 0 < i < s.len()
                ==> spec_read_u64_seq(b, off + 8, rest.len() as int, e)[i - 1]
                    == #[trigger] s[i]);
        }
    }
}

/// Appends the flat encoding of `v` in byte order `e` to `out`.
pub fn write_u64_vec(out: &mut Vec<u8>, v: &Vec<u64>, e: Endianness)
    ensures
        final(out)@ == old(out)@ + spec_encode_u64_seq(v@, e),
{
    let mut i: usize = 0;
    while i < v.len()
        invariant
            i <= v@.len(),
            out@ == old(out)@ + spec_encode_u64_seq(v@.take(i as int), e),
        decreases v@.len() - i,
    {
        write_u64(out, v[i], e);
        proof {
            lemma_encode_u64_seq_push(v@.take(i as int), v@[i as int], e);
            assert(v@.take(i + 1) =~= v@.take(i as int).push(v@[i as int]));
        }
        i = i + 1;
    }
    proof {
        assert(v@.take(v@.len() as int) =~= v@);
    }
}

/// The bytes a sequence of `u128`s encodes to, in order, in byte order `e`.
pub open spec fn spec_encode_u128_seq(s: Seq<u128>, e: Endianness) -> Seq<u8>
    decreases s.len(),
{
    if s.len() == 0 {
        Seq::empty()
    } else {
        spec_encode_u128(s[0], e) + spec_encode_u128_seq(s.drop_first(), e)
    }
}

/// The flat encoding of `s` is `16` bytes per element.
pub proof fn lemma_encode_u128_seq_len(s: Seq<u128>, e: Endianness)
    ensures
        spec_encode_u128_seq(s, e).len() == 16 * s.len(),
    decreases s.len(),
{
    lemma_encode_lens();
    if s.len() > 0 {
        lemma_encode_u128_seq_len(s.drop_first(), e);
    }
}

/// Appending one element appends its encoding.
pub proof fn lemma_encode_u128_seq_push(s: Seq<u128>, x: u128, e: Endianness)
    ensures
        spec_encode_u128_seq(s.push(x), e) == spec_encode_u128_seq(s, e) + spec_encode_u128(x, e),
    decreases s.len(),
{
    if s.len() == 0 {
        assert(s.push(x).drop_first() =~= s);
        assert(spec_encode_u128_seq(s.push(x), e) =~= spec_encode_u128_seq(s, e)
            + spec_encode_u128(x, e));
    } else {
        assert(s.push(x).drop_first() =~= s.drop_first().push(x));
        lemma_encode_u128_seq_push(s.drop_first(), x, e);
        assert(spec_encode_u128_seq(s.push(x), e) =~= spec_encode_u128_seq(s, e)
            + spec_encode_u128(x, e));
    }
}

/// Reading back the flat encoding of `s` found at offset `off` yields `s`.
pub proof fn lemma_read_u128_seq_at(b: Seq<u8>, off: int, s: Seq<u128>, e: Endianness)
    requires
        0 <= off,
        off + 16 * s.len() <= b.len(),
        b.subrange(off, off + 16 * s.len()) == spec_encode_u128_seq(s, e),
    ensures
        spec_read_u128_seq(b, off, s.len() as int, e) == s,
    decreases s.len(),
{
    lemma_encode_lens();
    if s.len() == 0 {
        assert(spec_read_u128_seq(b, off, 0, e) =~= s);
    } else {
        let rest = s.drop_first();
        lemma_encode_u128_seq_len(rest, e);
        let whole = b.subrange(off, off + 16 * s.len());
        let enc0 = spec_encode_u128(s[0], e);
        let encr = spec_encode_u128_seq(rest, e);
        assert(spec_encode_u128_seq(s, e) == enc0 + encr);
        assert forall|j: int| 0 <= j < 16 implies b.subrange(off, off + 16)[j] == enc0[j] by {
            assert(whole[j] == (enc0 + encr)[j]);
            assert((enc0 + encr)[j] == enc0[j]);
            assert(b.subrange(off, off + 16)[j] == b[off + j]);
            assert(whole[j] == b[off + j]);
        }
        assert(b.subrange(off, off + 16) =~= enc0);
        lemma_read_u128_at(b, off, s[0], e);
        assert forall|j: int| 0 <= j < 16 * rest.len() implies b.subrange(
            off + 16,
            off + 16 + 16 * rest.len(),
        )[j] == encr[j] by {
            assert(whole[16 + j] == (enc0 + encr)[16 + j]);
            assert((enc0 + encr)[16 + j] == encr[j]);
            assert(b.subrange(off + 16, off + 16 + 16 * rest.len())[j] == b[off + 16 + j]);
            assert(whole[16 + j] == b[off + 16 + j]);
        }
        assert(b.subrange(off + 16, off + 16 + 16 * rest.len()) =~= encr);
        lemma_read_u128_seq_at(b, off + 16, rest, e);
        assert(spec_read_u128_seq(b, off, s.len() as int, e) =~= s) by {
            assert(forall|i: int| 0 < i < s.len()
                ==> spec_read_u128_seq(b, off + 16, rest.len() as int, e)[i - 1]
                    == #[trigger] s[i]);
        }
    }
}

/// Appends the flat encoding of `v` in byte order `e` to `out`.
pub fn write_u128_vec(out: &mut Vec<u8>, v: &Vec<u128>, e: Endianness)
    ensures
        final(out)@ == old(out)@ + spec_encode_u128_seq(v@, e),
{
    let mut i: usize = 0;
    while i < v.len()
        invariant
            i <= v@.len(),
            out@ == old(out)@ + spec_encode_u128_seq(v@.take(i as int), e),
        decreases v@.len() - i,
    {
        write_u128(out, v[i], e);
        proof {
            lemma_encode_u128_seq_push(v@.take(i as int), v@[i as int], e);
            assert(v@.take(i + 1) =~= v@.take(i as int).push(v@[i as int]));
        }
        i = i + 1;
    }
    proof {
        assert(v@.take(v@.len() as int) =~= v@);
    }
}


/// Splits knowledge of a subrange equal to a concatenation into knowledge of
/// the two parts.
pub proof fn lemma_split_at(b: Seq<u8>, off: int, mid: int, end: int, x: Seq<u8>, y: Seq<u8>)
    requires
        0 <= off <= mid <= end <= b.len(),
        x.len() == mid - off,
        y.len() == end - mid,
        b.subrange(off, end) == x + y,
    ensures
        b.subrange(off, mid) == x,
        b.subrange(mid, end) == y,
{
    let whole = b.subrange(off, end);
    assert forall|j: int| 0 <= j < mid - off implies b.subrange(off, mid)[j] == x[j] by {
        assert(whole[j] == (x + y)[j]);
        assert((x + y)[j] == x[j]);
        assert(b.subrange(off, mid)[j] == b[off + j]);
        assert(whole[j] == b[off + j]);
    }
    assert(b.subrange(off, mid) =~= x);
    assert forall|j: int| 0 <= j < end - mid implies b.subrange(mid, end)[j] == y[j] by {
        assert(whole[mid - off + j] == (x + y)[mid - off + j]);
        assert((x + y)[mid - off + j] == y[j]);
        assert(b.subrange(mid, end)[j] == b[mid + j]);
        assert(whole[mid - off + j] == b[mid + j]);
    }
    assert(b.subrange(mid, end) =~= y);
}


/// Sequence concatenation is associative.
pub proof fn lemma_seq_add_assoc(a: Seq<u8>, b: Seq<u8>, c: Seq<u8>)
    ensures
        (a + b) + c == a + (b + c),
{
    assert((a + b) + c =~= a + (b + c));
}


/// What a fixed-width read returns depends only on the bytes it reads.
pub proof fn lemma_read_u16_depends_on_bytes(
    b1: Seq<u8>,
    o1: int,
    b2: Seq<u8>,
    o2: int,
    e: Endianness,
)
    requires
        b1.subrange(o1, o1 + 2) == b2.subrange(o2, o2 + 2),
    ensures
        spec_read_u16(b1, o1, e) == spec_read_u16(b2, o2, e),
{
}

/// What a fixed-width read returns depends only on the bytes it reads.
pub proof fn lemma_read_u32_depends_on_bytes(
    b1: Seq<u8>,
    o1: int,
    b2: Seq<u8>,
    o2: int,
    e: Endianness,
)
    requires
        b1.subrange(o1, o1 + 4) == b2.subrange(o2, o2 + 4),
    ensures
        spec_read_u32(b1, o1, e) == spec_read_u32(b2, o2, e),
{
}

/// What a fixed-width read returns depends only on the bytes it reads.
pub proof fn lemma_read_u64_depends_on_bytes(
    b1: Seq<u8>,
    o1: int,
    b2: Seq<u8>,
    o2: int,
    e: Endianness,
)
    requires
        b1.subrange(o1, o1 + 8) == b2.subrange(o2, o2 + 8),
    ensures
        spec_read_u64(b1, o1, e) == spec_read_u64(b2, o2, e),
{
}

} // verus!
