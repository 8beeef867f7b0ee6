//! Verified decoding layer for the minidump crash-dump container format.
//!
//! A minidump file is a fixed header, a directory of typed streams, and
//! records addressed by file-absolute byte offsets (RVAs). This crate defines
//! the record types and verified decoders for them: every decoder is a pure
//! function of `(bytes, offset, byte order)` whose result is pinned down by a
//! specification function over the byte sequence, and every bounds check is
//! proved rather than assumed.
//!
//! The layers, leaves first: [`codec`] reads and writes fixed-width integers
//! and byte runs at explicit offsets with an explicit byte order;
//! [`records`], [`contexts`], [`sysinfo`], [`crashpad`], [`linux`],
//! [`codeview`] and [`mac_crash_info`] define the record types with their
//! decoders and, for round-trip testing, encoders; [`misc_info`] and
//! [`mac_crash_info`] also hold the versioned record families, decoded
//! version by version without ever reading past the declared size or the
//! buffer; [`streams`], [`enums`], [`exceptions`], [`registers`],
//! [`win_error`] and [`nt_status`] map raw integer codes to named symbols
//! and back, preserving unknown values; [`flags`] holds the bit-flag words
//! and the architecture selector; and [`laws`] states determinism of
//! decoding as proved lemmas.
#![allow(non_camel_case_types)]

use vstd::prelude::*;

pub mod codec;
pub mod enums;
pub mod exceptions;
pub mod nt_status;
pub mod registers;
pub mod streams;
pub mod win_error;
pub mod codeview;
pub mod contexts;
pub mod crashpad;
pub mod flags;
pub mod laws;
pub mod linux;
pub mod mac_crash_info;
pub mod misc_info;
pub mod records;
pub mod sysinfo;

verus! {

/// An offset from the start of the minidump file.
pub type RVA = u32;

/// A 64-bit offset from the start of the minidump file.
pub type RVA64 = u64;

/// The 4-byte magic number at the start of a minidump file.
///
/// In little endian this spells 'MDMP'.
pub const MINIDUMP_SIGNATURE: u32 = 0x504d444d;

/// The version of the minidump format.
pub const MINIDUMP_VERSION: u32 = 42899;

} // verus!
