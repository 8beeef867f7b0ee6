//! Bit-flag words used across the format, and the architecture selector.
//!
//! Each flag type is a transparent wrapper around its `u32` word: unknown
//! bits are dropped by `from_bits_truncate` exactly as the known mask says,
//! and every operation's result is stated over the bits themselves.

use vstd::prelude::*;

verus! {

use crate::codec::DecodeError;

/// Valid bits in a `context_flags` word for [`ContextFlagsCpu`]: the
/// CPU-type discriminator occupies these bits of the larger flags word.
pub const CONTEXT_CPU_MASK: u32 = 0xffffff00;

/// CPU type values in the `context_flags` member of `CONTEXT_` records.
///
/// This applies to every architecture-specific context record: the CPU-type
/// bits of the flags word say which of the mutually exclusive layouts the
/// raw context region follows.
#[derive(Debug, Clone, Copy, PartialEq, Eq, Structural)]
pub struct ContextFlagsCpu {
    pub bits: u32,
}

impl ContextFlagsCpu {
    pub const CONTEXT_IA64: u32 = 0x80000;

    /// Super-H, includes SH3, from winnt.h in the Windows CE 5.0 SDK
    pub const CONTEXT_SHX: u32 = 0xc0;

    /// From winnt.h in the Windows CE 5.0 SDK, no longer used
    pub const CONTEXT_ARM_OLD: u32 = 0x40;

    /// Alpha, from winnt.h in the Windows CE 5.0 SDK
    pub const CONTEXT_ALPHA: u32 = 0x20000;

    pub const CONTEXT_AMD64: u32 = 0x100000;

    pub const CONTEXT_ARM: u32 = 0x40000000;

    pub const CONTEXT_ARM64: u32 = 0x400000;

    pub const CONTEXT_ARM64_OLD: u32 = 0x80000000;

    pub const CONTEXT_MIPS: u32 = 0x40000;

    pub const CONTEXT_MIPS64: u32 = 0x80000;

    pub const CONTEXT_PPC: u32 = 0x20000000;

    pub const CONTEXT_PPC64: u32 = 0x1000000;

    pub const CONTEXT_SPARC: u32 = 0x10000000;

    pub const CONTEXT_X86: u32 = 0x10000;

    /// The union of every named bit.
    pub const MASK_ALL: u32 = 0xf15f00c0;

    /// The flag word with no bit set.
    pub fn empty() -> (r: Self)
        ensures
            r.bits == 0,
    {
        ContextFlagsCpu { bits: 0 }
    }

    /// The flag word with every named bit set.
    pub fn all() -> (r: Self)
        ensures
            r.bits == ContextFlagsCpu::MASK_ALL,
    {
        ContextFlagsCpu { bits: ContextFlagsCpu::MASK_ALL }
    }

    /// Keeps the named bits of `bits` and drops the rest.
    pub fn from_bits_truncate(bits: u32) -> (r: Self)
        ensures
            r.bits == bits & ContextFlagsCpu::MASK_ALL,
    {
        ContextFlagsCpu { bits: bits & ContextFlagsCpu::MASK_ALL }
    }

    /// The raw flag word.
    pub fn bits(self) -> (r: u32)
        ensures
            r == self.bits,
    {
        self.bits
    }

    /// Whether every bit of `other` is set in `self`.
    pub fn contains(self, other: Self) -> (r: bool)
        ensures
            r == (self.bits & other.bits == other.bits),
    {
        self.bits & other.bits == other.bits
    }

    /// Whether `self` and `other` share any set bit.
    pub fn intersects(self, other: Self) -> (r: bool)
        ensures
            r == (self.bits & other.bits != 0),
    {
        self.bits & other.bits != 0
    }
}

/// Known flags for the `flags1` field of the miscellaneous-information
/// record family.
#[derive(Debug, Clone, Copy, PartialEq, Eq, Structural)]
pub struct MiscInfoFlags {
    pub bits: u32,
}

impl MiscInfoFlags {
    pub const MINIDUMP_MISC1_PROCESS_ID: u32 = 0x00000001;

    pub const MINIDUMP_MISC1_PROCESS_TIMES: u32 = 0x00000002;

    pub const MINIDUMP_MISC1_PROCESSOR_POWER_INFO: u32 = 0x00000004;

    pub const MINIDUMP_MISC3_PROCESS_INTEGRITY: u32 = 0x00000010;

    pub const MINIDUMP_MISC3_PROCESS_EXECUTE_FLAGS: u32 = 0x00000020;

    pub const MINIDUMP_MISC3_TIMEZONE: u32 = 0x00000040;

    pub const MINIDUMP_MISC3_PROTECTED_PROCESS: u32 = 0x00000080;

    pub const MINIDUMP_MISC4_BUILDSTRING: u32 = 0x00000100;

    pub const MINIDUMP_MISC5_PROCESS_COOKIE: u32 = 0x00000200;

    /// The union of every named bit.
    pub const MASK_ALL: u32 = 0x3f7;

    /// The flag word with no bit set.
    pub fn empty() -> (r: Self)
        ensures
            r.bits == 0,
    {
        MiscInfoFlags { bits: 0 }
    }

    /// The flag word with every named bit set.
    pub fn all() -> (r: Self)
        ensures
            r.bits == MiscInfoFlags::MASK_ALL,
    {
        MiscInfoFlags { bits: MiscInfoFlags::MASK_ALL }
    }

    /// Keeps the named bits of `bits` and drops the rest.
    pub fn from_bits_truncate(bits: u32) -> (r: Self)
        ensures
            r.bits == bits & MiscInfoFlags::MASK_ALL,
    {
        MiscInfoFlags { bits: bits & MiscInfoFlags::MASK_ALL }
    }

    /// The raw flag word.
    pub fn bits(self) -> (r: u32)
        ensures
            r == self.bits,
    {
        self.bits
    }

    /// Whether every bit of `other` is set in `self`.
    pub fn contains(self, other: Self) -> (r: bool)
        ensures
            r == (self.bits & other.bits == other.bits),
    {
        self.bits & other.bits == other.bits
    }

    /// Whether `self` and `other` share any set bit.
    pub fn intersects(self, other: Self) -> (r: bool)
        ensures
            r == (self.bits & other.bits != 0),
    {
        self.bits & other.bits != 0
    }
}

/// Potential values for the `state` field of a memory-information record.
#[derive(Debug, Clone, Copy, PartialEq, Eq, Structural)]
pub struct MemoryState {
    pub bits: u32,
}

impl MemoryState {
    pub const MEM_COMMIT: u32 = 0x01000;

    pub const MEM_FREE: u32 = 0x10000;

    pub const MEM_RESERVE: u32 = 0x02000;

    /// The union of every named bit.
    pub const MASK_ALL: u32 = 0x13000;

    /// The flag word with no bit set.
    pub fn empty() -> (r: Self)
        ensures
            r.bits == 0,
    {
        MemoryState { bits: 0 }
    }

    /// The flag word with every named bit set.
    pub fn all() -> (r: Self)
        ensures
            r.bits == MemoryState::MASK_ALL,
    {
        MemoryState { bits: MemoryState::MASK_ALL }
    }

    /// Keeps the named bits of `bits` and drops the rest.
    pub fn from_bits_truncate(bits: u32) -> (r: Self)
        ensures
            r.bits == bits & MemoryState::MASK_ALL,
    {
        MemoryState { bits: bits & MemoryState::MASK_ALL }
    }

    /// The raw flag word.
    pub fn bits(self) -> (r: u32)
        ensures
            r == self.bits,
    {
        self.bits
    }

    /// Whether every bit of `other` is set in `self`.
    pub fn contains(self, other: Self) -> (r: bool)
        ensures
            r == (self.bits & other.bits == other.bits),
    {
        self.bits & other.bits == other.bits
    }

    /// Whether `self` and `other` share any set bit.
    pub fn intersects(self, other: Self) -> (r: bool)
        ensures
            r == (self.bits & other.bits != 0),
    {
        self.bits & other.bits != 0
    }
}

/// Potential values for the `protection` and `allocation_protection` fields
/// of a memory-information record.
#[derive(Debug, Clone, Copy, PartialEq, Eq, Structural)]
pub struct MemoryProtection {
    pub bits: u32,
}

impl MemoryProtection {
    pub const PAGE_NOACCESS: u32 = 0x01;

    pub const PAGE_READONLY: u32 = 0x02;

    pub const PAGE_READWRITE: u32 = 0x04;

    pub const PAGE_WRITECOPY: u32 = 0x08;

    pub const PAGE_EXECUTE: u32 = 0x10;

    pub const PAGE_EXECUTE_READ: u32 = 0x20;

    pub const PAGE_EXECUTE_READWRITE: u32 = 0x40;

    pub const PAGE_EXECUTE_WRITECOPY: u32 = 0x80;

    pub const ACCESS_MASK: u32 = 0xff;

    pub const PAGE_GUARD: u32 = 0x100;

    pub const PAGE_NOCACHE: u32 = 0x200;

    pub const PAGE_WRITECOMBINE: u32 = 0x400;

    /// The union of every named bit.
    pub const MASK_ALL: u32 = 0x7ff;

    /// The flag word with no bit set.
    pub fn empty() -> (r: Self)
        ensures
            r.bits == 0,
    {
        MemoryProtection { bits: 0 }
    }

    /// The flag word with every named bit set.
    pub fn all() -> (r: Self)
        ensures
            r.bits == MemoryProtection::MASK_ALL,
    {
        MemoryProtection { bits: MemoryProtection::MASK_ALL }
    }

    /// Keeps the named bits of `bits` and drops the rest.
    pub fn from_bits_truncate(bits: u32) -> (r: Self)
        ensures
            r.bits == bits & MemoryProtection::MASK_ALL,
    {
        MemoryProtection { bits: bits & MemoryProtection::MASK_ALL }
    }

    /// The raw flag word.
    pub fn bits(self) -> (r: u32)
        ensures
            r == self.bits,
    {
        self.bits
    }

    /// Whether every bit of `other` is set in `self`.
    pub fn contains(self, other: Self) -> (r: bool)
        ensures
            r == (self.bits & other.bits == other.bits),
    {
        self.bits & other.bits == other.bits
    }

    /// Whether `self` and `other` share any set bit.
    pub fn intersects(self, other: Self) -> (r: bool)
        ensures
            r == (self.bits & other.bits != 0),
    {
        self.bits & other.bits != 0
    }
}

/// Potential values for the `_type` field of a memory-information record.
#[derive(Debug, Clone, Copy, PartialEq, Eq, Structural)]
pub struct MemoryType {
    pub bits: u32,
}

impl MemoryType {
    pub const MEM_PRIVATE: u32 = 0x00020000;

    pub const MEM_MAPPED: u32 = 0x00040000;

    pub const MEM_IMAGE: u32 = 0x01000000;

    /// The union of every named bit.
    pub const MASK_ALL: u32 = 0x1060000;

    /// The flag word with no bit set.
    pub fn empty() -> (r: Self)
        ensures
            r.bits == 0,
    {
        MemoryType { bits: 0 }
    }

    /// The flag word with every named bit set.
    pub fn all() -> (r: Self)
        ensures
            r.bits == MemoryType::MASK_ALL,
    {
        MemoryType { bits: MemoryType::MASK_ALL }
    }

    /// Keeps the named bits of `bits` and drops the rest.
    pub fn from_bits_truncate(bits: u32) -> (r: Self)
        ensures
            r.bits == bits & MemoryType::MASK_ALL,
    {
        MemoryType { bits: bits & MemoryType::MASK_ALL }
    }

    /// The raw flag word.
    pub fn bits(self) -> (r: u32)
        ensures
            r == self.bits,
    {
        self.bits
    }

    /// Whether every bit of `other` is set in `self`.
    pub fn contains(self, other: Self) -> (r: bool)
        ensures
            r == (self.bits & other.bits == other.bits),
    {
        self.bits & other.bits == other.bits
    }

    /// Whether `self` and `other` share any set bit.
    pub fn intersects(self, other: Self) -> (r: bool)
        ensures
            r == (self.bits & other.bits != 0),
    {
        self.bits & other.bits != 0
    }
}

/// Potential values for the `validity` field of the Breakpad information
/// record.
#[derive(Debug, Clone, Copy, PartialEq, Eq, Structural)]
pub struct BreakpadInfoValid {
    pub bits: u32,
}

impl BreakpadInfoValid {
    /// The `dump_thread_id` field is valid.
    pub const DumpThreadId: u32 = 0x1;

    /// The `requesting_thread_id` field is valid.
    pub const RequestingThreadId: u32 = 0x2;

    /// The union of every named bit.
    pub const MASK_ALL: u32 = 0x3;

    /// The flag word with no bit set.
    pub fn empty() -> (r: Self)
        ensures
            r.bits == 0,
    {
        BreakpadInfoValid { bits: 0 }
    }

    /// The flag word with every named bit set.
    pub fn all() -> (r: Self)
        ensures
            r.bits == BreakpadInfoValid::MASK_ALL,
    {
        BreakpadInfoValid { bits: BreakpadInfoValid::MASK_ALL }
    }

    /// Keeps the named bits of `bits` and drops the rest.
    pub fn from_bits_truncate(bits: u32) -> (r: Self)
        ensures
            r.bits == bits & BreakpadInfoValid::MASK_ALL,
    {
        BreakpadInfoValid { bits: bits & BreakpadInfoValid::MASK_ALL }
    }

    /// The raw flag word.
    pub fn bits(self) -> (r: u32)
        ensures
            r == self.bits,
    {
        self.bits
    }

    /// Whether every bit of `other` is set in `self`.
    pub fn contains(self, other: Self) -> (r: bool)
        ensures
            r == (self.bits & other.bits == other.bits),
    {
        self.bits & other.bits == other.bits
    }

    /// Whether `self` and `other` share any set bit.
    pub fn intersects(self, other: Self) -> (r: bool)
        ensures
            r == (self.bits & other.bits != 0),
    {
        self.bits & other.bits != 0
    }
}

/// Possible values of the `elf_hwcaps` field of the Arm CPU information
/// record, matching the Linux kernel definitions.
#[derive(Debug, Clone, Copy, PartialEq, Eq, Structural)]
pub struct ArmElfHwCaps {
    pub bits: u32,
}

impl ArmElfHwCaps {
    pub const HWCAP_SWP: u32 = 0x1;

    pub const HWCAP_HALF: u32 = 0x2;

    pub const HWCAP_THUMB: u32 = 0x4;

    pub const HWCAP_26BIT: u32 = 0x8;

    pub const HWCAP_FAST_MULT: u32 = 0x10;

    pub const HWCAP_FPA: u32 = 0x20;

    pub const HWCAP_VFP: u32 = 0x40;

    pub const HWCAP_EDSP: u32 = 0x80;

    pub const HWCAP_JAVA: u32 = 0x100;

    pub const HWCAP_IWMMXT: u32 = 0x200;

    pub const HWCAP_CRUNCH: u32 = 0x400;

    pub const HWCAP_THUMBEE: u32 = 0x800;

    pub const HWCAP_NEON: u32 = 0x1000;

    pub const HWCAP_VFPv3: u32 = 0x2000;

    pub const HWCAP_VFPv3D16: u32 = 0x4000;

    pub const HWCAP_TLS: u32 = 0x8000;

    pub const HWCAP_VFPv4: u32 = 0x10000;

    pub const HWCAP_IDIVA: u32 = 0x20000;

    pub const HWCAP_IDIVT: u32 = 0x40000;

    pub const HWCAP_VFPD32: u32 = 0x80000;

    /// Both integer divide capabilities together.
    pub const HWCAP_IDIV: u32 = 0x60000;

    pub const HWCAP_LPAE: u32 = 0x100000;

    pub const HWCAP_EVTSTRM: u32 = 0x200000;

    /// The union of every named bit.
    pub const MASK_ALL: u32 = 0x3fffff;

    /// The flag word with no bit set.
    pub fn empty() -> (r: Self)
        ensures
            r.bits == 0,
    {
        ArmElfHwCaps { bits: 0 }
    }

    /// The flag word with every named bit set.
    pub fn all() -> (r: Self)
        ensures
            r.bits == ArmElfHwCaps::MASK_ALL,
    {
        ArmElfHwCaps { bits: ArmElfHwCaps::MASK_ALL }
    }

    /// Keeps the named bits of `bits` and drops the rest.
    pub fn from_bits_truncate(bits: u32) -> (r: Self)
        ensures
            r.bits == bits & ArmElfHwCaps::MASK_ALL,
    {
        ArmElfHwCaps { bits: bits & ArmElfHwCaps::MASK_ALL }
    }

    /// The raw flag word.
    pub fn bits(self) -> (r: u32)
        ensures
            r == self.bits,
    {
        self.bits
    }

    /// Whether every bit of `other` is set in `self`.
    pub fn contains(self, other: Self) -> (r: bool)
        ensures
            r == (self.bits & other.bits == other.bits),
    {
        self.bits & other.bits == other.bits
    }

    /// Whether `self` and `other` share any set bit.
    pub fn intersects(self, other: Self) -> (r: bool)
        ensures
            r == (self.bits & other.bits != 0),
    {
        self.bits & other.bits != 0
    }
}

impl ContextFlagsCpu {
    /// The CPU-type flags that `flags` carries: the bits outside
    /// [`CONTEXT_CPU_MASK`] are masked off first, then unknown CPU bits are
    /// dropped.
    pub open spec fn spec_from_flags(flags: u32) -> ContextFlagsCpu {
        ContextFlagsCpu { bits: (flags & CONTEXT_CPU_MASK) & ContextFlagsCpu::MASK_ALL }
    }

    /// Populate a [`ContextFlagsCpu`] with valid bits from `flags`.
    pub fn from_flags(flags: u32) -> (r: ContextFlagsCpu)
        ensures
            r == ContextFlagsCpu::spec_from_flags(flags),
    {
        ContextFlagsCpu::from_bits_truncate(flags & CONTEXT_CPU_MASK)
    }
}

/// Which architecture-specific layout a raw context byte region follows.
///
/// Exactly one interpretation of the region is valid at a time, chosen by
/// this tag; decoding the region under another tag is a caller error the
/// library cannot detect, so the resolver only selects, never decodes.
#[derive(Debug, Clone, Copy, PartialEq, Eq, Structural)]
pub enum ContextArchitecture {
    /// Decode with [`CONTEXT_X86::decode`](crate::contexts::CONTEXT_X86::decode).
    X86,
    /// Decode with [`CONTEXT_AMD64::decode`](crate::contexts::CONTEXT_AMD64::decode).
    Amd64,
    /// Decode with [`CONTEXT_ARM::decode`](crate::contexts::CONTEXT_ARM::decode).
    Arm,
    /// Decode with [`CONTEXT_ARM64::decode`](crate::contexts::CONTEXT_ARM64::decode).
    Arm64,
    /// Decode with [`CONTEXT_ARM64_OLD::decode`](crate::contexts::CONTEXT_ARM64_OLD::decode).
    Arm64Old,
    /// Decode with [`CONTEXT_MIPS::decode`](crate::contexts::CONTEXT_MIPS::decode).
    Mips,
    /// Decode with [`CONTEXT_PPC::decode`](crate::contexts::CONTEXT_PPC::decode).
    Ppc,
    /// Decode with [`CONTEXT_PPC64::decode`](crate::contexts::CONTEXT_PPC64::decode).
    Ppc64,
    /// Decode with [`CONTEXT_SPARC::decode`](crate::contexts::CONTEXT_SPARC::decode).
    Sparc,
}

/// The architecture that a masked CPU-type flag word selects, or `None`
/// for a flag word that matches no known layout.
///
/// `CONTEXT_MIPS64` shares its bit with `CONTEXT_IA64`; as in the source
/// headers, the MIPS interpretation is not chosen by the flag word alone,
/// so that bit resolves to no architecture here.
pub open spec fn spec_select_context_architecture(flags: u32) -> Option<ContextArchitecture> {
    let cpu = ContextFlagsCpu::spec_from_flags(flags).bits;
    if cpu == 0x10000 {
        Some(ContextArchitecture::X86)
    } else if cpu == 0x100000 {
        Some(ContextArchitecture::Amd64)
    } else if cpu == 0x40000000 {
        Some(ContextArchitecture::Arm)
    } else if cpu == 0x400000 {
        Some(ContextArchitecture::Arm64)
    } else if cpu == 0x80000000 {
        Some(ContextArchitecture::Arm64Old)
    } else if cpu == 0x40000 {
        Some(ContextArchitecture::Mips)
    } else if cpu == 0x20000000 {
        Some(ContextArchitecture::Ppc)
    } else if cpu == 0x1000000 {
        Some(ContextArchitecture::Ppc64)
    } else if cpu == 0x10000000 {
        Some(ContextArchitecture::Sparc)
    } else {
        None
    }
}

/// Selects which architecture-specific context layout the flag word of a
/// context region names.
///
/// The non-architecture bits of `flags` are masked off first. A flag word
/// that names no known layout, more than one, or an architecture without a
/// context record here is an `UnrecognizedArchitecture` error: the caller
/// must supply the correct tag, the resolver never guesses.
pub fn select_context_architecture(flags: u32) -> (r: Result<ContextArchitecture, DecodeError>)
    ensures
        match r {
            Ok(arch) => spec_select_context_architecture(flags) == Some(arch),
            Err(err) => err == DecodeError::UnrecognizedArchitecture
                && spec_select_context_architecture(flags) is None,
        },
{
    let cpu = ContextFlagsCpu::from_flags(flags).bits;
    if cpu == 0x10000 {
        Ok(ContextArchitecture::X86)
    } else if cpu == 0x100000 {
        Ok(ContextArchitecture::Amd64)
    } else if cpu == 0x40000000 {
        Ok(ContextArchitecture::Arm)
    } else if cpu == 0x400000 {
        Ok(ContextArchitecture::Arm64)
    } else if cpu == 0x80000000 {
        Ok(ContextArchitecture::Arm64Old)
    } else if cpu == 0x40000 {
        Ok(ContextArchitecture::Mips)
    } else if cpu == 0x20000000 {
        Ok(ContextArchitecture::Ppc)
    } else if cpu == 0x1000000 {
        Ok(ContextArchitecture::Ppc64)
    } else if cpu == 0x10000000 {
        Ok(ContextArchitecture::Sparc)
    } else {
        Err(DecodeError::UnrecognizedArchitecture)
    }
}

} // verus!