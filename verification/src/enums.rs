//! System-level symbolic enumerations.
//!
//! Every enumeration here maps raw integer codes to named symbols and back.
//! Unknown raw values are legal throughout the format, so `from_*` returns
//! `None` for them rather than an error, and the caller keeps the raw value;
//! `to_*` gives the raw value a symbol re-encodes to.

use vstd::prelude::*;

verus! {

/// Known values of the system-information record's
/// `processor_architecture` field. Several are Breakpad extensions.
#[derive(Copy, Clone, PartialEq, Eq, Structural, Debug)]
pub enum ProcessorArchitecture {
    PROCESSOR_ARCHITECTURE_INTEL,
    PROCESSOR_ARCHITECTURE_MIPS,
    PROCESSOR_ARCHITECTURE_ALPHA,
    PROCESSOR_ARCHITECTURE_PPC,
    PROCESSOR_ARCHITECTURE_SHX,
    PROCESSOR_ARCHITECTURE_ARM,
    PROCESSOR_ARCHITECTURE_IA64,
    PROCESSOR_ARCHITECTURE_ALPHA64,
    PROCESSOR_ARCHITECTURE_MSIL,
    PROCESSOR_ARCHITECTURE_AMD64,
    PROCESSOR_ARCHITECTURE_IA32_ON_WIN64,
    PROCESSOR_ARCHITECTURE_ARM64,
    PROCESSOR_ARCHITECTURE_SPARC,
    PROCESSOR_ARCHITECTURE_PPC64,
    PROCESSOR_ARCHITECTURE_ARM64_OLD,
    PROCESSOR_ARCHITECTURE_MIPS64,
    PROCESSOR_ARCHITECTURE_UNKNOWN,
}

impl ProcessorArchitecture {
    /// The raw value of this symbol.
    pub open spec fn spec_to_u16(self) -> u16 {
        match self {
            ProcessorArchitecture::PROCESSOR_ARCHITECTURE_INTEL => 0,
            ProcessorArchitecture::PROCESSOR_ARCHITECTURE_MIPS => 1,
            ProcessorArchitecture::PROCESSOR_ARCHITECTURE_ALPHA => 2,
            ProcessorArchitecture::PROCESSOR_ARCHITECTURE_PPC => 3,
            ProcessorArchitecture::PROCESSOR_ARCHITECTURE_SHX => 4,
            ProcessorArchitecture::PROCESSOR_ARCHITECTURE_ARM => 5,
            ProcessorArchitecture::PROCESSOR_ARCHITECTURE_IA64 => 6,
            ProcessorArchitecture::PROCESSOR_ARCHITECTURE_ALPHA64 => 7,
            ProcessorArchitecture::PROCESSOR_ARCHITECTURE_MSIL => 8,
            ProcessorArchitecture::PROCESSOR_ARCHITECTURE_AMD64 => 9,
            ProcessorArchitecture::PROCESSOR_ARCHITECTURE_IA32_ON_WIN64 => 10,
            ProcessorArchitecture::PROCESSOR_ARCHITECTURE_ARM64 => 12,
            ProcessorArchitecture::PROCESSOR_ARCHITECTURE_SPARC => 0x8001,
            ProcessorArchitecture::PROCESSOR_ARCHITECTURE_PPC64 => 0x8002,
            ProcessorArchitecture::PROCESSOR_ARCHITECTURE_ARM64_OLD => 0x8003,
            ProcessorArchitecture::PROCESSOR_ARCHITECTURE_MIPS64 => 0x8004,
            ProcessorArchitecture::PROCESSOR_ARCHITECTURE_UNKNOWN => 0xffff,
        }
    }

    /// The symbol a raw value names, or `None` for any other value.
    pub open spec fn spec_from_u16(raw: u16) -> Option<ProcessorArchitecture> {
        match raw {
            0 => Some(ProcessorArchitecture::PROCESSOR_ARCHITECTURE_INTEL),
            1 => Some(ProcessorArchitecture::PROCESSOR_ARCHITECTURE_MIPS),
            2 => Some(ProcessorArchitecture::PROCESSOR_ARCHITECTURE_ALPHA),
            3 => Some(ProcessorArchitecture::PROCESSOR_ARCHITECTURE_PPC),
            4 => Some(ProcessorArchitecture::PROCESSOR_ARCHITECTURE_SHX),
            5 => Some(ProcessorArchitecture::PROCESSOR_ARCHITECTURE_ARM),
            6 => Some(ProcessorArchitecture::PROCESSOR_ARCHITECTURE_IA64),
            7 => Some(ProcessorArchitecture::PROCESSOR_ARCHITECTURE_ALPHA64),
            8 => Some(ProcessorArchitecture::PROCESSOR_ARCHITECTURE_MSIL),
            9 => Some(ProcessorArchitecture::PROCESSOR_ARCHITECTURE_AMD64),
            10 => Some(ProcessorArchitecture::PROCESSOR_ARCHITECTURE_IA32_ON_WIN64),
            12 => Some(ProcessorArchitecture::PROCESSOR_ARCHITECTURE_ARM64),
            0x8001 => Some(ProcessorArchitecture::PROCESSOR_ARCHITECTURE_SPARC),
            0x8002 => Some(ProcessorArchitecture::PROCESSOR_ARCHITECTURE_PPC64),
            0x8003 => Some(ProcessorArchitecture::PROCESSOR_ARCHITECTURE_ARM64_OLD),
            0x8004 => Some(ProcessorArchitecture::PROCESSOR_ARCHITECTURE_MIPS64),
            0xffff => Some(ProcessorArchitecture::PROCESSOR_ARCHITECTURE_UNKNOWN),
            _ => None,
        }
    }

    /// The raw value of this symbol.
    pub fn to_u16(self) -> (r: u16)
        ensures
            r == self.spec_to_u16(),
    {
        match self {
            ProcessorArchitecture::PROCESSOR_ARCHITECTURE_INTEL => 0,
            ProcessorArchitecture::PROCESSOR_ARCHITECTURE_MIPS => 1,
            ProcessorArchitecture::PROCESSOR_ARCHITECTURE_ALPHA => 2,
            ProcessorArchitecture::PROCESSOR_ARCHITECTURE_PPC => 3,
            ProcessorArchitecture::PROCESSOR_ARCHITECTURE_SHX => 4,
            ProcessorArchitecture::PROCESSOR_ARCHITECTURE_ARM => 5,
            ProcessorArchitecture::PROCESSOR_ARCHITECTURE_IA64 => 6,
            ProcessorArchitecture::PROCESSOR_ARCHITECTURE_ALPHA64 => 7,
            ProcessorArchitecture::PROCESSOR_ARCHITECTURE_MSIL => 8,
            ProcessorArchitecture::PROCESSOR_ARCHITECTURE_AMD64 => 9,
            ProcessorArchitecture::PROCESSOR_ARCHITECTURE_IA32_ON_WIN64 => 10,
            ProcessorArchitecture::PROCESSOR_ARCHITECTURE_ARM64 => 12,
            ProcessorArchitecture::PROCESSOR_ARCHITECTURE_SPARC => 0x8001,
            ProcessorArchitecture::PROCESSOR_ARCHITECTURE_PPC64 => 0x8002,
            ProcessorArchitecture::PROCESSOR_ARCHITECTURE_ARM64_OLD => 0x8003,
            ProcessorArchitecture::PROCESSOR_ARCHITECTURE_MIPS64 => 0x8004,
            ProcessorArchitecture::PROCESSOR_ARCHITECTURE_UNKNOWN => 0xffff,
        }
    }

    /// The symbol a raw value names, or `None` for any other value:
    /// an unknown value is never an error, the caller keeps the raw
    /// value itself.
    pub fn from_u16(raw: u16) -> (r: Option<ProcessorArchitecture>)
        ensures
            r == ProcessorArchitecture::spec_from_u16(raw),
    {
        match raw {
            0 => Some(ProcessorArchitecture::PROCESSOR_ARCHITECTURE_INTEL),
            1 => Some(ProcessorArchitecture::PROCESSOR_ARCHITECTURE_MIPS),
            2 => Some(ProcessorArchitecture::PROCESSOR_ARCHITECTURE_ALPHA),
            3 => Some(ProcessorArchitecture::PROCESSOR_ARCHITECTURE_PPC),
            4 => Some(ProcessorArchitecture::PROCESSOR_ARCHITECTURE_SHX),
            5 => Some(ProcessorArchitecture::PROCESSOR_ARCHITECTURE_ARM),
            6 => Some(ProcessorArchitecture::PROCESSOR_ARCHITECTURE_IA64),
            7 => Some(ProcessorArchitecture::PROCESSOR_ARCHITECTURE_ALPHA64),
            8 => Some(ProcessorArchitecture::PROCESSOR_ARCHITECTURE_MSIL),
            9 => Some(ProcessorArchitecture::PROCESSOR_ARCHITECTURE_AMD64),
            10 => Some(ProcessorArchitecture::PROCESSOR_ARCHITECTURE_IA32_ON_WIN64),
            12 => Some(ProcessorArchitecture::PROCESSOR_ARCHITECTURE_ARM64),
            0x8001 => Some(ProcessorArchitecture::PROCESSOR_ARCHITECTURE_SPARC),
            0x8002 => Some(ProcessorArchitecture::PROCESSOR_ARCHITECTURE_PPC64),
            0x8003 => Some(ProcessorArchitecture::PROCESSOR_ARCHITECTURE_ARM64_OLD),
            0x8004 => Some(ProcessorArchitecture::PROCESSOR_ARCHITECTURE_MIPS64),
            0xffff => Some(ProcessorArchitecture::PROCESSOR_ARCHITECTURE_UNKNOWN),
            _ => None,
        }
    }
}

/// Round trip: the raw value of a known symbol names that symbol.
pub proof fn lemma_processor_architecture_roundtrip(v: ProcessorArchitecture)
    ensures
        ProcessorArchitecture::spec_from_u16(v.spec_to_u16()) == Some(v),
{
}

/// Known values of the system-information record's `platform_id` field.
/// The Windows values come from vendor headers; the rest are Breakpad
/// extensions.
#[derive(Copy, Clone, PartialEq, Eq, Structural, Debug)]
pub enum PlatformId {
    VER_PLATFORM_WIN32s,
    VER_PLATFORM_WIN32_WINDOWS,
    VER_PLATFORM_WIN32_NT,
    VER_PLATFORM_WIN32_CE,
    Unix,
    MacOs,
    Ios,
    Linux,
    Solaris,
    Android,
    Ps3,
    NaCl,
}

impl PlatformId {
    /// The raw value of this symbol.
    pub open spec fn spec_to_u32(self) -> u32 {
        match self {
            PlatformId::VER_PLATFORM_WIN32s => 1,
            PlatformId::VER_PLATFORM_WIN32_WINDOWS => 2,
            PlatformId::VER_PLATFORM_WIN32_NT => 3,
            PlatformId::VER_PLATFORM_WIN32_CE => 4,
            PlatformId::Unix => 0x8000,
            PlatformId::MacOs => 0x8101,
            PlatformId::Ios => 0x8102,
            PlatformId::Linux => 0x8201,
            PlatformId::Solaris => 0x8202,
            PlatformId::Android => 0x8203,
            PlatformId::Ps3 => 0x8204,
            PlatformId::NaCl => 0x8205,
        }
    }

    /// The symbol a raw value names, or `None` for any other value.
    pub open spec fn spec_from_u32(raw: u32) -> Option<PlatformId> {
        match raw {
            1 => Some(PlatformId::VER_PLATFORM_WIN32s),
            2 => Some(PlatformId::VER_PLATFORM_WIN32_WINDOWS),
            3 => Some(PlatformId::VER_PLATFORM_WIN32_NT),
            4 => Some(PlatformId::VER_PLATFORM_WIN32_CE),
            0x8000 => Some(PlatformId::Unix),
            0x8101 => Some(PlatformId::MacOs),
            0x8102 => Some(PlatformId::Ios),
            0x8201 => Some(PlatformId::Linux),
            0x8202 => Some(PlatformId::Solaris),
            0x8203 => Some(PlatformId::Android),
            0x8204 => Some(PlatformId::Ps3),
            0x8205 => Some(PlatformId::NaCl),
            _ => None,
        }
    }

    /// The raw value of this symbol.
    pub fn to_u32(self) -> (r: u32)
        ensures
            r == self.spec_to_u32(),
    {
        match self {
            PlatformId::VER_PLATFORM_WIN32s => 1,
            PlatformId::VER_PLATFORM_WIN32_WINDOWS => 2,
            PlatformId::VER_PLATFORM_WIN32_NT => 3,
            PlatformId::VER_PLATFORM_WIN32_CE => 4,
            PlatformId::Unix => 0x8000,
            PlatformId::MacOs => 0x8101,
            PlatformId::Ios => 0x8102,
            PlatformId::Linux => 0x8201,
            PlatformId::Solaris => 0x8202,
            PlatformId::Android => 0x8203,
            PlatformId::Ps3 => 0x8204,
            PlatformId::NaCl => 0x8205,
        }
    }

    /// The symbol a raw value names, or `None` for any other value:
    /// an unknown value is never an error, the caller keeps the raw
    /// value itself.
    pub fn from_u32(raw: u32) -> (r: Option<PlatformId>)
        ensures
            r == PlatformId::spec_from_u32(raw),
    {
        match raw {
            1 => Some(PlatformId::VER_PLATFORM_WIN32s),
            2 => Some(PlatformId::VER_PLATFORM_WIN32_WINDOWS),
            3 => Some(PlatformId::VER_PLATFORM_WIN32_NT),
            4 => Some(PlatformId::VER_PLATFORM_WIN32_CE),
            0x8000 => Some(PlatformId::Unix),
            0x8101 => Some(PlatformId::MacOs),
            0x8102 => Some(PlatformId::Ios),
            0x8201 => Some(PlatformId::Linux),
            0x8202 => Some(PlatformId::Solaris),
            0x8203 => Some(PlatformId::Android),
            0x8204 => Some(PlatformId::Ps3),
            0x8205 => Some(PlatformId::NaCl),
            _ => None,
        }
    }
}

/// Round trip: the raw value of a known symbol names that symbol.
pub proof fn lemma_platform_id_roundtrip(v: PlatformId)
    ensures
        PlatformId::spec_from_u32(v.spec_to_u32()) == Some(v),
{
}

/// Known values of the assertion-information record's `_type` field.
#[derive(Copy, Clone, PartialEq, Eq, Structural, Debug)]
pub enum AssertionType {
    Unknown,
    InvalidParameter,
    PureVirtualCall,
}

impl AssertionType {
    /// The raw value of this symbol.
    pub open spec fn spec_to_u32(self) -> u32 {
        match self {
            AssertionType::Unknown => 0,
            AssertionType::InvalidParameter => 1,
            AssertionType::PureVirtualCall => 2,
        }
    }

    /// The symbol a raw value names, or `None` for any other value.
    pub open spec fn spec_from_u32(raw: u32) -> Option<AssertionType> {
        match raw {
            0 => Some(AssertionType::Unknown),
            1 => Some(AssertionType::InvalidParameter),
            2 => Some(AssertionType::PureVirtualCall),
            _ => None,
        }
    }

    /// The raw value of this symbol.
    pub fn to_u32(self) -> (r: u32)
        ensures
            r == self.spec_to_u32(),
    {
        match self {
            AssertionType::Unknown => 0,
            AssertionType::InvalidParameter => 1,
            AssertionType::PureVirtualCall => 2,
        }
    }

    /// The symbol a raw value names, or `None` for any other value:
    /// an unknown value is never an error, the caller keeps the raw
    /// value itself.
    pub fn from_u32(raw: u32) -> (r: Option<AssertionType>)
        ensures
            r == AssertionType::spec_from_u32(raw),
    {
        match raw {
            0 => Some(AssertionType::Unknown),
            1 => Some(AssertionType::InvalidParameter),
            2 => Some(AssertionType::PureVirtualCall),
            _ => None,
        }
    }
}

/// Round trip: the raw value of a known symbol names that symbol.
pub proof fn lemma_assertion_type_roundtrip(v: AssertionType)
    ensures
        AssertionType::spec_from_u32(v.spec_to_u32()) == Some(v),
{
}
} // verus!
