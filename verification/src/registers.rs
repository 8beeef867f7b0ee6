//! Conventional register positions within each CPU context.
//!
//! Every enumeration here maps raw integer codes to named symbols and back.
//! Unknown raw values are legal throughout the format, so `from_*` returns
//! `None` for them rather than an error, and the caller keeps the raw value;
//! `to_*` gives the raw value a symbol re-encodes to.

use vstd::prelude::*;

verus! {

/// Offsets into the ARM context's `iregs` for registers with a dedicated
/// or conventional purpose.
#[derive(Copy, Clone, PartialEq, Eq, Structural, Debug)]
pub enum ArmRegisterNumbers {
    IosFramePointer,
    FramePointer,
    StackPointer,
    LinkRegister,
    ProgramCounter,
}

impl ArmRegisterNumbers {
    /// The raw value of this symbol.
    pub open spec fn spec_to_usize(self) -> usize {
        match self {
            ArmRegisterNumbers::IosFramePointer => 7,
            ArmRegisterNumbers::FramePointer => 11,
            ArmRegisterNumbers::StackPointer => 13,
            ArmRegisterNumbers::LinkRegister => 14,
            ArmRegisterNumbers::ProgramCounter => 15,
        }
    }

    /// The symbol a raw value names, or `None` for any other value.
    pub open spec fn spec_from_usize(raw: usize) -> Option<ArmRegisterNumbers> {
        match raw {
            7 => Some(ArmRegisterNumbers::IosFramePointer),
            11 => Some(ArmRegisterNumbers::FramePointer),
            13 => Some(ArmRegisterNumbers::StackPointer),
            14 => Some(ArmRegisterNumbers::LinkRegister),
            15 => Some(ArmRegisterNumbers::ProgramCounter),
            _ => None,
        }
    }

    /// The raw value of this symbol.
    pub fn to_usize(self) -> (r: usize)
        ensures
            r == self.spec_to_usize(),
    {
        match self {
            ArmRegisterNumbers::IosFramePointer => 7,
            ArmRegisterNumbers::FramePointer => 11,
            ArmRegisterNumbers::StackPointer => 13,
            ArmRegisterNumbers::LinkRegister => 14,
            ArmRegisterNumbers::ProgramCounter => 15,
        }
    }

    /// The symbol a raw value names, or `None` for any other value:
    /// an unknown value is never an error, the caller keeps the raw
    /// value itself.
    pub fn from_usize(raw: usize) -> (r: Option<ArmRegisterNumbers>)
        ensures
            r == ArmRegisterNumbers::spec_from_usize(raw),
    {
        match raw {
            7 => Some(ArmRegisterNumbers::IosFramePointer),
            11 => Some(ArmRegisterNumbers::FramePointer),
            13 => Some(ArmRegisterNumbers::StackPointer),
            14 => Some(ArmRegisterNumbers::LinkRegister),
            15 => Some(ArmRegisterNumbers::ProgramCounter),
            _ => None,
        }
    }
}

/// Round trip: the raw value of a known symbol names that symbol.
pub proof fn lemma_arm_register_numbers_roundtrip(v: ArmRegisterNumbers)
    ensures
        ArmRegisterNumbers::spec_from_usize(v.spec_to_usize()) == Some(v),
{
}

/// Offsets into the aarch64 context's `iregs` for registers with a
/// dedicated or conventional purpose.
#[derive(Copy, Clone, PartialEq, Eq, Structural, Debug)]
pub enum Arm64RegisterNumbers {
    FramePointer,
    LinkRegister,
    StackPointer,
    ProgramCounter,
}

impl Arm64RegisterNumbers {
    /// The raw value of this symbol.
    pub open spec fn spec_to_usize(self) -> usize {
        match self {
            Arm64RegisterNumbers::FramePointer => 29,
            Arm64RegisterNumbers::LinkRegister => 30,
            Arm64RegisterNumbers::StackPointer => 31,
            Arm64RegisterNumbers::ProgramCounter => 32,
        }
    }

    /// The symbol a raw value names, or `None` for any other value.
    pub open spec fn spec_from_usize(raw: usize) -> Option<Arm64RegisterNumbers> {
        match raw {
            29 => Some(Arm64RegisterNumbers::FramePointer),
            30 => Some(Arm64RegisterNumbers::LinkRegister),
            31 => Some(Arm64RegisterNumbers::StackPointer),
            32 => Some(Arm64RegisterNumbers::ProgramCounter),
            _ => None,
        }
    }

    /// The raw value of this symbol.
    pub fn to_usize(self) -> (r: usize)
        ensures
            r == self.spec_to_usize(),
    {
        match self {
            Arm64RegisterNumbers::FramePointer => 29,
            Arm64RegisterNumbers::LinkRegister => 30,
            Arm64RegisterNumbers::StackPointer => 31,
            Arm64RegisterNumbers::ProgramCounter => 32,
        }
    }

    /// The symbol a raw value names, or `None` for any other value:
    /// an unknown value is never an error, the caller keeps the raw
    /// value itself.
    pub fn from_usize(raw: usize) -> (r: Option<Arm64RegisterNumbers>)
        ensures
            r == Arm64RegisterNumbers::spec_from_usize(raw),
    {
        match raw {
            29 => Some(Arm64RegisterNumbers::FramePointer),
            30 => Some(Arm64RegisterNumbers::LinkRegister),
            31 => Some(Arm64RegisterNumbers::StackPointer),
            32 => Some(Arm64RegisterNumbers::ProgramCounter),
            _ => None,
        }
    }
}

/// Round trip: the raw value of a known symbol names that symbol.
pub proof fn lemma_arm64_register_numbers_roundtrip(v: Arm64RegisterNumbers)
    ensures
        Arm64RegisterNumbers::spec_from_usize(v.spec_to_usize()) == Some(v),
{
}

/// Offsets into the MIPS context's `iregs` for registers with a
/// dedicated or conventional purpose.
#[derive(Copy, Clone, PartialEq, Eq, Structural, Debug)]
pub enum MipsRegisterNumbers {
    S0,
    S1,
    S2,
    S3,
    S4,
    S5,
    S6,
    S7,
    GlobalPointer,
    StackPointer,
    FramePointer,
    ReturnAddress,
}

impl MipsRegisterNumbers {
    /// The raw value of this symbol.
    pub open spec fn spec_to_usize(self) -> usize {
        match self {
            MipsRegisterNumbers::S0 => 16,
            MipsRegisterNumbers::S1 => 17,
            MipsRegisterNumbers::S2 => 18,
            MipsRegisterNumbers::S3 => 19,
            MipsRegisterNumbers::S4 => 20,
            MipsRegisterNumbers::S5 => 21,
            MipsRegisterNumbers::S6 => 22,
            MipsRegisterNumbers::S7 => 23,
            MipsRegisterNumbers::GlobalPointer => 28,
            MipsRegisterNumbers::StackPointer => 29,
            MipsRegisterNumbers::FramePointer => 30,
            MipsRegisterNumbers::ReturnAddress => 31,
        }
    }

    /// The symbol a raw value names, or `None` for any other value.
    pub open spec fn spec_from_usize(raw: usize) -> Option<MipsRegisterNumbers> {
        match raw {
            16 => Some(MipsRegisterNumbers::S0),
            17 => Some(MipsRegisterNumbers::S1),
            18 => Some(MipsRegisterNumbers::S2),
            19 => Some(MipsRegisterNumbers::S3),
            20 => Some(MipsRegisterNumbers::S4),
            21 => Some(MipsRegisterNumbers::S5),
            22 => Some(MipsRegisterNumbers::S6),
            23 => Some(MipsRegisterNumbers::S7),
            28 => Some(MipsRegisterNumbers::GlobalPointer),
            29 => Some(MipsRegisterNumbers::StackPointer),
            30 => Some(MipsRegisterNumbers::FramePointer),
            31 => Some(MipsRegisterNumbers::ReturnAddress),
            _ => None,
        }
    }

    /// The raw value of this symbol.
    pub fn to_usize(self) -> (r: usize)
        ensures
            r == self.spec_to_usize(),
    {
        match self {
            MipsRegisterNumbers::S0 => 16,
            MipsRegisterNumbers::S1 => 17,
            MipsRegisterNumbers::S2 => 18,
            MipsRegisterNumbers::S3 => 19,
            MipsRegisterNumbers::S4 => 20,
            MipsRegisterNumbers::S5 => 21,
            MipsRegisterNumbers::S6 => 22,
            MipsRegisterNumbers::S7 => 23,
            MipsRegisterNumbers::GlobalPointer => 28,
            MipsRegisterNumbers::StackPointer => 29,
            MipsRegisterNumbers::FramePointer => 30,
            MipsRegisterNumbers::ReturnAddress => 31,
        }
    }

    /// The symbol a raw value names, or `None` for any other value:
    /// an unknown value is never an error, the caller keeps the raw
    /// value itself.
    pub fn from_usize(raw: usize) -> (r: Option<MipsRegisterNumbers>)
        ensures
            r == MipsRegisterNumbers::spec_from_usize(raw),
    {
        match raw {
            16 => Some(MipsRegisterNumbers::S0),
            17 => Some(MipsRegisterNumbers::S1),
            18 => Some(MipsRegisterNumbers::S2),
            19 => Some(MipsRegisterNumbers::S3),
            20 => Some(MipsRegisterNumbers::S4),
            21 => Some(MipsRegisterNumbers::S5),
            22 => Some(MipsRegisterNumbers::S6),
            23 => Some(MipsRegisterNumbers::S7),
            28 => Some(MipsRegisterNumbers::GlobalPointer),
            29 => Some(MipsRegisterNumbers::StackPointer),
            30 => Some(MipsRegisterNumbers::FramePointer),
            31 => Some(MipsRegisterNumbers::ReturnAddress),
            _ => None,
        }
    }
}

/// Round trip: the raw value of a known symbol names that symbol.
pub proof fn lemma_mips_register_numbers_roundtrip(v: MipsRegisterNumbers)
    ensures
        MipsRegisterNumbers::spec_from_usize(v.spec_to_usize()) == Some(v),
{
}

/// Offsets into the PPC context's `gpr` for registers with a dedicated
/// or conventional purpose.
#[derive(Copy, Clone, PartialEq, Eq, Structural, Debug)]
pub enum PpcRegisterNumbers {
    StackPointer,
}

impl PpcRegisterNumbers {
    /// The raw value of this symbol.
    pub open spec fn spec_to_usize(self) -> usize {
        match self {
            PpcRegisterNumbers::StackPointer => 1,
        }
    }

    /// The symbol a raw value names, or `None` for any other value.
    pub open spec fn spec_from_usize(raw: usize) -> Option<PpcRegisterNumbers> {
        match raw {
            1 => Some(PpcRegisterNumbers::StackPointer),
            _ => None,
        }
    }

    /// The raw value of this symbol.
    pub fn to_usize(self) -> (r: usize)
        ensures
            r == self.spec_to_usize(),
    {
        match self {
            PpcRegisterNumbers::StackPointer => 1,
        }
    }

    /// The symbol a raw value names, or `None` for any other value:
    /// an unknown value is never an error, the caller keeps the raw
    /// value itself.
    pub fn from_usize(raw: usize) -> (r: Option<PpcRegisterNumbers>)
        ensures
            r == PpcRegisterNumbers::spec_from_usize(raw),
    {
        match raw {
            1 => Some(PpcRegisterNumbers::StackPointer),
            _ => None,
        }
    }
}

/// Round trip: the raw value of a known symbol names that symbol.
pub proof fn lemma_ppc_register_numbers_roundtrip(v: PpcRegisterNumbers)
    ensures
        PpcRegisterNumbers::spec_from_usize(v.spec_to_usize()) == Some(v),
{
}

/// Offsets into the PPC64 context's `gpr` for registers with a dedicated
/// or conventional purpose.
#[derive(Copy, Clone, PartialEq, Eq, Structural, Debug)]
pub enum Ppc64RegisterNumbers {
    StackPointer,
}

impl Ppc64RegisterNumbers {
    /// The raw value of this symbol.
    pub open spec fn spec_to_usize(self) -> usize {
        match self {
            Ppc64RegisterNumbers::StackPointer => 1,
        }
    }

    /// The symbol a raw value names, or `None` for any other value.
    pub open spec fn spec_from_usize(raw: usize) -> Option<Ppc64RegisterNumbers> {
        match raw {
            1 => Some(Ppc64RegisterNumbers::StackPointer),
            _ => None,
        }
    }

    /// The raw value of this symbol.
    pub fn to_usize(self) -> (r: usize)
        ensures
            r == self.spec_to_usize(),
    {
        match self {
            Ppc64RegisterNumbers::StackPointer => 1,
        }
    }

    /// The symbol a raw value names, or `None` for any other value:
    /// an unknown value is never an error, the caller keeps the raw
    /// value itself.
    pub fn from_usize(raw: usize) -> (r: Option<Ppc64RegisterNumbers>)
        ensures
            r == Ppc64RegisterNumbers::spec_from_usize(raw),
    {
        match raw {
            1 => Some(Ppc64RegisterNumbers::StackPointer),
            _ => None,
        }
    }
}

/// Round trip: the raw value of a known symbol names that symbol.
pub proof fn lemma_ppc64_register_numbers_roundtrip(v: Ppc64RegisterNumbers)
    ensures
        Ppc64RegisterNumbers::spec_from_usize(v.spec_to_usize()) == Some(v),
{
}

/// Offsets into the SPARC context's `g_r` for registers with a dedicated
/// or conventional purpose.
#[derive(Copy, Clone, PartialEq, Eq, Structural, Debug)]
pub enum SparcRegisterNumbers {
    StackPointer,
}

impl SparcRegisterNumbers {
    /// The raw value of this symbol.
    pub open spec fn spec_to_usize(self) -> usize {
        match self {
            SparcRegisterNumbers::StackPointer => 14,
        }
    }

    /// The symbol a raw value names, or `None` for any other value.
    pub open spec fn spec_from_usize(raw: usize) -> Option<SparcRegisterNumbers> {
        match raw {
            14 => Some(SparcRegisterNumbers::StackPointer),
            _ => None,
        }
    }

    /// The raw value of this symbol.
    pub fn to_usize(self) -> (r: usize)
        ensures
            r == self.spec_to_usize(),
    {
        match self {
            SparcRegisterNumbers::StackPointer => 14,
        }
    }

    /// The symbol a raw value names, or `None` for any other value:
    /// an unknown value is never an error, the caller keeps the raw
    /// value itself.
    pub fn from_usize(raw: usize) -> (r: Option<SparcRegisterNumbers>)
        ensures
            r == SparcRegisterNumbers::spec_from_usize(raw),
    {
        match raw {
            14 => Some(SparcRegisterNumbers::StackPointer),
            _ => None,
        }
    }
}

/// Round trip: the raw value of a known symbol names that symbol.
pub proof fn lemma_sparc_register_numbers_roundtrip(v: SparcRegisterNumbers)
    ensures
        SparcRegisterNumbers::spec_from_usize(v.spec_to_usize()) == Some(v),
{
}

impl ArmRegisterNumbers {
    /// The conventional name of this register.
    pub open spec fn spec_name(self) -> Seq<char> {
        match self {
            ArmRegisterNumbers::IosFramePointer => "r7"@,
            ArmRegisterNumbers::FramePointer => "r11"@,
            ArmRegisterNumbers::StackPointer => "r13"@,
            ArmRegisterNumbers::LinkRegister => "r14"@,
            ArmRegisterNumbers::ProgramCounter => "r15"@,
        }
    }

    /// The conventional name of this register.
    pub fn name(self) -> (r: &'static str)
        ensures
            r@ == self.spec_name(),
    {
        match self {
            ArmRegisterNumbers::IosFramePointer => "r7",
            ArmRegisterNumbers::FramePointer => "r11",
            ArmRegisterNumbers::StackPointer => "r13",
            ArmRegisterNumbers::LinkRegister => "r14",
            ArmRegisterNumbers::ProgramCounter => "r15",
        }
    }
}

impl Arm64RegisterNumbers {
    /// The conventional name of this register.
    pub open spec fn spec_name(self) -> Seq<char> {
        match self {
            Arm64RegisterNumbers::FramePointer => "x29"@,
            Arm64RegisterNumbers::LinkRegister => "x30"@,
            Arm64RegisterNumbers::StackPointer => "sp"@,
            Arm64RegisterNumbers::ProgramCounter => "pc"@,
        }
    }

    /// The conventional name of this register.
    pub fn name(self) -> (r: &'static str)
        ensures
            r@ == self.spec_name(),
    {
        match self {
            Arm64RegisterNumbers::FramePointer => "x29",
            Arm64RegisterNumbers::LinkRegister => "x30",
            Arm64RegisterNumbers::StackPointer => "sp",
            Arm64RegisterNumbers::ProgramCounter => "pc",
        }
    }
}
} // verus!
