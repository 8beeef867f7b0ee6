//! The symbolic enumeration layer and the flag words: totality of symbol
//! lookup, preservation of raw values, and the architecture selector.

use minidump_common::codec::DecodeError;
use minidump_common::enums::{PlatformId, ProcessorArchitecture};
use minidump_common::exceptions::{
    ExceptionCodeLinux, ExceptionCodeMac, ExceptionCodeWindows, FastFailCode,
};
use minidump_common::flags::{
    select_context_architecture, ArmElfHwCaps, BreakpadInfoValid, ContextArchitecture,
    ContextFlagsCpu, MemoryProtection, MemoryState, MiscInfoFlags, CONTEXT_CPU_MASK,
};
use minidump_common::nt_status::NtStatusWindows;
use minidump_common::registers::{Arm64RegisterNumbers, ArmRegisterNumbers, MipsRegisterNumbers};
use minidump_common::streams::MINIDUMP_STREAM_TYPE;
use minidump_common::win_error::WinErrorWindows;

#[test]
fn stream_type_known_values() {
    assert_eq!(MINIDUMP_STREAM_TYPE::from_u32(3), Some(MINIDUMP_STREAM_TYPE::ThreadListStream));
    assert_eq!(MINIDUMP_STREAM_TYPE::from_u32(7), Some(MINIDUMP_STREAM_TYPE::SystemInfoStream));
    assert_eq!(
        MINIDUMP_STREAM_TYPE::from_u32(0x47670001),
        Some(MINIDUMP_STREAM_TYPE::BreakpadInfoStream)
    );
    assert_eq!(
        MINIDUMP_STREAM_TYPE::from_u32(0x4d7a0001),
        Some(MINIDUMP_STREAM_TYPE::MozMacosCrashInfoStream)
    );
    assert_eq!(MINIDUMP_STREAM_TYPE::ThreadListStream.to_u32(), 3);
}

#[test]
fn stream_type_unknown_values_are_none_not_errors() {
    // unknown values are legal; the caller keeps the raw integer
    for raw in [38u32, 0x0000fffe, 0x47670099, 0xffffffff] {
        assert_eq!(MINIDUMP_STREAM_TYPE::from_u32(raw), None);
    }
}

#[test]
fn stream_type_roundtrips_through_raw() {
    for v in [
        MINIDUMP_STREAM_TYPE::UnusedStream,
        MINIDUMP_STREAM_TYPE::ExceptionStream,
        MINIDUMP_STREAM_TYPE::LastReservedStream,
        MINIDUMP_STREAM_TYPE::LinuxDsoDebug,
        MINIDUMP_STREAM_TYPE::CrashpadInfoStream,
    ] {
        assert_eq!(MINIDUMP_STREAM_TYPE::from_u32(v.to_u32()), Some(v));
    }
}

#[test]
fn win_error_symbols_total() {
    assert_eq!(WinErrorWindows::from_u32(0), Some(WinErrorWindows::ERROR_SUCCESS));
    assert_eq!(WinErrorWindows::from_u32(2), Some(WinErrorWindows::ERROR_FILE_NOT_FOUND));
    assert_eq!(WinErrorWindows::from_u32(5), Some(WinErrorWindows::ERROR_ACCESS_DENIED));
    assert_eq!(WinErrorWindows::ERROR_ACCESS_DENIED.to_u32(), 5);
    // unknown values always yield None while the raw value stays usable
    assert_eq!(WinErrorWindows::from_u32(0xfffffffe), None);
    for v in [
        WinErrorWindows::ERROR_SUCCESS,
        WinErrorWindows::ERROR_NOT_ENOUGH_MEMORY,
        WinErrorWindows::ERROR_ACCESS_DENIED,
    ] {
        assert_eq!(WinErrorWindows::from_u32(v.to_u32()), Some(v));
    }
}

#[test]
fn nt_status_symbols_total() {
    assert_eq!(
        NtStatusWindows::from_u32(0x40000000),
        Some(NtStatusWindows::STATUS_OBJECT_NAME_EXISTS)
    );
    assert_eq!(NtStatusWindows::STATUS_OBJECT_NAME_EXISTS.to_u32(), 0x40000000);
    assert_eq!(NtStatusWindows::from_u32(0x12345678), None);
    for v in [
        NtStatusWindows::STATUS_OBJECT_NAME_EXISTS,
        NtStatusWindows::STATUS_THREAD_WAS_SUSPENDED,
        NtStatusWindows::STATUS_IMAGE_NOT_AT_BASE,
    ] {
        assert_eq!(NtStatusWindows::from_u32(v.to_u32()), Some(v));
    }
}

#[test]
fn exception_code_symbols() {
    assert_eq!(
        ExceptionCodeWindows::from_u32(0xc0000005),
        Some(ExceptionCodeWindows::EXCEPTION_ACCESS_VIOLATION)
    );
    assert_eq!(ExceptionCodeWindows::from_u32(0x1234), None);
    assert_eq!(ExceptionCodeLinux::from_u32(0xb), Some(ExceptionCodeLinux::SIGSEGV));
    assert_eq!(ExceptionCodeLinux::from_u32(0x99), None);
    assert_eq!(ExceptionCodeMac::from_u32(1), Some(ExceptionCodeMac::EXC_BAD_ACCESS));
    assert_eq!(ExceptionCodeMac::from_u32(0xffff), None);
    assert_eq!(FastFailCode::from_u32(2), Some(FastFailCode::FAST_FAIL_STACK_COOKIE_CHECK_FAILURE));
    assert_eq!(FastFailCode::from_u32(9999), None);
}

#[test]
fn processor_and_platform_symbols() {
    assert_eq!(
        ProcessorArchitecture::from_u16(9),
        Some(ProcessorArchitecture::PROCESSOR_ARCHITECTURE_AMD64)
    );
    assert_eq!(
        ProcessorArchitecture::from_u16(0x8001),
        Some(ProcessorArchitecture::PROCESSOR_ARCHITECTURE_SPARC)
    );
    assert_eq!(ProcessorArchitecture::from_u16(0x7777), None);
    assert_eq!(PlatformId::from_u32(0x8201), Some(PlatformId::Linux));
    assert_eq!(PlatformId::from_u32(0x9999), None);
    assert_eq!(PlatformId::MacOs.to_u32(), 0x8101);
}

#[test]
fn register_numbers_and_names() {
    assert_eq!(ArmRegisterNumbers::FramePointer.to_usize(), 11);
    assert_eq!(ArmRegisterNumbers::FramePointer.name(), "r11");
    assert_eq!(ArmRegisterNumbers::IosFramePointer.name(), "r7");
    assert_eq!(ArmRegisterNumbers::ProgramCounter.name(), "r15");
    assert_eq!(Arm64RegisterNumbers::FramePointer.to_usize(), 29);
    assert_eq!(Arm64RegisterNumbers::FramePointer.name(), "x29");
    assert_eq!(Arm64RegisterNumbers::StackPointer.name(), "sp");
    assert_eq!(Arm64RegisterNumbers::ProgramCounter.name(), "pc");
    assert_eq!(MipsRegisterNumbers::StackPointer.to_usize(), 29);
    assert_eq!(MipsRegisterNumbers::from_usize(29), Some(MipsRegisterNumbers::StackPointer));
}

#[test]
fn context_flags_select_x86() {
    // the architecture-selector scenario: 0x00010000 names the x86 layout
    let f = ContextFlagsCpu::from_flags(0x00010000);
    assert_eq!(f.bits(), ContextFlagsCpu::CONTEXT_X86);
    assert_eq!(select_context_architecture(0x00010000), Ok(ContextArchitecture::X86));
    // the same raw context bytes under the AMD64 selector are a different,
    // explicit choice: the resolver only selects the tag the flags name
    assert_eq!(select_context_architecture(0x00100000), Ok(ContextArchitecture::Amd64));
}

#[test]
fn context_flags_mask_non_architecture_bits() {
    // bits outside the CPU mask (e.g. CONTEXT_CONTROL-style low bits) are
    // dropped before selection
    let f = ContextFlagsCpu::from_flags(0x0001003f);
    assert_eq!(f.bits(), ContextFlagsCpu::CONTEXT_X86);
    assert_eq!(CONTEXT_CPU_MASK, 0xffffff00);
    assert_eq!(select_context_architecture(0x0001003f), Ok(ContextArchitecture::X86));
}

#[test]
fn unrecognized_architecture_is_surfaced_not_guessed() {
    assert_eq!(
        select_context_architecture(0),
        Err(DecodeError::UnrecognizedArchitecture)
    );
    // two architecture bits at once name no single layout
    assert_eq!(
        select_context_architecture(0x00110000),
        Err(DecodeError::UnrecognizedArchitecture)
    );
    // an architecture with no context record here (Alpha) is unrecognized
    assert_eq!(
        select_context_architecture(0x00020000),
        Err(DecodeError::UnrecognizedArchitecture)
    );
}

#[test]
fn select_architecture_all_known() {
    assert_eq!(select_context_architecture(0x40000000), Ok(ContextArchitecture::Arm));
    assert_eq!(select_context_architecture(0x00400000), Ok(ContextArchitecture::Arm64));
    assert_eq!(select_context_architecture(0x80000000), Ok(ContextArchitecture::Arm64Old));
    assert_eq!(select_context_architecture(0x00040000), Ok(ContextArchitecture::Mips));
    assert_eq!(select_context_architecture(0x20000000), Ok(ContextArchitecture::Ppc));
    assert_eq!(select_context_architecture(0x01000000), Ok(ContextArchitecture::Ppc64));
    assert_eq!(select_context_architecture(0x10000000), Ok(ContextArchitecture::Sparc));
}

#[test]
fn flag_words_operations() {
    let f = MemoryProtection::from_bits_truncate(0x04 | 0x1000_0000);
    assert_eq!(f.bits(), 0x04); // unknown bits dropped
    assert!(f.contains(MemoryProtection::from_bits_truncate(0x04)));
    assert!(!f.contains(MemoryProtection::from_bits_truncate(0x02)));
    assert!(f.intersects(MemoryProtection::from_bits_truncate(0xff)));
    assert_eq!(MemoryState::MEM_COMMIT, 0x1000);
    assert_eq!(MiscInfoFlags::MINIDUMP_MISC1_PROCESS_ID, 1);
    assert_eq!(BreakpadInfoValid::DumpThreadId, 1);
    assert_eq!(ArmElfHwCaps::HWCAP_IDIV, 0x60000);
    assert_eq!(
        ArmElfHwCaps::HWCAP_IDIV,
        ArmElfHwCaps::HWCAP_IDIVA | ArmElfHwCaps::HWCAP_IDIVT
    );
    assert_eq!(ContextFlagsCpu::all().bits(), ContextFlagsCpu::MASK_ALL);
    assert_eq!(ContextFlagsCpu::empty().bits(), 0);
}
