//! Per-platform exception code enumerations.
//!
//! Every enumeration here maps raw integer codes to named symbols and back.
//! Unknown raw values are legal throughout the format, so `from_*` returns
//! `None` for them rather than an error, and the caller keeps the raw value;
//! `to_*` gives the raw value a symbol re-encodes to.

use vstd::prelude::*;

verus! {

/// Values of an exception record's `exception_code` field for crashes on
/// Windows.
#[derive(Copy, Clone, PartialEq, Eq, Structural, Debug)]
pub enum ExceptionCodeWindows {
    EXCEPTION_GUARD_PAGE,
    EXCEPTION_DATATYPE_MISALIGNMENT,
    EXCEPTION_BREAKPOINT,
    EXCEPTION_SINGLE_STEP,
    EXCEPTION_ACCESS_VIOLATION,
    EXCEPTION_IN_PAGE_ERROR,
    EXCEPTION_INVALID_HANDLE,
    EXCEPTION_ILLEGAL_INSTRUCTION,
    EXCEPTION_NONCONTINUABLE_EXCEPTION,
    EXCEPTION_INVALID_DISPOSITION,
    EXCEPTION_BOUNDS_EXCEEDED,
    EXCEPTION_FLT_DENORMAL_OPERAND,
    EXCEPTION_FLT_DIVIDE_BY_ZERO,
    EXCEPTION_FLT_INEXACT_RESULT,
    EXCEPTION_FLT_INVALID_OPERATION,
    EXCEPTION_FLT_OVERFLOW,
    EXCEPTION_FLT_STACK_CHECK,
    EXCEPTION_FLT_UNDERFLOW,
    EXCEPTION_INT_DIVIDE_BY_ZERO,
    EXCEPTION_INT_OVERFLOW,
    EXCEPTION_PRIV_INSTRUCTION,
    EXCEPTION_STACK_OVERFLOW,
    EXCEPTION_POSSIBLE_DEADLOCK,
    OUT_OF_MEMORY,
    UNHANDLED_CPP_EXCEPTION,
    SIMULATED,
}

impl ExceptionCodeWindows {
    /// The raw value of this symbol.
    pub open spec fn spec_to_u32(self) -> u32 {
        match self {
            ExceptionCodeWindows::EXCEPTION_GUARD_PAGE => 0x80000001,
            ExceptionCodeWindows::EXCEPTION_DATATYPE_MISALIGNMENT => 0x80000002,
            ExceptionCodeWindows::EXCEPTION_BREAKPOINT => 0x80000003,
            ExceptionCodeWindows::EXCEPTION_SINGLE_STEP => 0x80000004,
            ExceptionCodeWindows::EXCEPTION_ACCESS_VIOLATION => 0xc0000005,
            ExceptionCodeWindows::EXCEPTION_IN_PAGE_ERROR => 0xc0000006,
            ExceptionCodeWindows::EXCEPTION_INVALID_HANDLE => 0xc0000008,
            ExceptionCodeWindows::EXCEPTION_ILLEGAL_INSTRUCTION => 0xc000001d,
            ExceptionCodeWindows::EXCEPTION_NONCONTINUABLE_EXCEPTION => 0xc0000025,
            ExceptionCodeWindows::EXCEPTION_INVALID_DISPOSITION => 0xc0000026,
            ExceptionCodeWindows::EXCEPTION_BOUNDS_EXCEEDED => 0xc000008c,
            ExceptionCodeWindows::EXCEPTION_FLT_DENORMAL_OPERAND => 0xc000008d,
            ExceptionCodeWindows::EXCEPTION_FLT_DIVIDE_BY_ZERO => 0xc000008e,
            ExceptionCodeWindows::EXCEPTION_FLT_INEXACT_RESULT => 0xc000008f,
            ExceptionCodeWindows::EXCEPTION_FLT_INVALID_OPERATION => 0xc0000090,
            ExceptionCodeWindows::EXCEPTION_FLT_OVERFLOW => 0xc0000091,
            ExceptionCodeWindows::EXCEPTION_FLT_STACK_CHECK => 0xc0000092,
            ExceptionCodeWindows::EXCEPTION_FLT_UNDERFLOW => 0xc0000093,
            ExceptionCodeWindows::EXCEPTION_INT_DIVIDE_BY_ZERO => 0xc0000094,
            ExceptionCodeWindows::EXCEPTION_INT_OVERFLOW => 0xc0000095,
            ExceptionCodeWindows::EXCEPTION_PRIV_INSTRUCTION => 0xc0000096,
            ExceptionCodeWindows::EXCEPTION_STACK_OVERFLOW => 0xc00000fd,
            ExceptionCodeWindows::EXCEPTION_POSSIBLE_DEADLOCK => 0xc0000194,
            ExceptionCodeWindows::OUT_OF_MEMORY => 0xe0000008,
            ExceptionCodeWindows::UNHANDLED_CPP_EXCEPTION => 0xe06d7363,
            ExceptionCodeWindows::SIMULATED => 0x0517a7ed,
        }
    }

    /// The symbol a raw value names, or `None` for any other value.
    pub open spec fn spec_from_u32(raw: u32) -> Option<ExceptionCodeWindows> {
        match raw {
            0x80000001 => Some(ExceptionCodeWindows::EXCEPTION_GUARD_PAGE),
            0x80000002 => Some(ExceptionCodeWindows::EXCEPTION_DATATYPE_MISALIGNMENT),
            0x80000003 => Some(ExceptionCodeWindows::EXCEPTION_BREAKPOINT),
            0x80000004 => Some(ExceptionCodeWindows::EXCEPTION_SINGLE_STEP),
            0xc0000005 => Some(ExceptionCodeWindows::EXCEPTION_ACCESS_VIOLATION),
            0xc0000006 => Some(ExceptionCodeWindows::EXCEPTION_IN_PAGE_ERROR),
            0xc0000008 => Some(ExceptionCodeWindows::EXCEPTION_INVALID_HANDLE),
            0xc000001d => Some(ExceptionCodeWindows::EXCEPTION_ILLEGAL_INSTRUCTION),
            0xc0000025 => Some(ExceptionCodeWindows::EXCEPTION_NONCONTINUABLE_EXCEPTION),
            0xc0000026 => Some(ExceptionCodeWindows::EXCEPTION_INVALID_DISPOSITION),
            0xc000008c => Some(ExceptionCodeWindows::EXCEPTION_BOUNDS_EXCEEDED),
            0xc000008d => Some(ExceptionCodeWindows::EXCEPTION_FLT_DENORMAL_OPERAND),
            0xc000008e => Some(ExceptionCodeWindows::EXCEPTION_FLT_DIVIDE_BY_ZERO),
            0xc000008f => Some(ExceptionCodeWindows::EXCEPTION_FLT_INEXACT_RESULT),
            0xc0000090 => Some(ExceptionCodeWindows::EXCEPTION_FLT_INVALID_OPERATION),
            0xc0000091 => Some(ExceptionCodeWindows::EXCEPTION_FLT_OVERFLOW),
            0xc0000092 => Some(ExceptionCodeWindows::EXCEPTION_FLT_STACK_CHECK),
            0xc0000093 => Some(ExceptionCodeWindows::EXCEPTION_FLT_UNDERFLOW),
            0xc0000094 => Some(ExceptionCodeWindows::EXCEPTION_INT_DIVIDE_BY_ZERO),
            0xc0000095 => Some(ExceptionCodeWindows::EXCEPTION_INT_OVERFLOW),
            0xc0000096 => Some(ExceptionCodeWindows::EXCEPTION_PRIV_INSTRUCTION),
            0xc00000fd => Some(ExceptionCodeWindows::EXCEPTION_STACK_OVERFLOW),
            0xc0000194 => Some(ExceptionCodeWindows::EXCEPTION_POSSIBLE_DEADLOCK),
            0xe0000008 => Some(ExceptionCodeWindows::OUT_OF_MEMORY),
            0xe06d7363 => Some(ExceptionCodeWindows::UNHANDLED_CPP_EXCEPTION),
            0x0517a7ed => Some(ExceptionCodeWindows::SIMULATED),
            _ => None,
        }
    }

    /// The raw value of this symbol.
    pub fn to_u32(self) -> (r: u32)
        ensures
            r == self.spec_to_u32(),
    {
        match self {
            ExceptionCodeWindows::EXCEPTION_GUARD_PAGE => 0x80000001,
            ExceptionCodeWindows::EXCEPTION_DATATYPE_MISALIGNMENT => 0x80000002,
            ExceptionCodeWindows::EXCEPTION_BREAKPOINT => 0x80000003,
            ExceptionCodeWindows::EXCEPTION_SINGLE_STEP => 0x80000004,
            ExceptionCodeWindows::EXCEPTION_ACCESS_VIOLATION => 0xc0000005,
            ExceptionCodeWindows::EXCEPTION_IN_PAGE_ERROR => 0xc0000006,
            ExceptionCodeWindows::EXCEPTION_INVALID_HANDLE => 0xc0000008,
            ExceptionCodeWindows::EXCEPTION_ILLEGAL_INSTRUCTION => 0xc000001d,
            ExceptionCodeWindows::EXCEPTION_NONCONTINUABLE_EXCEPTION => 0xc0000025,
            ExceptionCodeWindows::EXCEPTION_INVALID_DISPOSITION => 0xc0000026,
            ExceptionCodeWindows::EXCEPTION_BOUNDS_EXCEEDED => 0xc000008c,
            ExceptionCodeWindows::EXCEPTION_FLT_DENORMAL_OPERAND => 0xc000008d,
            ExceptionCodeWindows::EXCEPTION_FLT_DIVIDE_BY_ZERO => 0xc000008e,
            ExceptionCodeWindows::EXCEPTION_FLT_INEXACT_RESULT => 0xc000008f,
            ExceptionCodeWindows::EXCEPTION_FLT_INVALID_OPERATION => 0xc0000090,
            ExceptionCodeWindows::EXCEPTION_FLT_OVERFLOW => 0xc0000091,
            ExceptionCodeWindows::EXCEPTION_FLT_STACK_CHECK => 0xc0000092,
            ExceptionCodeWindows::EXCEPTION_FLT_UNDERFLOW => 0xc0000093,
            ExceptionCodeWindows::EXCEPTION_INT_DIVIDE_BY_ZERO => 0xc0000094,
            ExceptionCodeWindows::EXCEPTION_INT_OVERFLOW => 0xc0000095,
            ExceptionCodeWindows::EXCEPTION_PRIV_INSTRUCTION => 0xc0000096,
            ExceptionCodeWindows::EXCEPTION_STACK_OVERFLOW => 0xc00000fd,
            ExceptionCodeWindows::EXCEPTION_POSSIBLE_DEADLOCK => 0xc0000194,
            ExceptionCodeWindows::OUT_OF_MEMORY => 0xe0000008,
            ExceptionCodeWindows::UNHANDLED_CPP_EXCEPTION => 0xe06d7363,
            ExceptionCodeWindows::SIMULATED => 0x0517a7ed,
        }
    }

    /// The symbol a raw value names, or `None` for any other value:
    /// an unknown value is never an error, the caller keeps the raw
    /// value itself.
    pub fn from_u32(raw: u32) -> (r: Option<ExceptionCodeWindows>)
        ensures
            r == ExceptionCodeWindows::spec_from_u32(raw),
    {
        match raw {
            0x80000001 => Some(ExceptionCodeWindows::EXCEPTION_GUARD_PAGE),
            0x80000002 => Some(ExceptionCodeWindows::EXCEPTION_DATATYPE_MISALIGNMENT),
            0x80000003 => Some(ExceptionCodeWindows::EXCEPTION_BREAKPOINT),
            0x80000004 => Some(ExceptionCodeWindows::EXCEPTION_SINGLE_STEP),
            0xc0000005 => Some(ExceptionCodeWindows::EXCEPTION_ACCESS_VIOLATION),
            0xc0000006 => Some(ExceptionCodeWindows::EXCEPTION_IN_PAGE_ERROR),
            0xc0000008 => Some(ExceptionCodeWindows::EXCEPTION_INVALID_HANDLE),
            0xc000001d => Some(ExceptionCodeWindows::EXCEPTION_ILLEGAL_INSTRUCTION),
            0xc0000025 => Some(ExceptionCodeWindows::EXCEPTION_NONCONTINUABLE_EXCEPTION),
            0xc0000026 => Some(ExceptionCodeWindows::EXCEPTION_INVALID_DISPOSITION),
            0xc000008c => Some(ExceptionCodeWindows::EXCEPTION_BOUNDS_EXCEEDED),
            0xc000008d => Some(ExceptionCodeWindows::EXCEPTION_FLT_DENORMAL_OPERAND),
            0xc000008e => Some(ExceptionCodeWindows::EXCEPTION_FLT_DIVIDE_BY_ZERO),
            0xc000008f => Some(ExceptionCodeWindows::EXCEPTION_FLT_INEXACT_RESULT),
            0xc0000090 => Some(ExceptionCodeWindows::EXCEPTION_FLT_INVALID_OPERATION),
            0xc0000091 => Some(ExceptionCodeWindows::EXCEPTION_FLT_OVERFLOW),
            0xc0000092 => Some(ExceptionCodeWindows::EXCEPTION_FLT_STACK_CHECK),
            0xc0000093 => Some(ExceptionCodeWindows::EXCEPTION_FLT_UNDERFLOW),
            0xc0000094 => Some(ExceptionCodeWindows::EXCEPTION_INT_DIVIDE_BY_ZERO),
            0xc0000095 => Some(ExceptionCodeWindows::EXCEPTION_INT_OVERFLOW),
            0xc0000096 => Some(ExceptionCodeWindows::EXCEPTION_PRIV_INSTRUCTION),
            0xc00000fd => Some(ExceptionCodeWindows::EXCEPTION_STACK_OVERFLOW),
            0xc0000194 => Some(ExceptionCodeWindows::EXCEPTION_POSSIBLE_DEADLOCK),
            0xe0000008 => Some(ExceptionCodeWindows::OUT_OF_MEMORY),
            0xe06d7363 => Some(ExceptionCodeWindows::UNHANDLED_CPP_EXCEPTION),
            0x0517a7ed => Some(ExceptionCodeWindows::SIMULATED),
            _ => None,
        }
    }
}

/// Round trip: the raw value of a known symbol names that symbol.
pub proof fn lemma_exception_code_windows_roundtrip(v: ExceptionCodeWindows)
    ensures
        ExceptionCodeWindows::spec_from_u32(v.spec_to_u32()) == Some(v),
{
}

/// The payload values sent with a Windows fast-fail exception.
#[derive(Copy, Clone, PartialEq, Eq, Structural, Debug)]
pub enum FastFailCode {
    FAST_FAIL_LEGACY_GS_VIOLATION,
    FAST_FAIL_VTGUARD_CHECK_FAILURE,
    FAST_FAIL_STACK_COOKIE_CHECK_FAILURE,
    FAST_FAIL_CORRUPT_LIST_ENTRY,
    FAST_FAIL_INCORRECT_STACK,
    FAST_FAIL_INVALID_ARG,
    FAST_FAIL_GS_COOKIE_INIT,
    FAST_FAIL_FATAL_APP_EXIT,
    FAST_FAIL_RANGE_CHECK_FAILURE,
    FAST_FAIL_UNSAFE_REGISTRY_ACCESS,
    FAST_FAIL_GUARD_ICALL_CHECK_FAILURE,
    FAST_FAIL_GUARD_WRITE_CHECK_FAILURE,
    FAST_FAIL_INVALID_FIBER_SWITCH,
    FAST_FAIL_INVALID_SET_OF_CONTEXT,
    FAST_FAIL_INVALID_REFERENCE_COUNT,
    FAST_FAIL_INVALID_JUMP_BUFFER,
    FAST_FAIL_MRDATA_MODIFIED,
    FAST_FAIL_CERTIFICATION_FAILURE,
    FAST_FAIL_INVALID_EXCEPTION_CHAIN,
    FAST_FAIL_CRYPTO_LIBRARY,
    FAST_FAIL_INVALID_CALL_IN_DLL_CALLOUT,
    FAST_FAIL_INVALID_IMAGE_BASE,
    FAST_FAIL_DLOAD_PROTECTION_FAILURE,
    FAST_FAIL_UNSAFE_EXTENSION_CALL,
    FAST_FAIL_DEPRECATED_SERVICE_INVOKED,
    FAST_FAIL_INVALID_BUFFER_ACCESS,
    FAST_FAIL_INVALID_BALANCED_TREE,
    FAST_FAIL_INVALID_NEXT_THREAD,
    FAST_FAIL_GUARD_ICALL_CHECK_SUPPRESSED,
    FAST_FAIL_APCS_DISABLED,
    FAST_FAIL_INVALID_IDLE_STATE,
    FAST_FAIL_MRDATA_PROTECTION_FAILURE,
    FAST_FAIL_UNEXPECTED_HEAP_EXCEPTION,
    FAST_FAIL_INVALID_LOCK_STATE,
    FAST_FAIL_GUARD_JUMPTABLE,
    FAST_FAIL_INVALID_LONGJUMP_TARGET,
    FAST_FAIL_INVALID_DISPATCH_CONTEXT,
    FAST_FAIL_INVALID_THREAD,
    FAST_FAIL_INVALID_SYSCALL_NUMBER,
    FAST_FAIL_INVALID_FILE_OPERATION,
    FAST_FAIL_LPAC_ACCESS_DENIED,
    FAST_FAIL_GUARD_SS_FAILURE,
    FAST_FAIL_LOADER_CONTINUITY_FAILURE,
    FAST_FAIL_GUARD_EXPORT_SUPPRESSION_FAILURE,
    FAST_FAIL_INVALID_CONTROL_STACK,
    FAST_FAIL_SET_CONTEXT_DENIED,
    FAST_FAIL_INVALID_IAT,
    FAST_FAIL_HEAP_METADATA_CORRUPTION,
    FAST_FAIL_PAYLOAD_RESTRICTION_VIOLATION,
    FAST_FAIL_LOW_LABEL_ACCESS_DENIED,
    FAST_FAIL_ENCLAVE_CALL_FAILURE,
    FAST_FAIL_UNHANDLED_LSS_EXCEPTON,
    FAST_FAIL_ADMINLESS_ACCESS_DENIED,
    FAST_FAIL_UNEXPECTED_CALL,
    FAST_FAIL_CONTROL_INVALID_RETURN_ADDRESS,
    FAST_FAIL_UNEXPECTED_HOST_BEHAVIOR,
    FAST_FAIL_FLAGS_CORRUPTION,
    FAST_FAIL_VEH_CORRUPTION,
    FAST_FAIL_ETW_CORRUPTION,
    FAST_FAIL_RIO_ABORT,
    FAST_FAIL_INVALID_PFN,
}

impl FastFailCode {
    /// The raw value of this symbol.
    pub open spec fn spec_to_u32(self) -> u32 {
        match self {
            FastFailCode::FAST_FAIL_LEGACY_GS_VIOLATION => 0,
            FastFailCode::FAST_FAIL_VTGUARD_CHECK_FAILURE => 1,
            FastFailCode::FAST_FAIL_STACK_COOKIE_CHECK_FAILURE => 2,
            FastFailCode::FAST_FAIL_CORRUPT_LIST_ENTRY => 3,
            FastFailCode::FAST_FAIL_INCORRECT_STACK => 4,
            FastFailCode::FAST_FAIL_INVALID_ARG => 5,
            FastFailCode::FAST_FAIL_GS_COOKIE_INIT => 6,
            FastFailCode::FAST_FAIL_FATAL_APP_EXIT => 7,
            FastFailCode::FAST_FAIL_RANGE_CHECK_FAILURE => 8,
            FastFailCode::FAST_FAIL_UNSAFE_REGISTRY_ACCESS => 9,
            FastFailCode::FAST_FAIL_GUARD_ICALL_CHECK_FAILURE => 10,
            FastFailCode::FAST_FAIL_GUARD_WRITE_CHECK_FAILURE => 11,
            FastFailCode::FAST_FAIL_INVALID_FIBER_SWITCH => 12,
            FastFailCode::FAST_FAIL_INVALID_SET_OF_CONTEXT => 13,
            FastFailCode::FAST_FAIL_INVALID_REFERENCE_COUNT => 14,
            FastFailCode::FAST_FAIL_INVALID_JUMP_BUFFER => 18,
            FastFailCode::FAST_FAIL_MRDATA_MODIFIED => 19,
            FastFailCode::FAST_FAIL_CERTIFICATION_FAILURE => 20,
            FastFailCode::FAST_FAIL_INVALID_EXCEPTION_CHAIN => 21,
            FastFailCode::FAST_FAIL_CRYPTO_LIBRARY => 22,
            FastFailCode::FAST_FAIL_INVALID_CALL_IN_DLL_CALLOUT => 23,
            FastFailCode::FAST_FAIL_INVALID_IMAGE_BASE => 24,
            FastFailCode::FAST_FAIL_DLOAD_PROTECTION_FAILURE => 25,
            FastFailCode::FAST_FAIL_UNSAFE_EXTENSION_CALL => 26,
            FastFailCode::FAST_FAIL_DEPRECATED_SERVICE_INVOKED => 27,
            FastFailCode::FAST_FAIL_INVALID_BUFFER_ACCESS => 28,
            FastFailCode::FAST_FAIL_INVALID_BALANCED_TREE => 29,
            FastFailCode::FAST_FAIL_INVALID_NEXT_THREAD => 30,
            FastFailCode::FAST_FAIL_GUARD_ICALL_CHECK_SUPPRESSED => 31,
            FastFailCode::FAST_FAIL_APCS_DISABLED => 32,
            FastFailCode::FAST_FAIL_INVALID_IDLE_STATE => 33,
            FastFailCode::FAST_FAIL_MRDATA_PROTECTION_FAILURE => 34,
            FastFailCode::FAST_FAIL_UNEXPECTED_HEAP_EXCEPTION => 35,
            FastFailCode::FAST_FAIL_INVALID_LOCK_STATE => 36,
            FastFailCode::FAST_FAIL_GUARD_JUMPTABLE => 37,
            FastFailCode::FAST_FAIL_INVALID_LONGJUMP_TARGET => 38,
            FastFailCode::FAST_FAIL_INVALID_DISPATCH_CONTEXT => 39,
            FastFailCode::FAST_FAIL_INVALID_THREAD => 40,
            FastFailCode::FAST_FAIL_INVALID_SYSCALL_NUMBER => 41,
            FastFailCode::FAST_FAIL_INVALID_FILE_OPERATION => 42,
            FastFailCode::FAST_FAIL_LPAC_ACCESS_DENIED => 43,
            FastFailCode::FAST_FAIL_GUARD_SS_FAILURE => 44,
            FastFailCode::FAST_FAIL_LOADER_CONTINUITY_FAILURE => 45,
            FastFailCode::FAST_FAIL_GUARD_EXPORT_SUPPRESSION_FAILURE => 46,
            FastFailCode::FAST_FAIL_INVALID_CONTROL_STACK => 47,
            FastFailCode::FAST_FAIL_SET_CONTEXT_DENIED => 48,
            FastFailCode::FAST_FAIL_INVALID_IAT => 49,
            FastFailCode::FAST_FAIL_HEAP_METADATA_CORRUPTION => 50,
            FastFailCode::FAST_FAIL_PAYLOAD_RESTRICTION_VIOLATION => 51,
            FastFailCode::FAST_FAIL_LOW_LABEL_ACCESS_DENIED => 52,
            FastFailCode::FAST_FAIL_ENCLAVE_CALL_FAILURE => 53,
            FastFailCode::FAST_FAIL_UNHANDLED_LSS_EXCEPTON => 54,
            FastFailCode::FAST_FAIL_ADMINLESS_ACCESS_DENIED => 55,
            FastFailCode::FAST_FAIL_UNEXPECTED_CALL => 56,
            FastFailCode::FAST_FAIL_CONTROL_INVALID_RETURN_ADDRESS => 57,
            FastFailCode::FAST_FAIL_UNEXPECTED_HOST_BEHAVIOR => 58,
            FastFailCode::FAST_FAIL_FLAGS_CORRUPTION => 59,
            FastFailCode::FAST_FAIL_VEH_CORRUPTION => 60,
            FastFailCode::FAST_FAIL_ETW_CORRUPTION => 61,
            FastFailCode::FAST_FAIL_RIO_ABORT => 62,
            FastFailCode::FAST_FAIL_INVALID_PFN => 63,
        }
    }

    /// The symbol a raw value names, or `None` for any other value.
    pub open spec fn spec_from_u32(raw: u32) -> Option<FastFailCode> {
        match raw {
            0 => Some(FastFailCode::FAST_FAIL_LEGACY_GS_VIOLATION),
            1 => Some(FastFailCode::FAST_FAIL_VTGUARD_CHECK_FAILURE),
            2 => Some(FastFailCode::FAST_FAIL_STACK_COOKIE_CHECK_FAILURE),
            3 => Some(FastFailCode::FAST_FAIL_CORRUPT_LIST_ENTRY),
            4 => Some(FastFailCode::FAST_FAIL_INCORRECT_STACK),
            5 => Some(FastFailCode::FAST_FAIL_INVALID_ARG),
            6 => Some(FastFailCode::FAST_FAIL_GS_COOKIE_INIT),
            7 => Some(FastFailCode::FAST_FAIL_FATAL_APP_EXIT),
            8 => Some(FastFailCode::FAST_FAIL_RANGE_CHECK_FAILURE),
            9 => Some(FastFailCode::FAST_FAIL_UNSAFE_REGISTRY_ACCESS),
            10 => Some(FastFailCode::FAST_FAIL_GUARD_ICALL_CHECK_FAILURE),
            11 => Some(FastFailCode::FAST_FAIL_GUARD_WRITE_CHECK_FAILURE),
            12 => Some(FastFailCode::FAST_FAIL_INVALID_FIBER_SWITCH),
            13 => Some(FastFailCode::FAST_FAIL_INVALID_SET_OF_CONTEXT),
            14 => Some(FastFailCode::FAST_FAIL_INVALID_REFERENCE_COUNT),
            18 => Some(FastFailCode::FAST_FAIL_INVALID_JUMP_BUFFER),
            19 => Some(FastFailCode::FAST_FAIL_MRDATA_MODIFIED),
            20 => Some(FastFailCode::FAST_FAIL_CERTIFICATION_FAILURE),
            21 => Some(FastFailCode::FAST_FAIL_INVALID_EXCEPTION_CHAIN),
            22 => Some(FastFailCode::FAST_FAIL_CRYPTO_LIBRARY),
            23 => Some(FastFailCode::FAST_FAIL_INVALID_CALL_IN_DLL_CALLOUT),
            24 => Some(FastFailCode::FAST_FAIL_INVALID_IMAGE_BASE),
            25 => Some(FastFailCode::FAST_FAIL_DLOAD_PROTECTION_FAILURE),
            26 => Some(FastFailCode::FAST_FAIL_UNSAFE_EXTENSION_CALL),
            27 => Some(FastFailCode::FAST_FAIL_DEPRECATED_SERVICE_INVOKED),
            28 => Some(FastFailCode::FAST_FAIL_INVALID_BUFFER_ACCESS),
            29 => Some(FastFailCode::FAST_FAIL_INVALID_BALANCED_TREE),
            30 => Some(FastFailCode::FAST_FAIL_INVALID_NEXT_THREAD),
            31 => Some(FastFailCode::FAST_FAIL_GUARD_ICALL_CHECK_SUPPRESSED),
            32 => Some(FastFailCode::FAST_FAIL_APCS_DISABLED),
            33 => Some(FastFailCode::FAST_FAIL_INVALID_IDLE_STATE),
            34 => Some(FastFailCode::FAST_FAIL_MRDATA_PROTECTION_FAILURE),
            35 => Some(FastFailCode::FAST_FAIL_UNEXPECTED_HEAP_EXCEPTION),
            36 => Some(FastFailCode::FAST_FAIL_INVALID_LOCK_STATE),
            37 => Some(FastFailCode::FAST_FAIL_GUARD_JUMPTABLE),
            38 => Some(FastFailCode::FAST_FAIL_INVALID_LONGJUMP_TARGET),
            39 => Some(FastFailCode::FAST_FAIL_INVALID_DISPATCH_CONTEXT),
            40 => Some(FastFailCode::FAST_FAIL_INVALID_THREAD),
            41 => Some(FastFailCode::FAST_FAIL_INVALID_SYSCALL_NUMBER),
            42 => Some(FastFailCode::FAST_FAIL_INVALID_FILE_OPERATION),
            43 => Some(FastFailCode::FAST_FAIL_LPAC_ACCESS_DENIED),
            44 => Some(FastFailCode::FAST_FAIL_GUARD_SS_FAILURE),
            45 => Some(FastFailCode::FAST_FAIL_LOADER_CONTINUITY_FAILURE),
            46 => Some(FastFailCode::FAST_FAIL_GUARD_EXPORT_SUPPRESSION_FAILURE),
            47 => Some(FastFailCode::FAST_FAIL_INVALID_CONTROL_STACK),
            48 => Some(FastFailCode::FAST_FAIL_SET_CONTEXT_DENIED),
            49 => Some(FastFailCode::FAST_FAIL_INVALID_IAT),
            50 => Some(FastFailCode::FAST_FAIL_HEAP_METADATA_CORRUPTION),
            51 => Some(FastFailCode::FAST_FAIL_PAYLOAD_RESTRICTION_VIOLATION),
            52 => Some(FastFailCode::FAST_FAIL_LOW_LABEL_ACCESS_DENIED),
            53 => Some(FastFailCode::FAST_FAIL_ENCLAVE_CALL_FAILURE),
            54 => Some(FastFailCode::FAST_FAIL_UNHANDLED_LSS_EXCEPTON),
            55 => Some(FastFailCode::FAST_FAIL_ADMINLESS_ACCESS_DENIED),
            56 => Some(FastFailCode::FAST_FAIL_UNEXPECTED_CALL),
            57 => Some(FastFailCode::FAST_FAIL_CONTROL_INVALID_RETURN_ADDRESS),
            58 => Some(FastFailCode::FAST_FAIL_UNEXPECTED_HOST_BEHAVIOR),
            59 => Some(FastFailCode::FAST_FAIL_FLAGS_CORRUPTION),
            60 => Some(FastFailCode::FAST_FAIL_VEH_CORRUPTION),
            61 => Some(FastFailCode::FAST_FAIL_ETW_CORRUPTION),
            62 => Some(FastFailCode::FAST_FAIL_RIO_ABORT),
            63 => Some(FastFailCode::FAST_FAIL_INVALID_PFN),
            _ => None,
        }
    }

    /// The raw value of this symbol.
    pub fn to_u32(self) -> (r: u32)
        ensures
            r == self.spec_to_u32(),
    {
        match self {
            FastFailCode::FAST_FAIL_LEGACY_GS_VIOLATION => 0,
            FastFailCode::FAST_FAIL_VTGUARD_CHECK_FAILURE => 1,
            FastFailCode::FAST_FAIL_STACK_COOKIE_CHECK_FAILURE => 2,
            FastFailCode::FAST_FAIL_CORRUPT_LIST_ENTRY => 3,
            FastFailCode::FAST_FAIL_INCORRECT_STACK => 4,
            FastFailCode::FAST_FAIL_INVALID_ARG => 5,
            FastFailCode::FAST_FAIL_GS_COOKIE_INIT => 6,
            FastFailCode::FAST_FAIL_FATAL_APP_EXIT => 7,
            FastFailCode::FAST_FAIL_RANGE_CHECK_FAILURE => 8,
            FastFailCode::FAST_FAIL_UNSAFE_REGISTRY_ACCESS => 9,
            FastFailCode::FAST_FAIL_GUARD_ICALL_CHECK_FAILURE => 10,
            FastFailCode::FAST_FAIL_GUARD_WRITE_CHECK_FAILURE => 11,
            FastFailCode::FAST_FAIL_INVALID_FIBER_SWITCH => 12,
            FastFailCode::FAST_FAIL_INVALID_SET_OF_CONTEXT => 13,
            FastFailCode::FAST_FAIL_INVALID_REFERENCE_COUNT => 14,
            FastFailCode::FAST_FAIL_INVALID_JUMP_BUFFER => 18,
            FastFailCode::FAST_FAIL_MRDATA_MODIFIED => 19,
            FastFailCode::FAST_FAIL_CERTIFICATION_FAILURE => 20,
            FastFailCode::FAST_FAIL_INVALID_EXCEPTION_CHAIN => 21,
            FastFailCode::FAST_FAIL_CRYPTO_LIBRARY => 22,
            FastFailCode::FAST_FAIL_INVALID_CALL_IN_DLL_CALLOUT => 23,
            FastFailCode::FAST_FAIL_INVALID_IMAGE_BASE => 24,
            FastFailCode::FAST_FAIL_DLOAD_PROTECTION_FAILURE => 25,
            FastFailCode::FAST_FAIL_UNSAFE_EXTENSION_CALL => 26,
            FastFailCode::FAST_FAIL_DEPRECATED_SERVICE_INVOKED => 27,
            FastFailCode::FAST_FAIL_INVALID_BUFFER_ACCESS => 28,
            FastFailCode::FAST_FAIL_INVALID_BALANCED_TREE => 29,
            FastFailCode::FAST_FAIL_INVALID_NEXT_THREAD => 30,
            FastFailCode::FAST_FAIL_GUARD_ICALL_CHECK_SUPPRESSED => 31,
            FastFailCode::FAST_FAIL_APCS_DISABLED => 32,
            FastFailCode::FAST_FAIL_INVALID_IDLE_STATE => 33,
            FastFailCode::FAST_FAIL_MRDATA_PROTECTION_FAILURE => 34,
            FastFailCode::FAST_FAIL_UNEXPECTED_HEAP_EXCEPTION => 35,
            FastFailCode::FAST_FAIL_INVALID_LOCK_STATE => 36,
            FastFailCode::FAST_FAIL_GUARD_JUMPTABLE => 37,
            FastFailCode::FAST_FAIL_INVALID_LONGJUMP_TARGET => 38,
            FastFailCode::FAST_FAIL_INVALID_DISPATCH_CONTEXT => 39,
            FastFailCode::FAST_FAIL_INVALID_THREAD => 40,
            FastFailCode::FAST_FAIL_INVALID_SYSCALL_NUMBER => 41,
            FastFailCode::FAST_FAIL_INVALID_FILE_OPERATION => 42,
            FastFailCode::FAST_FAIL_LPAC_ACCESS_DENIED => 43,
            FastFailCode::FAST_FAIL_GUARD_SS_FAILURE => 44,
            FastFailCode::FAST_FAIL_LOADER_CONTINUITY_FAILURE => 45,
            FastFailCode::FAST_FAIL_GUARD_EXPORT_SUPPRESSION_FAILURE => 46,
            FastFailCode::FAST_FAIL_INVALID_CONTROL_STACK => 47,
            FastFailCode::FAST_FAIL_SET_CONTEXT_DENIED => 48,
            FastFailCode::FAST_FAIL_INVALID_IAT => 49,
            FastFailCode::FAST_FAIL_HEAP_METADATA_CORRUPTION => 50,
            FastFailCode::FAST_FAIL_PAYLOAD_RESTRICTION_VIOLATION => 51,
            FastFailCode::FAST_FAIL_LOW_LABEL_ACCESS_DENIED => 52,
            FastFailCode::FAST_FAIL_ENCLAVE_CALL_FAILURE => 53,
            FastFailCode::FAST_FAIL_UNHANDLED_LSS_EXCEPTON => 54,
            FastFailCode::FAST_FAIL_ADMINLESS_ACCESS_DENIED => 55,
            FastFailCode::FAST_FAIL_UNEXPECTED_CALL => 56,
            FastFailCode::FAST_FAIL_CONTROL_INVALID_RETURN_ADDRESS => 57,
            FastFailCode::FAST_FAIL_UNEXPECTED_HOST_BEHAVIOR => 58,
            FastFailCode::FAST_FAIL_FLAGS_CORRUPTION => 59,
            FastFailCode::FAST_FAIL_VEH_CORRUPTION => 60,
            FastFailCode::FAST_FAIL_ETW_CORRUPTION => 61,
            FastFailCode::FAST_FAIL_RIO_ABORT => 62,
            FastFailCode::FAST_FAIL_INVALID_PFN => 63,
        }
    }

    /// The symbol a raw value names, or `None` for any other value:
    /// an unknown value is never an error, the caller keeps the raw
    /// value itself.
    pub fn from_u32(raw: u32) -> (r: Option<FastFailCode>)
        ensures
            r == FastFailCode::spec_from_u32(raw),
    {
        match raw {
            0 => Some(FastFailCode::FAST_FAIL_LEGACY_GS_VIOLATION),
            1 => Some(FastFailCode::FAST_FAIL_VTGUARD_CHECK_FAILURE),
            2 => Some(FastFailCode::FAST_FAIL_STACK_COOKIE_CHECK_FAILURE),
            3 => Some(FastFailCode::FAST_FAIL_CORRUPT_LIST_ENTRY),
            4 => Some(FastFailCode::FAST_FAIL_INCORRECT_STACK),
            5 => Some(FastFailCode::FAST_FAIL_INVALID_ARG),
            6 => Some(FastFailCode::FAST_FAIL_GS_COOKIE_INIT),
            7 => Some(FastFailCode::FAST_FAIL_FATAL_APP_EXIT),
            8 => Some(FastFailCode::FAST_FAIL_RANGE_CHECK_FAILURE),
            9 => Some(FastFailCode::FAST_FAIL_UNSAFE_REGISTRY_ACCESS),
            10 => Some(FastFailCode::FAST_FAIL_GUARD_ICALL_CHECK_FAILURE),
            11 => Some(FastFailCode::FAST_FAIL_GUARD_WRITE_CHECK_FAILURE),
            12 => Some(FastFailCode::FAST_FAIL_INVALID_FIBER_SWITCH),
            13 => Some(FastFailCode::FAST_FAIL_INVALID_SET_OF_CONTEXT),
            14 => Some(FastFailCode::FAST_FAIL_INVALID_REFERENCE_COUNT),
            18 => Some(FastFailCode::FAST_FAIL_INVALID_JUMP_BUFFER),
            19 => Some(FastFailCode::FAST_FAIL_MRDATA_MODIFIED),
            20 => Some(FastFailCode::FAST_FAIL_CERTIFICATION_FAILURE),
            21 => Some(FastFailCode::FAST_FAIL_INVALID_EXCEPTION_CHAIN),
            22 => Some(FastFailCode::FAST_FAIL_CRYPTO_LIBRARY),
            23 => Some(FastFailCode::FAST_FAIL_INVALID_CALL_IN_DLL_CALLOUT),
            24 => Some(FastFailCode::FAST_FAIL_INVALID_IMAGE_BASE),
            25 => Some(FastFailCode::FAST_FAIL_DLOAD_PROTECTION_FAILURE),
            26 => Some(FastFailCode::FAST_FAIL_UNSAFE_EXTENSION_CALL),
            27 => Some(FastFailCode::FAST_FAIL_DEPRECATED_SERVICE_INVOKED),
            28 => Some(FastFailCode::FAST_FAIL_INVALID_BUFFER_ACCESS),
            29 => Some(FastFailCode::FAST_FAIL_INVALID_BALANCED_TREE),
            30 => Some(FastFailCode::FAST_FAIL_INVALID_NEXT_THREAD),
            31 => Some(FastFailCode::FAST_FAIL_GUARD_ICALL_CHECK_SUPPRESSED),
            32 => Some(FastFailCode::FAST_FAIL_APCS_DISABLED),
            33 => Some(FastFailCode::FAST_FAIL_INVALID_IDLE_STATE),
            34 => Some(FastFailCode::FAST_FAIL_MRDATA_PROTECTION_FAILURE),
            35 => Some(FastFailCode::FAST_FAIL_UNEXPECTED_HEAP_EXCEPTION),
            36 => Some(FastFailCode::FAST_FAIL_INVALID_LOCK_STATE),
            37 => Some(FastFailCode::FAST_FAIL_GUARD_JUMPTABLE),
            38 => Some(FastFailCode::FAST_FAIL_INVALID_LONGJUMP_TARGET),
            39 => Some(FastFailCode::FAST_FAIL_INVALID_DISPATCH_CONTEXT),
            40 => Some(FastFailCode::FAST_FAIL_INVALID_THREAD),
            41 => Some(FastFailCode::FAST_FAIL_INVALID_SYSCALL_NUMBER),
            42 => Some(FastFailCode::FAST_FAIL_INVALID_FILE_OPERATION),
            43 => Some(FastFailCode::FAST_FAIL_LPAC_ACCESS_DENIED),
            44 => Some(FastFailCode::FAST_FAIL_GUARD_SS_FAILURE),
            45 => Some(FastFailCode::FAST_FAIL_LOADER_CONTINUITY_FAILURE),
            46 => Some(FastFailCode::FAST_FAIL_GUARD_EXPORT_SUPPRESSION_FAILURE),
            47 => Some(FastFailCode::FAST_FAIL_INVALID_CONTROL_STACK),
            48 => Some(FastFailCode::FAST_FAIL_SET_CONTEXT_DENIED),
            49 => Some(FastFailCode::FAST_FAIL_INVALID_IAT),
            50 => Some(FastFailCode::FAST_FAIL_HEAP_METADATA_CORRUPTION),
            51 => Some(FastFailCode::FAST_FAIL_PAYLOAD_RESTRICTION_VIOLATION),
            52 => Some(FastFailCode::FAST_FAIL_LOW_LABEL_ACCESS_DENIED),
            53 => Some(FastFailCode::FAST_FAIL_ENCLAVE_CALL_FAILURE),
            54 => Some(FastFailCode::FAST_FAIL_UNHANDLED_LSS_EXCEPTON),
            55 => Some(FastFailCode::FAST_FAIL_ADMINLESS_ACCESS_DENIED),
            56 => Some(FastFailCode::FAST_FAIL_UNEXPECTED_CALL),
            57 => Some(FastFailCode::FAST_FAIL_CONTROL_INVALID_RETURN_ADDRESS),
            58 => Some(FastFailCode::FAST_FAIL_UNEXPECTED_HOST_BEHAVIOR),
            59 => Some(FastFailCode::FAST_FAIL_FLAGS_CORRUPTION),
            60 => Some(FastFailCode::FAST_FAIL_VEH_CORRUPTION),
            61 => Some(FastFailCode::FAST_FAIL_ETW_CORRUPTION),
            62 => Some(FastFailCode::FAST_FAIL_RIO_ABORT),
            63 => Some(FastFailCode::FAST_FAIL_INVALID_PFN),
            _ => None,
        }
    }
}

/// Round trip: the raw value of a known symbol names that symbol.
pub proof fn lemma_fast_fail_code_roundtrip(v: FastFailCode)
    ensures
        FastFailCode::spec_from_u32(v.spec_to_u32()) == Some(v),
{
}

/// The kinds of access-violation exception, from the first element of
/// the exception information array.
#[derive(Copy, Clone, PartialEq, Eq, Structural, Debug)]
pub enum ExceptionCodeWindowsAccessType {
    READ,
    WRITE,
    EXEC,
}

impl ExceptionCodeWindowsAccessType {
    /// The raw value of this symbol.
    pub open spec fn spec_to_u64(self) -> u64 {
        match self {
            ExceptionCodeWindowsAccessType::READ => 0,
            ExceptionCodeWindowsAccessType::WRITE => 1,
            ExceptionCodeWindowsAccessType::EXEC => 8,
        }
    }

    /// The symbol a raw value names, or `None` for any other value.
    pub open spec fn spec_from_u64(raw: u64) -> Option<ExceptionCodeWindowsAccessType> {
        match raw {
            0 => Some(ExceptionCodeWindowsAccessType::READ),
            1 => Some(ExceptionCodeWindowsAccessType::WRITE),
            8 => Some(ExceptionCodeWindowsAccessType::EXEC),
            _ => None,
        }
    }

    /// The raw value of this symbol.
    pub fn to_u64(self) -> (r: u64)
        ensures
            r == self.spec_to_u64(),
    {
        match self {
            ExceptionCodeWindowsAccessType::READ => 0,
            ExceptionCodeWindowsAccessType::WRITE => 1,
            ExceptionCodeWindowsAccessType::EXEC => 8,
        }
    }

    /// The symbol a raw value names, or `None` for any other value:
    /// an unknown value is never an error, the caller keeps the raw
    /// value itself.
    pub fn from_u64(raw: u64) -> (r: Option<ExceptionCodeWindowsAccessType>)
        ensures
            r == ExceptionCodeWindowsAccessType::spec_from_u64(raw),
    {
        match raw {
            0 => Some(ExceptionCodeWindowsAccessType::READ),
            1 => Some(ExceptionCodeWindowsAccessType::WRITE),
            8 => Some(ExceptionCodeWindowsAccessType::EXEC),
            _ => None,
        }
    }
}

/// Round trip: the raw value of a known symbol names that symbol.
pub proof fn lemma_exception_code_windows_access_type_roundtrip(v: ExceptionCodeWindowsAccessType)
    ensures
        ExceptionCodeWindowsAccessType::spec_from_u64(v.spec_to_u64()) == Some(v),
{
}

/// The kinds of in-page-error exception, from the first element of the
/// exception information array.
#[derive(Copy, Clone, PartialEq, Eq, Structural, Debug)]
pub enum ExceptionCodeWindowsInPageErrorType {
    READ,
    WRITE,
    EXEC,
}

impl ExceptionCodeWindowsInPageErrorType {
    /// The raw value of this symbol.
    pub open spec fn spec_to_u64(self) -> u64 {
        match self {
            ExceptionCodeWindowsInPageErrorType::READ => 0,
            ExceptionCodeWindowsInPageErrorType::WRITE => 1,
            ExceptionCodeWindowsInPageErrorType::EXEC => 8,
        }
    }

    /// The symbol a raw value names, or `None` for any other value.
    pub open spec fn spec_from_u64(raw: u64) -> Option<ExceptionCodeWindowsInPageErrorType> {
        match raw {
            0 => Some(ExceptionCodeWindowsInPageErrorType::READ),
            1 => Some(ExceptionCodeWindowsInPageErrorType::WRITE),
            8 => Some(ExceptionCodeWindowsInPageErrorType::EXEC),
            _ => None,
        }
    }

    /// The raw value of this symbol.
    pub fn to_u64(self) -> (r: u64)
        ensures
            r == self.spec_to_u64(),
    {
        match self {
            ExceptionCodeWindowsInPageErrorType::READ => 0,
            ExceptionCodeWindowsInPageErrorType::WRITE => 1,
            ExceptionCodeWindowsInPageErrorType::EXEC => 8,
        }
    }

    /// The symbol a raw value names, or `None` for any other value:
    /// an unknown value is never an error, the caller keeps the raw
    /// value itself.
    pub fn from_u64(raw: u64) -> (r: Option<ExceptionCodeWindowsInPageErrorType>)
        ensures
            r == ExceptionCodeWindowsInPageErrorType::spec_from_u64(raw),
    {
        match raw {
            0 => Some(ExceptionCodeWindowsInPageErrorType::READ),
            1 => Some(ExceptionCodeWindowsInPageErrorType::WRITE),
            8 => Some(ExceptionCodeWindowsInPageErrorType::EXEC),
            _ => None,
        }
    }
}

/// Round trip: the raw value of a known symbol names that symbol.
pub proof fn lemma_exception_code_windows_in_page_error_type_roundtrip(v: ExceptionCodeWindowsInPageErrorType)
    ensures
        ExceptionCodeWindowsInPageErrorType::spec_from_u64(v.spec_to_u64()) == Some(v),
{
}

/// Values of an exception record's `exception_code` field for crashes on
/// Linux: primarily signal numbers.
#[derive(Copy, Clone, PartialEq, Eq, Structural, Debug)]
pub enum ExceptionCodeLinux {
    SIGHUP,
    SIGINT,
    SIGQUIT,
    SIGILL,
    SIGTRAP,
    SIGABRT,
    SIGBUS,
    SIGFPE,
    SIGKILL,
    SIGUSR1,
    SIGSEGV,
    SIGUSR2,
    SIGPIPE,
    SIGALRM,
    SIGTERM,
    SIGSTKFLT,
    SIGCHLD,
    SIGCONT,
    SIGSTOP,
    SIGTSTP,
    SIGTTIN,
    SIGTTOU,
    SIGURG,
    SIGXCPU,
    SIGXFSZ,
    SIGVTALRM,
    SIGPROF,
    SIGWINCH,
    SIGIO,
    SIGPWR,
    SIGSYS,
    DUMP_REQUESTED,
}

impl ExceptionCodeLinux {
    /// The raw value of this symbol.
    pub open spec fn spec_to_u32(self) -> u32 {
        match self {
            ExceptionCodeLinux::SIGHUP => 0x1,
            ExceptionCodeLinux::SIGINT => 0x2,
            ExceptionCodeLinux::SIGQUIT => 0x3,
            ExceptionCodeLinux::SIGILL => 0x4,
            ExceptionCodeLinux::SIGTRAP => 0x5,
            ExceptionCodeLinux::SIGABRT => 0x6,
            ExceptionCodeLinux::SIGBUS => 0x7,
            ExceptionCodeLinux::SIGFPE => 0x8,
            ExceptionCodeLinux::SIGKILL => 0x9,
            ExceptionCodeLinux::SIGUSR1 => 0xa,
            ExceptionCodeLinux::SIGSEGV => 0xb,
            ExceptionCodeLinux::SIGUSR2 => 0xc,
            ExceptionCodeLinux::SIGPIPE => 0xd,
            ExceptionCodeLinux::SIGALRM => 0xe,
            ExceptionCodeLinux::SIGTERM => 0xf,
            ExceptionCodeLinux::SIGSTKFLT => 0x10,
            ExceptionCodeLinux::SIGCHLD => 0x11,
            ExceptionCodeLinux::SIGCONT => 0x12,
            ExceptionCodeLinux::SIGSTOP => 0x13,
            ExceptionCodeLinux::SIGTSTP => 0x14,
            ExceptionCodeLinux::SIGTTIN => 0x15,
            ExceptionCodeLinux::SIGTTOU => 0x16,
            ExceptionCodeLinux::SIGURG => 0x17,
            ExceptionCodeLinux::SIGXCPU => 0x18,
            ExceptionCodeLinux::SIGXFSZ => 0x19,
            ExceptionCodeLinux::SIGVTALRM => 0x1a,
            ExceptionCodeLinux::SIGPROF => 0x1b,
            ExceptionCodeLinux::SIGWINCH => 0x1c,
            ExceptionCodeLinux::SIGIO => 0x1d,
            ExceptionCodeLinux::SIGPWR => 0x1e,
            ExceptionCodeLinux::SIGSYS => 0x1f,
            ExceptionCodeLinux::DUMP_REQUESTED => 0xffffffff,
        }
    }

    /// The symbol a raw value names, or `None` for any other value.
    pub open spec fn spec_from_u32(raw: u32) -> Option<ExceptionCodeLinux> {
        match raw {
            0x1 => Some(ExceptionCodeLinux::SIGHUP),
            0x2 => Some(ExceptionCodeLinux::SIGINT),
            0x3 => Some(ExceptionCodeLinux::SIGQUIT),
            0x4 => Some(ExceptionCodeLinux::SIGILL),
            0x5 => Some(ExceptionCodeLinux::SIGTRAP),
            0x6 => Some(ExceptionCodeLinux::SIGABRT),
            0x7 => Some(ExceptionCodeLinux::SIGBUS),
            0x8 => Some(ExceptionCodeLinux::SIGFPE),
            0x9 => Some(ExceptionCodeLinux::SIGKILL),
            0xa => Some(ExceptionCodeLinux::SIGUSR1),
            0xb => Some(ExceptionCodeLinux::SIGSEGV),
            0xc => Some(ExceptionCodeLinux::SIGUSR2),
            0xd => Some(ExceptionCodeLinux::SIGPIPE),
            0xe => Some(ExceptionCodeLinux::SIGALRM),
            0xf => Some(ExceptionCodeLinux::SIGTERM),
            0x10 => Some(ExceptionCodeLinux::SIGSTKFLT),
            0x11 => Some(ExceptionCodeLinux::SIGCHLD),
            0x12 => Some(ExceptionCodeLinux::SIGCONT),
            0x13 => Some(ExceptionCodeLinux::SIGSTOP),
            0x14 => Some(ExceptionCodeLinux::SIGTSTP),
            0x15 => Some(ExceptionCodeLinux::SIGTTIN),
            0x16 => Some(ExceptionCodeLinux::SIGTTOU),
            0x17 => Some(ExceptionCodeLinux::SIGURG),
            0x18 => Some(ExceptionCodeLinux::SIGXCPU),
            0x19 => Some(ExceptionCodeLinux::SIGXFSZ),
            0x1a => Some(ExceptionCodeLinux::SIGVTALRM),
            0x1b => Some(ExceptionCodeLinux::SIGPROF),
            0x1c => Some(ExceptionCodeLinux::SIGWINCH),
            0x1d => Some(ExceptionCodeLinux::SIGIO),
            0x1e => Some(ExceptionCodeLinux::SIGPWR),
            0x1f => Some(ExceptionCodeLinux::SIGSYS),
            0xffffffff => Some(ExceptionCodeLinux::DUMP_REQUESTED),
            _ => None,
        }
    }

    /// The raw value of this symbol.
    pub fn to_u32(self) -> (r: u32)
        ensures
            r == self.spec_to_u32(),
    {
        match self {
            ExceptionCodeLinux::SIGHUP => 0x1,
            ExceptionCodeLinux::SIGINT => 0x2,
            ExceptionCodeLinux::SIGQUIT => 0x3,
            ExceptionCodeLinux::SIGILL => 0x4,
            ExceptionCodeLinux::SIGTRAP => 0x5,
            ExceptionCodeLinux::SIGABRT => 0x6,
            ExceptionCodeLinux::SIGBUS => 0x7,
            ExceptionCodeLinux::SIGFPE => 0x8,
            ExceptionCodeLinux::SIGKILL => 0x9,
            ExceptionCodeLinux::SIGUSR1 => 0xa,
            ExceptionCodeLinux::SIGSEGV => 0xb,
            ExceptionCodeLinux::SIGUSR2 => 0xc,
            ExceptionCodeLinux::SIGPIPE => 0xd,
            ExceptionCodeLinux::SIGALRM => 0xe,
            ExceptionCodeLinux::SIGTERM => 0xf,
            ExceptionCodeLinux::SIGSTKFLT => 0x10,
            ExceptionCodeLinux::SIGCHLD => 0x11,
            ExceptionCodeLinux::SIGCONT => 0x12,
            ExceptionCodeLinux::SIGSTOP => 0x13,
            ExceptionCodeLinux::SIGTSTP => 0x14,
            ExceptionCodeLinux::SIGTTIN => 0x15,
            ExceptionCodeLinux::SIGTTOU => 0x16,
            ExceptionCodeLinux::SIGURG => 0x17,
            ExceptionCodeLinux::SIGXCPU => 0x18,
            ExceptionCodeLinux::SIGXFSZ => 0x19,
            ExceptionCodeLinux::SIGVTALRM => 0x1a,
            ExceptionCodeLinux::SIGPROF => 0x1b,
            ExceptionCodeLinux::SIGWINCH => 0x1c,
            ExceptionCodeLinux::SIGIO => 0x1d,
            ExceptionCodeLinux::SIGPWR => 0x1e,
            ExceptionCodeLinux::SIGSYS => 0x1f,
            ExceptionCodeLinux::DUMP_REQUESTED => 0xffffffff,
        }
    }

    /// The symbol a raw value names, or `None` for any other value:
    /// an unknown value is never an error, the caller keeps the raw
    /// value itself.
    pub fn from_u32(raw: u32) -> (r: Option<ExceptionCodeLinux>)
        ensures
            r == ExceptionCodeLinux::spec_from_u32(raw),
    {
        match raw {
            0x1 => Some(ExceptionCodeLinux::SIGHUP),
            0x2 => Some(ExceptionCodeLinux::SIGINT),
            0x3 => Some(ExceptionCodeLinux::SIGQUIT),
            0x4 => Some(ExceptionCodeLinux::SIGILL),
            0x5 => Some(ExceptionCodeLinux::SIGTRAP),
            0x6 => Some(ExceptionCodeLinux::SIGABRT),
            0x7 => Some(ExceptionCodeLinux::SIGBUS),
            0x8 => Some(ExceptionCodeLinux::SIGFPE),
            0x9 => Some(ExceptionCodeLinux::SIGKILL),
            0xa => Some(ExceptionCodeLinux::SIGUSR1),
            0xb => Some(ExceptionCodeLinux::SIGSEGV),
            0xc => Some(ExceptionCodeLinux::SIGUSR2),
            0xd => Some(ExceptionCodeLinux::SIGPIPE),
            0xe => Some(ExceptionCodeLinux::SIGALRM),
            0xf => Some(ExceptionCodeLinux::SIGTERM),
            0x10 => Some(ExceptionCodeLinux::SIGSTKFLT),
            0x11 => Some(ExceptionCodeLinux::SIGCHLD),
            0x12 => Some(ExceptionCodeLinux::SIGCONT),
            0x13 => Some(ExceptionCodeLinux::SIGSTOP),
            0x14 => Some(ExceptionCodeLinux::SIGTSTP),
            0x15 => Some(ExceptionCodeLinux::SIGTTIN),
            0x16 => Some(ExceptionCodeLinux::SIGTTOU),
            0x17 => Some(ExceptionCodeLinux::SIGURG),
            0x18 => Some(ExceptionCodeLinux::SIGXCPU),
            0x19 => Some(ExceptionCodeLinux::SIGXFSZ),
            0x1a => Some(ExceptionCodeLinux::SIGVTALRM),
            0x1b => Some(ExceptionCodeLinux::SIGPROF),
            0x1c => Some(ExceptionCodeLinux::SIGWINCH),
            0x1d => Some(ExceptionCodeLinux::SIGIO),
            0x1e => Some(ExceptionCodeLinux::SIGPWR),
            0x1f => Some(ExceptionCodeLinux::SIGSYS),
            0xffffffff => Some(ExceptionCodeLinux::DUMP_REQUESTED),
            _ => None,
        }
    }
}

/// Round trip: the raw value of a known symbol names that symbol.
pub proof fn lemma_exception_code_linux_roundtrip(v: ExceptionCodeLinux)
    ensures
        ExceptionCodeLinux::spec_from_u32(v.spec_to_u32()) == Some(v),
{
}

/// The kinds of illegal-instruction signal on Linux.
#[derive(Copy, Clone, PartialEq, Eq, Structural, Debug)]
pub enum ExceptionCodeLinuxSigillKind {
    SI_USER,
    ILL_ILLOPC,
    ILL_ILLOPN,
    ILL_ILLADR,
    ILL_ILLTRP,
    ILL_PRVOPC,
    ILL_PRVREG,
    ILL_COPROC,
    ILL_BADSTK,
    SI_KERNEL,
}

impl ExceptionCodeLinuxSigillKind {
    /// The raw value of this symbol.
    pub open spec fn spec_to_u32(self) -> u32 {
        match self {
            ExceptionCodeLinuxSigillKind::SI_USER => 0,
            ExceptionCodeLinuxSigillKind::ILL_ILLOPC => 1,
            ExceptionCodeLinuxSigillKind::ILL_ILLOPN => 2,
            ExceptionCodeLinuxSigillKind::ILL_ILLADR => 3,
            ExceptionCodeLinuxSigillKind::ILL_ILLTRP => 4,
            ExceptionCodeLinuxSigillKind::ILL_PRVOPC => 5,
            ExceptionCodeLinuxSigillKind::ILL_PRVREG => 6,
            ExceptionCodeLinuxSigillKind::ILL_COPROC => 7,
            ExceptionCodeLinuxSigillKind::ILL_BADSTK => 8,
            ExceptionCodeLinuxSigillKind::SI_KERNEL => 0x80,
        }
    }

    /// The symbol a raw value names, or `None` for any other value.
    pub open spec fn spec_from_u32(raw: u32) -> Option<ExceptionCodeLinuxSigillKind> {
        match raw {
            0 => Some(ExceptionCodeLinuxSigillKind::SI_USER),
            1 => Some(ExceptionCodeLinuxSigillKind::ILL_ILLOPC),
            2 => Some(ExceptionCodeLinuxSigillKind::ILL_ILLOPN),
            3 => Some(ExceptionCodeLinuxSigillKind::ILL_ILLADR),
            4 => Some(ExceptionCodeLinuxSigillKind::ILL_ILLTRP),
            5 => Some(ExceptionCodeLinuxSigillKind::ILL_PRVOPC),
            6 => Some(ExceptionCodeLinuxSigillKind::ILL_PRVREG),
            7 => Some(ExceptionCodeLinuxSigillKind::ILL_COPROC),
            8 => Some(ExceptionCodeLinuxSigillKind::ILL_BADSTK),
            0x80 => Some(ExceptionCodeLinuxSigillKind::SI_KERNEL),
            _ => None,
        }
    }

    /// The raw value of this symbol.
    pub fn to_u32(self) -> (r: u32)
        ensures
            r == self.spec_to_u32(),
    {
        match self {
            ExceptionCodeLinuxSigillKind::SI_USER => 0,
            ExceptionCodeLinuxSigillKind::ILL_ILLOPC => 1,
            ExceptionCodeLinuxSigillKind::ILL_ILLOPN => 2,
            ExceptionCodeLinuxSigillKind::ILL_ILLADR => 3,
            ExceptionCodeLinuxSigillKind::ILL_ILLTRP => 4,
            ExceptionCodeLinuxSigillKind::ILL_PRVOPC => 5,
            ExceptionCodeLinuxSigillKind::ILL_PRVREG => 6,
            ExceptionCodeLinuxSigillKind::ILL_COPROC => 7,
            ExceptionCodeLinuxSigillKind::ILL_BADSTK => 8,
            ExceptionCodeLinuxSigillKind::SI_KERNEL => 0x80,
        }
    }

    /// The symbol a raw value names, or `None` for any other value:
    /// an unknown value is never an error, the caller keeps the raw
    /// value itself.
    pub fn from_u32(raw: u32) -> (r: Option<ExceptionCodeLinuxSigillKind>)
        ensures
            r == ExceptionCodeLinuxSigillKind::spec_from_u32(raw),
    {
        match raw {
            0 => Some(ExceptionCodeLinuxSigillKind::SI_USER),
            1 => Some(ExceptionCodeLinuxSigillKind::ILL_ILLOPC),
            2 => Some(ExceptionCodeLinuxSigillKind::ILL_ILLOPN),
            3 => Some(ExceptionCodeLinuxSigillKind::ILL_ILLADR),
            4 => Some(ExceptionCodeLinuxSigillKind::ILL_ILLTRP),
            5 => Some(ExceptionCodeLinuxSigillKind::ILL_PRVOPC),
            6 => Some(ExceptionCodeLinuxSigillKind::ILL_PRVREG),
            7 => Some(ExceptionCodeLinuxSigillKind::ILL_COPROC),
            8 => Some(ExceptionCodeLinuxSigillKind::ILL_BADSTK),
            0x80 => Some(ExceptionCodeLinuxSigillKind::SI_KERNEL),
            _ => None,
        }
    }
}

/// Round trip: the raw value of a known symbol names that symbol.
pub proof fn lemma_exception_code_linux_sigill_kind_roundtrip(v: ExceptionCodeLinuxSigillKind)
    ensures
        ExceptionCodeLinuxSigillKind::spec_from_u32(v.spec_to_u32()) == Some(v),
{
}

/// The kinds of arithmetic-exception signal on Linux.
#[derive(Copy, Clone, PartialEq, Eq, Structural, Debug)]
pub enum ExceptionCodeLinuxSigfpeKind {
    SI_USER,
    FPE_INTDIV,
    FPE_INTOVF,
    FPE_FLTDIV,
    FPE_FLTOVF,
    FPE_FLTUND,
    FPE_FLTRES,
    FPE_FLTINV,
    FPE_FLTSUB,
    SI_KERNEL,
}

impl ExceptionCodeLinuxSigfpeKind {
    /// The raw value of this symbol.
    pub open spec fn spec_to_u32(self) -> u32 {
        match self {
            ExceptionCodeLinuxSigfpeKind::SI_USER => 0,
            ExceptionCodeLinuxSigfpeKind::FPE_INTDIV => 1,
            ExceptionCodeLinuxSigfpeKind::FPE_INTOVF => 2,
            ExceptionCodeLinuxSigfpeKind::FPE_FLTDIV => 3,
            ExceptionCodeLinuxSigfpeKind::FPE_FLTOVF => 4,
            ExceptionCodeLinuxSigfpeKind::FPE_FLTUND => 5,
            ExceptionCodeLinuxSigfpeKind::FPE_FLTRES => 6,
            ExceptionCodeLinuxSigfpeKind::FPE_FLTINV => 7,
            ExceptionCodeLinuxSigfpeKind::FPE_FLTSUB => 8,
            ExceptionCodeLinuxSigfpeKind::SI_KERNEL => 0x80,
        }
    }

    /// The symbol a raw value names, or `None` for any other value.
    pub open spec fn spec_from_u32(raw: u32) -> Option<ExceptionCodeLinuxSigfpeKind> {
        match raw {
            0 => Some(ExceptionCodeLinuxSigfpeKind::SI_USER),
            1 => Some(ExceptionCodeLinuxSigfpeKind::FPE_INTDIV),
            2 => Some(ExceptionCodeLinuxSigfpeKind::FPE_INTOVF),
            3 => Some(ExceptionCodeLinuxSigfpeKind::FPE_FLTDIV),
            4 => Some(ExceptionCodeLinuxSigfpeKind::FPE_FLTOVF),
            5 => Some(ExceptionCodeLinuxSigfpeKind::FPE_FLTUND),
            6 => Some(ExceptionCodeLinuxSigfpeKind::FPE_FLTRES),
            7 => Some(ExceptionCodeLinuxSigfpeKind::FPE_FLTINV),
            8 => Some(ExceptionCodeLinuxSigfpeKind::FPE_FLTSUB),
            0x80 => Some(ExceptionCodeLinuxSigfpeKind::SI_KERNEL),
            _ => None,
        }
    }

    /// The raw value of this symbol.
    pub fn to_u32(self) -> (r: u32)
        ensures
            r == self.spec_to_u32(),
    {
        match self {
            ExceptionCodeLinuxSigfpeKind::SI_USER => 0,
            ExceptionCodeLinuxSigfpeKind::FPE_INTDIV => 1,
            ExceptionCodeLinuxSigfpeKind::FPE_INTOVF => 2,
            ExceptionCodeLinuxSigfpeKind::FPE_FLTDIV => 3,
            ExceptionCodeLinuxSigfpeKind::FPE_FLTOVF => 4,
            ExceptionCodeLinuxSigfpeKind::FPE_FLTUND => 5,
            ExceptionCodeLinuxSigfpeKind::FPE_FLTRES => 6,
            ExceptionCodeLinuxSigfpeKind::FPE_FLTINV => 7,
            ExceptionCodeLinuxSigfpeKind::FPE_FLTSUB => 8,
            ExceptionCodeLinuxSigfpeKind::SI_KERNEL => 0x80,
        }
    }

    /// The symbol a raw value names, or `None` for any other value:
    /// an unknown value is never an error, the caller keeps the raw
    /// value itself.
    pub fn from_u32(raw: u32) -> (r: Option<ExceptionCodeLinuxSigfpeKind>)
        ensures
            r == ExceptionCodeLinuxSigfpeKind::spec_from_u32(raw),
    {
        match raw {
            0 => Some(ExceptionCodeLinuxSigfpeKind::SI_USER),
            1 => Some(ExceptionCodeLinuxSigfpeKind::FPE_INTDIV),
            2 => Some(ExceptionCodeLinuxSigfpeKind::FPE_INTOVF),
            3 => Some(ExceptionCodeLinuxSigfpeKind::FPE_FLTDIV),
            4 => Some(ExceptionCodeLinuxSigfpeKind::FPE_FLTOVF),
            5 => Some(ExceptionCodeLinuxSigfpeKind::FPE_FLTUND),
            6 => Some(ExceptionCodeLinuxSigfpeKind::FPE_FLTRES),
            7 => Some(ExceptionCodeLinuxSigfpeKind::FPE_FLTINV),
            8 => Some(ExceptionCodeLinuxSigfpeKind::FPE_FLTSUB),
            0x80 => Some(ExceptionCodeLinuxSigfpeKind::SI_KERNEL),
            _ => None,
        }
    }
}

/// Round trip: the raw value of a known symbol names that symbol.
pub proof fn lemma_exception_code_linux_sigfpe_kind_roundtrip(v: ExceptionCodeLinuxSigfpeKind)
    ensures
        ExceptionCodeLinuxSigfpeKind::spec_from_u32(v.spec_to_u32()) == Some(v),
{
}

/// The kinds of segmentation-violation signal on Linux.
#[derive(Copy, Clone, PartialEq, Eq, Structural, Debug)]
pub enum ExceptionCodeLinuxSigsegvKind {
    SI_USER,
    SEGV_MAPERR,
    SEGV_ACCERR,
    SEGV_BNDERR,
    SEGV_PKUERR,
    SI_KERNEL,
}

impl ExceptionCodeLinuxSigsegvKind {
    /// The raw value of this symbol.
    pub open spec fn spec_to_u32(self) -> u32 {
        match self {
            ExceptionCodeLinuxSigsegvKind::SI_USER => 0,
            ExceptionCodeLinuxSigsegvKind::SEGV_MAPERR => 1,
            ExceptionCodeLinuxSigsegvKind::SEGV_ACCERR => 2,
            ExceptionCodeLinuxSigsegvKind::SEGV_BNDERR => 3,
            ExceptionCodeLinuxSigsegvKind::SEGV_PKUERR => 4,
            ExceptionCodeLinuxSigsegvKind::SI_KERNEL => 0x80,
        }
    }

    /// The symbol a raw value names, or `None` for any other value.
    pub open spec fn spec_from_u32(raw: u32) -> Option<ExceptionCodeLinuxSigsegvKind> {
        match raw {
            0 => Some(ExceptionCodeLinuxSigsegvKind::SI_USER),
            1 => Some(ExceptionCodeLinuxSigsegvKind::SEGV_MAPERR),
            2 => Some(ExceptionCodeLinuxSigsegvKind::SEGV_ACCERR),
            3 => Some(ExceptionCodeLinuxSigsegvKind::SEGV_BNDERR),
            4 => Some(ExceptionCodeLinuxSigsegvKind::SEGV_PKUERR),
            0x80 => Some(ExceptionCodeLinuxSigsegvKind::SI_KERNEL),
            _ => None,
        }
    }

    /// The raw value of this symbol.
    pub fn to_u32(self) -> (r: u32)
        ensures
            r == self.spec_to_u32(),
    {
        match self {
            ExceptionCodeLinuxSigsegvKind::SI_USER => 0,
            ExceptionCodeLinuxSigsegvKind::SEGV_MAPERR => 1,
            ExceptionCodeLinuxSigsegvKind::SEGV_ACCERR => 2,
            ExceptionCodeLinuxSigsegvKind::SEGV_BNDERR => 3,
            ExceptionCodeLinuxSigsegvKind::SEGV_PKUERR => 4,
            ExceptionCodeLinuxSigsegvKind::SI_KERNEL => 0x80,
        }
    }

    /// The symbol a raw value names, or `None` for any other value:
    /// an unknown value is never an error, the caller keeps the raw
    /// value itself.
    pub fn from_u32(raw: u32) -> (r: Option<ExceptionCodeLinuxSigsegvKind>)
        ensures
            r == ExceptionCodeLinuxSigsegvKind::spec_from_u32(raw),
    {
        match raw {
            0 => Some(ExceptionCodeLinuxSigsegvKind::SI_USER),
            1 => Some(ExceptionCodeLinuxSigsegvKind::SEGV_MAPERR),
            2 => Some(ExceptionCodeLinuxSigsegvKind::SEGV_ACCERR),
            3 => Some(ExceptionCodeLinuxSigsegvKind::SEGV_BNDERR),
            4 => Some(ExceptionCodeLinuxSigsegvKind::SEGV_PKUERR),
            0x80 => Some(ExceptionCodeLinuxSigsegvKind::SI_KERNEL),
            _ => None,
        }
    }
}

/// Round trip: the raw value of a known symbol names that symbol.
pub proof fn lemma_exception_code_linux_sigsegv_kind_roundtrip(v: ExceptionCodeLinuxSigsegvKind)
    ensures
        ExceptionCodeLinuxSigsegvKind::spec_from_u32(v.spec_to_u32()) == Some(v),
{
}

/// The kinds of bus-error signal on Linux.
#[derive(Copy, Clone, PartialEq, Eq, Structural, Debug)]
pub enum ExceptionCodeLinuxSigbusKind {
    SI_USER,
    BUS_ADRALN,
    BUS_ADRERR,
    BUS_OBJERR,
    BUS_MCEERR_AR,
    BUS_MCEERR_AO,
    SI_KERNEL,
}

impl ExceptionCodeLinuxSigbusKind {
    /// The raw value of this symbol.
    pub open spec fn spec_to_u32(self) -> u32 {
        match self {
            ExceptionCodeLinuxSigbusKind::SI_USER => 0,
            ExceptionCodeLinuxSigbusKind::BUS_ADRALN => 1,
            ExceptionCodeLinuxSigbusKind::BUS_ADRERR => 2,
            ExceptionCodeLinuxSigbusKind::BUS_OBJERR => 3,
            ExceptionCodeLinuxSigbusKind::BUS_MCEERR_AR => 4,
            ExceptionCodeLinuxSigbusKind::BUS_MCEERR_AO => 5,
            ExceptionCodeLinuxSigbusKind::SI_KERNEL => 0x80,
        }
    }

    /// The symbol a raw value names, or `None` for any other value.
    pub open spec fn spec_from_u32(raw: u32) -> Option<ExceptionCodeLinuxSigbusKind> {
        match raw {
            0 => Some(ExceptionCodeLinuxSigbusKind::SI_USER),
            1 => Some(ExceptionCodeLinuxSigbusKind::BUS_ADRALN),
            2 => Some(ExceptionCodeLinuxSigbusKind::BUS_ADRERR),
            3 => Some(ExceptionCodeLinuxSigbusKind::BUS_OBJERR),
            4 => Some(ExceptionCodeLinuxSigbusKind::BUS_MCEERR_AR),
            5 => Some(ExceptionCodeLinuxSigbusKind::BUS_MCEERR_AO),
            0x80 => Some(ExceptionCodeLinuxSigbusKind::SI_KERNEL),
            _ => None,
        }
    }

    /// The raw value of this symbol.
    pub fn to_u32(self) -> (r: u32)
        ensures
            r == self.spec_to_u32(),
    {
        match self {
            ExceptionCodeLinuxSigbusKind::SI_USER => 0,
            ExceptionCodeLinuxSigbusKind::BUS_ADRALN => 1,
            ExceptionCodeLinuxSigbusKind::BUS_ADRERR => 2,
            ExceptionCodeLinuxSigbusKind::BUS_OBJERR => 3,
            ExceptionCodeLinuxSigbusKind::BUS_MCEERR_AR => 4,
            ExceptionCodeLinuxSigbusKind::BUS_MCEERR_AO => 5,
            ExceptionCodeLinuxSigbusKind::SI_KERNEL => 0x80,
        }
    }

    /// The symbol a raw value names, or `None` for any other value:
    /// an unknown value is never an error, the caller keeps the raw
    /// value itself.
    pub fn from_u32(raw: u32) -> (r: Option<ExceptionCodeLinuxSigbusKind>)
        ensures
            r == ExceptionCodeLinuxSigbusKind::spec_from_u32(raw),
    {
        match raw {
            0 => Some(ExceptionCodeLinuxSigbusKind::SI_USER),
            1 => Some(ExceptionCodeLinuxSigbusKind::BUS_ADRALN),
            2 => Some(ExceptionCodeLinuxSigbusKind::BUS_ADRERR),
            3 => Some(ExceptionCodeLinuxSigbusKind::BUS_OBJERR),
            4 => Some(ExceptionCodeLinuxSigbusKind::BUS_MCEERR_AR),
            5 => Some(ExceptionCodeLinuxSigbusKind::BUS_MCEERR_AO),
            0x80 => Some(ExceptionCodeLinuxSigbusKind::SI_KERNEL),
            _ => None,
        }
    }
}

/// Round trip: the raw value of a known symbol names that symbol.
pub proof fn lemma_exception_code_linux_sigbus_kind_roundtrip(v: ExceptionCodeLinuxSigbusKind)
    ensures
        ExceptionCodeLinuxSigbusKind::spec_from_u32(v.spec_to_u32()) == Some(v),
{
}

/// Values of an exception record's `exception_code` field for crashes on
/// macOS and iOS.
#[derive(Copy, Clone, PartialEq, Eq, Structural, Debug)]
pub enum ExceptionCodeMac {
    EXC_BAD_ACCESS,
    EXC_BAD_INSTRUCTION,
    EXC_ARITHMETIC,
    EXC_EMULATION,
    EXC_SOFTWARE,
    EXC_BREAKPOINT,
    EXC_SYSCALL,
    EXC_MACH_SYSCALL,
    EXC_RPC_ALERT,
    SIMULATED,
}

impl ExceptionCodeMac {
    /// The raw value of this symbol.
    pub open spec fn spec_to_u32(self) -> u32 {
        match self {
            ExceptionCodeMac::EXC_BAD_ACCESS => 1,
            ExceptionCodeMac::EXC_BAD_INSTRUCTION => 2,
            ExceptionCodeMac::EXC_ARITHMETIC => 3,
            ExceptionCodeMac::EXC_EMULATION => 4,
            ExceptionCodeMac::EXC_SOFTWARE => 5,
            ExceptionCodeMac::EXC_BREAKPOINT => 6,
            ExceptionCodeMac::EXC_SYSCALL => 7,
            ExceptionCodeMac::EXC_MACH_SYSCALL => 8,
            ExceptionCodeMac::EXC_RPC_ALERT => 9,
            ExceptionCodeMac::SIMULATED => 0x43507378,
        }
    }

    /// The symbol a raw value names, or `None` for any other value.
    pub open spec fn spec_from_u32(raw: u32) -> Option<ExceptionCodeMac> {
        match raw {
            1 => Some(ExceptionCodeMac::EXC_BAD_ACCESS),
            2 => Some(ExceptionCodeMac::EXC_BAD_INSTRUCTION),
            3 => Some(ExceptionCodeMac::EXC_ARITHMETIC),
            4 => Some(ExceptionCodeMac::EXC_EMULATION),
            5 => Some(ExceptionCodeMac::EXC_SOFTWARE),
            6 => Some(ExceptionCodeMac::EXC_BREAKPOINT),
            7 => Some(ExceptionCodeMac::EXC_SYSCALL),
            8 => Some(ExceptionCodeMac::EXC_MACH_SYSCALL),
            9 => Some(ExceptionCodeMac::EXC_RPC_ALERT),
            0x43507378 => Some(ExceptionCodeMac::SIMULATED),
            _ => None,
        }
    }

    /// The raw value of this symbol.
    pub fn to_u32(self) -> (r: u32)
        ensures
            r == self.spec_to_u32(),
    {
        match self {
            ExceptionCodeMac::EXC_BAD_ACCESS => 1,
            ExceptionCodeMac::EXC_BAD_INSTRUCTION => 2,
            ExceptionCodeMac::EXC_ARITHMETIC => 3,
            ExceptionCodeMac::EXC_EMULATION => 4,
            ExceptionCodeMac::EXC_SOFTWARE => 5,
            ExceptionCodeMac::EXC_BREAKPOINT => 6,
            ExceptionCodeMac::EXC_SYSCALL => 7,
            ExceptionCodeMac::EXC_MACH_SYSCALL => 8,
            ExceptionCodeMac::EXC_RPC_ALERT => 9,
            ExceptionCodeMac::SIMULATED => 0x43507378,
        }
    }

    /// The symbol a raw value names, or `None` for any other value:
    /// an unknown value is never an error, the caller keeps the raw
    /// value itself.
    pub fn from_u32(raw: u32) -> (r: Option<ExceptionCodeMac>)
        ensures
            r == ExceptionCodeMac::spec_from_u32(raw),
    {
        match raw {
            1 => Some(ExceptionCodeMac::EXC_BAD_ACCESS),
            2 => Some(ExceptionCodeMac::EXC_BAD_INSTRUCTION),
            3 => Some(ExceptionCodeMac::EXC_ARITHMETIC),
            4 => Some(ExceptionCodeMac::EXC_EMULATION),
            5 => Some(ExceptionCodeMac::EXC_SOFTWARE),
            6 => Some(ExceptionCodeMac::EXC_BREAKPOINT),
            7 => Some(ExceptionCodeMac::EXC_SYSCALL),
            8 => Some(ExceptionCodeMac::EXC_MACH_SYSCALL),
            9 => Some(ExceptionCodeMac::EXC_RPC_ALERT),
            0x43507378 => Some(ExceptionCodeMac::SIMULATED),
            _ => None,
        }
    }
}

/// Round trip: the raw value of a known symbol names that symbol.
pub proof fn lemma_exception_code_mac_roundtrip(v: ExceptionCodeMac)
    ensures
        ExceptionCodeMac::spec_from_u32(v.spec_to_u32()) == Some(v),
{
}

/// Mac/iOS kernel bad-access exception codes.
#[derive(Copy, Clone, PartialEq, Eq, Structural, Debug)]
pub enum ExceptionCodeMacBadAccessKernType {
    KERN_INVALID_ADDRESS,
    KERN_PROTECTION_FAILURE,
    KERN_NO_ACCESS,
    KERN_MEMORY_FAILURE,
    KERN_MEMORY_ERROR,
    KERN_CODESIGN_ERROR,
}

impl ExceptionCodeMacBadAccessKernType {
    /// The raw value of this symbol.
    pub open spec fn spec_to_u32(self) -> u32 {
        match self {
            ExceptionCodeMacBadAccessKernType::KERN_INVALID_ADDRESS => 1,
            ExceptionCodeMacBadAccessKernType::KERN_PROTECTION_FAILURE => 2,
            ExceptionCodeMacBadAccessKernType::KERN_NO_ACCESS => 8,
            ExceptionCodeMacBadAccessKernType::KERN_MEMORY_FAILURE => 9,
            ExceptionCodeMacBadAccessKernType::KERN_MEMORY_ERROR => 10,
            ExceptionCodeMacBadAccessKernType::KERN_CODESIGN_ERROR => 50,
        }
    }

    /// The symbol a raw value names, or `None` for any other value.
    pub open spec fn spec_from_u32(raw: u32) -> Option<ExceptionCodeMacBadAccessKernType> {
        match raw {
            1 => Some(ExceptionCodeMacBadAccessKernType::KERN_INVALID_ADDRESS),
            2 => Some(ExceptionCodeMacBadAccessKernType::KERN_PROTECTION_FAILURE),
            8 => Some(ExceptionCodeMacBadAccessKernType::KERN_NO_ACCESS),
            9 => Some(ExceptionCodeMacBadAccessKernType::KERN_MEMORY_FAILURE),
            10 => Some(ExceptionCodeMacBadAccessKernType::KERN_MEMORY_ERROR),
            50 => Some(ExceptionCodeMacBadAccessKernType::KERN_CODESIGN_ERROR),
            _ => None,
        }
    }

    /// The raw value of this symbol.
    pub fn to_u32(self) -> (r: u32)
        ensures
            r == self.spec_to_u32(),
    {
        match self {
            ExceptionCodeMacBadAccessKernType::KERN_INVALID_ADDRESS => 1,
            ExceptionCodeMacBadAccessKernType::KERN_PROTECTION_FAILURE => 2,
            ExceptionCodeMacBadAccessKernType::KERN_NO_ACCESS => 8,
            ExceptionCodeMacBadAccessKernType::KERN_MEMORY_FAILURE => 9,
            ExceptionCodeMacBadAccessKernType::KERN_MEMORY_ERROR => 10,
            ExceptionCodeMacBadAccessKernType::KERN_CODESIGN_ERROR => 50,
        }
    }

    /// The symbol a raw value names, or `None` for any other value:
    /// an unknown value is never an error, the caller keeps the raw
    /// value itself.
    pub fn from_u32(raw: u32) -> (r: Option<ExceptionCodeMacBadAccessKernType>)
        ensures
            r == ExceptionCodeMacBadAccessKernType::spec_from_u32(raw),
    {
        match raw {
            1 => Some(ExceptionCodeMacBadAccessKernType::KERN_INVALID_ADDRESS),
            2 => Some(ExceptionCodeMacBadAccessKernType::KERN_PROTECTION_FAILURE),
            8 => Some(ExceptionCodeMacBadAccessKernType::KERN_NO_ACCESS),
            9 => Some(ExceptionCodeMacBadAccessKernType::KERN_MEMORY_FAILURE),
            10 => Some(ExceptionCodeMacBadAccessKernType::KERN_MEMORY_ERROR),
            50 => Some(ExceptionCodeMacBadAccessKernType::KERN_CODESIGN_ERROR),
            _ => None,
        }
    }
}

/// Round trip: the raw value of a known symbol names that symbol.
pub proof fn lemma_exception_code_mac_bad_access_kern_type_roundtrip(v: ExceptionCodeMacBadAccessKernType)
    ensures
        ExceptionCodeMacBadAccessKernType::spec_from_u32(v.spec_to_u32()) == Some(v),
{
}

/// Mac/iOS Arm userland bad-access exception codes.
#[derive(Copy, Clone, PartialEq, Eq, Structural, Debug)]
pub enum ExceptionCodeMacBadAccessArmType {
    EXC_ARM_DA_ALIGN,
    EXC_ARM_DA_DEBUG,
}

impl ExceptionCodeMacBadAccessArmType {
    /// The raw value of this symbol.
    pub open spec fn spec_to_u32(self) -> u32 {
        match self {
            ExceptionCodeMacBadAccessArmType::EXC_ARM_DA_ALIGN => 0x0101,
            ExceptionCodeMacBadAccessArmType::EXC_ARM_DA_DEBUG => 0x0102,
        }
    }

    /// The symbol a raw value names, or `None` for any other value.
    pub open spec fn spec_from_u32(raw: u32) -> Option<ExceptionCodeMacBadAccessArmType> {
        match raw {
            0x0101 => Some(ExceptionCodeMacBadAccessArmType::EXC_ARM_DA_ALIGN),
            0x0102 => Some(ExceptionCodeMacBadAccessArmType::EXC_ARM_DA_DEBUG),
            _ => None,
        }
    }

    /// The raw value of this symbol.
    pub fn to_u32(self) -> (r: u32)
        ensures
            r == self.spec_to_u32(),
    {
        match self {
            ExceptionCodeMacBadAccessArmType::EXC_ARM_DA_ALIGN => 0x0101,
            ExceptionCodeMacBadAccessArmType::EXC_ARM_DA_DEBUG => 0x0102,
        }
    }

    /// The symbol a raw value names, or `None` for any other value:
    /// an unknown value is never an error, the caller keeps the raw
    /// value itself.
    pub fn from_u32(raw: u32) -> (r: Option<ExceptionCodeMacBadAccessArmType>)
        ensures
            r == ExceptionCodeMacBadAccessArmType::spec_from_u32(raw),
    {
        match raw {
            0x0101 => Some(ExceptionCodeMacBadAccessArmType::EXC_ARM_DA_ALIGN),
            0x0102 => Some(ExceptionCodeMacBadAccessArmType::EXC_ARM_DA_DEBUG),
            _ => None,
        }
    }
}

/// Round trip: the raw value of a known symbol names that symbol.
pub proof fn lemma_exception_code_mac_bad_access_arm_type_roundtrip(v: ExceptionCodeMacBadAccessArmType)
    ensures
        ExceptionCodeMacBadAccessArmType::spec_from_u32(v.spec_to_u32()) == Some(v),
{
}

/// Mac/iOS PPC userland bad-access exception codes.
#[derive(Copy, Clone, PartialEq, Eq, Structural, Debug)]
pub enum ExceptionCodeMacBadAccessPpcType {
    EXC_PPC_VM_PROT_READ,
    EXC_PPC_BADSPACE,
    EXC_PPC_UNALIGNED,
}

impl ExceptionCodeMacBadAccessPpcType {
    /// The raw value of this symbol.
    pub open spec fn spec_to_u32(self) -> u32 {
        match self {
            ExceptionCodeMacBadAccessPpcType::EXC_PPC_VM_PROT_READ => 0x0101,
            ExceptionCodeMacBadAccessPpcType::EXC_PPC_BADSPACE => 0x0102,
            ExceptionCodeMacBadAccessPpcType::EXC_PPC_UNALIGNED => 0x0103,
        }
    }

    /// The symbol a raw value names, or `None` for any other value.
    pub open spec fn spec_from_u32(raw: u32) -> Option<ExceptionCodeMacBadAccessPpcType> {
        match raw {
            0x0101 => Some(ExceptionCodeMacBadAccessPpcType::EXC_PPC_VM_PROT_READ),
            0x0102 => Some(ExceptionCodeMacBadAccessPpcType::EXC_PPC_BADSPACE),
            0x0103 => Some(ExceptionCodeMacBadAccessPpcType::EXC_PPC_UNALIGNED),
            _ => None,
        }
    }

    /// The raw value of this symbol.
    pub fn to_u32(self) -> (r: u32)
        ensures
            r == self.spec_to_u32(),
    {
        match self {
            ExceptionCodeMacBadAccessPpcType::EXC_PPC_VM_PROT_READ => 0x0101,
            ExceptionCodeMacBadAccessPpcType::EXC_PPC_BADSPACE => 0x0102,
            ExceptionCodeMacBadAccessPpcType::EXC_PPC_UNALIGNED => 0x0103,
        }
    }

    /// The symbol a raw value names, or `None` for any other value:
    /// an unknown value is never an error, the caller keeps the raw
    /// value itself.
    pub fn from_u32(raw: u32) -> (r: Option<ExceptionCodeMacBadAccessPpcType>)
        ensures
            r == ExceptionCodeMacBadAccessPpcType::spec_from_u32(raw),
    {
        match raw {
            0x0101 => Some(ExceptionCodeMacBadAccessPpcType::EXC_PPC_VM_PROT_READ),
            0x0102 => Some(ExceptionCodeMacBadAccessPpcType::EXC_PPC_BADSPACE),
            0x0103 => Some(ExceptionCodeMacBadAccessPpcType::EXC_PPC_UNALIGNED),
            _ => None,
        }
    }
}

/// Round trip: the raw value of a known symbol names that symbol.
pub proof fn lemma_exception_code_mac_bad_access_ppc_type_roundtrip(v: ExceptionCodeMacBadAccessPpcType)
    ensures
        ExceptionCodeMacBadAccessPpcType::spec_from_u32(v.spec_to_u32()) == Some(v),
{
}

/// Mac/iOS x86 userland bad-access exception codes.
#[derive(Copy, Clone, PartialEq, Eq, Structural, Debug)]
pub enum ExceptionCodeMacBadAccessX86Type {
    EXC_I386_GPFLT,
}

impl ExceptionCodeMacBadAccessX86Type {
    /// The raw value of this symbol.
    pub open spec fn spec_to_u32(self) -> u32 {
        match self {
            ExceptionCodeMacBadAccessX86Type::EXC_I386_GPFLT => 13,
        }
    }

    /// The symbol a raw value names, or `None` for any other value.
    pub open spec fn spec_from_u32(raw: u32) -> Option<ExceptionCodeMacBadAccessX86Type> {
        match raw {
            13 => Some(ExceptionCodeMacBadAccessX86Type::EXC_I386_GPFLT),
            _ => None,
        }
    }

    /// The raw value of this symbol.
    pub fn to_u32(self) -> (r: u32)
        ensures
            r == self.spec_to_u32(),
    {
        match self {
            ExceptionCodeMacBadAccessX86Type::EXC_I386_GPFLT => 13,
        }
    }

    /// The symbol a raw value names, or `None` for any other value:
    /// an unknown value is never an error, the caller keeps the raw
    /// value itself.
    pub fn from_u32(raw: u32) -> (r: Option<ExceptionCodeMacBadAccessX86Type>)
        ensures
            r == ExceptionCodeMacBadAccessX86Type::spec_from_u32(raw),
    {
        match raw {
            13 => Some(ExceptionCodeMacBadAccessX86Type::EXC_I386_GPFLT),
            _ => None,
        }
    }
}

/// Round trip: the raw value of a known symbol names that symbol.
pub proof fn lemma_exception_code_mac_bad_access_x86_type_roundtrip(v: ExceptionCodeMacBadAccessX86Type)
    ensures
        ExceptionCodeMacBadAccessX86Type::spec_from_u32(v.spec_to_u32()) == Some(v),
{
}

/// Mac/iOS Arm bad-instruction exception codes.
#[derive(Copy, Clone, PartialEq, Eq, Structural, Debug)]
pub enum ExceptionCodeMacBadInstructionArmType {
    EXC_ARM_UNDEFINED,
}

impl ExceptionCodeMacBadInstructionArmType {
    /// The raw value of this symbol.
    pub open spec fn spec_to_u32(self) -> u32 {
        match self {
            ExceptionCodeMacBadInstructionArmType::EXC_ARM_UNDEFINED => 1,
        }
    }

    /// The symbol a raw value names, or `None` for any other value.
    pub open spec fn spec_from_u32(raw: u32) -> Option<ExceptionCodeMacBadInstructionArmType> {
        match raw {
            1 => Some(ExceptionCodeMacBadInstructionArmType::EXC_ARM_UNDEFINED),
            _ => None,
        }
    }

    /// The raw value of this symbol.
    pub fn to_u32(self) -> (r: u32)
        ensures
            r == self.spec_to_u32(),
    {
        match self {
            ExceptionCodeMacBadInstructionArmType::EXC_ARM_UNDEFINED => 1,
        }
    }

    /// The symbol a raw value names, or `None` for any other value:
    /// an unknown value is never an error, the caller keeps the raw
    /// value itself.
    pub fn from_u32(raw: u32) -> (r: Option<ExceptionCodeMacBadInstructionArmType>)
        ensures
            r == ExceptionCodeMacBadInstructionArmType::spec_from_u32(raw),
    {
        match raw {
            1 => Some(ExceptionCodeMacBadInstructionArmType::EXC_ARM_UNDEFINED),
            _ => None,
        }
    }
}

/// Round trip: the raw value of a known symbol names that symbol.
pub proof fn lemma_exception_code_mac_bad_instruction_arm_type_roundtrip(v: ExceptionCodeMacBadInstructionArmType)
    ensures
        ExceptionCodeMacBadInstructionArmType::spec_from_u32(v.spec_to_u32()) == Some(v),
{
}

/// Mac/iOS PPC bad-instruction exception codes.
#[derive(Copy, Clone, PartialEq, Eq, Structural, Debug)]
pub enum ExceptionCodeMacBadInstructionPpcType {
    EXC_PPC_INVALID_SYSCALL,
    EXC_PPC_UNIPL_INST,
    EXC_PPC_PRIVINST,
    EXC_PPC_PRIVREG,
    EXC_PPC_TRACE,
    EXC_PPC_PERFMON,
}

impl ExceptionCodeMacBadInstructionPpcType {
    /// The raw value of this symbol.
    pub open spec fn spec_to_u32(self) -> u32 {
        match self {
            ExceptionCodeMacBadInstructionPpcType::EXC_PPC_INVALID_SYSCALL => 1,
            ExceptionCodeMacBadInstructionPpcType::EXC_PPC_UNIPL_INST => 2,
            ExceptionCodeMacBadInstructionPpcType::EXC_PPC_PRIVINST => 3,
            ExceptionCodeMacBadInstructionPpcType::EXC_PPC_PRIVREG => 4,
            ExceptionCodeMacBadInstructionPpcType::EXC_PPC_TRACE => 5,
            ExceptionCodeMacBadInstructionPpcType::EXC_PPC_PERFMON => 6,
        }
    }

    /// The symbol a raw value names, or `None` for any other value.
    pub open spec fn spec_from_u32(raw: u32) -> Option<ExceptionCodeMacBadInstructionPpcType> {
        match raw {
            1 => Some(ExceptionCodeMacBadInstructionPpcType::EXC_PPC_INVALID_SYSCALL),
            2 => Some(ExceptionCodeMacBadInstructionPpcType::EXC_PPC_UNIPL_INST),
            3 => Some(ExceptionCodeMacBadInstructionPpcType::EXC_PPC_PRIVINST),
            4 => Some(ExceptionCodeMacBadInstructionPpcType::EXC_PPC_PRIVREG),
            5 => Some(ExceptionCodeMacBadInstructionPpcType::EXC_PPC_TRACE),
            6 => Some(ExceptionCodeMacBadInstructionPpcType::EXC_PPC_PERFMON),
            _ => None,
        }
    }

    /// The raw value of this symbol.
    pub fn to_u32(self) -> (r: u32)
        ensures
            r == self.spec_to_u32(),
    {
        match self {
            ExceptionCodeMacBadInstructionPpcType::EXC_PPC_INVALID_SYSCALL => 1,
            ExceptionCodeMacBadInstructionPpcType::EXC_PPC_UNIPL_INST => 2,
            ExceptionCodeMacBadInstructionPpcType::EXC_PPC_PRIVINST => 3,
            ExceptionCodeMacBadInstructionPpcType::EXC_PPC_PRIVREG => 4,
            ExceptionCodeMacBadInstructionPpcType::EXC_PPC_TRACE => 5,
            ExceptionCodeMacBadInstructionPpcType::EXC_PPC_PERFMON => 6,
        }
    }

    /// The symbol a raw value names, or `None` for any other value:
    /// an unknown value is never an error, the caller keeps the raw
    /// value itself.
    pub fn from_u32(raw: u32) -> (r: Option<ExceptionCodeMacBadInstructionPpcType>)
        ensures
            r == ExceptionCodeMacBadInstructionPpcType::spec_from_u32(raw),
    {
        match raw {
            1 => Some(ExceptionCodeMacBadInstructionPpcType::EXC_PPC_INVALID_SYSCALL),
            2 => Some(ExceptionCodeMacBadInstructionPpcType::EXC_PPC_UNIPL_INST),
            3 => Some(ExceptionCodeMacBadInstructionPpcType::EXC_PPC_PRIVINST),
            4 => Some(ExceptionCodeMacBadInstructionPpcType::EXC_PPC_PRIVREG),
            5 => Some(ExceptionCodeMacBadInstructionPpcType::EXC_PPC_TRACE),
            6 => Some(ExceptionCodeMacBadInstructionPpcType::EXC_PPC_PERFMON),
            _ => None,
        }
    }
}

/// Round trip: the raw value of a known symbol names that symbol.
pub proof fn lemma_exception_code_mac_bad_instruction_ppc_type_roundtrip(v: ExceptionCodeMacBadInstructionPpcType)
    ensures
        ExceptionCodeMacBadInstructionPpcType::spec_from_u32(v.spec_to_u32()) == Some(v),
{
}

/// Mac/iOS x86 bad-instruction exception codes.
#[derive(Copy, Clone, PartialEq, Eq, Structural, Debug)]
pub enum ExceptionCodeMacBadInstructionX86Type {
    EXC_I386_INVOP,
    EXC_I386_INVTSSFLT,
    EXC_I386_SEGNPFLT,
    EXC_I386_STKFLT,
    EXC_I386_GPFLT,
    EXC_I386_ALIGNFLT,
}

impl ExceptionCodeMacBadInstructionX86Type {
    /// The raw value of this symbol.
    pub open spec fn spec_to_u32(self) -> u32 {
        match self {
            ExceptionCodeMacBadInstructionX86Type::EXC_I386_INVOP => 1,
            ExceptionCodeMacBadInstructionX86Type::EXC_I386_INVTSSFLT => 10,
            ExceptionCodeMacBadInstructionX86Type::EXC_I386_SEGNPFLT => 11,
            ExceptionCodeMacBadInstructionX86Type::EXC_I386_STKFLT => 12,
            ExceptionCodeMacBadInstructionX86Type::EXC_I386_GPFLT => 13,
            ExceptionCodeMacBadInstructionX86Type::EXC_I386_ALIGNFLT => 17,
        }
    }

    /// The symbol a raw value names, or `None` for any other value.
    pub open spec fn spec_from_u32(raw: u32) -> Option<ExceptionCodeMacBadInstructionX86Type> {
        match raw {
            1 => Some(ExceptionCodeMacBadInstructionX86Type::EXC_I386_INVOP),
            10 => Some(ExceptionCodeMacBadInstructionX86Type::EXC_I386_INVTSSFLT),
            11 => Some(ExceptionCodeMacBadInstructionX86Type::EXC_I386_SEGNPFLT),
            12 => Some(ExceptionCodeMacBadInstructionX86Type::EXC_I386_STKFLT),
            13 => Some(ExceptionCodeMacBadInstructionX86Type::EXC_I386_GPFLT),
            17 => Some(ExceptionCodeMacBadInstructionX86Type::EXC_I386_ALIGNFLT),
            _ => None,
        }
    }

    /// The raw value of this symbol.
    pub fn to_u32(self) -> (r: u32)
        ensures
            r == self.spec_to_u32(),
    {
        match self {
            ExceptionCodeMacBadInstructionX86Type::EXC_I386_INVOP => 1,
            ExceptionCodeMacBadInstructionX86Type::EXC_I386_INVTSSFLT => 10,
            ExceptionCodeMacBadInstructionX86Type::EXC_I386_SEGNPFLT => 11,
            ExceptionCodeMacBadInstructionX86Type::EXC_I386_STKFLT => 12,
            ExceptionCodeMacBadInstructionX86Type::EXC_I386_GPFLT => 13,
            ExceptionCodeMacBadInstructionX86Type::EXC_I386_ALIGNFLT => 17,
        }
    }

    /// The symbol a raw value names, or `None` for any other value:
    /// an unknown value is never an error, the caller keeps the raw
    /// value itself.
    pub fn from_u32(raw: u32) -> (r: Option<ExceptionCodeMacBadInstructionX86Type>)
        ensures
            r == ExceptionCodeMacBadInstructionX86Type::spec_from_u32(raw),
    {
        match raw {
            1 => Some(ExceptionCodeMacBadInstructionX86Type::EXC_I386_INVOP),
            10 => Some(ExceptionCodeMacBadInstructionX86Type::EXC_I386_INVTSSFLT),
            11 => Some(ExceptionCodeMacBadInstructionX86Type::EXC_I386_SEGNPFLT),
            12 => Some(ExceptionCodeMacBadInstructionX86Type::EXC_I386_STKFLT),
            13 => Some(ExceptionCodeMacBadInstructionX86Type::EXC_I386_GPFLT),
            17 => Some(ExceptionCodeMacBadInstructionX86Type::EXC_I386_ALIGNFLT),
            _ => None,
        }
    }
}

/// Round trip: the raw value of a known symbol names that symbol.
pub proof fn lemma_exception_code_mac_bad_instruction_x86_type_roundtrip(v: ExceptionCodeMacBadInstructionX86Type)
    ensures
        ExceptionCodeMacBadInstructionX86Type::spec_from_u32(v.spec_to_u32()) == Some(v),
{
}

/// Mac/iOS PPC arithmetic exception codes.
#[derive(Copy, Clone, PartialEq, Eq, Structural, Debug)]
pub enum ExceptionCodeMacArithmeticPpcType {
    EXC_PPC_OVERFLOW,
    EXC_PPC_ZERO_DIVIDE,
    EXC_FLT_INEXACT,
    EXC_PPC_FLT_ZERO_DIVIDE,
    EXC_PPC_FLT_UNDERFLOW,
    EXC_PPC_FLT_OVERFLOW,
    EXC_PPC_FLT_NOT_A_NUMBER,
    EXC_PPC_NOEMULATION,
    EXC_PPC_ALTIVECASSIST,
}

impl ExceptionCodeMacArithmeticPpcType {
    /// The raw value of this symbol.
    pub open spec fn spec_to_u32(self) -> u32 {
        match self {
            ExceptionCodeMacArithmeticPpcType::EXC_PPC_OVERFLOW => 1,
            ExceptionCodeMacArithmeticPpcType::EXC_PPC_ZERO_DIVIDE => 2,
            ExceptionCodeMacArithmeticPpcType::EXC_FLT_INEXACT => 3,
            ExceptionCodeMacArithmeticPpcType::EXC_PPC_FLT_ZERO_DIVIDE => 4,
            ExceptionCodeMacArithmeticPpcType::EXC_PPC_FLT_UNDERFLOW => 5,
            ExceptionCodeMacArithmeticPpcType::EXC_PPC_FLT_OVERFLOW => 6,
            ExceptionCodeMacArithmeticPpcType::EXC_PPC_FLT_NOT_A_NUMBER => 7,
            ExceptionCodeMacArithmeticPpcType::EXC_PPC_NOEMULATION => 8,
            ExceptionCodeMacArithmeticPpcType::EXC_PPC_ALTIVECASSIST => 9,
        }
    }

    /// The symbol a raw value names, or `None` for any other value.
    pub open spec fn spec_from_u32(raw: u32) -> Option<ExceptionCodeMacArithmeticPpcType> {
        match raw {
            1 => Some(ExceptionCodeMacArithmeticPpcType::EXC_PPC_OVERFLOW),
            2 => Some(ExceptionCodeMacArithmeticPpcType::EXC_PPC_ZERO_DIVIDE),
            3 => Some(ExceptionCodeMacArithmeticPpcType::EXC_FLT_INEXACT),
            4 => Some(ExceptionCodeMacArithmeticPpcType::EXC_PPC_FLT_ZERO_DIVIDE),
            5 => Some(ExceptionCodeMacArithmeticPpcType::EXC_PPC_FLT_UNDERFLOW),
            6 => Some(ExceptionCodeMacArithmeticPpcType::EXC_PPC_FLT_OVERFLOW),
            7 => Some(ExceptionCodeMacArithmeticPpcType::EXC_PPC_FLT_NOT_A_NUMBER),
            8 => Some(ExceptionCodeMacArithmeticPpcType::EXC_PPC_NOEMULATION),
            9 => Some(ExceptionCodeMacArithmeticPpcType::EXC_PPC_ALTIVECASSIST),
            _ => None,
        }
    }

    /// The raw value of this symbol.
    pub fn to_u32(self) -> (r: u32)
        ensures
            r == self.spec_to_u32(),
    {
        match self {
            ExceptionCodeMacArithmeticPpcType::EXC_PPC_OVERFLOW => 1,
            ExceptionCodeMacArithmeticPpcType::EXC_PPC_ZERO_DIVIDE => 2,
            ExceptionCodeMacArithmeticPpcType::EXC_FLT_INEXACT => 3,
            ExceptionCodeMacArithmeticPpcType::EXC_PPC_FLT_ZERO_DIVIDE => 4,
            ExceptionCodeMacArithmeticPpcType::EXC_PPC_FLT_UNDERFLOW => 5,
            ExceptionCodeMacArithmeticPpcType::EXC_PPC_FLT_OVERFLOW => 6,
            ExceptionCodeMacArithmeticPpcType::EXC_PPC_FLT_NOT_A_NUMBER => 7,
            ExceptionCodeMacArithmeticPpcType::EXC_PPC_NOEMULATION => 8,
            ExceptionCodeMacArithmeticPpcType::EXC_PPC_ALTIVECASSIST => 9,
        }
    }

    /// The symbol a raw value names, or `None` for any other value:
    /// an unknown value is never an error, the caller keeps the raw
    /// value itself.
    pub fn from_u32(raw: u32) -> (r: Option<ExceptionCodeMacArithmeticPpcType>)
        ensures
            r == ExceptionCodeMacArithmeticPpcType::spec_from_u32(raw),
    {
        match raw {
            1 => Some(ExceptionCodeMacArithmeticPpcType::EXC_PPC_OVERFLOW),
            2 => Some(ExceptionCodeMacArithmeticPpcType::EXC_PPC_ZERO_DIVIDE),
            3 => Some(ExceptionCodeMacArithmeticPpcType::EXC_FLT_INEXACT),
            4 => Some(ExceptionCodeMacArithmeticPpcType::EXC_PPC_FLT_ZERO_DIVIDE),
            5 => Some(ExceptionCodeMacArithmeticPpcType::EXC_PPC_FLT_UNDERFLOW),
            6 => Some(ExceptionCodeMacArithmeticPpcType::EXC_PPC_FLT_OVERFLOW),
            7 => Some(ExceptionCodeMacArithmeticPpcType::EXC_PPC_FLT_NOT_A_NUMBER),
            8 => Some(ExceptionCodeMacArithmeticPpcType::EXC_PPC_NOEMULATION),
            9 => Some(ExceptionCodeMacArithmeticPpcType::EXC_PPC_ALTIVECASSIST),
            _ => None,
        }
    }
}

/// Round trip: the raw value of a known symbol names that symbol.
pub proof fn lemma_exception_code_mac_arithmetic_ppc_type_roundtrip(v: ExceptionCodeMacArithmeticPpcType)
    ensures
        ExceptionCodeMacArithmeticPpcType::spec_from_u32(v.spec_to_u32()) == Some(v),
{
}

/// Mac/iOS x86 arithmetic exception codes.
#[derive(Copy, Clone, PartialEq, Eq, Structural, Debug)]
pub enum ExceptionCodeMacArithmeticX86Type {
    EXC_I386_DIV,
    EXC_I386_INTO,
    EXC_I386_NOEXT,
    EXC_I386_EXTOVR,
    EXC_I386_EXTERR,
    EXC_I386_EMERR,
    EXC_I386_BOUND,
    EXC_I386_SSEEXTERR,
}

impl ExceptionCodeMacArithmeticX86Type {
    /// The raw value of this symbol.
    pub open spec fn spec_to_u32(self) -> u32 {
        match self {
            ExceptionCodeMacArithmeticX86Type::EXC_I386_DIV => 1,
            ExceptionCodeMacArithmeticX86Type::EXC_I386_INTO => 2,
            ExceptionCodeMacArithmeticX86Type::EXC_I386_NOEXT => 3,
            ExceptionCodeMacArithmeticX86Type::EXC_I386_EXTOVR => 4,
            ExceptionCodeMacArithmeticX86Type::EXC_I386_EXTERR => 5,
            ExceptionCodeMacArithmeticX86Type::EXC_I386_EMERR => 6,
            ExceptionCodeMacArithmeticX86Type::EXC_I386_BOUND => 7,
            ExceptionCodeMacArithmeticX86Type::EXC_I386_SSEEXTERR => 8,
        }
    }

    /// The symbol a raw value names, or `None` for any other value.
    pub open spec fn spec_from_u32(raw: u32) -> Option<ExceptionCodeMacArithmeticX86Type> {
        match raw {
            1 => Some(ExceptionCodeMacArithmeticX86Type::EXC_I386_DIV),
            2 => Some(ExceptionCodeMacArithmeticX86Type::EXC_I386_INTO),
            3 => Some(ExceptionCodeMacArithmeticX86Type::EXC_I386_NOEXT),
            4 => Some(ExceptionCodeMacArithmeticX86Type::EXC_I386_EXTOVR),
            5 => Some(ExceptionCodeMacArithmeticX86Type::EXC_I386_EXTERR),
            6 => Some(ExceptionCodeMacArithmeticX86Type::EXC_I386_EMERR),
            7 => Some(ExceptionCodeMacArithmeticX86Type::EXC_I386_BOUND),
            8 => Some(ExceptionCodeMacArithmeticX86Type::EXC_I386_SSEEXTERR),
            _ => None,
        }
    }

    /// The raw value of this symbol.
    pub fn to_u32(self) -> (r: u32)
        ensures
            r == self.spec_to_u32(),
    {
        match self {
            ExceptionCodeMacArithmeticX86Type::EXC_I386_DIV => 1,
            ExceptionCodeMacArithmeticX86Type::EXC_I386_INTO => 2,
            ExceptionCodeMacArithmeticX86Type::EXC_I386_NOEXT => 3,
            ExceptionCodeMacArithmeticX86Type::EXC_I386_EXTOVR => 4,
            ExceptionCodeMacArithmeticX86Type::EXC_I386_EXTERR => 5,
            ExceptionCodeMacArithmeticX86Type::EXC_I386_EMERR => 6,
            ExceptionCodeMacArithmeticX86Type::EXC_I386_BOUND => 7,
            ExceptionCodeMacArithmeticX86Type::EXC_I386_SSEEXTERR => 8,
        }
    }

    /// The symbol a raw value names, or `None` for any other value:
    /// an unknown value is never an error, the caller keeps the raw
    /// value itself.
    pub fn from_u32(raw: u32) -> (r: Option<ExceptionCodeMacArithmeticX86Type>)
        ensures
            r == ExceptionCodeMacArithmeticX86Type::spec_from_u32(raw),
    {
        match raw {
            1 => Some(ExceptionCodeMacArithmeticX86Type::EXC_I386_DIV),
            2 => Some(ExceptionCodeMacArithmeticX86Type::EXC_I386_INTO),
            3 => Some(ExceptionCodeMacArithmeticX86Type::EXC_I386_NOEXT),
            4 => Some(ExceptionCodeMacArithmeticX86Type::EXC_I386_EXTOVR),
            5 => Some(ExceptionCodeMacArithmeticX86Type::EXC_I386_EXTERR),
            6 => Some(ExceptionCodeMacArithmeticX86Type::EXC_I386_EMERR),
            7 => Some(ExceptionCodeMacArithmeticX86Type::EXC_I386_BOUND),
            8 => Some(ExceptionCodeMacArithmeticX86Type::EXC_I386_SSEEXTERR),
            _ => None,
        }
    }
}

/// Round trip: the raw value of a known symbol names that symbol.
pub proof fn lemma_exception_code_mac_arithmetic_x86_type_roundtrip(v: ExceptionCodeMacArithmeticX86Type)
    ensures
        ExceptionCodeMacArithmeticX86Type::spec_from_u32(v.spec_to_u32()) == Some(v),
{
}

/// Mac/iOS software exception codes.
#[derive(Copy, Clone, PartialEq, Eq, Structural, Debug)]
pub enum ExceptionCodeMacSoftwareType {
    SIGABRT,
    UNCAUGHT_NS_EXCEPTION,
    EXC_PPC_TRAP,
    EXC_PPC_MIGRATE,
}

impl ExceptionCodeMacSoftwareType {
    /// The raw value of this symbol.
    pub open spec fn spec_to_u32(self) -> u32 {
        match self {
            ExceptionCodeMacSoftwareType::SIGABRT => 0x00010002,
            ExceptionCodeMacSoftwareType::UNCAUGHT_NS_EXCEPTION => 0xDEADC0DE,
            ExceptionCodeMacSoftwareType::EXC_PPC_TRAP => 0x00000001,
            ExceptionCodeMacSoftwareType::EXC_PPC_MIGRATE => 0x00010100,
        }
    }

    /// The symbol a raw value names, or `None` for any other value.
    pub open spec fn spec_from_u32(raw: u32) -> Option<ExceptionCodeMacSoftwareType> {
        match raw {
            0x00010002 => Some(ExceptionCodeMacSoftwareType::SIGABRT),
            0xDEADC0DE => Some(ExceptionCodeMacSoftwareType::UNCAUGHT_NS_EXCEPTION),
            0x00000001 => Some(ExceptionCodeMacSoftwareType::EXC_PPC_TRAP),
            0x00010100 => Some(ExceptionCodeMacSoftwareType::EXC_PPC_MIGRATE),
            _ => None,
        }
    }

    /// The raw value of this symbol.
    pub fn to_u32(self) -> (r: u32)
        ensures
            r == self.spec_to_u32(),
    {
        match self {
            ExceptionCodeMacSoftwareType::SIGABRT => 0x00010002,
            ExceptionCodeMacSoftwareType::UNCAUGHT_NS_EXCEPTION => 0xDEADC0DE,
            ExceptionCodeMacSoftwareType::EXC_PPC_TRAP => 0x00000001,
            ExceptionCodeMacSoftwareType::EXC_PPC_MIGRATE => 0x00010100,
        }
    }

    /// The symbol a raw value names, or `None` for any other value:
    /// an unknown value is never an error, the caller keeps the raw
    /// value itself.
    pub fn from_u32(raw: u32) -> (r: Option<ExceptionCodeMacSoftwareType>)
        ensures
            r == ExceptionCodeMacSoftwareType::spec_from_u32(raw),
    {
        match raw {
            0x00010002 => Some(ExceptionCodeMacSoftwareType::SIGABRT),
            0xDEADC0DE => Some(ExceptionCodeMacSoftwareType::UNCAUGHT_NS_EXCEPTION),
            0x00000001 => Some(ExceptionCodeMacSoftwareType::EXC_PPC_TRAP),
            0x00010100 => Some(ExceptionCodeMacSoftwareType::EXC_PPC_MIGRATE),
            _ => None,
        }
    }
}

/// Round trip: the raw value of a known symbol names that symbol.
pub proof fn lemma_exception_code_mac_software_type_roundtrip(v: ExceptionCodeMacSoftwareType)
    ensures
        ExceptionCodeMacSoftwareType::spec_from_u32(v.spec_to_u32()) == Some(v),
{
}

/// Mac/iOS Arm breakpoint exception codes.
#[derive(Copy, Clone, PartialEq, Eq, Structural, Debug)]
pub enum ExceptionCodeMacBreakpointArmType {
    EXC_ARM_DA_ALIGN,
    EXC_ARM_DA_DEBUG,
    EXC_ARM_BREAKPOINT,
}

impl ExceptionCodeMacBreakpointArmType {
    /// The raw value of this symbol.
    pub open spec fn spec_to_u32(self) -> u32 {
        match self {
            ExceptionCodeMacBreakpointArmType::EXC_ARM_DA_ALIGN => 0x0101,
            ExceptionCodeMacBreakpointArmType::EXC_ARM_DA_DEBUG => 0x0102,
            ExceptionCodeMacBreakpointArmType::EXC_ARM_BREAKPOINT => 1,
        }
    }

    /// The symbol a raw value names, or `None` for any other value.
    pub open spec fn spec_from_u32(raw: u32) -> Option<ExceptionCodeMacBreakpointArmType> {
        match raw {
            0x0101 => Some(ExceptionCodeMacBreakpointArmType::EXC_ARM_DA_ALIGN),
            0x0102 => Some(ExceptionCodeMacBreakpointArmType::EXC_ARM_DA_DEBUG),
            1 => Some(ExceptionCodeMacBreakpointArmType::EXC_ARM_BREAKPOINT),
            _ => None,
        }
    }

    /// The raw value of this symbol.
    pub fn to_u32(self) -> (r: u32)
        ensures
            r == self.spec_to_u32(),
    {
        match self {
            ExceptionCodeMacBreakpointArmType::EXC_ARM_DA_ALIGN => 0x0101,
            ExceptionCodeMacBreakpointArmType::EXC_ARM_DA_DEBUG => 0x0102,
            ExceptionCodeMacBreakpointArmType::EXC_ARM_BREAKPOINT => 1,
        }
    }

    /// The symbol a raw value names, or `None` for any other value:
    /// an unknown value is never an error, the caller keeps the raw
    /// value itself.
    pub fn from_u32(raw: u32) -> (r: Option<ExceptionCodeMacBreakpointArmType>)
        ensures
            r == ExceptionCodeMacBreakpointArmType::spec_from_u32(raw),
    {
        match raw {
            0x0101 => Some(ExceptionCodeMacBreakpointArmType::EXC_ARM_DA_ALIGN),
            0x0102 => Some(ExceptionCodeMacBreakpointArmType::EXC_ARM_DA_DEBUG),
            1 => Some(ExceptionCodeMacBreakpointArmType::EXC_ARM_BREAKPOINT),
            _ => None,
        }
    }
}

/// Round trip: the raw value of a known symbol names that symbol.
pub proof fn lemma_exception_code_mac_breakpoint_arm_type_roundtrip(v: ExceptionCodeMacBreakpointArmType)
    ensures
        ExceptionCodeMacBreakpointArmType::spec_from_u32(v.spec_to_u32()) == Some(v),
{
}

/// Mac/iOS PPC breakpoint exception codes.
#[derive(Copy, Clone, PartialEq, Eq, Structural, Debug)]
pub enum ExceptionCodeMacBreakpointPpcType {
    EXC_PPC_BREAKPOINT,
}

impl ExceptionCodeMacBreakpointPpcType {
    /// The raw value of this symbol.
    pub open spec fn spec_to_u32(self) -> u32 {
        match self {
            ExceptionCodeMacBreakpointPpcType::EXC_PPC_BREAKPOINT => 1,
        }
    }

    /// The symbol a raw value names, or `None` for any other value.
    pub open spec fn spec_from_u32(raw: u32) -> Option<ExceptionCodeMacBreakpointPpcType> {
        match raw {
            1 => Some(ExceptionCodeMacBreakpointPpcType::EXC_PPC_BREAKPOINT),
            _ => None,
        }
    }

    /// The raw value of this symbol.
    pub fn to_u32(self) -> (r: u32)
        ensures
            r == self.spec_to_u32(),
    {
        match self {
            ExceptionCodeMacBreakpointPpcType::EXC_PPC_BREAKPOINT => 1,
        }
    }

    /// The symbol a raw value names, or `None` for any other value:
    /// an unknown value is never an error, the caller keeps the raw
    /// value itself.
    pub fn from_u32(raw: u32) -> (r: Option<ExceptionCodeMacBreakpointPpcType>)
        ensures
            r == ExceptionCodeMacBreakpointPpcType::spec_from_u32(raw),
    {
        match raw {
            1 => Some(ExceptionCodeMacBreakpointPpcType::EXC_PPC_BREAKPOINT),
            _ => None,
        }
    }
}

/// Round trip: the raw value of a known symbol names that symbol.
pub proof fn lemma_exception_code_mac_breakpoint_ppc_type_roundtrip(v: ExceptionCodeMacBreakpointPpcType)
    ensures
        ExceptionCodeMacBreakpointPpcType::spec_from_u32(v.spec_to_u32()) == Some(v),
{
}

/// Mac/iOS x86 breakpoint exception codes.
#[derive(Copy, Clone, PartialEq, Eq, Structural, Debug)]
pub enum ExceptionCodeMacBreakpointX86Type {
    EXC_I386_SGL,
    EXC_I386_BPT,
}

impl ExceptionCodeMacBreakpointX86Type {
    /// The raw value of this symbol.
    pub open spec fn spec_to_u32(self) -> u32 {
        match self {
            ExceptionCodeMacBreakpointX86Type::EXC_I386_SGL => 1,
            ExceptionCodeMacBreakpointX86Type::EXC_I386_BPT => 2,
        }
    }

    /// The symbol a raw value names, or `None` for any other value.
    pub open spec fn spec_from_u32(raw: u32) -> Option<ExceptionCodeMacBreakpointX86Type> {
        match raw {
            1 => Some(ExceptionCodeMacBreakpointX86Type::EXC_I386_SGL),
            2 => Some(ExceptionCodeMacBreakpointX86Type::EXC_I386_BPT),
            _ => None,
        }
    }

    /// The raw value of this symbol.
    pub fn to_u32(self) -> (r: u32)
        ensures
            r == self.spec_to_u32(),
    {
        match self {
            ExceptionCodeMacBreakpointX86Type::EXC_I386_SGL => 1,
            ExceptionCodeMacBreakpointX86Type::EXC_I386_BPT => 2,
        }
    }

    /// The symbol a raw value names, or `None` for any other value:
    /// an unknown value is never an error, the caller keeps the raw
    /// value itself.
    pub fn from_u32(raw: u32) -> (r: Option<ExceptionCodeMacBreakpointX86Type>)
        ensures
            r == ExceptionCodeMacBreakpointX86Type::spec_from_u32(raw),
    {
        match raw {
            1 => Some(ExceptionCodeMacBreakpointX86Type::EXC_I386_SGL),
            2 => Some(ExceptionCodeMacBreakpointX86Type::EXC_I386_BPT),
            _ => None,
        }
    }
}

/// Round trip: the raw value of a known symbol names that symbol.
pub proof fn lemma_exception_code_mac_breakpoint_x86_type_roundtrip(v: ExceptionCodeMacBreakpointX86Type)
    ensures
        ExceptionCodeMacBreakpointX86Type::spec_from_u32(v.spec_to_u32()) == Some(v),
{
}
} // verus!
