//! The known minidump stream types.
//!
//! Every enumeration here maps raw integer codes to named symbols and back.
//! Unknown raw values are legal throughout the format, so `from_*` returns
//! `None` for them rather than an error, and the caller keeps the raw value;
//! `to_*` gives the raw value a symbol re-encodes to.

use vstd::prelude::*;

verus! {

/// The types of known minidump data streams.
///
/// Most values are vendor-defined; values after `LastReservedStream` are
/// Breakpad and Crashpad extensions, and stream types above the reserved
/// threshold that match no symbol here are producer-extension streams,
/// preserved as opaque integers by the caller.
#[derive(Copy, Clone, PartialEq, Eq, Structural, Debug)]
pub enum MINIDUMP_STREAM_TYPE {
    UnusedStream,
    ReservedStream0,
    ReservedStream1,
    ThreadListStream,
    ModuleListStream,
    MemoryListStream,
    ExceptionStream,
    SystemInfoStream,
    ThreadExListStream,
    Memory64ListStream,
    CommentStreamA,
    CommentStreamW,
    HandleDataStream,
    FunctionTable,
    UnloadedModuleListStream,
    MiscInfoStream,
    MemoryInfoListStream,
    ThreadInfoListStream,
    HandleOperationListStream,
    TokenStream,
    JavaScriptDataStream,
    SystemMemoryInfoStream,
    ProcessVmCountersStream,
    IptTraceStream,
    ThreadNamesStream,
    ceStreamNull,
    ceStreamSystemInfo,
    ceStreamException,
    ceStreamModuleList,
    ceStreamProcessList,
    ceStreamThreadList,
    ceStreamThreadContextList,
    ceStreamThreadCallStackList,
    ceStreamMemoryVirtualList,
    ceStreamMemoryPhysicalList,
    ceStreamBucketParameters,
    ceStreamProcessModuleMap,
    ceStreamDiagnosisList,
    LastReservedStream,
    BreakpadInfoStream,
    AssertionInfoStream,
    LinuxCpuInfo,
    LinuxProcStatus,
    LinuxLsbRelease,
    LinuxCmdLine,
    LinuxEnviron,
    LinuxAuxv,
    LinuxMaps,
    LinuxDsoDebug,
    CrashpadInfoStream,
    MozMacosCrashInfoStream,
}

impl MINIDUMP_STREAM_TYPE {
    /// The raw value of this symbol.
    pub open spec fn spec_to_u32(self) -> u32 {
        match self {
            MINIDUMP_STREAM_TYPE::UnusedStream => 0,
            MINIDUMP_STREAM_TYPE::ReservedStream0 => 1,
            MINIDUMP_STREAM_TYPE::ReservedStream1 => 2,
            MINIDUMP_STREAM_TYPE::ThreadListStream => 3,
            MINIDUMP_STREAM_TYPE::ModuleListStream => 4,
            MINIDUMP_STREAM_TYPE::MemoryListStream => 5,
            MINIDUMP_STREAM_TYPE::ExceptionStream => 6,
            MINIDUMP_STREAM_TYPE::SystemInfoStream => 7,
            MINIDUMP_STREAM_TYPE::ThreadExListStream => 8,
            MINIDUMP_STREAM_TYPE::Memory64ListStream => 9,
            MINIDUMP_STREAM_TYPE::CommentStreamA => 10,
            MINIDUMP_STREAM_TYPE::CommentStreamW => 11,
            MINIDUMP_STREAM_TYPE::HandleDataStream => 12,
            MINIDUMP_STREAM_TYPE::FunctionTable => 13,
            MINIDUMP_STREAM_TYPE::UnloadedModuleListStream => 14,
            MINIDUMP_STREAM_TYPE::MiscInfoStream => 15,
            MINIDUMP_STREAM_TYPE::MemoryInfoListStream => 16,
            MINIDUMP_STREAM_TYPE::ThreadInfoListStream => 17,
            MINIDUMP_STREAM_TYPE::HandleOperationListStream => 18,
            MINIDUMP_STREAM_TYPE::TokenStream => 19,
            MINIDUMP_STREAM_TYPE::JavaScriptDataStream => 20,
            MINIDUMP_STREAM_TYPE::SystemMemoryInfoStream => 21,
            MINIDUMP_STREAM_TYPE::ProcessVmCountersStream => 22,
            MINIDUMP_STREAM_TYPE::IptTraceStream => 23,
            MINIDUMP_STREAM_TYPE::ThreadNamesStream => 24,
            MINIDUMP_STREAM_TYPE::ceStreamNull => 25,
            MINIDUMP_STREAM_TYPE::ceStreamSystemInfo => 26,
            MINIDUMP_STREAM_TYPE::ceStreamException => 27,
            MINIDUMP_STREAM_TYPE::ceStreamModuleList => 28,
            MINIDUMP_STREAM_TYPE::ceStreamProcessList => 29,
            MINIDUMP_STREAM_TYPE::ceStreamThreadList => 30,
            MINIDUMP_STREAM_TYPE::ceStreamThreadContextList => 31,
            MINIDUMP_STREAM_TYPE::ceStreamThreadCallStackList => 32,
            MINIDUMP_STREAM_TYPE::ceStreamMemoryVirtualList => 33,
            MINIDUMP_STREAM_TYPE::ceStreamMemoryPhysicalList => 34,
            MINIDUMP_STREAM_TYPE::ceStreamBucketParameters => 35,
            MINIDUMP_STREAM_TYPE::ceStreamProcessModuleMap => 36,
            MINIDUMP_STREAM_TYPE::ceStreamDiagnosisList => 37,
            MINIDUMP_STREAM_TYPE::LastReservedStream => 0x0000ffff,
            MINIDUMP_STREAM_TYPE::BreakpadInfoStream => 0x47670001,
            MINIDUMP_STREAM_TYPE::AssertionInfoStream => 0x47670002,
            MINIDUMP_STREAM_TYPE::LinuxCpuInfo => 0x47670003,
            MINIDUMP_STREAM_TYPE::LinuxProcStatus => 0x47670004,
            MINIDUMP_STREAM_TYPE::LinuxLsbRelease => 0x47670005,
            MINIDUMP_STREAM_TYPE::LinuxCmdLine => 0x47670006,
            MINIDUMP_STREAM_TYPE::LinuxEnviron => 0x47670007,
            MINIDUMP_STREAM_TYPE::LinuxAuxv => 0x47670008,
            MINIDUMP_STREAM_TYPE::LinuxMaps => 0x47670009,
            MINIDUMP_STREAM_TYPE::LinuxDsoDebug => 0x4767000A,
            MINIDUMP_STREAM_TYPE::CrashpadInfoStream => 0x43500001,
            MINIDUMP_STREAM_TYPE::MozMacosCrashInfoStream => 0x4d7a0001,
        }
    }

    /// The symbol a raw value names, or `None` for any other value.
    pub open spec fn spec_from_u32(raw: u32) -> Option<MINIDUMP_STREAM_TYPE> {
        match raw {
            0 => Some(MINIDUMP_STREAM_TYPE::UnusedStream),
            1 => Some(MINIDUMP_STREAM_TYPE::ReservedStream0),
            2 => Some(MINIDUMP_STREAM_TYPE::ReservedStream1),
            3 => Some(MINIDUMP_STREAM_TYPE::ThreadListStream),
            4 => Some(MINIDUMP_STREAM_TYPE::ModuleListStream),
            5 => Some(MINIDUMP_STREAM_TYPE::MemoryListStream),
            6 => Some(MINIDUMP_STREAM_TYPE::ExceptionStream),
            7 => Some(MINIDUMP_STREAM_TYPE::SystemInfoStream),
            8 => Some(MINIDUMP_STREAM_TYPE::ThreadExListStream),
            9 => Some(MINIDUMP_STREAM_TYPE::Memory64ListStream),
            10 => Some(MINIDUMP_STREAM_TYPE::CommentStreamA),
            11 => Some(MINIDUMP_STREAM_TYPE::CommentStreamW),
            12 => Some(MINIDUMP_STREAM_TYPE::HandleDataStream),
            13 => Some(MINIDUMP_STREAM_TYPE::FunctionTable),
            14 => Some(MINIDUMP_STREAM_TYPE::UnloadedModuleListStream),
            15 => Some(MINIDUMP_STREAM_TYPE::MiscInfoStream),
            16 => Some(MINIDUMP_STREAM_TYPE::MemoryInfoListStream),
            17 => Some(MINIDUMP_STREAM_TYPE::ThreadInfoListStream),
            18 => Some(MINIDUMP_STREAM_TYPE::HandleOperationListStream),
            19 => Some(MINIDUMP_STREAM_TYPE::TokenStream),
            20 => Some(MINIDUMP_STREAM_TYPE::JavaScriptDataStream),
            21 => Some(MINIDUMP_STREAM_TYPE::SystemMemoryInfoStream),
            22 => Some(MINIDUMP_STREAM_TYPE::ProcessVmCountersStream),
            23 => Some(MINIDUMP_STREAM_TYPE::IptTraceStream),
            24 => Some(MINIDUMP_STREAM_TYPE::ThreadNamesStream),
            25 => Some(MINIDUMP_STREAM_TYPE::ceStreamNull),
            26 => Some(MINIDUMP_STREAM_TYPE::ceStreamSystemInfo),
            27 => Some(MINIDUMP_STREAM_TYPE::ceStreamException),
            28 => Some(MINIDUMP_STREAM_TYPE::ceStreamModuleList),
            29 => Some(MINIDUMP_STREAM_TYPE::ceStreamProcessList),
            30 => Some(MINIDUMP_STREAM_TYPE::ceStreamThreadList),
            31 => Some(MINIDUMP_STREAM_TYPE::ceStreamThreadContextList),
            32 => Some(MINIDUMP_STREAM_TYPE::ceStreamThreadCallStackList),
            33 => Some(MINIDUMP_STREAM_TYPE::ceStreamMemoryVirtualList),
            34 => Some(MINIDUMP_STREAM_TYPE::ceStreamMemoryPhysicalList),
            35 => Some(MINIDUMP_STREAM_TYPE::ceStreamBucketParameters),
            36 => Some(MINIDUMP_STREAM_TYPE::ceStreamProcessModuleMap),
            37 => Some(MINIDUMP_STREAM_TYPE::ceStreamDiagnosisList),
            0x0000ffff => Some(MINIDUMP_STREAM_TYPE::LastReservedStream),
            0x47670001 => Some(MINIDUMP_STREAM_TYPE::BreakpadInfoStream),
            0x47670002 => Some(MINIDUMP_STREAM_TYPE::AssertionInfoStream),
            0x47670003 => Some(MINIDUMP_STREAM_TYPE::LinuxCpuInfo),
            0x47670004 => Some(MINIDUMP_STREAM_TYPE::LinuxProcStatus),
            0x47670005 => Some(MINIDUMP_STREAM_TYPE::LinuxLsbRelease),
            0x47670006 => Some(MINIDUMP_STREAM_TYPE::LinuxCmdLine),
            0x47670007 => Some(MINIDUMP_STREAM_TYPE::LinuxEnviron),
            0x47670008 => Some(MINIDUMP_STREAM_TYPE::LinuxAuxv),
            0x47670009 => Some(MINIDUMP_STREAM_TYPE::LinuxMaps),
            0x4767000A => Some(MINIDUMP_STREAM_TYPE::LinuxDsoDebug),
            0x43500001 => Some(MINIDUMP_STREAM_TYPE::CrashpadInfoStream),
            0x4d7a0001 => Some(MINIDUMP_STREAM_TYPE::MozMacosCrashInfoStream),
            _ => None,
        }
    }

    /// The raw value of this symbol.
    pub fn to_u32(self) -> (r: u32)
        ensures
            r == self.spec_to_u32(),
    {
        match self {
            MINIDUMP_STREAM_TYPE::UnusedStream => 0,
            MINIDUMP_STREAM_TYPE::ReservedStream0 => 1,
            MINIDUMP_STREAM_TYPE::ReservedStream1 => 2,
            MINIDUMP_STREAM_TYPE::ThreadListStream => 3,
            MINIDUMP_STREAM_TYPE::ModuleListStream => 4,
            MINIDUMP_STREAM_TYPE::MemoryListStream => 5,
            MINIDUMP_STREAM_TYPE::ExceptionStream => 6,
            MINIDUMP_STREAM_TYPE::SystemInfoStream => 7,
            MINIDUMP_STREAM_TYPE::ThreadExListStream => 8,
            MINIDUMP_STREAM_TYPE::Memory64ListStream => 9,
            MINIDUMP_STREAM_TYPE::CommentStreamA => 10,
            MINIDUMP_STREAM_TYPE::CommentStreamW => 11,
            MINIDUMP_STREAM_TYPE::HandleDataStream => 12,
            MINIDUMP_STREAM_TYPE::FunctionTable => 13,
            MINIDUMP_STREAM_TYPE::UnloadedModuleListStream => 14,
            MINIDUMP_STREAM_TYPE::MiscInfoStream => 15,
            MINIDUMP_STREAM_TYPE::MemoryInfoListStream => 16,
            MINIDUMP_STREAM_TYPE::ThreadInfoListStream => 17,
            MINIDUMP_STREAM_TYPE::HandleOperationListStream => 18,
            MINIDUMP_STREAM_TYPE::TokenStream => 19,
            MINIDUMP_STREAM_TYPE::JavaScriptDataStream => 20,
            MINIDUMP_STREAM_TYPE::SystemMemoryInfoStream => 21,
            MINIDUMP_STREAM_TYPE::ProcessVmCountersStream => 22,
            MINIDUMP_STREAM_TYPE::IptTraceStream => 23,
            MINIDUMP_STREAM_TYPE::ThreadNamesStream => 24,
            MINIDUMP_STREAM_TYPE::ceStreamNull => 25,
            MINIDUMP_STREAM_TYPE::ceStreamSystemInfo => 26,
            MINIDUMP_STREAM_TYPE::ceStreamException => 27,
            MINIDUMP_STREAM_TYPE::ceStreamModuleList => 28,
            MINIDUMP_STREAM_TYPE::ceStreamProcessList => 29,
            MINIDUMP_STREAM_TYPE::ceStreamThreadList => 30,
            MINIDUMP_STREAM_TYPE::ceStreamThreadContextList => 31,
            MINIDUMP_STREAM_TYPE::ceStreamThreadCallStackList => 32,
            MINIDUMP_STREAM_TYPE::ceStreamMemoryVirtualList => 33,
            MINIDUMP_STREAM_TYPE::ceStreamMemoryPhysicalList => 34,
            MINIDUMP_STREAM_TYPE::ceStreamBucketParameters => 35,
            MINIDUMP_STREAM_TYPE::ceStreamProcessModuleMap => 36,
            MINIDUMP_STREAM_TYPE::ceStreamDiagnosisList => 37,
            MINIDUMP_STREAM_TYPE::LastReservedStream => 0x0000ffff,
            MINIDUMP_STREAM_TYPE::BreakpadInfoStream => 0x47670001,
            MINIDUMP_STREAM_TYPE::AssertionInfoStream => 0x47670002,
            MINIDUMP_STREAM_TYPE::LinuxCpuInfo => 0x47670003,
            MINIDUMP_STREAM_TYPE::LinuxProcStatus => 0x47670004,
            MINIDUMP_STREAM_TYPE::LinuxLsbRelease => 0x47670005,
            MINIDUMP_STREAM_TYPE::LinuxCmdLine => 0x47670006,
            MINIDUMP_STREAM_TYPE::LinuxEnviron => 0x47670007,
            MINIDUMP_STREAM_TYPE::LinuxAuxv => 0x47670008,
            MINIDUMP_STREAM_TYPE::LinuxMaps => 0x47670009,
            MINIDUMP_STREAM_TYPE::LinuxDsoDebug => 0x4767000A,
            MINIDUMP_STREAM_TYPE::CrashpadInfoStream => 0x43500001,
            MINIDUMP_STREAM_TYPE::MozMacosCrashInfoStream => 0x4d7a0001,
        }
    }

    /// The symbol a raw value names, or `None` for any other value:
    /// an unknown value is never an error, the caller keeps the raw
    /// value itself.
    pub fn from_u32(raw: u32) -> (r: Option<MINIDUMP_STREAM_TYPE>)
        ensures
            r == MINIDUMP_STREAM_TYPE::spec_from_u32(raw),
    {
        match raw {
            0 => Some(MINIDUMP_STREAM_TYPE::UnusedStream),
            1 => Some(MINIDUMP_STREAM_TYPE::ReservedStream0),
            2 => Some(MINIDUMP_STREAM_TYPE::ReservedStream1),
            3 => Some(MINIDUMP_STREAM_TYPE::ThreadListStream),
            4 => Some(MINIDUMP_STREAM_TYPE::ModuleListStream),
            5 => Some(MINIDUMP_STREAM_TYPE::MemoryListStream),
            6 => Some(MINIDUMP_STREAM_TYPE::ExceptionStream),
            7 => Some(MINIDUMP_STREAM_TYPE::SystemInfoStream),
            8 => Some(MINIDUMP_STREAM_TYPE::ThreadExListStream),
            9 => Some(MINIDUMP_STREAM_TYPE::Memory64ListStream),
            10 => Some(MINIDUMP_STREAM_TYPE::CommentStreamA),
            11 => Some(MINIDUMP_STREAM_TYPE::CommentStreamW),
            12 => Some(MINIDUMP_STREAM_TYPE::HandleDataStream),
            13 => Some(MINIDUMP_STREAM_TYPE::FunctionTable),
            14 => Some(MINIDUMP_STREAM_TYPE::UnloadedModuleListStream),
            15 => Some(MINIDUMP_STREAM_TYPE::MiscInfoStream),
            16 => Some(MINIDUMP_STREAM_TYPE::MemoryInfoListStream),
            17 => Some(MINIDUMP_STREAM_TYPE::ThreadInfoListStream),
            18 => Some(MINIDUMP_STREAM_TYPE::HandleOperationListStream),
            19 => Some(MINIDUMP_STREAM_TYPE::TokenStream),
            20 => Some(MINIDUMP_STREAM_TYPE::JavaScriptDataStream),
            21 => Some(MINIDUMP_STREAM_TYPE::SystemMemoryInfoStream),
            22 => Some(MINIDUMP_STREAM_TYPE::ProcessVmCountersStream),
            23 => Some(MINIDUMP_STREAM_TYPE::IptTraceStream),
            24 => Some(MINIDUMP_STREAM_TYPE::ThreadNamesStream),
            25 => Some(MINIDUMP_STREAM_TYPE::ceStreamNull),
            26 => Some(MINIDUMP_STREAM_TYPE::ceStreamSystemInfo),
            27 => Some(MINIDUMP_STREAM_TYPE::ceStreamException),
            28 => Some(MINIDUMP_STREAM_TYPE::ceStreamModuleList),
            29 => Some(MINIDUMP_STREAM_TYPE::ceStreamProcessList),
            30 => Some(MINIDUMP_STREAM_TYPE::ceStreamThreadList),
            31 => Some(MINIDUMP_STREAM_TYPE::ceStreamThreadContextList),
            32 => Some(MINIDUMP_STREAM_TYPE::ceStreamThreadCallStackList),
            33 => Some(MINIDUMP_STREAM_TYPE::ceStreamMemoryVirtualList),
            34 => Some(MINIDUMP_STREAM_TYPE::ceStreamMemoryPhysicalList),
            35 => Some(MINIDUMP_STREAM_TYPE::ceStreamBucketParameters),
            36 => Some(MINIDUMP_STREAM_TYPE::ceStreamProcessModuleMap),
            37 => Some(MINIDUMP_STREAM_TYPE::ceStreamDiagnosisList),
            0x0000ffff => Some(MINIDUMP_STREAM_TYPE::LastReservedStream),
            0x47670001 => Some(MINIDUMP_STREAM_TYPE::BreakpadInfoStream),
            0x47670002 => Some(MINIDUMP_STREAM_TYPE::AssertionInfoStream),
            0x47670003 => Some(MINIDUMP_STREAM_TYPE::LinuxCpuInfo),
            0x47670004 => Some(MINIDUMP_STREAM_TYPE::LinuxProcStatus),
            0x47670005 => Some(MINIDUMP_STREAM_TYPE::LinuxLsbRelease),
            0x47670006 => Some(MINIDUMP_STREAM_TYPE::LinuxCmdLine),
            0x47670007 => Some(MINIDUMP_STREAM_TYPE::LinuxEnviron),
            0x47670008 => Some(MINIDUMP_STREAM_TYPE::LinuxAuxv),
            0x47670009 => Some(MINIDUMP_STREAM_TYPE::LinuxMaps),
            0x4767000A => Some(MINIDUMP_STREAM_TYPE::LinuxDsoDebug),
            0x43500001 => Some(MINIDUMP_STREAM_TYPE::CrashpadInfoStream),
            0x4d7a0001 => Some(MINIDUMP_STREAM_TYPE::MozMacosCrashInfoStream),
            _ => None,
        }
    }
}

/// Round trip: the raw value of a known symbol names that symbol.
pub proof fn lemma_m_i_n_i_d_u_m_p_s_t_r_e_a_m_t_y_p_e_roundtrip(v: MINIDUMP_STREAM_TYPE)
    ensures
        MINIDUMP_STREAM_TYPE::spec_from_u32(v.spec_to_u32()) == Some(v),
{
}
} // verus!
