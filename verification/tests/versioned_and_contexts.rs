//! Versioned record families, CPU contexts, and system information.

use minidump_common::codec::{DecodeError, Endianness, VersionedOutcome};
use minidump_common::contexts::{CONTEXT_AMD64, CONTEXT_ARM, CONTEXT_X86, FLOATING_SAVE_AREA_ARM};
use minidump_common::mac_crash_info::{
    decode_mac_crash_info_record, MacCrashInfoRecord, MINIDUMP_MAC_CRASH_INFO_RECORD_STRINGS_4,
};
use minidump_common::misc_info::{decode_misc_info, MiscInfoRecord};
use minidump_common::sysinfo::{
    ARMCpuInfo, MINIDUMP_SYSTEM_INFO, TIME_ZONE_INFORMATION, X86CpuInfo,
    XSTATE_CONFIG_FEATURE_MSC_INFO, XstateFeatureIndex, XSTATE_FEATURE,
};

fn misc_info_v1_bytes(size_of_info: u32) -> Vec<u8> {
    let mut b = Vec::new();
    b.extend_from_slice(&size_of_info.to_le_bytes());
    b.extend_from_slice(&0x3u32.to_le_bytes()); // flags1
    b.extend_from_slice(&1234u32.to_le_bytes()); // process_id
    b.extend_from_slice(&1u32.to_le_bytes()); // process_create_time
    b.extend_from_slice(&2u32.to_le_bytes()); // process_user_time
    b.extend_from_slice(&3u32.to_le_bytes()); // process_kernel_time
    b
}

#[test]
fn misc_info_version_monotonicity() {
    // a buffer of one version's size whose declaration claims a later
    // version: exactly the first version's fields, and the truncation is
    // signalled, never partially-initialized higher-version fields
    let b = misc_info_v1_bytes(232); // declares the third version's size
    let (rec, n, outcome) = decode_misc_info(&b, 0, Endianness::Little).unwrap();
    assert_eq!(n, 24);
    assert_eq!(outcome, VersionedOutcome::TruncatedVersionedRecord);
    match rec {
        MiscInfoRecord::V1(v) => {
            assert_eq!(v.size_of_info, 232);
            assert_eq!(v.process_id, 1234);
            assert_eq!(v.process_kernel_time, 3);
        }
        other => panic!("expected the first version, got {:?}", other),
    }
}

#[test]
fn misc_info_declared_version_is_respected() {
    // 44 declared, 44 present: the second version, complete
    let mut b = misc_info_v1_bytes(44);
    for v in [100u32, 200, 300, 1, 2] {
        b.extend_from_slice(&v.to_le_bytes());
    }
    let (rec, n, outcome) = decode_misc_info(&b, 0, Endianness::Little).unwrap();
    assert_eq!(n, 44);
    assert_eq!(outcome, VersionedOutcome::Complete);
    match rec {
        MiscInfoRecord::V2(v) => {
            assert_eq!(v.prev.process_id, 1234);
            assert_eq!(v.processor_max_mhz, 100);
            assert_eq!(v.processor_current_idle_state, 2);
        }
        other => panic!("expected the second version, got {:?}", other),
    }
}

#[test]
fn misc_info_never_reads_past_declared_size() {
    // 24 declared but 44 present: only the first version is populated even
    // though more bytes are physically there
    let mut b = misc_info_v1_bytes(24);
    for v in [100u32, 200, 300, 1, 2] {
        b.extend_from_slice(&v.to_le_bytes());
    }
    let (rec, n, outcome) = decode_misc_info(&b, 0, Endianness::Little).unwrap();
    assert_eq!(n, 24);
    assert_eq!(outcome, VersionedOutcome::Complete);
    assert!(matches!(rec, MiscInfoRecord::V1(_)));
}

#[test]
fn misc_info_too_short_is_out_of_bounds() {
    let b = misc_info_v1_bytes(24);
    assert_eq!(
        decode_misc_info(&b[..23], 0, Endianness::Little),
        Err(DecodeError::OutOfBounds)
    );
}

#[test]
fn mac_crash_info_record_versions() {
    let mut b = Vec::new();
    for v in [6u64, 5, 7, 1, 99] {
        b.extend_from_slice(&v.to_le_bytes());
    }
    // the enclosing header declares 40 fixed bytes and 40 are present
    let (rec, n, outcome) = decode_mac_crash_info_record(&b, 0, 40, Endianness::Little).unwrap();
    assert_eq!(n, 40);
    assert_eq!(outcome, VersionedOutcome::Complete);
    match rec {
        MacCrashInfoRecord::V5(v) => {
            assert_eq!(v.prev.prev.stream_type, 6);
            assert_eq!(v.prev.prev.version, 5);
            assert_eq!(v.prev.thread, 7);
            assert_eq!(v.prev.dialog_mode, 1);
            assert_eq!(v.abort_cause, 99);
        }
        other => panic!("expected the fifth version, got {:?}", other),
    }
    // only the base version's bytes present though 40 declared: fall back
    let (rec, n, outcome) =
        decode_mac_crash_info_record(&b[..16], 0, 40, Endianness::Little).unwrap();
    assert_eq!(n, 16);
    assert_eq!(outcome, VersionedOutcome::TruncatedVersionedRecord);
    assert!(matches!(rec, MacCrashInfoRecord::V1(_)));
    // fewer than the base version's bytes: out of bounds
    assert_eq!(
        decode_mac_crash_info_record(&b[..15], 0, 40, Endianness::Little),
        Err(DecodeError::OutOfBounds)
    );
}

#[test]
fn mac_crash_info_strings_by_index() {
    let mut s = MINIDUMP_MAC_CRASH_INFO_RECORD_STRINGS_4::default();
    assert_eq!(MINIDUMP_MAC_CRASH_INFO_RECORD_STRINGS_4::num_strings(), 5);
    s.set_string(1, String::from("boom"));
    s.set_string(3, String::from("bt"));
    assert_eq!(s.message, "boom");
    assert_eq!(s.backtrace, "bt");
    assert_eq!(s.module_file_path, "");
}

#[test]
fn xstate_iterator_yields_enabled_features_in_order() {
    let mut info = XSTATE_CONFIG_FEATURE_MSC_INFO::default();
    assert_eq!(info.size_of_info, 528);
    info.enabled_features = (1 << 0) | (1 << 2) | (1 << 62);
    info.features[0] = XSTATE_FEATURE { offset: 0, size: 160 };
    info.features[2] = XSTATE_FEATURE { offset: 576, size: 256 };
    info.features[62] = XSTATE_FEATURE { offset: 1000, size: 128 };
    let mut it = info.iter();
    assert_eq!(it.next(), Some((0, XSTATE_FEATURE { offset: 0, size: 160 })));
    assert_eq!(it.next(), Some((2, XSTATE_FEATURE { offset: 576, size: 256 })));
    assert_eq!(it.next(), Some((62, XSTATE_FEATURE { offset: 1000, size: 128 })));
    assert_eq!(it.next(), None);
    assert_eq!(it.next(), None);
}

#[test]
fn xstate_feature_index_lookup() {
    assert_eq!(XstateFeatureIndex::from_index(0), Some(XstateFeatureIndex::LEGACY_FLOATING_POINT));
    assert_eq!(XstateFeatureIndex::from_index(2), Some(XstateFeatureIndex::GSSE_AND_AVX));
    assert_eq!(XstateFeatureIndex::from_index(62), Some(XstateFeatureIndex::XSTATE_LWP));
    assert_eq!(XstateFeatureIndex::from_index(9), None);
    assert_eq!(XstateFeatureIndex::from_index(63), None);
    assert_eq!(XstateFeatureIndex::XSTATE_IPT.to_index(), 8);
}

#[test]
fn time_zone_information_default_is_zeroed() {
    let tzi = TIME_ZONE_INFORMATION::default();
    assert_eq!(tzi.bias, 0);
    assert_eq!(tzi.standard_name.len(), 32);
    assert!(tzi.standard_name.iter().all(|&c| c == 0));
    assert_eq!(tzi.daylight_date.year, 0);
    assert_eq!(tzi.daylight_bias, 0);
}

#[test]
fn time_zone_information_roundtrip() {
    let mut tzi = TIME_ZONE_INFORMATION::default();
    tzi.bias = -480;
    tzi.standard_bias = 0;
    tzi.daylight_bias = -60;
    tzi.standard_name[0] = b'P' as u16;
    tzi.standard_date.month = 11;
    let b = tzi.encode(Endianness::Little);
    assert_eq!(b.len(), 172);
    let (d, n) = TIME_ZONE_INFORMATION::decode(&b, 0, Endianness::Little).unwrap();
    assert_eq!(n, 172);
    assert_eq!(d, tzi);
    assert_eq!(d.bias, -480);
    assert_eq!(d.daylight_bias, -60);
}

#[test]
fn system_info_roundtrip() {
    let v = MINIDUMP_SYSTEM_INFO {
        processor_architecture: 9,
        processor_level: 6,
        processor_revision: 0x0a01,
        number_of_processors: 8,
        product_type: 1,
        major_version: 10,
        minor_version: 0,
        build_number: 19041,
        platform_id: 2,
        csd_version_rva: 0x100,
        suite_mask: 0,
        reserved2: 0,
        cpu: minidump_common::sysinfo::CPU_INFORMATION {
            data: vec![
                1, 2, 3, 4, 5, 6, 7, 8, 9, 10, 11, 12, 13, 14, 15, 16, 17, 18, 19, 20, 21, 22,
                23, 24,
            ],
        },
    };
    let b = v.encode(Endianness::Little);
    assert_eq!(b.len(), 56);
    let (d, n) = MINIDUMP_SYSTEM_INFO::decode(&b, 0, Endianness::Little).unwrap();
    assert_eq!(n, 56);
    assert_eq!(d, v);
}

#[test]
fn cpu_information_reinterpreted_per_architecture() {
    // the raw union region is decoded as bytes, then reinterpreted by a
    // further decode call under the architecture the caller supplies
    let mut raw = Vec::new();
    raw.extend_from_slice(&0x756e6547u32.to_le_bytes()); // "Genu"
    raw.extend_from_slice(&0x49656e69u32.to_le_bytes()); // "ineI"
    raw.extend_from_slice(&0x6c65746eu32.to_le_bytes()); // "ntel"
    raw.extend_from_slice(&0x000906eau32.to_le_bytes());
    raw.extend_from_slice(&0xbfebfbffu32.to_le_bytes());
    raw.extend_from_slice(&0u32.to_le_bytes());
    let (x86, _) = X86CpuInfo::decode(&raw, 0, Endianness::Little).unwrap();
    assert_eq!(x86.vendor_id, vec![0x756e6547, 0x49656e69, 0x6c65746e]);
    assert_eq!(x86.version_information, 0x000906ea);
    let (arm, _) = ARMCpuInfo::decode(&raw, 0, Endianness::Little).unwrap();
    assert_eq!(arm.cpuid, 0x756e6547);
}

#[test]
fn context_x86_roundtrip_and_size() {
    let mut v = CONTEXT_X86 {
        context_flags: 0x10007,
        dr0: 0,
        dr1: 0,
        dr2: 0,
        dr3: 0,
        dr6: 0,
        dr7: 0,
        float_save: minidump_common::contexts::FLOATING_SAVE_AREA_X86 {
            control_word: 0x27f,
            status_word: 0,
            tag_word: 0xffff,
            error_offset: 0,
            error_selector: 0,
            data_offset: 0,
            data_selector: 0,
            register_area: vec![0; 80],
            cr0_npx_state: 0,
        },
        gs: 0,
        fs: 0x53,
        es: 0x2b,
        ds: 0x2b,
        edi: 1,
        esi: 2,
        ebx: 3,
        edx: 4,
        ecx: 5,
        eax: 6,
        ebp: 7,
        eip: 0x401000,
        cs: 0x23,
        eflags: 0x246,
        esp: 0x7ffe0000,
        ss: 0x2b,
        extended_registers: vec![0; 512],
    };
    v.extended_registers[0] = 0xaa;
    let b = v.encode(Endianness::Little);
    assert_eq!(b.len(), 716);
    let (d, n) = CONTEXT_X86::decode(&b, 0, Endianness::Little).unwrap();
    assert_eq!(n, 716);
    assert_eq!(d, v);
    // one byte short of the layout's size is out of bounds, never a panic
    assert_eq!(
        CONTEXT_X86::decode(&b[..715], 0, Endianness::Little),
        Err(DecodeError::OutOfBounds)
    );
}

#[test]
fn context_arm_roundtrip() {
    let v = CONTEXT_ARM {
        context_flags: 0x40000007,
        iregs: (0u32..16).collect(),
        cpsr: 0x60000010,
        float_save: FLOATING_SAVE_AREA_ARM {
            fpscr: 1,
            regs: (0..32).map(|i| i as u64).collect(),
            extra: vec![0; 8],
        },
    };
    let b = v.encode(Endianness::Little);
    assert_eq!(b.len(), 368);
    let (d, _) = CONTEXT_ARM::decode(&b, 0, Endianness::Little).unwrap();
    assert_eq!(d, v);
}

#[test]
fn context_amd64_size_and_bounds() {
    let b = vec![0u8; 1232];
    let (d, n) = CONTEXT_AMD64::decode(&b, 0, Endianness::Little).unwrap();
    assert_eq!(n, 1232);
    assert_eq!(d.float_save.len(), 512);
    assert_eq!(d.vector_register.len(), 26);
    assert_eq!(
        CONTEXT_AMD64::decode(&b[..1231], 0, Endianness::Little),
        Err(DecodeError::OutOfBounds)
    );
}
