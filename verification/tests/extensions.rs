//! Breakpad, Crashpad and Linux extension records.

use minidump_common::codec::{DecodeError, Endianness};
use minidump_common::codeview::GUID;
use minidump_common::crashpad::{
    MINIDUMP_ANNOTATION, MINIDUMP_ASSERTION_INFO, MINIDUMP_BREAKPAD_INFO, MINIDUMP_CRASHPAD_INFO,
    MINIDUMP_MODULE_CRASHPAD_INFO, MINIDUMP_MODULE_CRASHPAD_INFO_LINK,
    MINIDUMP_SIMPLE_STRING_DICTIONARY_ENTRY,
};
use minidump_common::linux::{DSO_DEBUG_32, DSO_DEBUG_64, LINK_MAP_32, LINK_MAP_64};
use minidump_common::records::MINIDUMP_LOCATION_DESCRIPTOR;

#[test]
fn breakpad_info_roundtrip() {
    let v = MINIDUMP_BREAKPAD_INFO { validity: 3, dump_thread_id: 10, requesting_thread_id: 11 };
    let b = v.encode(Endianness::Little);
    assert_eq!(b.len(), 12);
    let (d, n) = MINIDUMP_BREAKPAD_INFO::decode(&b, 0, Endianness::Little).unwrap();
    assert_eq!(n, 12);
    assert_eq!(d, v);
}

#[test]
fn assertion_info_roundtrip() {
    let mut expression = vec![0u16; 128];
    expression[0] = b'x' as u16;
    expression[1] = b'>' as u16;
    expression[2] = b'0' as u16;
    let v = MINIDUMP_ASSERTION_INFO {
        expression,
        function: vec![0; 128],
        file: vec![0; 128],
        line: 42,
        _type: 1,
    };
    let b = v.encode(Endianness::Little);
    assert_eq!(b.len(), 776);
    let (d, n) = MINIDUMP_ASSERTION_INFO::decode(&b, 0, Endianness::Little).unwrap();
    assert_eq!(n, 776);
    assert_eq!(d, v);
    assert_eq!(
        MINIDUMP_ASSERTION_INFO::decode(&b[..775], 0, Endianness::Little),
        Err(DecodeError::OutOfBounds)
    );
}

#[test]
fn annotation_constants_and_roundtrip() {
    assert_eq!(MINIDUMP_ANNOTATION::TYPE_INVALID, 0);
    assert_eq!(MINIDUMP_ANNOTATION::TYPE_STRING, 1);
    assert_eq!(MINIDUMP_ANNOTATION::TYPE_USER_DEFINED, 0x8000);
    let v = MINIDUMP_ANNOTATION { name: 0x100, ty: 1, _reserved: 0, value: 0x200 };
    let b = v.encode(Endianness::Little);
    assert_eq!(b.len(), 12);
    let (d, _) = MINIDUMP_ANNOTATION::decode(&b, 0, Endianness::Little).unwrap();
    assert_eq!(d, v);
}

#[test]
fn crashpad_info_roundtrip() {
    assert_eq!(MINIDUMP_CRASHPAD_INFO::VERSION, 1);
    assert_eq!(MINIDUMP_MODULE_CRASHPAD_INFO::VERSION, 1);
    let v = MINIDUMP_CRASHPAD_INFO {
        version: 1,
        report_id: GUID { data1: 1, data2: 2, data3: 3, data4: vec![0; 8] },
        client_id: GUID { data1: 4, data2: 5, data3: 6, data4: vec![7; 8] },
        simple_annotations: MINIDUMP_LOCATION_DESCRIPTOR { data_size: 8, rva: 0x40 },
        module_list: MINIDUMP_LOCATION_DESCRIPTOR { data_size: 16, rva: 0x80 },
    };
    let b = v.encode(Endianness::Little);
    assert_eq!(b.len(), 52);
    let (d, n) = MINIDUMP_CRASHPAD_INFO::decode(&b, 0, Endianness::Little).unwrap();
    assert_eq!(n, 52);
    assert_eq!(d, v);
}

#[test]
fn module_crashpad_info_link_roundtrip() {
    let v = MINIDUMP_MODULE_CRASHPAD_INFO_LINK {
        minidump_module_list_index: 2,
        location: MINIDUMP_LOCATION_DESCRIPTOR { data_size: 24, rva: 0x400 },
    };
    let b = v.encode(Endianness::Big);
    assert_eq!(b.len(), 12);
    let (d, _) = MINIDUMP_MODULE_CRASHPAD_INFO_LINK::decode(&b, 0, Endianness::Big).unwrap();
    assert_eq!(d, v);
}

#[test]
fn simple_string_dictionary_entry_roundtrip() {
    let v = MINIDUMP_SIMPLE_STRING_DICTIONARY_ENTRY { key: 0x10, value: 0x20 };
    let b = v.encode(Endianness::Little);
    assert_eq!(b.len(), 8);
    let (d, _) =
        MINIDUMP_SIMPLE_STRING_DICTIONARY_ENTRY::decode(&b, 0, Endianness::Little).unwrap();
    assert_eq!(d, v);
}

#[test]
fn link_maps_roundtrip() {
    let v32 = LINK_MAP_32 { addr: 0x8048000, name: 0x100, ld: 0x200 };
    let b = v32.encode(Endianness::Little);
    assert_eq!(b.len(), 12);
    let (d, _) = LINK_MAP_32::decode(&b, 0, Endianness::Little).unwrap();
    assert_eq!(d, v32);

    let v64 = LINK_MAP_64 { addr: 0x5555_5555_0000, name: 0x100, ld: 0x200 };
    let b = v64.encode(Endianness::Little);
    assert_eq!(b.len(), 20);
    let (d, _) = LINK_MAP_64::decode(&b, 0, Endianness::Little).unwrap();
    assert_eq!(d, v64);
}

#[test]
fn dso_debug_roundtrip() {
    let v32 = DSO_DEBUG_32 {
        version: 1,
        map: 0x100,
        dso_count: 3,
        brk: 0x8040000,
        ldbase: 0x8000000,
        dynamic: 0x8050000,
    };
    let b = v32.encode(Endianness::Little);
    assert_eq!(b.len(), 24);
    let (d, _) = DSO_DEBUG_32::decode(&b, 0, Endianness::Little).unwrap();
    assert_eq!(d, v32);

    let v64 = DSO_DEBUG_64 {
        version: 1,
        map: 0x100,
        dso_count: 3,
        brk: 0x5555_0000_0000,
        ldbase: 0x5554_0000_0000,
        dynamic: 0x5556_0000_0000,
    };
    let b = v64.encode(Endianness::Big);
    assert_eq!(b.len(), 36);
    let (d, _) = DSO_DEBUG_64::decode(&b, 0, Endianness::Big).unwrap();
    assert_eq!(d, v64);
}
