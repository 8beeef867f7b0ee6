//! Fixed-record decoding: scenarios, determinism, bounds, round trips.

use minidump_common::codec::{DecodeError, Endianness};
use minidump_common::records::{
    MINIDUMP_DIRECTORY, MINIDUMP_EXCEPTION, MINIDUMP_EXCEPTION_STREAM, MINIDUMP_HEADER,
    MINIDUMP_LOCATION_DESCRIPTOR, MINIDUMP_MEMORY_DESCRIPTOR, MINIDUMP_MEMORY_INFO,
    MINIDUMP_MODULE, MINIDUMP_THREAD, MINIDUMP_THREAD_NAME, MINIDUMP_UNLOADED_MODULE,
    VS_FIXEDFILEINFO,
};

fn le32(v: u32) -> [u8; 4] {
    v.to_le_bytes()
}

fn header_bytes() -> Vec<u8> {
    let mut b = Vec::new();
    b.extend_from_slice(&le32(0x504d444d)); // signature 'MDMP'
    b.extend_from_slice(&le32(42899)); // version
    b.extend_from_slice(&le32(1)); // stream_count
    b.extend_from_slice(&le32(32)); // stream_directory_rva
    b.extend_from_slice(&le32(0)); // checksum
    b.extend_from_slice(&le32(0)); // time_date_stamp
    b.extend_from_slice(&0u64.to_le_bytes()); // flags
    b
}

#[test]
fn header_scenario_decodes() {
    let b = header_bytes();
    let (h, n) = MINIDUMP_HEADER::decode(&b, 0, Endianness::Little).unwrap();
    assert_eq!(n, 32);
    assert_eq!(h.signature, 0x504d444d);
    assert_eq!(h.version, 42899);
    assert_eq!(h.stream_count, 1);
    assert_eq!(h.stream_directory_rva, 32);
    assert_eq!(h.checksum, 0);
    assert_eq!(h.time_date_stamp, 0);
    assert_eq!(h.flags, 0);
}

#[test]
fn header_decode_is_deterministic() {
    let b = header_bytes();
    let r1 = MINIDUMP_HEADER::decode(&b, 0, Endianness::Little).unwrap();
    let r2 = MINIDUMP_HEADER::decode(&b, 0, Endianness::Little).unwrap();
    assert_eq!(r1, r2);
}

#[test]
fn header_one_byte_short_is_out_of_bounds() {
    let b = header_bytes();
    let short = &b[..31];
    assert_eq!(
        MINIDUMP_HEADER::decode(short, 0, Endianness::Little),
        Err(DecodeError::OutOfBounds)
    );
}

#[test]
fn header_big_endian_reads_swapped() {
    let mut b = Vec::new();
    b.extend_from_slice(&0x504d444du32.to_be_bytes());
    b.extend_from_slice(&42899u32.to_be_bytes());
    b.extend_from_slice(&7u32.to_be_bytes());
    b.extend_from_slice(&32u32.to_be_bytes());
    b.extend_from_slice(&1u32.to_be_bytes());
    b.extend_from_slice(&2u32.to_be_bytes());
    b.extend_from_slice(&3u64.to_be_bytes());
    let (h, n) = MINIDUMP_HEADER::decode(&b, 0, Endianness::Big).unwrap();
    assert_eq!(n, 32);
    assert_eq!(h.signature, 0x504d444d);
    assert_eq!(h.stream_count, 7);
    assert_eq!(h.flags, 3);
}

#[test]
fn location_descriptor_roundtrip() {
    for e in [Endianness::Little, Endianness::Big] {
        let v = MINIDUMP_LOCATION_DESCRIPTOR { data_size: 0xdeadbeef, rva: 0x12345678 };
        let b = v.encode(e);
        assert_eq!(b.len(), 8);
        let (d, n) = MINIDUMP_LOCATION_DESCRIPTOR::decode(&b, 0, e).unwrap();
        assert_eq!(n, 8);
        assert_eq!(d, v);
    }
}

#[test]
fn location_descriptor_one_byte_short() {
    let v = MINIDUMP_LOCATION_DESCRIPTOR { data_size: 1, rva: 2 };
    let b = v.encode(Endianness::Little);
    assert_eq!(
        MINIDUMP_LOCATION_DESCRIPTOR::decode(&b[..7], 0, Endianness::Little),
        Err(DecodeError::OutOfBounds)
    );
}

#[test]
fn directory_roundtrip_and_unknown_stream_type_preserved() {
    // a producer-extension stream type no symbol names must round-trip
    let v = MINIDUMP_DIRECTORY {
        stream_type: 0x4767fffe,
        location: MINIDUMP_LOCATION_DESCRIPTOR { data_size: 16, rva: 64 },
    };
    let b = v.encode(Endianness::Little);
    assert_eq!(b.len(), 12);
    let (d, n) = MINIDUMP_DIRECTORY::decode(&b, 0, Endianness::Little).unwrap();
    assert_eq!(n, 12);
    assert_eq!(d, v);
    assert_eq!(d.stream_type, 0x4767fffe);
}

#[test]
fn memory_descriptor_roundtrip() {
    let v = MINIDUMP_MEMORY_DESCRIPTOR {
        start_of_memory_range: 0x7fff_0000_1234_5678,
        memory: MINIDUMP_LOCATION_DESCRIPTOR { data_size: 4096, rva: 1024 },
    };
    for e in [Endianness::Little, Endianness::Big] {
        let b = v.encode(e);
        assert_eq!(b.len(), 16);
        let (d, _) = MINIDUMP_MEMORY_DESCRIPTOR::decode(&b, 0, e).unwrap();
        assert_eq!(d, v);
    }
}

#[test]
fn thread_name_roundtrip() {
    let v = MINIDUMP_THREAD_NAME { thread_id: 42, thread_name_rva: 0x1_0000_0001 };
    let b = v.encode(Endianness::Little);
    assert_eq!(b.len(), 12);
    let (d, _) = MINIDUMP_THREAD_NAME::decode(&b, 0, Endianness::Little).unwrap();
    assert_eq!(d, v);
}

fn sample_fileinfo() -> VS_FIXEDFILEINFO {
    VS_FIXEDFILEINFO {
        signature: 0xfeef04bd,
        struct_version: 0x00010000,
        file_version_hi: 1,
        file_version_lo: 2,
        product_version_hi: 3,
        product_version_lo: 4,
        file_flags_mask: 5,
        file_flags: 6,
        file_os: 7,
        file_type: 8,
        file_subtype: 9,
        file_date_hi: 10,
        file_date_lo: 11,
    }
}

#[test]
fn fileinfo_roundtrip() {
    let v = sample_fileinfo();
    let b = v.encode(Endianness::Big);
    assert_eq!(b.len(), 52);
    let (d, _) = VS_FIXEDFILEINFO::decode(&b, 0, Endianness::Big).unwrap();
    assert_eq!(d, v);
}

#[test]
fn module_roundtrip_preserves_reserved_fields() {
    let v = MINIDUMP_MODULE {
        base_of_image: 0x10000,
        size_of_image: 0x2000,
        checksum: 0xabcd,
        time_date_stamp: 0x5f00_0000,
        module_name_rva: 0x400,
        version_info: sample_fileinfo(),
        cv_record: MINIDUMP_LOCATION_DESCRIPTOR { data_size: 20, rva: 0x500 },
        misc_record: MINIDUMP_LOCATION_DESCRIPTOR { data_size: 0, rva: 0 },
        reserved0: vec![0xdead, 0xbeef],
        reserved1: vec![1, 2],
    };
    let b = v.encode(Endianness::Little);
    assert_eq!(b.len(), 108);
    let (d, n) = MINIDUMP_MODULE::decode(&b, 0, Endianness::Little).unwrap();
    assert_eq!(n, 108);
    assert_eq!(d, v);
    assert_eq!(d.reserved0, vec![0xdead, 0xbeef]);
}

#[test]
fn module_one_byte_short() {
    let v = MINIDUMP_MODULE {
        base_of_image: 0,
        size_of_image: 0,
        checksum: 0,
        time_date_stamp: 0,
        module_name_rva: 0,
        version_info: sample_fileinfo(),
        cv_record: MINIDUMP_LOCATION_DESCRIPTOR { data_size: 0, rva: 0 },
        misc_record: MINIDUMP_LOCATION_DESCRIPTOR { data_size: 0, rva: 0 },
        reserved0: vec![0, 0],
        reserved1: vec![0, 0],
    };
    let b = v.encode(Endianness::Little);
    assert_eq!(
        MINIDUMP_MODULE::decode(&b[..107], 0, Endianness::Little),
        Err(DecodeError::OutOfBounds)
    );
}

#[test]
fn unloaded_module_roundtrip() {
    let v = MINIDUMP_UNLOADED_MODULE {
        base_of_image: 0x7000,
        size_of_image: 0x1000,
        checksum: 3,
        time_date_stamp: 4,
        module_name_rva: 5,
    };
    let b = v.encode(Endianness::Little);
    assert_eq!(b.len(), 24);
    let (d, _) = MINIDUMP_UNLOADED_MODULE::decode(&b, 0, Endianness::Little).unwrap();
    assert_eq!(d, v);
}

#[test]
fn thread_roundtrip_at_offset() {
    let v = MINIDUMP_THREAD {
        thread_id: 7,
        suspend_count: 1,
        priority_class: 32,
        priority: 8,
        teb: 0x7ffd_0000,
        stack: MINIDUMP_MEMORY_DESCRIPTOR {
            start_of_memory_range: 0x100,
            memory: MINIDUMP_LOCATION_DESCRIPTOR { data_size: 0x800, rva: 0x2000 },
        },
        thread_context: MINIDUMP_LOCATION_DESCRIPTOR { data_size: 716, rva: 0x3000 },
    };
    // the record sits after four bytes of padding: offsets are honoured
    let mut b = vec![0xff, 0xff, 0xff, 0xff];
    b.extend_from_slice(&v.encode(Endianness::Little));
    let (d, n) = MINIDUMP_THREAD::decode(&b, 4, Endianness::Little).unwrap();
    assert_eq!(n, 48);
    assert_eq!(d, v);
}

#[test]
fn exception_stream_roundtrip() {
    let v = MINIDUMP_EXCEPTION_STREAM {
        thread_id: 11,
        __align: 0,
        exception_record: MINIDUMP_EXCEPTION {
            exception_code: 0xc0000005,
            exception_flags: 1,
            exception_record: 0,
            exception_address: 0x41414141,
            number_parameters: 2,
            __align: 0,
            exception_information: vec![1, 0x41414141, 0, 0, 0, 0, 0, 0, 0, 0, 0, 0, 0, 0, 0],
        },
        thread_context: MINIDUMP_LOCATION_DESCRIPTOR { data_size: 1232, rva: 0x9000 },
    };
    let b = v.encode(Endianness::Little);
    assert_eq!(b.len(), 168);
    let (d, _) = MINIDUMP_EXCEPTION_STREAM::decode(&b, 0, Endianness::Little).unwrap();
    assert_eq!(d, v);
    assert_eq!(d.exception_record.exception_information[1], 0x41414141);
}

#[test]
fn exception_one_byte_short() {
    let b = vec![0u8; 151]; // the exception record needs 152 bytes
    assert_eq!(
        MINIDUMP_EXCEPTION::decode(&b, 0, Endianness::Little),
        Err(DecodeError::OutOfBounds)
    );
}

#[test]
fn memory_info_roundtrip() {
    let v = MINIDUMP_MEMORY_INFO {
        base_address: 0x10000,
        allocation_base: 0x10000,
        allocation_protection: 0x04,
        __alignment1: 0,
        region_size: 0x1000,
        state: 0x1000,
        protection: 0x04,
        _type: 0x20000,
        __alignment2: 0,
    };
    let b = v.encode(Endianness::Little);
    assert_eq!(b.len(), 48);
    let (d, _) = MINIDUMP_MEMORY_INFO::decode(&b, 0, Endianness::Little).unwrap();
    assert_eq!(d, v);
}

#[test]
fn decode_rejects_offset_past_end() {
    let b = header_bytes();
    assert_eq!(
        MINIDUMP_HEADER::decode(&b, 1, Endianness::Little),
        Err(DecodeError::OutOfBounds)
    );
    assert_eq!(
        MINIDUMP_HEADER::decode(&b, usize::MAX, Endianness::Little),
        Err(DecodeError::OutOfBounds)
    );
}
