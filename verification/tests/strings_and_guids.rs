//! GUID formatting, UTF-8 string records, and CodeView records.

use minidump_common::codec::{DecodeError, Endianness};
use minidump_common::codeview::{CvSignature, CV_INFO_ELF, CV_INFO_PDB20, CV_INFO_PDB70, GUID};
use minidump_common::crashpad::MINIDUMP_UTF8_STRING;

#[test]
fn guid_formats_both_conventions() {
    let guid = GUID { data1: 10, data2: 11, data3: 12, data4: vec![1, 2, 3, 4, 5, 6, 7, 8] };
    assert_eq!("0000000a-000b-000c-0102-030405060708", guid.to_hyphenated_lowercase());
    assert_eq!("0000000A000B000C0102030405060708", guid.to_compact_uppercase());
}

#[test]
fn guid_formats_hex_digits_above_nine() {
    let guid = GUID {
        data1: 0xdeadbeef,
        data2: 0xcafe,
        data3: 0xf00d,
        data4: vec![0xab, 0xcd, 0xef, 0x01, 0x23, 0x45, 0x67, 0x89],
    };
    assert_eq!("deadbeef-cafe-f00d-abcd-ef0123456789", guid.to_hyphenated_lowercase());
    assert_eq!("DEADBEEFCAFEF00DABCDEF0123456789", guid.to_compact_uppercase());
}

#[test]
fn guid_roundtrip() {
    let guid = GUID {
        data1: 0x12345678,
        data2: 0x9abc,
        data3: 0xdef0,
        data4: vec![8, 7, 6, 5, 4, 3, 2, 1],
    };
    for e in [Endianness::Little, Endianness::Big] {
        let b = guid.encode(e);
        assert_eq!(b.len(), 16);
        let (d, n) = GUID::decode(&b, 0, e).unwrap();
        assert_eq!(n, 16);
        assert_eq!(d, guid);
    }
}

#[test]
fn guid_one_byte_short() {
    let b = vec![0u8; 15];
    assert_eq!(GUID::decode(&b, 0, Endianness::Little), Err(DecodeError::OutOfBounds));
}

#[test]
fn utf8_string_scenario() {
    // length = 5, payload "hello", NUL terminator
    let mut b = 5u32.to_le_bytes().to_vec();
    b.extend_from_slice(b"hello\0");
    let (s, n) = MINIDUMP_UTF8_STRING::decode(&b, 0, Endianness::Little).unwrap();
    assert_eq!(n, 10);
    assert_eq!(s.length, 5);
    assert_eq!(s.buffer, b"hello\0".to_vec());
    assert_eq!(s.payload(), b"hello");
}

#[test]
fn utf8_string_missing_terminator() {
    // same record with the trailing NUL replaced by a non-zero byte
    let mut b = 5u32.to_le_bytes().to_vec();
    b.extend_from_slice(b"hello");
    b.push(b'!');
    assert_eq!(
        MINIDUMP_UTF8_STRING::decode(&b, 0, Endianness::Little),
        Err(DecodeError::MissingTerminator)
    );
}

#[test]
fn utf8_string_truncated_is_out_of_bounds() {
    // the declared length reaches past the end of the buffer: rejected,
    // never clamped
    let mut b = 5u32.to_le_bytes().to_vec();
    b.extend_from_slice(b"hel");
    assert_eq!(
        MINIDUMP_UTF8_STRING::decode(&b, 0, Endianness::Little),
        Err(DecodeError::OutOfBounds)
    );
}

#[test]
fn utf8_string_roundtrip() {
    let s = MINIDUMP_UTF8_STRING { length: 3, buffer: b"abc\0".to_vec() };
    let b = s.encode(Endianness::Little);
    let (d, n) = MINIDUMP_UTF8_STRING::decode(&b, 0, Endianness::Little).unwrap();
    assert_eq!(n, b.len());
    assert_eq!(d, s);
}

#[test]
fn cv_signature_symbols() {
    assert_eq!(CvSignature::from_u32(0x53445352), Some(CvSignature::Pdb70));
    assert_eq!(CvSignature::from_u32(0x3031424e), Some(CvSignature::Pdb20));
    assert_eq!(CvSignature::from_u32(0x4270454c), Some(CvSignature::Elf));
    assert_eq!(CvSignature::from_u32(0), None);
    assert_eq!(CvSignature::Pdb70.to_u32(), 0x53445352);
}

#[test]
fn cv_info_pdb70_roundtrip() {
    let v = CV_INFO_PDB70 {
        cv_signature: 0x53445352,
        signature: GUID { data1: 1, data2: 2, data3: 3, data4: vec![4, 5, 6, 7, 8, 9, 10, 11] },
        age: 2,
        pdb_file_name: b"app.pdb\0".to_vec(),
    };
    let b = v.encode(Endianness::Little);
    let (d, n) = CV_INFO_PDB70::decode(&b, Endianness::Little).unwrap();
    assert_eq!(n, b.len());
    assert_eq!(d, v);
}

#[test]
fn cv_info_pdb70_too_short() {
    let b = vec![0u8; 23];
    assert_eq!(CV_INFO_PDB70::decode(&b, Endianness::Little), Err(DecodeError::OutOfBounds));
}

#[test]
fn cv_info_pdb20_roundtrip() {
    let v = CV_INFO_PDB20 {
        cv_signature: 0x3031424e,
        cv_offset: 0,
        signature: 0x5f000000,
        age: 1,
        pdb_file_name: b"old.pdb\0".to_vec(),
    };
    let b = v.encode(Endianness::Little);
    let (d, n) = CV_INFO_PDB20::decode(&b, Endianness::Little).unwrap();
    assert_eq!(n, b.len());
    assert_eq!(d, v);
}

#[test]
fn cv_info_elf_consumes_rest_as_build_id() {
    let v = CV_INFO_ELF {
        cv_signature: 0x4270454c,
        build_id: vec![0xde, 0xad, 0xbe, 0xef, 0x01, 0x02],
    };
    let b = v.encode(Endianness::Little);
    let (d, n) = CV_INFO_ELF::decode(&b, Endianness::Little).unwrap();
    assert_eq!(n, 10);
    assert_eq!(d, v);
    // an empty build id is legal: the record is just the signature
    let b4 = &b[..4];
    let (d4, n4) = CV_INFO_ELF::decode(b4, Endianness::Little).unwrap();
    assert_eq!(n4, 4);
    assert!(d4.build_id.is_empty());
    // but less than the signature is not
    assert_eq!(CV_INFO_ELF::decode(&b[..3], Endianness::Little), Err(DecodeError::OutOfBounds));
}
