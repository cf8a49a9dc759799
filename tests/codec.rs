use rust_corosync::codec::{cmap_to_enum, decode, encode, is_numeric_type, ByteOrder, Data, DataType};
use rust_corosync::{check_status, string_from_bytes, CsError, NodeId, CS_OK};

fn round_trip(d: Data, order: ByteOrder) {
    let e = encode(&d, order).expect("encodable");
    let back = decode(e.bytes.len(), e.data_type.to_c(), &e.bytes, order).expect("decodes");
    assert_eq!(back, d);
}

#[test]
fn round_trip_integers_at_bounds() {
    for order in [ByteOrder::Little, ByteOrder::Big] {
        for v in [0i8, i8::MIN, i8::MAX, -1] {
            round_trip(Data::Int8(v), order);
        }
        for v in [0u8, u8::MAX] {
            round_trip(Data::UInt8(v), order);
        }
        for v in [0i16, i16::MIN, i16::MAX, -2] {
            round_trip(Data::Int16(v), order);
        }
        for v in [0u16, u16::MAX, 258] {
            round_trip(Data::UInt16(v), order);
        }
        for v in [0i32, i32::MIN, i32::MAX, -3] {
            round_trip(Data::Int32(v), order);
        }
        for v in [0u32, u32::MAX, 456] {
            round_trip(Data::UInt32(v), order);
        }
        for v in [0i64, i64::MIN, i64::MAX, -4] {
            round_trip(Data::Int64(v), order);
        }
        for v in [0u64, u64::MAX, 1 << 40] {
            round_trip(Data::UInt64(v), order);
        }
    }
}

#[test]
fn round_trip_floats_strings_binary() {
    for order in [ByteOrder::Little, ByteOrder::Big] {
        round_trip(Data::Float(1.5f32.to_bits()), order);
        round_trip(Data::Float(f32::MIN.to_bits()), order);
        round_trip(Data::Double((-2.25f64).to_bits()), order);
        round_trip(Data::Double(f64::MAX.to_bits()), order);
        round_trip(Data::String(String::new()), order);
        round_trip(Data::String("abc".to_string()), order);
        round_trip(Data::String("grüße".to_string()), order);
        round_trip(Data::Binary(Vec::new()), order);
        round_trip(Data::Binary(vec![0, 1, 2, 255, 0]), order);
    }
}

#[test]
fn numbers_use_the_host_layout() {
    let le = encode(&Data::UInt32(456), ByteOrder::Little).unwrap();
    assert_eq!(le.data_type, DataType::UInt32);
    assert_eq!(le.length, 4);
    assert_eq!(le.bytes, vec![0xC8, 0x01, 0, 0]);
    let be = encode(&Data::UInt32(456), ByteOrder::Big).unwrap();
    assert_eq!(be.bytes, vec![0, 0, 0x01, 0xC8]);
    let i = encode(&Data::Int16(-2), ByteOrder::Little).unwrap();
    assert_eq!(i.bytes, vec![0xFE, 0xFF]);
    let u16v = encode(&Data::UInt16(258), ByteOrder::Little).unwrap();
    assert_eq!(u16v.data_type, DataType::UInt16);
    assert_eq!(u16v.bytes, vec![2, 1]);
}

#[test]
fn strings_declare_their_character_count_and_send_a_nul() {
    let e = encode(&Data::String("abc".to_string()), ByteOrder::Little).unwrap();
    assert_eq!(e.data_type, DataType::String);
    assert_eq!(e.length, 3);
    assert_eq!(e.bytes, b"abc\0".to_vec());
    let u = encode(&Data::String("é".to_string()), ByteOrder::Little).unwrap();
    assert_eq!(u.length, 1);
    assert_eq!(u.bytes, vec![0xC3, 0xA9, 0]);
    let empty = encode(&Data::Binary(Vec::new()), ByteOrder::Little).unwrap();
    assert_eq!(empty.length, 0);
    assert!(empty.bytes.is_empty());
}

#[test]
fn unwritable_values_are_refused() {
    assert_eq!(encode(&Data::Unknown, ByteOrder::Little).unwrap_err(), CsError::CsErrInvalidParam);
    assert_eq!(
        encode(&Data::String("a\0b".to_string()), ByteOrder::Little).unwrap_err(),
        CsError::CsErrInvalidParam
    );
}

#[test]
fn decode_errors() {
    // an unknown tag is not an error
    assert_eq!(decode(3, 77, &[1, 2, 3], ByteOrder::Little).unwrap(), Data::Unknown);
    assert_eq!(decode(100, 999, &[1], ByteOrder::Little).unwrap(), Data::Unknown);
    // a number whose size is not its width
    assert_eq!(decode(2, 6, &[1, 2, 3, 4], ByteOrder::Little).unwrap_err(), CsError::CsErrLibrary);
    // a size beyond the buffer
    assert_eq!(decode(5, 12, &[1, 2, 3, 4], ByteOrder::Little).unwrap_err(), CsError::CsErrLibrary);
    // a string that is not UTF-8
    assert_eq!(decode(3, 11, &[0xFF, 0xFE, 0], ByteOrder::Little).unwrap_err(), CsError::CsErrRustString);
    // a string with a NUL inside, and one without room for its NUL
    assert_eq!(decode(4, 11, b"a\0b\0", ByteOrder::Little).unwrap_err(), CsError::CsErrLibrary);
    assert_eq!(decode(0, 11, &[], ByteOrder::Little).unwrap_err(), CsError::CsErrLibrary);
    // a string whose last byte is not its NUL
    assert_eq!(decode(3, 11, b"abc", ByteOrder::Little).unwrap_err(), CsError::CsErrLibrary);
    // exactly one trailing byte is stripped from a string
    assert_eq!(decode(4, 11, b"abc\0", ByteOrder::Little).unwrap(), Data::String("abc".to_string()));
    // the size, not the buffer, bounds what is read
    assert_eq!(decode(2, 12, &[9, 8, 7], ByteOrder::Little).unwrap(), Data::Binary(vec![9, 8]));
}

#[test]
fn tags_and_types() {
    assert_eq!(cmap_to_enum(1), DataType::Int8);
    assert_eq!(cmap_to_enum(4), DataType::UInt16);
    assert_eq!(cmap_to_enum(11), DataType::String);
    assert_eq!(cmap_to_enum(12), DataType::Binary);
    assert_eq!(cmap_to_enum(0), DataType::Unknown);
    assert_eq!(cmap_to_enum(13), DataType::Unknown);
    assert_eq!(DataType::Double.to_c(), 10);
    assert!(is_numeric_type(DataType::Float));
    assert!(is_numeric_type(DataType::Int64));
    assert!(!is_numeric_type(DataType::String));
    assert!(!is_numeric_type(DataType::Binary));
    assert!(!is_numeric_type(DataType::Unknown));
}

#[test]
fn status_codes_map_to_errors() {
    assert_eq!(CsError::from_c(1), CsError::CsOk);
    assert_eq!(CsError::from_c(9), CsError::CsErrBadHandle);
    assert_eq!(CsError::from_c(30), CsError::CsErrTooManyGroups);
    assert_eq!(CsError::from_c(100), CsError::CsErrSecurity);
    assert_eq!(CsError::from_c(999), CsError::CsErrRustString);
    assert_eq!(CsError::from_c(29), CsError::CsErrRustCompat);
    assert_eq!(CsError::from_c(12345), CsError::CsErrRustCompat);
    assert_eq!(CsError::CsErrNoSection.code(), 27);
    assert_eq!(check_status(CS_OK), Ok(()));
    assert_eq!(check_status(6), Err(CsError::CsErrTryAgain));
    assert_eq!(check_status(0), Err(CsError::CsErrRustCompat));
}

#[test]
fn bounded_c_strings() {
    assert_eq!(string_from_bytes(b"abc\0def", 16).unwrap(), "abc");
    assert_eq!(string_from_bytes(b"abcdef", 4).unwrap(), "abcd");
    assert_eq!(string_from_bytes(b"ab", 16).unwrap(), "ab");
    assert_eq!(string_from_bytes(b"\0abc", 16).unwrap(), "");
    assert_eq!(string_from_bytes(&[0xC3, 0x28, 0], 16).unwrap_err(), CsError::CsErrRustString);
}

#[test]
fn node_ids_convert_both_ways() {
    let n = NodeId::from(7u32);
    assert_eq!(u32::from(n), 7);
    assert_eq!(n, rust_corosync::node_id(7));
}

#[test]
fn printable_names() {
    assert_eq!(CsError::CsOk.name(), "OK");
    assert_eq!(CsError::CsErrBadHandle.name(), "ErrbadHandle");
    assert_eq!(CsError::CsErrRustCompat.name(), "ErrRustCompat");
    assert_eq!(DataType::UInt32.name(), "UInt32");
    assert_eq!(DataType::Unknown.name(), "Unknown");
    assert_eq!(rust_corosync::cpg::Reason::NodeDown.name(), "NodeDown");
}
