use cst::{from_bytes, Deserializer, Error, Gender};
use std::collections::BTreeMap;

#[test]
fn test_vec() {
    let data = "CMU_FLITE_CG_VOXDATA-v2.0\0\x01\0\0\0\x02\0\0\0\x05\0\0\0lang\0\x04\0\0\0eng\0";
    let expected: Vec<&str> = vec!["lang", "eng"];
    assert_eq!(expected, from_bytes::<Vec<String>>(data.as_bytes()).unwrap());
}

#[test]
fn test_map() {
    let data = "CMU_FLITE_CG_VOXDATA-v2.0\0\x01\0\0\0\x05\0\0\0lang\0\x04\0\0\0eng\0";
    let mut expected: BTreeMap<&str, &str> = BTreeMap::new();
    expected.insert("lang", "eng");
    let mut d = Deserializer::from_bytes(data.as_bytes());
    d.validate_header().unwrap();
    let entries = d.parse_map::<String, String>().unwrap();
    let got: BTreeMap<&str, &str> =
        entries.iter().map(|(k, v)| (k.as_str(), v.as_str())).collect();
    assert_eq!(expected, got);
}

#[test]
fn test_tuple() {
    let data =
        "CMU_FLITE_CG_VOXDATA-v2.0\0\x01\0\0\0\x01\0\0\0\x01\0\x05\0\0\0lang\0\x04\0\0\0eng\0";
    let expected = (true, "lang".to_string(), "eng".to_string());
    assert_eq!(
        expected,
        from_bytes::<(bool, String, String)>(data.as_bytes()).unwrap()
    );
}

#[test]
fn test_bool() {
    let data = "CMU_FLITE_CG_VOXDATA-v2.0\0\x01\0\0\0\x01\0\0\0\x09\0";
    let data2 = "CMU_FLITE_CG_VOXDATA-v2.0\0\x01\0\0\0\x01\0\0\0\x00\0";
    assert_eq!(true, from_bytes::<bool>(data.as_bytes()).unwrap());
    assert_eq!(false, from_bytes::<bool>(data2.as_bytes()).unwrap());
}

#[test]
fn test_str() {
    let data = "CMU_FLITE_CG_VOXDATA-v2.0\0\x01\0\0\0\x09\0\0\0language\0";
    let expected: &str = "language";
    assert_eq!(expected, from_bytes::<String>(data.as_bytes()).unwrap());
}

#[test]
fn bool_with_wrong_declared_size() {
    let data = "CMU_FLITE_CG_VOXDATA-v2.0\0\x01\0\0\0\x02\0\0\0\x09\0";
    assert_eq!(Err(Error::ExpectedSize(1, 2)), from_bytes::<bool>(data.as_bytes()));
}

#[test]
fn language_field_reads_eng() {
    let data = "CMU_FLITE_CG_VOXDATA-v2.0\0\x01\0\0\0\x09\0\0\0language\0\x04\0\0\0eng\0";
    let mut d = Deserializer::from_bytes(data.as_bytes());
    d.expect_field("language").unwrap();
    assert_eq!("eng", d.parse_str().unwrap());
    assert!(d.is_empty());
}

#[test]
fn field_with_another_name_is_refused() {
    let data = "CMU_FLITE_CG_VOXDATA-v2.0\0\x01\0\0\0\x08\0\0\0country\0\x04\0\0\0USA\0";
    let mut d = Deserializer::from_bytes(data.as_bytes());
    assert_eq!(Err(Error::FieldNotFound("language")), d.expect_field("language"));
}

#[test]
fn u128_max_from_text() {
    let digits = "340282366920938463463374607431768211455";
    let mut data = b"CMU_FLITE_CG_VOXDATA-v2.0\0\x01\0\0\0".to_vec();
    data.extend_from_slice(&((digits.len() as u32 + 1).to_le_bytes()));
    data.extend_from_slice(digits.as_bytes());
    data.push(0);
    assert_eq!(u128::MAX, from_bytes::<u128>(&data).unwrap());
}

#[test]
fn u128_declared_length_mismatch() {
    let digits = "340282366920938463463374607431768211455";
    let mut data = b"CMU_FLITE_CG_VOXDATA-v2.0\0\x01\0\0\0".to_vec();
    data.extend_from_slice(&((digits.len() as u32 + 3).to_le_bytes()));
    data.extend_from_slice(digits.as_bytes());
    data.push(0);
    assert_eq!(
        Err(Error::ExpectedSize(digits.len() + 1, digits.len() + 3)),
        from_bytes::<u128>(&data)
    );
}

#[test]
fn u128_overflow_is_parse_error() {
    let digits = "340282366920938463463374607431768211456";
    let mut data = b"CMU_FLITE_CG_VOXDATA-v2.0\0\x01\0\0\0".to_vec();
    data.extend_from_slice(&((digits.len() as u32 + 1).to_le_bytes()));
    data.extend_from_slice(digits.as_bytes());
    data.push(0);
    assert_eq!(Err(Error::ParseInt), from_bytes::<u128>(&data));
}

#[test]
fn decimal_text_u32() {
    let data = "CMU_FLITE_CG_VOXDATA-v2.0\0\x01\0\0\0\x03\0\0\x0030\0";
    let mut d = Deserializer::from_bytes(data.as_bytes());
    assert_eq!(Ok(30), d.parse_u32_text());
    let big = "CMU_FLITE_CG_VOXDATA-v2.0\0\x01\0\0\0\x0b\0\0\x004294967296\0";
    let mut d = Deserializer::from_bytes(big.as_bytes());
    assert_eq!(Err(Error::ParseInt), d.parse_u32_text());
    let empty = "CMU_FLITE_CG_VOXDATA-v2.0\0\x01\0\0\0\x01\0\0\0\0";
    let mut d = Deserializer::from_bytes(empty.as_bytes());
    assert_eq!(Err(Error::ParseInt), d.parse_u32_text());
}

#[test]
fn bad_signature_is_refused() {
    let data = "CMU_FLITE_CG_VOXDATA-v2.1\0\x01\0\0\0\x01\0\0\0\x09\0";
    assert_eq!(Err(Error::InvalidHeader), from_bytes::<bool>(data.as_bytes()));
    let no_separator = "CMU_FLITE_CG_VOXDATA-v2.0x\x01\0\0\0";
    assert_eq!(Err(Error::InvalidHeader), from_bytes::<bool>(no_separator.as_bytes()));
    assert_eq!(Err(Error::InvalidHeader), from_bytes::<bool>(b""));
}

#[test]
fn missing_marker_is_eof() {
    let data = "CMU_FLITE_CG_VOXDATA-v2.0\0\x01\0";
    assert_eq!(Err(Error::Eof), from_bytes::<bool>(data.as_bytes()));
}

#[test]
fn header_check_runs_once() {
    let data = "CMU_FLITE_CG_VOXDATA-v2.0\0\x01\0\0\0\x04\0\0\0eng\0";
    let mut d = Deserializer::from_bytes(data.as_bytes());
    assert_eq!(Ok(()), d.validate_header());
    assert_eq!(Ok(()), d.validate_header());
    assert_eq!(Ok(()), d.validate_header());
    assert_eq!("eng", d.parse_str().unwrap());
}

#[test]
fn text_without_terminator_is_wrong_length() {
    let data = "CMU_FLITE_CG_VOXDATA-v2.0\0\x01\0\0\0\x03\0\0\0engx";
    assert_eq!(Err(Error::WrongLength(3)), from_bytes::<String>(data.as_bytes()));
    let zero = "CMU_FLITE_CG_VOXDATA-v2.0\0\x01\0\0\0\0\0\0\0";
    assert_eq!(Err(Error::WrongLength(0)), from_bytes::<String>(zero.as_bytes()));
}

#[test]
fn short_text_is_eof() {
    let data = "CMU_FLITE_CG_VOXDATA-v2.0\0\x01\0\0\0\x09\0\0\0lang\0";
    assert_eq!(Err(Error::Eof), from_bytes::<String>(data.as_bytes()));
}

#[test]
fn invalid_utf8_text() {
    let mut data = b"CMU_FLITE_CG_VOXDATA-v2.0\0\x01\0\0\0\x03\0\0\0".to_vec();
    data.extend_from_slice(&[0xff, 0xfe, 0]);
    assert_eq!(Err(Error::NotUtf8), from_bytes::<String>(&data));
}

#[test]
fn utf8_text_is_decoded() {
    let mut data = b"CMU_FLITE_CG_VOXDATA-v2.0\0\x01\0\0\0\x04\0\0\0".to_vec();
    data.extend_from_slice(&[b'c', 0xc3, 0xa9, 0]);
    assert_eq!("c\u{e9}", from_bytes::<String>(&data).unwrap());
}

#[test]
fn raw_numbers_use_whole_slots() {
    let mut data = b"CMU_FLITE_CG_VOXDATA-v2.0\0\x01\0\0\0".to_vec();
    data.extend_from_slice(&[0x34, 0x12, 0xaa, 0xbb]);
    data.extend_from_slice(&[0x34, 0x12, 0xaa, 0xbb]);
    data.extend_from_slice(&(-5i32).to_le_bytes());
    data.extend_from_slice(&7u32.to_le_bytes());
    let mut d = Deserializer::from_bytes(&data);
    d.validate_header().unwrap();
    assert_eq!(Ok(0x34), d.parse_u8());
    assert_eq!(Ok(0x1234), d.parse_u16());
    assert_eq!(Ok(-5), d.parse_i32());
    assert_eq!(Ok(7), d.parse_u32());
    assert_eq!(Err(Error::Eof), d.parse_u32());
}

#[test]
fn swapped_marker_reads_big_endian() {
    let mut data = b"CMU_FLITE_CG_VOXDATA-v2.0\0\0\0\0\x01".to_vec();
    data.extend_from_slice(&0x0102_0304u32.to_be_bytes());
    data.extend_from_slice(&1.5f32.to_bits().to_be_bytes());
    let mut d = Deserializer::from_bytes(&data);
    d.validate_header().unwrap();
    assert_eq!(Ok(0x0102_0304), d.parse_u32());
    assert_eq!(Ok(1.5f32.to_bits()), d.parse_f32_bits());
}

#[test]
fn sequence_reads_its_own_count() {
    let data = "CMU_FLITE_CG_VOXDATA-v2.0\0\x01\0\0\0\x00\0\0\0\x02\0\0\0\x02\0\0\0a\0\x02\0\0\0b\0";
    let mut d = Deserializer::from_bytes(data.as_bytes());
    let empty: Vec<String> = d.parse_seq().unwrap();
    assert!(empty.is_empty());
    let two: Vec<String> = d.parse_seq().unwrap();
    assert_eq!(vec!["a".to_string(), "b".to_string()], two);
    assert!(d.is_empty());
}

#[test]
fn fixed_sequence_reads_no_count() {
    let data = "CMU_FLITE_CG_VOXDATA-v2.0\0\x01\0\0\0\x02\0\0\0a\0\x02\0\0\0b\0";
    let mut d = Deserializer::from_bytes(data.as_bytes());
    d.validate_header().unwrap();
    let none: Vec<String> = d.parse_fixed_seq(0).unwrap();
    assert!(none.is_empty());
    let two: Vec<String> = d.parse_fixed_seq(2).unwrap();
    assert_eq!(vec!["a".to_string(), "b".to_string()], two);
    let mut d = Deserializer::from_bytes(data.as_bytes());
    d.validate_header().unwrap();
    assert_eq!(Err(Error::Eof), d.parse_fixed_seq::<String>(3));
}

#[test]
fn trailing_bytes_are_refused_on_request() {
    let data = "CMU_FLITE_CG_VOXDATA-v2.0\0\x01\0\0\0\x04\0\0\0eng\0x";
    assert_eq!("eng", from_bytes::<String>(data.as_bytes()).unwrap());
    assert_eq!(Err(Error::TrailingBytes), cst::from_bytes_exact::<String>(data.as_bytes()));
    let exact = "CMU_FLITE_CG_VOXDATA-v2.0\0\x01\0\0\0\x04\0\0\0eng\0";
    assert_eq!(Ok("eng".to_string()), cst::from_bytes_exact::<String>(exact.as_bytes()));
}

#[test]
fn gender_names() {
    assert_eq!(Ok(Gender::Male), "male".parse::<Gender>());
    assert_eq!(Ok(Gender::Female), "female".parse::<Gender>());
    assert_eq!(Ok(Gender::Unknown), "unknown".parse::<Gender>());
    assert_eq!(Ok(Gender::Unknown), "none".parse::<Gender>());
    assert!("Male".parse::<Gender>().is_err());
    assert_eq!(Gender::Unknown, Gender::default());
    let data = "CMU_FLITE_CG_VOXDATA-v2.0\0\x01\0\0\0\x06\0\0\0other\0";
    assert_eq!(Err(Error::UnknownVariant), from_bytes::<Gender>(data.as_bytes()));
}

#[test]
fn custom_error_keeps_message() {
    assert_eq!(Error::Message("no".to_string()), Error::custom("no".to_string()));
}

#[test]
fn test_struct() {
    #[derive(Debug, PartialEq)]
    struct Header {
        language: String,
        country: String,
        variant: String,
        age: u32,
        gender: Gender,
    }
    let data = "CMU_FLITE_CG_VOXDATA-v2.0\0\x01\0\0\0\x09\0\0\0language\0\x04\0\0\0eng\0\x08\0\0\0country\0\x04\0\0\0USA\0\x08\0\0\0variant\0\x05\0\0\0none\0\x04\0\0\0age\0\x03\0\0\030\0\x07\0\0\0gender\0\x08\0\0\0unknown\0";
    let expected = Header {
        language: "eng".to_string(),
        country: "USA".to_string(),
        variant: "none".to_string(),
        age: 30,
        gender: Gender::Unknown,
    };
    let mut d = Deserializer::from_bytes(data.as_bytes());
    d.expect_field("language").unwrap();
    let language = d.parse_str().unwrap();
    d.expect_field("country").unwrap();
    let country = d.parse_str().unwrap();
    d.expect_field("variant").unwrap();
    let variant = d.parse_str().unwrap();
    d.expect_field("age").unwrap();
    let age = d.parse_u32_text().unwrap();
    d.expect_field("gender").unwrap();
    let gender = <Gender as cst::Decode>::decode(&mut d).unwrap();
    assert_eq!(expected, Header { language, country, variant, age, gender });
}

#[test]
fn decimal_text_with_non_digit_is_malformed() {
    let data = "CMU_FLITE_CG_VOXDATA-v2.0\0\x01\0\0\0\x03\0\0\x001a\0";
    assert_eq!(Err(Error::ParseInt), from_bytes::<u128>(data.as_bytes()));
    let mut d = Deserializer::from_bytes(data.as_bytes());
    assert_eq!(Err(Error::ParseInt), d.parse_u32_text());
    let unterminated = "CMU_FLITE_CG_VOXDATA-v2.0\0\x01\0\0\0\x03\0\0\x00123";
    assert_eq!(Err(Error::WrongLength(3)), from_bytes::<u128>(unterminated.as_bytes()));
    let short = "CMU_FLITE_CG_VOXDATA-v2.0\0\x01\0\0\0\x05\0\0\x001a";
    assert_eq!(Err(Error::Eof), from_bytes::<u128>(short.as_bytes()));
}

#[test]
fn failed_reads_leave_the_decoder_as_it_was() {
    let data = "CMU_FLITE_CG_VOXDATA-v2.0\0\x01\0\0\0\x07\0\0";
    let mut d = Deserializer::from_bytes(data.as_bytes());
    d.validate_header().unwrap();
    assert_eq!(Err(Error::Eof), d.read_bytes());
    assert_eq!(Err(Error::Eof), d.get_size_of_next());
    assert!(!d.is_empty());
    let bad = "CMU_FLITE_CG_VOXDATA-v2.1\0\x01\0\0\0";
    let mut d = Deserializer::from_bytes(bad.as_bytes());
    assert_eq!(Err(Error::InvalidHeader), d.validate_header());
    assert_eq!(Err(Error::InvalidHeader), d.validate_header());
}
