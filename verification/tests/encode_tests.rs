use musq::codec::{Decode, Encode, Null, VecBit, VecInt8};
use musq::error::{DecodeError, EncodeError};
use musq::type_info::SqliteDataType;
use bstr::{BStr, BString};
use musq::value::{Value, ValueView};
use std::sync::Arc;

#[test]
fn test_option_some_i32() {
    let opt: Option<i32> = Some(42);
    let encoded = opt.encode().unwrap();

    if let Value::Integer { value, type_info } = encoded {
        assert_eq!(value, 42);
        assert_eq!(type_info, None);
    } else {
        panic!("Expected Integer value, got {:?}", encoded);
    }
}

#[test]
fn test_option_none_i32() {
    let opt: Option<i32> = None;
    let encoded = opt.encode().unwrap();

    if let Value::Null { type_info } = encoded {
        assert_eq!(type_info, None);
    } else {
        panic!("Expected Null value, got {:?}", encoded);
    }
}

#[test]
fn test_option_some_string() {
    let opt: Option<String> = Some("hello".to_string());
    let encoded = opt.encode().unwrap();

    if let Value::Text { value, type_info } = encoded {
        assert_eq!(value.as_str(), "hello");
        assert_eq!(type_info, None);
    } else {
        panic!("Expected Text value, got {:?}", encoded);
    }
}

#[test]
fn test_option_none_string() {
    let opt: Option<String> = None;
    let encoded = opt.encode().unwrap();

    if let Value::Null { type_info } = encoded {
        assert_eq!(type_info, None);
    } else {
        panic!("Expected Null value, got {:?}", encoded);
    }
}

#[test]
fn test_option_some_bool() {
    let opt: Option<bool> = Some(true);
    let encoded = opt.encode().unwrap();

    if let Value::Integer { value, type_info } = encoded {
        assert_eq!(value, 1);
        assert_eq!(type_info, None);
    } else {
        panic!("Expected Integer value for bool, got {:?}", encoded);
    }
}

#[test]
fn test_option_none_bool() {
    let opt: Option<bool> = None;
    let encoded = opt.encode().unwrap();

    if let Value::Null { type_info } = encoded {
        assert_eq!(type_info, None);
    } else {
        panic!("Expected Null value, got {:?}", encoded);
    }
}

#[test]
fn test_option_some_str_reference() {
    let opt: Option<&str> = Some("world");
    let encoded = opt.encode().unwrap();

    if let Value::Text { value, type_info } = encoded {
        assert_eq!(value.as_str(), "world");
        assert_eq!(type_info, None);
    } else {
        panic!("Expected Text value, got {:?}", encoded);
    }
}

#[test]
fn test_option_none_str_reference() {
    let opt: Option<&str> = None;
    let encoded = opt.encode().unwrap();

    if let Value::Null { type_info } = encoded {
        assert_eq!(type_info, None);
    } else {
        panic!("Expected Null value, got {:?}", encoded);
    }
}

struct Bad;

impl Encode for Bad {
    fn encoding(&self) -> Result<ValueView, vstd::seq::Seq<char>> {
        panic!("the encoding is a specification only")
    }

    fn encode(&self) -> Result<Value, EncodeError> {
        Err(EncodeError::Conversion("bad value".into()))
    }
}

#[test]
fn reference_propagates_encode_errors() {
    let value = Bad;
    let error = <&Bad as Encode>::encode(&&value).unwrap_err();
    assert!(error.message().contains("bad value"));
}

#[test]
fn test_nested_option() {
    let opt: Option<Option<i32>> = Some(Some(100));
    let encoded = opt.encode().unwrap();

    if let Value::Integer { value, type_info } = encoded {
        assert_eq!(value, 100);
        assert_eq!(type_info, None);
    } else {
        panic!("Expected Integer value, got {:?}", encoded);
    }
}

#[test]
fn test_nested_option_inner_none() {
    let opt: Option<Option<i32>> = Some(None);
    let encoded = opt.encode().unwrap();

    if let Value::Null { type_info } = encoded {
        assert_eq!(type_info, None);
    } else {
        panic!("Expected Null value, got {:?}", encoded);
    }
}

#[test]
fn test_nested_option_outer_none() {
    let opt: Option<Option<i32>> = None;
    let encoded = opt.encode().unwrap();

    if let Value::Null { type_info } = encoded {
        assert_eq!(type_info, None);
    } else {
        panic!("Expected Null value, got {:?}", encoded);
    }
}

#[test]
fn test_null_constant() {
    let encoded = Null.encode().unwrap();

    if let Value::Null { type_info } = encoded {
        assert_eq!(type_info, None);
    } else {
        panic!("Expected Null value, got {:?}", encoded);
    }
}

#[test]
fn test_null_unit_struct() {
    let null_val = Null;
    let encoded = null_val.encode().unwrap();

    if let Value::Null { type_info } = encoded {
        assert_eq!(type_info, None);
    } else {
        panic!("Expected Null value, got {:?}", encoded);
    }
}

#[test]
fn test_null_reference() {
    let encoded = Null.encode().unwrap();

    if let Value::Null { type_info } = encoded {
        assert_eq!(type_info, None);
    } else {
        panic!("Expected Null value, got {:?}", encoded);
    }
}

#[test]
fn bool_test_reference_encode() {
    let value = true;
    let result = value.encode().unwrap();
    if let Value::Integer { value: encoded, .. } = result {
        assert_eq!(encoded, 1);
    } else {
        panic!("Expected Integer value");
    }

    let value_false = false;
    let result = value_false.encode().unwrap();
    if let Value::Integer { value: encoded, .. } = result {
        assert_eq!(encoded, 0);
    } else {
        panic!("Expected Integer value");
    }
}

#[test]
fn int_test_reference_encode() {
    let value = 42i32;
    let result = value.encode().unwrap();
    if let Value::Integer { value: encoded, .. } = result {
        assert_eq!(encoded, 42);
    } else {
        panic!("Expected Integer value");
    }

    let value_i8 = 127i8;
    let result = value_i8.encode().unwrap();
    if let Value::Integer { value: encoded, .. } = result {
        assert_eq!(encoded, 127);
    } else {
        panic!("Expected Integer value");
    }

    let value_u32 = 123u32;
    let result = value_u32.encode().unwrap();
    if let Value::Integer { value: encoded, .. } = result {
        assert_eq!(encoded, 123);
    } else {
        panic!("Expected Integer value");
    }
}

#[test]
fn test_string_reference_encode() {
    let value = String::from("hello");
    let result = value.encode().unwrap();
    if let Value::Text { value: encoded, .. } = result {
        assert_eq!(encoded, "hello");
    } else {
        panic!("Expected Text value");
    }
}

#[test]
fn test_ref_pattern_like_user_code() {
    let tag = String::from("test_tag");
    let ref_tag = &tag;

    let result = ref_tag.encode().unwrap();
    if let Value::Text { value: encoded, .. } = result {
        assert_eq!(encoded, "test_tag");
    } else {
        panic!("Expected Text value");
    }
}

#[test]
fn checked_u64_boundaries() {
    assert_eq!(0_u64.encode().unwrap().int64().unwrap(), 0);
    assert_eq!(
        (i64::MAX as u64).encode().unwrap().int64().unwrap(),
        i64::MAX
    );
    assert!((i64::MAX as u64 + 1).encode().is_err());

    let negative = Value::Integer {
        value: -1,
        type_info: None,
    };
    assert!(u64::decode(&negative).is_err());
}

#[test]
fn checked_usize_boundaries() {
    assert_eq!(0_usize.encode().unwrap().int64().unwrap(), 0);
    if usize::BITS > 63 {
        assert_eq!(
            (i64::MAX as usize).encode().unwrap().int64().unwrap(),
            i64::MAX
        );
        assert!((i64::MAX as usize + 1).encode().is_err());
    } else {
        assert_eq!(
            usize::MAX.encode().unwrap().int64().unwrap(),
            usize::MAX as i64
        );
    }

    let negative = Value::Integer {
        value: -1,
        type_info: None,
    };
    assert!(usize::decode(&negative).is_err());
}

#[test]
fn encode_error_message_names_the_conversion() {
    let e = (u64::MAX).encode().unwrap_err();
    assert!(e.message().starts_with("encoding conversion error: "));
}

#[test]
fn vec_int8_full_range_round_trip() {
    let input = VecInt8((i8::MIN..=i8::MAX).collect());
    let encoded = input.encode().unwrap();
    let decoded = VecInt8::decode(&encoded).unwrap();
    assert_eq!(decoded, input);
}

#[test]
fn vec_bit_round_trip() {
    let input = VecBit(vec![0b1010_1010, 0b1100_0011, 0, 255]);
    let encoded = input.encode().unwrap();
    let decoded = VecBit::decode(&encoded).unwrap();
    assert_eq!(decoded, input);
}

#[test]
fn vec_int8_bytes_are_twos_complement() {
    let encoded = VecInt8(vec![-1, 0, 1, -128]).encode().unwrap();
    assert_eq!(encoded.blob().unwrap(), &[255u8, 0, 1, 128][..]);
}

#[test]
fn shared_text_and_bytes_round_trip() {
    let s = Arc::new("shared".to_string());
    let v = s.encode().unwrap();
    assert_eq!(*<Arc<String>>::decode(&v).unwrap(), "shared");
    let b = Arc::new(vec![1u8, 2, 3]);
    let v = b.encode().unwrap();
    assert_eq!(*<Arc<Vec<u8>>>::decode(&v).unwrap(), vec![1u8, 2, 3]);
}

#[test]
fn borrowed_and_owned_bstr_encode() {
    let borrowed = BStr::new(b"borrowed");
    assert_eq!(borrowed.encode().unwrap().blob().unwrap(), b"borrowed");

    let owned = BString::from(Vec::from(&b"owned"[..]));
    assert_eq!(owned.encode().unwrap().blob().unwrap(), b"owned");
}

#[test]
fn bstring_decodes_blobs_and_text() {
    let blob = Value::Blob { value: vec![0xff, 0x00], type_info: None };
    assert_eq!(BString::decode(&blob).unwrap(), BString::from(vec![0xff, 0x00]));
    let text = Value::Text { value: "hi".to_string(), type_info: None };
    assert_eq!(BString::decode(&text).unwrap(), BString::from("hi"));
    let int = Value::Integer { value: 1, type_info: Some(SqliteDataType::Int) };
    assert!(matches!(BString::decode(&int), Err(DecodeError::IncompatibleDataType(SqliteDataType::Int))));
}
