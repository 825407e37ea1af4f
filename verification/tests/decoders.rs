use serde_json::Value;
use tpb::{
    empty_as_none, parse_timestamp, u16_from_str, u64_from_str, unit_array, DecodeError,
    FromJson, Timestamp,
};

fn value_of(text: &str) -> Value {
    serde_json::from_str(text).unwrap()
}

#[test]
fn u64_from_number() {
    assert_eq!(u64_from_str(&value_of("0")), Ok(0));
    assert_eq!(u64_from_str(&value_of("5")), Ok(5));
    assert_eq!(u64_from_str(&value_of("18446744073709551615")), Ok(u64::MAX));
    assert_eq!(u64_from_str(&Value::from(123456789u64)), Ok(123456789));
}

#[test]
fn u64_from_numeric_string() {
    assert_eq!(u64_from_str(&value_of("\"0\"")), Ok(0));
    assert_eq!(u64_from_str(&value_of("\"5\"")), Ok(5));
    assert_eq!(u64_from_str(&value_of("\"18446744073709551615\"")), Ok(u64::MAX));
    assert_eq!(u64_from_str(&Value::String("42".to_string())), Ok(42));
}

#[test]
fn u64_number_and_string_agree() {
    for n in [0u64, 1, 100, 65535, 65536, 1_700_000_000, u64::MAX] {
        let as_number = u64_from_str(&Value::from(n));
        let as_text = u64_from_str(&Value::String(n.to_string()));
        assert_eq!(as_number, Ok(n));
        assert_eq!(as_text, Ok(n));
    }
}

#[test]
fn u64_refuses_values_out_of_range() {
    let expected = Err(DecodeError::ExpectedInteger);
    assert_eq!(u64_from_str(&value_of("-1")), expected);
    assert_eq!(u64_from_str(&value_of("\"-1\"")), expected);
    assert_eq!(u64_from_str(&value_of("18446744073709551616")), expected);
    assert_eq!(u64_from_str(&value_of("\"18446744073709551616\"")), expected);
    assert_eq!(u64_from_str(&value_of("1.5")), expected);
    assert_eq!(u64_from_str(&value_of("1.0")), expected);
    assert_eq!(u64_from_str(&value_of("1e3")), expected);
}

#[test]
fn u64_refuses_non_numeric_strings() {
    let expected = Err(DecodeError::ExpectedInteger);
    assert_eq!(u64_from_str(&value_of("\"abc\"")), expected);
    assert_eq!(u64_from_str(&value_of("\"\"")), expected);
    assert_eq!(u64_from_str(&value_of("\"12a\"")), expected);
    assert_eq!(u64_from_str(&value_of("\" 12\"")), expected);
    assert_eq!(u64_from_str(&value_of("\"1.5\"")), expected);
}

#[test]
fn u64_refuses_other_kinds() {
    let expected = Err(DecodeError::ExpectedInteger);
    assert_eq!(u64_from_str(&value_of("null")), expected);
    assert_eq!(u64_from_str(&value_of("true")), expected);
    assert_eq!(u64_from_str(&value_of("[1]")), expected);
    assert_eq!(u64_from_str(&value_of("{\"a\":1}")), expected);
}

#[test]
fn u16_accepts_its_whole_range() {
    assert_eq!(u16_from_str(&value_of("0")), Ok(0));
    assert_eq!(u16_from_str(&value_of("207")), Ok(207));
    assert_eq!(u16_from_str(&value_of("\"207\"")), Ok(207));
    assert_eq!(u16_from_str(&value_of("65535")), Ok(65535));
    assert_eq!(u16_from_str(&value_of("\"65535\"")), Ok(65535));
    for n in [0u16, 1, 99, 100, 255, 256, 9999, 65534, 65535] {
        assert_eq!(u16_from_str(&Value::from(n)), Ok(n));
        assert_eq!(u16_from_str(&Value::String(n.to_string())), Ok(n));
    }
}

#[test]
fn u16_refuses_a_valid_u64_that_is_too_large() {
    assert_eq!(u64_from_str(&value_of("65536")), Ok(65536));
    assert_eq!(u16_from_str(&value_of("65536")), Err(DecodeError::ExpectedU16));
    assert_eq!(u16_from_str(&value_of("\"65536\"")), Err(DecodeError::ExpectedU16));
    assert_eq!(u16_from_str(&value_of("18446744073709551615")), Err(DecodeError::ExpectedU16));
    assert_eq!(u16_from_str(&value_of("70000")), Err(DecodeError::ExpectedU16));
}

#[test]
fn u16_refuses_what_is_no_u64() {
    assert_eq!(u16_from_str(&value_of("-1")), Err(DecodeError::ExpectedInteger));
    assert_eq!(u16_from_str(&value_of("\"x\"")), Err(DecodeError::ExpectedInteger));
    assert_eq!(u16_from_str(&value_of("null")), Err(DecodeError::ExpectedInteger));
}

#[test]
fn timestamp_from_string_and_number_is_the_same_instant() {
    let from_text = parse_timestamp(&value_of("\"1700000000\"")).unwrap();
    let from_number = parse_timestamp(&value_of("1700000000")).unwrap();
    assert_eq!(from_text, from_number);
    assert_eq!(from_text.secs(), 1_700_000_000);
    let instant = chrono::DateTime::from_timestamp(from_number.secs(), 0).unwrap();
    assert_eq!(instant.to_rfc3339(), "2023-11-14T22:13:20+00:00");
    assert_eq!(instant.timestamp_subsec_nanos(), 0);
}

#[test]
fn timestamp_refuses_non_numeric_string() {
    assert_eq!(parse_timestamp(&value_of("\"yesterday\"")), Err(DecodeError::ExpectedTimestamp));
    assert_eq!(parse_timestamp(&value_of("\"\"")), Err(DecodeError::ExpectedTimestamp));
    assert_eq!(parse_timestamp(&value_of("\"17e8\"")), Err(DecodeError::ExpectedTimestamp));
}

#[test]
fn timestamp_refuses_other_kinds() {
    assert_eq!(parse_timestamp(&value_of("null")), Err(DecodeError::ExpectedTimestamp));
    assert_eq!(parse_timestamp(&value_of("1.5")), Err(DecodeError::ExpectedTimestamp));
    assert_eq!(parse_timestamp(&value_of("[1700000000]")), Err(DecodeError::ExpectedTimestamp));
    assert_eq!(
        parse_timestamp(&value_of("18446744073709551615")),
        Err(DecodeError::ExpectedTimestamp)
    );
}

#[test]
fn timestamp_may_lie_before_the_epoch() {
    assert_eq!(parse_timestamp(&value_of("0")).unwrap().secs(), 0);
    assert_eq!(parse_timestamp(&value_of("-1")).unwrap().secs(), -1);
    assert_eq!(parse_timestamp(&value_of("\"-86400\"")).unwrap().secs(), -86400);
    assert_eq!(parse_timestamp(&value_of("\"+60\"")).unwrap().secs(), 60);
}

#[test]
fn timestamp_refuses_seconds_beyond_the_calendar() {
    assert_eq!(
        parse_timestamp(&value_of("9223372036854775807")),
        Err(DecodeError::ExpectedTimestamp)
    );
    assert_eq!(
        parse_timestamp(&value_of("\"-9223372036854775808\"")),
        Err(DecodeError::ExpectedTimestamp)
    );
}

#[test]
fn timestamp_from_secs_follows_chrono() {
    for secs in [
        0i64, 1, -1, 1_700_000_000, 8_210_266_876_799, 8_210_266_876_800, -8_334_601_228_800,
        -8_334_601_228_801, i64::MAX, i64::MIN,
    ] {
        let ours = Timestamp::from_secs(secs);
        let theirs = chrono::DateTime::from_timestamp(secs, 0);
        assert_eq!(ours.is_some(), theirs.is_some(), "for {}", secs);
        if let (Some(t), Some(d)) = (ours, theirs) {
            assert_eq!(t.secs(), secs);
            assert_eq!(d.timestamp(), secs);
        }
    }
    assert!(Timestamp::from_secs(8_210_266_876_799).is_some());
    assert!(Timestamp::from_secs(8_210_266_876_800).is_none());
}

#[test]
fn empty_as_none_maps_empty_and_null_to_absent() {
    assert_eq!(empty_as_none(&value_of("\"\"")), Ok(None));
    assert_eq!(empty_as_none(&value_of("null")), Ok(None));
    assert_eq!(empty_as_none(&value_of("\"abc\"")), Ok(Some("abc".to_string())));
}

#[test]
fn empty_as_none_keeps_any_non_empty_string() {
    assert_eq!(empty_as_none(&value_of("\" \"")), Ok(Some(" ".to_string())));
    assert_eq!(empty_as_none(&value_of("\"tt0133093\"")), Ok(Some("tt0133093".to_string())));
    assert_eq!(empty_as_none(&value_of("\"null\"")), Ok(Some("null".to_string())));
}

#[test]
fn empty_as_none_refuses_other_kinds() {
    assert_eq!(empty_as_none(&value_of("5")), Err(DecodeError::ExpectedString));
    assert_eq!(empty_as_none(&value_of("false")), Err(DecodeError::ExpectedString));
    assert_eq!(empty_as_none(&value_of("[]")), Err(DecodeError::ExpectedString));
    assert_eq!(empty_as_none(&value_of("{}")), Err(DecodeError::ExpectedString));
}

#[test]
fn unit_array_unwraps_the_single_element() {
    assert_eq!(unit_array::<String>(&value_of("[\"x\"]")), Ok("x".to_string()));
    assert_eq!(unit_array::<u64>(&value_of("[123]")), Ok(123));
}

#[test]
fn unit_array_refuses_other_lengths() {
    assert_eq!(unit_array::<String>(&value_of("[]")), Err(DecodeError::ExpectedUnitArray));
    assert_eq!(
        unit_array::<String>(&value_of("[\"x\",\"y\"]")),
        Err(DecodeError::ExpectedUnitArray)
    );
    assert_eq!(unit_array::<u64>(&value_of("[1,2,3]")), Err(DecodeError::ExpectedUnitArray));
}

#[test]
fn unit_array_refuses_what_is_no_array() {
    assert_eq!(unit_array::<String>(&value_of("\"x\"")), Err(DecodeError::ExpectedArray));
    assert_eq!(unit_array::<u64>(&value_of("5")), Err(DecodeError::ExpectedArray));
    assert_eq!(unit_array::<u64>(&value_of("null")), Err(DecodeError::ExpectedArray));
    assert_eq!(unit_array::<u64>(&value_of("{\"0\":5}")), Err(DecodeError::ExpectedArray));
}

#[test]
fn unit_array_wraps_the_error_of_its_element() {
    assert_eq!(
        unit_array::<String>(&value_of("[5]")),
        Err(DecodeError::Element(Box::new(DecodeError::ExpectedString)))
    );
    assert_eq!(
        unit_array::<u64>(&value_of("[\"5\"]")),
        Err(DecodeError::Element(Box::new(DecodeError::ExpectedUnsigned)))
    );
    assert_eq!(
        unit_array::<u64>(&value_of("[-5]")),
        Err(DecodeError::Element(Box::new(DecodeError::ExpectedUnsigned)))
    );
    assert_eq!(
        unit_array::<Vec<u64>>(&value_of("[[1,\"2\"]]")),
        Err(DecodeError::Element(Box::new(DecodeError::ExpectedUnsigned)))
    );
}

#[test]
fn unit_array_nests() {
    assert_eq!(unit_array::<Vec<u64>>(&value_of("[[1,2,3]]")), Ok(vec![1, 2, 3]));
    assert_eq!(unit_array::<Option<String>>(&value_of("[null]")), Ok(None));
    assert_eq!(unit_array::<Option<String>>(&value_of("[\"\"]")), Ok(Some(String::new())));
}

#[test]
fn strict_u64_takes_numbers_only() {
    assert_eq!(u64::from_json(&value_of("7")), Ok(7));
    assert_eq!(u64::from_json(&value_of("18446744073709551615")), Ok(u64::MAX));
    assert_eq!(u64::from_json(&value_of("\"7\"")), Err(DecodeError::ExpectedUnsigned));
    assert_eq!(u64::from_json(&value_of("-7")), Err(DecodeError::ExpectedUnsigned));
    assert_eq!(u64::from_json(&value_of("7.5")), Err(DecodeError::ExpectedUnsigned));
    assert_eq!(usize::from_json(&value_of("7")), Ok(7));
    assert_eq!(usize::from_json(&value_of("null")), Err(DecodeError::ExpectedUnsigned));
}

#[test]
fn strict_string_takes_strings_only() {
    assert_eq!(String::from_json(&value_of("\"a\\nb\"")), Ok("a\nb".to_string()));
    assert_eq!(String::from_json(&value_of("\"\"")), Ok(String::new()));
    assert_eq!(String::from_json(&value_of("7")), Err(DecodeError::ExpectedString));
    assert_eq!(String::from_json(&value_of("null")), Err(DecodeError::ExpectedString));
}

#[test]
fn option_reads_null_as_none() {
    assert_eq!(Option::<usize>::from_json(&value_of("null")), Ok(None));
    assert_eq!(Option::<usize>::from_json(&value_of("3")), Ok(Some(3)));
    assert_eq!(Option::<usize>::from_json(&value_of("\"3\"")), Err(DecodeError::ExpectedUnsigned));
}

#[test]
fn vec_reads_every_element_in_order() {
    assert_eq!(Vec::<u64>::from_json(&value_of("[]")), Ok(vec![]));
    assert_eq!(Vec::<u64>::from_json(&value_of("[3,1,2]")), Ok(vec![3, 1, 2]));
    assert_eq!(
        Vec::<String>::from_json(&value_of("[\"a\",\"b\"]")),
        Ok(vec!["a".to_string(), "b".to_string()])
    );
}

#[test]
fn vec_fails_on_the_first_bad_element() {
    assert_eq!(Vec::<u64>::from_json(&value_of("[1,\"x\",-3]")), Err(DecodeError::ExpectedUnsigned));
    assert_eq!(
        Vec::<Option<String>>::from_json(&value_of("[null,\"a\",5,[]]")),
        Err(DecodeError::ExpectedString)
    );
    assert_eq!(Vec::<u64>::from_json(&value_of("{\"a\":1}")), Err(DecodeError::ExpectedArray));
    assert_eq!(Vec::<u64>::from_json(&value_of("7")), Err(DecodeError::ExpectedArray));
}

#[test]
fn error_messages_describe_the_expected_shape() {
    assert_eq!(DecodeError::ExpectedInteger.message(), "expected a u64 or a string");
    assert_eq!(DecodeError::ExpectedU16.message(), "expected a u16");
    assert_eq!(DecodeError::ExpectedTimestamp.message(), "expected a timestamp in seconds");
    assert_eq!(DecodeError::ExpectedArray.message(), "expected an array");
    assert_eq!(DecodeError::ExpectedUnitArray.message(), "expected an array of length 1");
    assert_eq!(DecodeError::ExpectedString.message(), "expected a string");
    assert_eq!(DecodeError::ExpectedUnsigned.message(), "expected a u64");
    assert_eq!(DecodeError::ExpectedObject.message(), "expected an object");
    assert_eq!(DecodeError::UnknownStatus.message(), "unknown user status");
    assert_eq!(DecodeError::Malformed.message(), "expected a JSON document");
    assert_eq!(DecodeError::MissingField("id").message(), "missing field `id`");
    assert_eq!(
        DecodeError::Element(Box::new(DecodeError::ExpectedString)).message(),
        "failed to deserialize: expected a string"
    );
    assert_eq!(
        DecodeError::Element(Box::new(DecodeError::Element(Box::new(DecodeError::ExpectedU16))))
            .message(),
        "failed to deserialize: failed to deserialize: expected a u16"
    );
}
