use vc_status_list::envelope::{list_members, WireValue};
use vc_status_list::text::{digit_str, push_decimal, push_hex};
use vc_status_list::{
    BitsPerStatus, CborStatusList, JsonStatusList, SerializationError, StatusList, StatusType,
    StatusTypeError,
};

#[test]
fn test_serialization_errors() {
    let invalid_status_list = StatusList {
        bits: 1,
        lst: vec![0xFF, 0xFF],
        aggregation_uri: None,
    };

    assert!(invalid_status_list.to_json().is_ok());

    assert!(invalid_status_list.to_cbor().is_ok());
}

#[test]
fn test_serialization_formats() {
    let status_list = StatusList {
        bits: 1,
        lst: vec![0xB9, 0xA3],
        aggregation_uri: None,
    };

    let json = status_list.to_json().unwrap();
    assert!(json.contains("\"bits\":1"));
    assert!(json.contains("\"lst\":"));

    let cbor = status_list.to_cbor().unwrap();
    assert!(cbor.starts_with("a2"));
    assert!(cbor.contains("6462697473"));
    assert!(cbor.contains("636c7374"));
}

#[test]
fn types_test_serialization_error_display() {
    let json_error = SerializationError::JsonError("test error".to_string());
    assert_eq!(
        json_error.to_string(),
        "JSON serialization error: test error"
    );

    let cbor_error = SerializationError::CborError("test error".to_string());
    assert_eq!(
        cbor_error.to_string(),
        "CBOR serialization error: test error"
    );
}

#[test]
fn test_application_specific_status_types() {
    assert_eq!(StatusType::try_from(0x03).unwrap(), StatusType::ApplicationSpecific3);
    assert_eq!(StatusType::try_from(0x0B).unwrap(), StatusType::ApplicationSpecific11);
    assert_eq!(StatusType::try_from(0x0C).unwrap(), StatusType::ApplicationSpecific12);
    assert_eq!(StatusType::try_from(0x0D).unwrap(), StatusType::ApplicationSpecific13);
    assert_eq!(StatusType::try_from(0x0E).unwrap(), StatusType::ApplicationSpecific14);
    assert_eq!(StatusType::try_from(0x0F).unwrap(), StatusType::ApplicationSpecific15);
}

#[test]
fn test_all_standard_status_types() {
    assert_eq!(StatusType::try_from(0x00).unwrap(), StatusType::Valid);
    assert_eq!(StatusType::try_from(0x01).unwrap(), StatusType::Invalid);
    assert_eq!(StatusType::try_from(0x02).unwrap(), StatusType::Suspended);
}

#[test]
fn test_reserved_status_types_error() {
    for value in 0x04..=0x0A {
        assert!(StatusType::try_from(value).is_err());
    }

    assert!(StatusType::try_from(0x10).is_err());
    assert!(StatusType::try_from(0xFF).is_err());
}

#[test]
fn status_set_is_closed() {
    let codes: [u8; 9] = [0, 1, 2, 3, 11, 12, 13, 14, 15];
    for value in 0u8..=255 {
        match StatusType::try_from(value) {
            Ok(status) => {
                assert!(codes.contains(&value));
                assert_eq!(status.value(), value);
            }
            Err(StatusTypeError::UndefinedStatusType(rejected)) => {
                assert!(!codes.contains(&value));
                assert_eq!(rejected, value);
            }
            Err(other) => panic!("unexpected error {:?}", other),
        }
    }
}

#[test]
fn bit_widths_are_closed() {
    for value in 0u8..=255 {
        match BitsPerStatus::try_from(value) {
            Ok(width) => {
                assert!(value == 1 || value == 2 || value == 4 || value == 8);
                assert_eq!(width.bits(), value);
            }
            Err(StatusTypeError::InvalidBitsPerStatus(rejected)) => {
                assert!(value != 1 && value != 2 && value != 4 && value != 8);
                assert_eq!(rejected, value);
            }
            Err(other) => panic!("unexpected error {:?}", other),
        }
    }
    assert_eq!(BitsPerStatus::try_from(4).unwrap(), BitsPerStatus::FourBit);
}

#[test]
fn json_form_is_exact() {
    let status_list = StatusList { bits: 1, lst: vec![0xB9, 0xA3], aggregation_uri: None };
    assert_eq!(status_list.to_json().unwrap(), r#"{"bits":1,"lst":"uaM"}"#);

    let status_list = StatusList {
        bits: 2,
        lst: vec![0xFB, 0xFF],
        aggregation_uri: Some("https://example.com/statuslists".to_string()),
    };
    assert_eq!(
        status_list.to_json().unwrap(),
        r#"{"bits":2,"lst":"-_8","aggregation_uri":"https://example.com/statuslists"}"#
    );
    assert_eq!(status_list.lst, vec![0xFB, 0xFF]);
}

#[test]
fn cbor_form_is_exact() {
    let status_list = StatusList { bits: 1, lst: vec![0xB9, 0xA3], aggregation_uri: None };
    assert_eq!(status_list.to_cbor().unwrap(), "a2646269747301636c737442b9a3");

    let status_list = StatusList {
        bits: 8,
        lst: vec![0x00],
        aggregation_uri: Some("ab".to_string()),
    };
    assert_eq!(
        status_list.to_cbor().unwrap(),
        "a3646269747308636c737441006f6167677265676174696f6e5f757269626162"
    );
}

#[test]
fn envelope_members_keep_their_order() {
    let uri = "u".to_string();
    let members = list_members(4, WireValue::Bytes(vec![1, 2]), Some(&uri));
    let names: Vec<&str> = members.iter().map(|member| member.name).collect();
    assert_eq!(names, vec!["bits", "lst", "aggregation_uri"]);
    assert!(matches!(members[0].value, WireValue::Unsigned(4)));
    assert!(matches!(&members[1].value, WireValue::Bytes(bytes) if bytes == &vec![1, 2]));
    assert!(matches!(&members[2].value, WireValue::Text(text) if text == "u"));

    let members = list_members(1, WireValue::Text("x".to_string()), None);
    assert_eq!(members.len(), 2);

    let json = JsonStatusList { bits: 2, lst: "abc".to_string(), aggregation_uri: None };
    let members = json.into_members();
    assert_eq!(members.len(), 2);
    assert!(matches!(&members[1].value, WireValue::Text(text) if text == "abc"));

    let cbor = CborStatusList { bits: 2, lst: vec![9], aggregation_uri: Some(&uri) };
    let members = cbor.into_members();
    assert_eq!(members.len(), 3);
    assert!(matches!(&members[1].value, WireValue::Bytes(bytes) if bytes == &vec![9]));
}

#[test]
fn wrapped_outcomes_of_rendering() {
    assert_eq!(StatusList::wrap_json(Ok("{}".to_string())).unwrap(), "{}");
    match StatusList::wrap_json(Err("no".to_string())) {
        Err(SerializationError::JsonError(detail)) => assert_eq!(detail, "no"),
        _ => panic!("expected a JSON error"),
    }
    assert_eq!(StatusList::wrap_cbor(Ok(vec![0x00, 0x0F, 0xA5, 0xFF])).unwrap(), "000fa5ff");
    assert_eq!(StatusList::wrap_cbor(Ok(Vec::new())).unwrap(), "");
    match StatusList::wrap_cbor(Err("no".to_string())) {
        Err(SerializationError::CborError(detail)) => assert_eq!(detail, "no"),
        _ => panic!("expected a CBOR error"),
    }
}

#[test]
fn numbers_and_bytes_as_text() {
    let mut text = String::from("n=");
    push_decimal(&mut text, 0);
    text.push(',');
    push_decimal(&mut text, 10);
    text.push(',');
    push_decimal(&mut text, 9_007_199);
    assert_eq!(text, "n=0,10,9007199");

    let mut hex = String::from("0x");
    push_hex(&mut hex, &[0x01, 0x23, 0xAB, 0xCD, 0xEF]);
    assert_eq!(hex, "0x0123abcdef");

    let digits: Vec<&str> = (0u8..16).map(digit_str).collect();
    assert_eq!(digits.concat(), "0123456789abcdef");
}

#[test]
fn cbor_text_is_lowercase_hex_of_a_map() {
    let without = StatusList { bits: 4, lst: vec![0xAB, 0xCD, 0xEF], aggregation_uri: None };
    let with = StatusList {
        bits: 4,
        lst: vec![0xAB, 0xCD, 0xEF],
        aggregation_uri: Some("urn:x".to_string()),
    };
    for (list, start) in [(without, "a2"), (with, "a3")] {
        let hex = list.to_cbor().unwrap();
        assert!(hex.starts_with(start));
        assert_eq!(hex.len() % 2, 0);
        assert!(hex.chars().all(|c| matches!(c, '0'..='9' | 'a'..='f')));
        assert!(hex.contains("43abcdef"));
    }
}
