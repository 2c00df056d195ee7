use serde_json::Value;
use vc_status_list::{
    DecoderError, StatusList, StatusListBuilder, StatusListDecoder, StatusListEncoder, StatusType,
};

#[test]
fn test_decode_1bit_encoding() -> Result<(), DecoderError> {
    let mut builder = StatusListBuilder::new(1)
        .map_err(|e| DecoderError::StatusListCreationError(e.to_string()))?;
    builder.add_status(StatusType::Valid);
    builder.add_status(StatusType::Invalid);
    builder.add_status(StatusType::Valid);
    builder.add_status(StatusType::Invalid);

    let status_list = builder
        .build()
        .map_err(|e| DecoderError::StatusListCreationError(e.to_string()))?;
    let decoder = StatusListDecoder::new(&status_list)?;

    assert_eq!(decoder.get_status(0)?, StatusType::Valid);
    assert_eq!(decoder.get_status(1)?, StatusType::Invalid);
    assert_eq!(decoder.get_status(2)?, StatusType::Valid);
    assert_eq!(decoder.get_status(3)?, StatusType::Invalid);

    Ok(())
}

#[test]
fn test_decode_2bit_encoding() -> Result<(), DecoderError> {
    let mut builder = StatusListBuilder::new(2)
        .map_err(|e| DecoderError::StatusListCreationError(e.to_string()))?;
    builder.add_status(StatusType::Valid);
    builder.add_status(StatusType::Invalid);
    builder.add_status(StatusType::Suspended);
    builder.add_status(StatusType::ApplicationSpecific3);

    let status_list = builder
        .build()
        .map_err(|e| DecoderError::StatusListCreationError(e.to_string()))?;
    let decoder = StatusListDecoder::new(&status_list)?;

    assert_eq!(decoder.get_status(0)?, StatusType::Valid);
    assert_eq!(decoder.get_status(1)?, StatusType::Invalid);
    assert_eq!(decoder.get_status(2)?, StatusType::Suspended);
    assert_eq!(decoder.get_status(3)?, StatusType::ApplicationSpecific3);

    Ok(())
}

#[test]
fn test_decode_4bit_encoding() -> Result<(), DecoderError> {
    let mut builder = StatusListBuilder::new(4)
        .map_err(|e| DecoderError::StatusListCreationError(e.to_string()))?;
    builder.add_status(StatusType::Valid);
    builder.add_status(StatusType::Invalid);
    builder.add_status(StatusType::Suspended);
    builder.add_status(StatusType::ApplicationSpecific15);
    let status_list = builder
        .build()
        .map_err(|e| DecoderError::StatusListCreationError(e.to_string()))?;
    let decoder = StatusListDecoder::new(&status_list)?;
    assert_eq!(decoder.get_status(0)?, StatusType::Valid);
    assert_eq!(decoder.get_status(2)?, StatusType::Suspended);
    assert_eq!(decoder.get_status(3)?, StatusType::ApplicationSpecific15);

    Ok(())
}

#[test]
fn test_decode_8bit_encoding() -> Result<(), DecoderError> {
    let mut builder = StatusListBuilder::new(8)
        .map_err(|e| DecoderError::StatusListCreationError(e.to_string()))?;
    builder.add_status(StatusType::Valid);
    builder.add_status(StatusType::Invalid);
    builder.add_status(StatusType::Suspended);
    builder.add_status(StatusType::ApplicationSpecific15);
    let status_list = builder
        .build()
        .map_err(|e| DecoderError::StatusListCreationError(e.to_string()))?;
    let decoder = StatusListDecoder::new(&status_list)?;
    assert_eq!(decoder.get_status(0)?, StatusType::Valid);
    assert_eq!(decoder.get_status(2)?, StatusType::Suspended);
    assert_eq!(decoder.get_status(3)?, StatusType::ApplicationSpecific15);

    Ok(())
}

#[test]
fn test_base64_decoding() -> Result<(), DecoderError> {
    let mut builder = StatusListBuilder::new(8)
        .map_err(|e| DecoderError::StatusListCreationError(e.to_string()))?;
    builder.add_status(StatusType::Valid);
    builder.add_status(StatusType::Invalid);
    builder.add_status(StatusType::Suspended);
    builder.add_status(StatusType::ApplicationSpecific3);

    let status_list = builder
        .build()
        .map_err(|e| DecoderError::StatusListCreationError(e.to_string()))?;
    let json = status_list
        .to_json()
        .map_err(|e| DecoderError::SerializationError(e.to_string()))?;
    let decoded: Value = serde_json::from_str(&json)
        .map_err(|e| DecoderError::SerializationError(e.to_string()))?;

    let base64_str = decoded["lst"].as_str().unwrap();

    let decoder = StatusListDecoder::new_from_base64(base64_str)?;

    assert_eq!(decoder.get_status(0)?, StatusType::Valid);
    assert_eq!(decoder.get_status(1)?, StatusType::Invalid);
    assert_eq!(decoder.get_status(2)?, StatusType::Suspended);
    assert_eq!(decoder.get_status(3)?, StatusType::ApplicationSpecific3);

    Ok(())
}

#[test]
fn test_decoder_base64_error() {
    let status_list = StatusList {
        bits: 2,
        lst: vec![0xFF, 0xFF],
        aggregation_uri: None,
    };

    match StatusListDecoder::new(&status_list) {
        Err(DecoderError::DecompressionError(_)) => (),
        _ => panic!("Expected DecompressionError"),
    }
}

#[test]
fn test_decoder_base64_from_string() {
    match StatusListDecoder::new_from_base64("invalid base64!@#$") {
        Err(e) => assert!(e.to_string().contains("Base64 decoding error")),
        _ => panic!("Expected Base64 decoding error"),
    }
}

#[test]
fn test_decoder_decompression_error() {
    let status_list = StatusList {
        bits: 2,
        lst: "SGVsbG8gV29ybGQh".as_bytes().to_vec(),
        aggregation_uri: None,
    };

    match StatusListDecoder::new(&status_list) {
        Err(DecoderError::DecompressionError(_)) => (),
        _ => panic!("Expected DecompressionError"),
    }
}

#[test]
fn test_decoder_invalid_byte_index() {
    let mut builder = StatusListBuilder::new(2).unwrap();
    builder.add_status(StatusType::Valid);
    let status_list = builder.build().unwrap();
    let decoder = StatusListDecoder::new(&status_list).unwrap();

    match decoder.get_status(100) {
        Err(DecoderError::InvalidByteIndex(_)) => (),
        _ => panic!("Expected InvalidByteIndex error"),
    }
}

#[test]
fn test_decoder_invalid_status_type() {
    let status_list = StatusList {
        bits: 8,
        lst: "eJzLBQAAdgB2".as_bytes().to_vec(),
        aggregation_uri: None,
    };

    if let Ok(decoder) = StatusListDecoder::new(&status_list) {
        match decoder.get_status(0) {
            Err(DecoderError::InvalidStatusType(_)) => (),
            _ => panic!("Expected InvalidStatusType error"),
        }
    }
}

#[test]
fn test_decoder_error_display() {
    let errors = [
        DecoderError::Base64Error("invalid input".to_string()),
        DecoderError::DecompressionError("invalid data".to_string()),
        DecoderError::InvalidByteIndex(100),
        DecoderError::InvalidStatusType(255),
    ];

    for error in errors {
        let error_string = error.to_string();
        match error {
            DecoderError::Base64Error(_) => {
                assert!(error_string.contains("Base64 decoding error"));
            }
            DecoderError::DecompressionError(_) => {
                assert!(error_string.contains("ZLIB decompression error"));
            }
            DecoderError::InvalidByteIndex(_) => {
                assert!(error_string.contains("Invalid byte index"));
            }
            DecoderError::InvalidStatusType(_) => {
                assert!(error_string.contains("Invalid status type value"));
            }
            DecoderError::StatusListCreationError(_) => {
                assert!(error_string.contains("Status list creation error"));
            }
            DecoderError::SerializationError(_) => {
                assert!(error_string.contains("Serialization error"));
            }
        }
    }
}

fn decoder_over(bytes: &[u8], bits: u8) -> StatusListDecoder {
    let status_list = StatusListEncoder::new(bits).finalize(bytes).unwrap();
    StatusListDecoder::new(&status_list).unwrap()
}

#[test]
fn index_past_the_end_names_its_byte() {
    for bits in [1u8, 2, 4, 8] {
        let per_byte: usize = 8 / bits as usize;

        let empty = decoder_over(&[], bits);
        assert!(empty.is_empty());
        assert_eq!(empty.len(), 0);
        assert!(matches!(empty.get_status(0), Err(DecoderError::InvalidByteIndex(0))));
        assert!(matches!(empty.get_status(1000), Err(DecoderError::InvalidByteIndex(n)) if n == 1000 / per_byte));

        let single = decoder_over(&[0x00], bits);
        assert!(!single.is_empty());
        assert_eq!(single.len(), per_byte);
        assert_eq!(single.get_status(per_byte - 1).unwrap(), StatusType::Valid);
        assert!(matches!(single.get_status(per_byte), Err(DecoderError::InvalidByteIndex(1))));
        assert!(matches!(
            single.get_status(usize::MAX),
            Err(DecoderError::InvalidByteIndex(n)) if n == usize::MAX / per_byte
        ));
    }
}

#[test]
fn value_outside_the_status_set_is_reported() {
    let decoder = decoder_over(&[0x04, 0x0A, 0x10, 0xFF, 0x0B], 8);
    assert!(matches!(decoder.get_status(0), Err(DecoderError::InvalidStatusType(0x04))));
    assert!(matches!(decoder.get_status(1), Err(DecoderError::InvalidStatusType(0x0A))));
    assert!(matches!(decoder.get_status(2), Err(DecoderError::InvalidStatusType(0x10))));
    assert!(matches!(decoder.get_status(3), Err(DecoderError::InvalidStatusType(0xFF))));
    assert_eq!(decoder.get_status(4).unwrap(), StatusType::ApplicationSpecific11);

    let decoder = decoder_over(&[0x4C], 4);
    assert!(matches!(decoder.get_status(0), Err(DecoderError::InvalidStatusType(0x04))));
    assert_eq!(decoder.get_status(1).unwrap(), StatusType::ApplicationSpecific12);
}

#[test]
fn fields_are_read_in_layout_order() {
    let decoder = decoder_over(&[0xB9, 0xA3], 1);
    let expected = [1u8, 0, 0, 1, 1, 1, 0, 1, 1, 1, 0, 0, 0, 1, 0, 1];
    assert_eq!(decoder.len(), 16);
    for (index, code) in expected.iter().enumerate() {
        let status = if *code == 1 { StatusType::Invalid } else { StatusType::Valid };
        assert_eq!(decoder.get_status(index).unwrap(), status);
    }

    let decoder = decoder_over(&[0b1110_0100], 2);
    assert_eq!(decoder.get_status(0).unwrap(), StatusType::Valid);
    assert_eq!(decoder.get_status(1).unwrap(), StatusType::Invalid);
    assert_eq!(decoder.get_status(2).unwrap(), StatusType::Suspended);
    assert_eq!(decoder.get_status(3).unwrap(), StatusType::ApplicationSpecific3);

    let decoder = decoder_over(&[0x01, 0xF2], 4);
    assert_eq!(decoder.len(), 4);
    assert_eq!(decoder.get_status(0).unwrap(), StatusType::Valid);
    assert_eq!(decoder.get_status(1).unwrap(), StatusType::Invalid);
    assert_eq!(decoder.get_status(2).unwrap(), StatusType::ApplicationSpecific15);
    assert_eq!(decoder.get_status(3).unwrap(), StatusType::Suspended);
}

#[test]
fn raw_bytes_are_the_inflated_payload() {
    let decoder = decoder_over(&[0xC9, 0x44, 0xF9], 2);
    assert_eq!(decoder.get_raw_bytes(), &[0xC9, 0x44, 0xF9][..]);
    assert_eq!(decoder.len(), 12);
}

#[test]
fn wrap_inflated_maps_both_outcomes() {
    let decoder = StatusListDecoder::wrap_inflated(4, Ok(vec![0x12])).unwrap();
    assert_eq!(decoder.get_raw_bytes(), &[0x12][..]);
    assert_eq!(decoder.get_status(1).unwrap(), StatusType::Suspended);
    match StatusListDecoder::wrap_inflated(4, Err("bad stream".to_string())) {
        Err(DecoderError::DecompressionError(detail)) => assert_eq!(detail, "bad stream"),
        _ => panic!("expected a decompression error"),
    }
}

#[test]
fn from_decoded_maps_each_outcome() {
    match StatusListDecoder::from_decoded(Err("bad text".to_string())) {
        Err(DecoderError::Base64Error(detail)) => assert_eq!(detail, "bad text"),
        _ => panic!("expected a base64 error"),
    }
    assert!(matches!(
        StatusListDecoder::from_decoded(Ok(vec![0xFF, 0xFF])),
        Err(DecoderError::DecompressionError(_))
    ));
    let payload = StatusListEncoder::new(8).finalize(&[0x02, 0x0F]).unwrap().lst;
    let decoder = StatusListDecoder::from_decoded(Ok(payload)).unwrap();
    assert_eq!(decoder.len(), 2);
    assert_eq!(decoder.get_status(0).unwrap(), StatusType::Suspended);
    assert_eq!(decoder.get_status(1).unwrap(), StatusType::ApplicationSpecific15);
}

#[test]
fn base64_text_of_a_known_payload() {
    let decoder = StatusListDecoder::new_from_base64("eNrbuRgAAhcBXQ").unwrap();
    assert_eq!(decoder.get_raw_bytes(), &[0xB9, 0xA3][..]);
    assert!(matches!(decoder.get_status(0), Err(DecoderError::InvalidStatusType(0xB9))));
    assert!(matches!(
        StatusListDecoder::new_from_base64("AAAA"),
        Err(DecoderError::DecompressionError(_))
    ));
}

#[test]
fn malformed_payloads_give_errors() {
    let mut seed: u32 = 0x1234_5678;
    for length in 0usize..64 {
        let mut data: Vec<u8> = Vec::new();
        for _ in 0..length {
            seed = seed.wrapping_mul(1_664_525).wrapping_add(1_013_904_223);
            data.push((seed >> 24) as u8);
        }
        let text: String = data.iter().map(|byte| (b'!' + byte % 90) as char).collect();
        let _ = StatusListDecoder::new_from_base64(&text);
        for bits in [1u8, 2, 4, 8] {
            let status_list = StatusList { bits, lst: data.clone(), aggregation_uri: None };
            if let Ok(decoder) = StatusListDecoder::new(&status_list) {
                for index in 0..32 {
                    let _ = decoder.get_status(index);
                }
            }
        }
    }
}

#[test]
fn a_list_of_another_width_is_turned_away() {
    let payload = StatusListEncoder::new(8).finalize(&[0x01, 0x02]).unwrap().lst;
    for bits in [0u8, 3, 5, 6, 7, 9, 16, 255] {
        let with_stream = StatusList { bits, lst: payload.clone(), aggregation_uri: None };
        match StatusListDecoder::new(&with_stream) {
            Err(DecoderError::StatusListCreationError(detail)) => assert_eq!(
                detail,
                format!("Invalid bits per status value: {}. Must be 1, 2, 4, or 8", bits)
            ),
            _ => panic!("expected a creation error for width {}", bits),
        }
        let without_stream = StatusList { bits, lst: vec![0xFF, 0xFF], aggregation_uri: None };
        assert!(matches!(
            StatusListDecoder::new(&without_stream),
            Err(DecoderError::StatusListCreationError(_))
        ));
        assert!(matches!(
            StatusListDecoder::wrap_inflated(bits, Ok(vec![0x00])),
            Err(DecoderError::StatusListCreationError(_))
        ));
        assert!(matches!(
            StatusListDecoder::wrap_inflated(bits, Err("bad stream".to_string())),
            Err(DecoderError::StatusListCreationError(_))
        ));
    }
    assert_eq!(
        StatusListDecoder::new(&StatusList { bits: 3, lst: payload, aggregation_uri: None })
            .err()
            .unwrap()
            .to_string(),
        "Status list creation error: Invalid bits per status value: 3. Must be 1, 2, 4, or 8"
    );
}

#[test]
fn the_json_payload_text_decodes_back() {
    let status_list = StatusListEncoder::new(8).finalize(&[0x00, 0x01, 0x0F]).unwrap();
    let json = status_list.to_json().unwrap();
    let parsed: Value = serde_json::from_str(&json).unwrap();
    assert_eq!(parsed["bits"].as_u64(), Some(8));
    assert!(parsed.get("aggregation_uri").is_none());
    let text = parsed["lst"].as_str().unwrap();
    assert!(!text.contains('='));
    let decoder = StatusListDecoder::new_from_base64(text).unwrap();
    assert_eq!(decoder.get_raw_bytes(), &[0x00, 0x01, 0x0F][..]);
}
