use vc_status_list::{BuilderError, DecoderError, StatusTypeError};

#[test]
fn test_status_list_creation_error_display() {
    let error = DecoderError::StatusListCreationError("invalid bits per status".to_string());
    assert_eq!(
        error.to_string(),
        "Status list creation error: invalid bits per status"
    );
}

#[test]
fn error_test_serialization_error_display() {
    let error = DecoderError::SerializationError("failed to serialize JSON".to_string());
    assert_eq!(
        error.to_string(),
        "Serialization error: failed to serialize JSON"
    );
}

#[test]
fn test_all_decoder_error_variants() {
    let errors = [
        DecoderError::Base64Error("invalid base64".to_string()),
        DecoderError::DecompressionError("failed to decompress".to_string()),
        DecoderError::InvalidByteIndex(42),
        DecoderError::InvalidStatusType(255),
        DecoderError::StatusListCreationError("invalid creation".to_string()),
        DecoderError::SerializationError("invalid json".to_string()),
    ];

    for error in errors {
        let error_string = error.to_string();
        match error {
            DecoderError::Base64Error(_) => {
                assert!(error_string.contains("Base64 decoding error"));
            }
            DecoderError::DecompressionError(_) => {
                assert!(error_string.contains("ZLIB decompression error"));
            }
            DecoderError::InvalidByteIndex(_) => {
                assert!(error_string.contains("Invalid byte index"));
            }
            DecoderError::InvalidStatusType(_) => {
                assert!(error_string.contains("Invalid status type value"));
            }
            DecoderError::StatusListCreationError(_) => {
                assert!(error_string.contains("Status list creation error"));
            }
            DecoderError::SerializationError(_) => {
                assert!(error_string.contains("Serialization error"));
            }
        }
    }
}

#[test]
fn decoder_error_messages_are_exact() {
    assert_eq!(
        DecoderError::Base64Error("x".to_string()).to_string(),
        "Base64 decoding error: x"
    );
    assert_eq!(
        DecoderError::DecompressionError("y".to_string()).to_string(),
        "ZLIB decompression error: y"
    );
    assert_eq!(DecoderError::InvalidByteIndex(42).to_string(), "Invalid byte index: 42");
    assert_eq!(DecoderError::InvalidByteIndex(0).to_string(), "Invalid byte index: 0");
    assert_eq!(
        DecoderError::InvalidByteIndex(usize::MAX).to_string(),
        format!("Invalid byte index: {}", usize::MAX)
    );
    assert_eq!(
        DecoderError::InvalidStatusType(255).to_string(),
        "Invalid status type value: 255"
    );
}

#[test]
fn status_type_error_messages_are_exact() {
    assert_eq!(
        StatusTypeError::UndefinedStatusType(7).to_string(),
        "Undefined Status Type 7"
    );
    assert_eq!(
        StatusTypeError::InvalidByteIndex(1090).to_string(),
        "Invalid Byte Index 1090"
    );
    assert_eq!(
        StatusTypeError::InvalidBitsPerStatus(16).to_string(),
        "Invalid bits per status value: 16. Must be 1, 2, 4, or 8"
    );
}

#[test]
fn builder_error_messages_are_exact() {
    assert_eq!(
        BuilderError::InvalidBitsPerStatus(3).to_string(),
        "Invalid bits per status value: 3. Must be 1, 2, 4, or 8"
    );
    assert_eq!(
        BuilderError::CompressionError("test error".to_string()).to_string(),
        "Compression error: test error"
    );
    assert_eq!(
        BuilderError::EncodingError("encoding failed".to_string()).to_string(),
        "Encoding error: encoding failed"
    );
}
