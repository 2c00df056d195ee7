//! Error values returned by the status list operations.

use crate::text::{decimal_text, push_decimal};
use vstd::prelude::*;
use vstd::string::StringExecFns;

verus! {

/// Rejection of a number that is no status code, no byte position or no bit width.
#[derive(Debug)]
pub enum StatusTypeError {
    UndefinedStatusType(u8),
    InvalidByteIndex(usize),
    InvalidBitsPerStatus(u8),
}

/// Failure while turning the collected statuses into a status list.
#[derive(Debug)]
pub enum BuilderError {
    InvalidBitsPerStatus(u8),
    CompressionError(String),
    EncodingError(String),
}

/// Failure while reading a status list.
#[derive(Debug)]
pub enum DecoderError {
    Base64Error(String),
    DecompressionError(String),
    InvalidByteIndex(usize),
    InvalidStatusType(u8),
    StatusListCreationError(String),
    SerializationError(String),
}

impl StatusTypeError {
    /// The message of this error.
    pub open spec fn message(self) -> Seq<char> {
        match self {
            StatusTypeError::UndefinedStatusType(value) => "Undefined Status Type "@
                + decimal_text(value as nat),
            StatusTypeError::InvalidByteIndex(index) => "Invalid Byte Index "@ + decimal_text(
                index as nat,
            ),
            StatusTypeError::InvalidBitsPerStatus(bits) => "Invalid bits per status value: "@
                + decimal_text(bits as nat) + ". Must be 1, 2, 4, or 8"@,
        }
    }

    /// The message of this error, with the rejected number in decimal.
    pub fn to_string(&self) -> (text: String)
        ensures
            text@ == self.message(),
    {
        match self {
            StatusTypeError::UndefinedStatusType(value) => {
                let mut text = String::from_str("Undefined Status Type ");
                push_decimal(&mut text, *value as usize);
                text
            },
            StatusTypeError::InvalidByteIndex(index) => {
                let mut text = String::from_str("Invalid Byte Index ");
                push_decimal(&mut text, *index);
                text
            },
            StatusTypeError::InvalidBitsPerStatus(bits) => {
                let mut text = String::from_str("Invalid bits per status value: ");
                push_decimal(&mut text, *bits as usize);
                text.append(". Must be 1, 2, 4, or 8");
                text
            },
        }
    }
}

impl BuilderError {
    /// The message of this error.
    pub open spec fn message(self) -> Seq<char> {
        match self {
            BuilderError::InvalidBitsPerStatus(bits) => "Invalid bits per status value: "@
                + decimal_text(bits as nat) + ". Must be 1, 2, 4, or 8"@,
            BuilderError::CompressionError(detail) => "Compression error: "@ + detail@,
            BuilderError::EncodingError(detail) => "Encoding error: "@ + detail@,
        }
    }

    /// The message of this error: the rejected width in decimal, or the
    /// detail that the error carries after the name of what failed.
    pub fn to_string(&self) -> (text: String)
        ensures
            text@ == self.message(),
    {
        match self {
            BuilderError::InvalidBitsPerStatus(bits) => {
                let mut text = String::from_str("Invalid bits per status value: ");
                push_decimal(&mut text, *bits as usize);
                text.append(". Must be 1, 2, 4, or 8");
                text
            },
            BuilderError::CompressionError(detail) => {
                let mut text = String::from_str("Compression error: ");
                text.append(detail.as_str());
                text
            },
            BuilderError::EncodingError(detail) => {
                let mut text = String::from_str("Encoding error: ");
                text.append(detail.as_str());
                text
            },
        }
    }
}

impl DecoderError {
    /// The message of this error.
    pub open spec fn message(self) -> Seq<char> {
        match self {
            DecoderError::Base64Error(detail) => "Base64 decoding error: "@ + detail@,
            DecoderError::DecompressionError(detail) => "ZLIB decompression error: "@ + detail@,
            DecoderError::InvalidByteIndex(index) => "Invalid byte index: "@ + decimal_text(
                index as nat,
            ),
            DecoderError::InvalidStatusType(value) => "Invalid status type value: "@
                + decimal_text(value as nat),
            DecoderError::StatusListCreationError(detail) => "Status list creation error: "@
                + detail@,
            DecoderError::SerializationError(detail) => "Serialization error: "@ + detail@,
        }
    }

    /// The message of this error: the rejected number in decimal, or the
    /// detail that the error carries after the name of what failed.
    pub fn to_string(&self) -> (text: String)
        ensures
            text@ == self.message(),
    {
        match self {
            DecoderError::Base64Error(detail) => {
                let mut text = String::from_str("Base64 decoding error: ");
                text.append(detail.as_str());
                text
            },
            DecoderError::DecompressionError(detail) => {
                let mut text = String::from_str("ZLIB decompression error: ");
                text.append(detail.as_str());
                text
            },
            DecoderError::InvalidByteIndex(index) => {
                let mut text = String::from_str("Invalid byte index: ");
                push_decimal(&mut text, *index);
                text
            },
            DecoderError::InvalidStatusType(value) => {
                let mut text = String::from_str("Invalid status type value: ");
                push_decimal(&mut text, *value as usize);
                text
            },
            DecoderError::StatusListCreationError(detail) => {
                let mut text = String::from_str("Status list creation error: ");
                text.append(detail.as_str());
                text
            },
            DecoderError::SerializationError(detail) => {
                let mut text = String::from_str("Serialization error: ");
                text.append(detail.as_str());
                text
            },
        }
    }
}

} // verus!
