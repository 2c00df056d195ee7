//! The closed sets of status codes and bit widths.

use crate::base64::{base64url_decoded, base64url_encode, base64url_text};
use crate::envelope::{
    cbor_bytes, cbor_render, envelope_members, json_render, json_text, list_members, members_of,
    MemberValue, WireMember, WireValue,
};
use crate::error::StatusTypeError;
use crate::layout::{field_mask, valid_width};
use crate::text::{hex_text, push_hex};
use vstd::prelude::*;
use vstd::std_specs::convert::TryFromSpecImpl;
use vstd::string::StringExecFns;

verus! {

/// The state of one credential. Each status has a fixed numeric code.
#[derive(Debug, Clone, Copy, PartialEq, Eq, Structural)]
pub enum StatusType {
    Valid,
    Invalid,
    Suspended,
    ApplicationSpecific3,
    ApplicationSpecific11,
    ApplicationSpecific12,
    ApplicationSpecific13,
    ApplicationSpecific14,
    ApplicationSpecific15,
}

/// The number of bits that one status occupies in the packed list.
#[derive(Debug, Clone, Copy, PartialEq, Eq, Structural)]
pub enum BitsPerStatus {
    OneBit,
    TwoBit,
    FourBit,
    EightBit,
}

/// A status list as it is stored and sent: the bit width, the packed
/// statuses compressed with zlib, and an optional aggregation URI.
#[derive(Debug)]
pub struct StatusList {
    pub bits: u8,
    pub lst: Vec<u8>,
    pub aggregation_uri: Option<String>,
}

/// The JSON form of a status list: the payload is unpadded base64url text.
#[derive(Debug)]
pub struct JsonStatusList<'a> {
    pub bits: u8,
    pub lst: String,
    pub aggregation_uri: Option<&'a String>,
}

/// The CBOR form of a status list: the payload is a byte string.
#[derive(Debug)]
pub struct CborStatusList<'a> {
    pub bits: u8,
    pub lst: Vec<u8>,
    pub aggregation_uri: Option<&'a String>,
}

/// Failure while rendering a status list.
#[derive(Debug)]
pub enum SerializationError {
    JsonError(String),
    CborError(String),
}

impl SerializationError {
    /// The message of this error.
    pub open spec fn message(self) -> Seq<char> {
        match self {
            SerializationError::JsonError(detail) => "JSON serialization error: "@ + detail@,
            SerializationError::CborError(detail) => "CBOR serialization error: "@ + detail@,
        }
    }

    /// The message of this error: the detail that it carries after the name
    /// of the format.
    pub fn to_string(&self) -> (text: String)
        ensures
            text@ == self.message(),
    {
        match self {
            SerializationError::JsonError(detail) => {
                let mut text = String::from_str("JSON serialization error: ");
                text.append(detail.as_str());
                text
            },
            SerializationError::CborError(detail) => {
                let mut text = String::from_str("CBOR serialization error: ");
                text.append(detail.as_str());
                text
            },
        }
    }
}

impl<'a> JsonStatusList<'a> {
    /// The members of the JSON object: `bits`, `lst` as text, and
    /// `aggregation_uri` where there is one.
    pub open spec fn members(self) -> Seq<(Seq<char>, MemberValue)> {
        envelope_members(
            self.bits,
            MemberValue::Text(self.lst@),
            match self.aggregation_uri {
                Some(uri) => Some(uri@),
                None => None,
            },
        )
    }

    /// The members of the JSON object, in their order.
    pub fn into_members(self) -> (members: Vec<WireMember>)
        ensures
            members_of(members@) == self.members(),
    {
        list_members(self.bits, WireValue::Text(self.lst), self.aggregation_uri)
    }
}

impl<'a> CborStatusList<'a> {
    /// The members of the CBOR map: `bits`, `lst` as bytes, and
    /// `aggregation_uri` where there is one.
    pub open spec fn members(self) -> Seq<(Seq<char>, MemberValue)> {
        envelope_members(
            self.bits,
            MemberValue::Bytes(self.lst@),
            match self.aggregation_uri {
                Some(uri) => Some(uri@),
                None => None,
            },
        )
    }

    /// The members of the CBOR map, in their order.
    pub fn into_members(self) -> (members: Vec<WireMember>)
        ensures
            members_of(members@) == self.members(),
    {
        list_members(self.bits, WireValue::Bytes(self.lst), self.aggregation_uri)
    }
}

impl StatusList {
    /// The aggregation URI as text, where the list has one.
    pub open spec fn uri_text(self) -> Option<Seq<char>> {
        match self.aggregation_uri {
            Some(uri) => Some(uri@),
            None => None,
        }
    }

    /// The members of the JSON form of this list.
    pub open spec fn json_members(self) -> Seq<(Seq<char>, MemberValue)> {
        envelope_members(
            self.bits,
            MemberValue::Text(base64url_text(self.lst@)),
            self.uri_text(),
        )
    }

    /// The members of the CBOR form of this list.
    pub open spec fn cbor_members(self) -> Seq<(Seq<char>, MemberValue)> {
        envelope_members(self.bits, MemberValue::Bytes(self.lst@), self.uri_text())
    }

    /// Wraps the outcome of rendering the JSON form: the text is handed on,
    /// and a failure becomes a JSON error with the same text.
    pub fn wrap_json(rendered: Result<String, String>) -> (result: Result<
        String,
        SerializationError,
    >)
        ensures
            rendered is Ok ==> result is Ok && result->Ok_0 == rendered->Ok_0,
            rendered is Err ==> result is Err && result->Err_0 == SerializationError::JsonError(
                rendered->Err_0,
            ),
    {
        match rendered {
            Ok(text) => Ok(text),
            Err(detail) => Err(SerializationError::JsonError(detail)),
        }
    }

    /// Wraps the outcome of rendering the CBOR form: the bytes are written
    /// out in lowercase hexadecimal, and a failure becomes a CBOR error with
    /// the same text.
    pub fn wrap_cbor(rendered: Result<Vec<u8>, String>) -> (result: Result<
        String,
        SerializationError,
    >)
        ensures
            rendered is Ok ==> result is Ok && result->Ok_0@ == hex_text(rendered->Ok_0@),
            rendered is Err ==> result is Err && result->Err_0 == SerializationError::CborError(
                rendered->Err_0,
            ),
    {
        match rendered {
            Ok(bytes) => {
                let mut hex = String::new();
                push_hex(&mut hex, bytes.as_slice());
                Ok(hex)
            },
            Err(detail) => Err(SerializationError::CborError(detail)),
        }
    }

    /// The JSON form of this list: an object with `bits`, with `lst` as the
    /// payload in unpadded base64url, and with `aggregation_uri` where the
    /// list has one. This always succeeds, the list is not changed, and
    /// decoding the text of `lst` gives the payload back.
    pub fn to_json(&self) -> (result: Result<String, SerializationError>)
        ensures
            result is Ok,
            result->Ok_0@ == json_text(self.json_members()),
            base64url_decoded(base64url_text(self.lst@)) == Some(self.lst@),
    {
        let json_list = JsonStatusList {
            bits: self.bits,
            lst: base64url_encode(self.lst.as_slice()),
            aggregation_uri: self.aggregation_uri.as_ref(),
        };
        let members = json_list.into_members();
        Self::wrap_json(json_render(&members))
    }

    /// The CBOR form of this list, in lowercase hexadecimal: a map with
    /// `bits`, with `lst` as the payload bytes, and with `aggregation_uri`
    /// where the list has one. This always succeeds, and the list is not
    /// changed.
    pub fn to_cbor(&self) -> (result: Result<String, SerializationError>)
        ensures
            result is Ok,
            result->Ok_0@ == hex_text(cbor_bytes(self.cbor_members())),
    {
        let cbor_list = CborStatusList {
            bits: self.bits,
            lst: self.lst.clone(),
            aggregation_uri: self.aggregation_uri.as_ref(),
        };
        let members = cbor_list.into_members();
        Self::wrap_cbor(cbor_render(&members))
    }
}

impl BitsPerStatus {
    /// The number of bits that this width stands for.
    pub open spec fn bit_count(self) -> u8 {
        match self {
            BitsPerStatus::OneBit => 1,
            BitsPerStatus::TwoBit => 2,
            BitsPerStatus::FourBit => 4,
            BitsPerStatus::EightBit => 8,
        }
    }

    /// The width of `value` bits, where there is one.
    pub open spec fn of_bit_count(value: u8) -> Option<BitsPerStatus> {
        if value == 1 {
            Some(BitsPerStatus::OneBit)
        } else if value == 2 {
            Some(BitsPerStatus::TwoBit)
        } else if value == 4 {
            Some(BitsPerStatus::FourBit)
        } else if value == 8 {
            Some(BitsPerStatus::EightBit)
        } else {
            None
        }
    }

    /// The number of bits that this width stands for: 1, 2, 4 or 8.
    pub fn bits(self) -> (bits: u8)
        ensures
            bits == self.bit_count(),
            valid_width(bits),
    {
        match self {
            BitsPerStatus::OneBit => 1,
            BitsPerStatus::TwoBit => 2,
            BitsPerStatus::FourBit => 4,
            BitsPerStatus::EightBit => 8,
        }
    }
}

impl TryFromSpecImpl<u8> for BitsPerStatus {
    open spec fn obeys_try_from_spec() -> bool {
        true
    }

    open spec fn try_from_spec(value: u8) -> Result<Self, Self::Error> {
        match BitsPerStatus::of_bit_count(value) {
            Some(width) => Ok(width),
            None => Err(StatusTypeError::InvalidBitsPerStatus(value)),
        }
    }
}

impl TryFrom<u8> for BitsPerStatus {
    type Error = StatusTypeError;

    /// Accepts exactly the widths 1, 2, 4 and 8.
    fn try_from(value: u8) -> (r: Result<Self, Self::Error>)
        ensures
            r is Ok <==> valid_width(value),
            r is Ok ==> r->Ok_0.bit_count() == value,
            r is Err ==> r->Err_0 == StatusTypeError::InvalidBitsPerStatus(value),
    {
        match value {
            1 => Ok(BitsPerStatus::OneBit),
            2 => Ok(BitsPerStatus::TwoBit),
            4 => Ok(BitsPerStatus::FourBit),
            8 => Ok(BitsPerStatus::EightBit),
            _ => Err(StatusTypeError::InvalidBitsPerStatus(value)),
        }
    }
}

impl StatusType {
    /// The numeric code of a status.
    pub open spec fn code(self) -> u8 {
        match self {
            StatusType::Valid => 0x00,
            StatusType::Invalid => 0x01,
            StatusType::Suspended => 0x02,
            StatusType::ApplicationSpecific3 => 0x03,
            StatusType::ApplicationSpecific11 => 0x0B,
            StatusType::ApplicationSpecific12 => 0x0C,
            StatusType::ApplicationSpecific13 => 0x0D,
            StatusType::ApplicationSpecific14 => 0x0E,
            StatusType::ApplicationSpecific15 => 0x0F,
        }
    }

    /// Whether a number is the code of some status.
    pub open spec fn is_code(value: u8) -> bool {
        value <= 0x03 || (0x0B <= value && value <= 0x0F)
    }

    /// The status whose code is `value`, where there is one.
    pub open spec fn of_code(value: u8) -> Option<StatusType> {
        if value == 0x00 {
            Some(StatusType::Valid)
        } else if value == 0x01 {
            Some(StatusType::Invalid)
        } else if value == 0x02 {
            Some(StatusType::Suspended)
        } else if value == 0x03 {
            Some(StatusType::ApplicationSpecific3)
        } else if value == 0x0B {
            Some(StatusType::ApplicationSpecific11)
        } else if value == 0x0C {
            Some(StatusType::ApplicationSpecific12)
        } else if value == 0x0D {
            Some(StatusType::ApplicationSpecific13)
        } else if value == 0x0E {
            Some(StatusType::ApplicationSpecific14)
        } else if value == 0x0F {
            Some(StatusType::ApplicationSpecific15)
        } else {
            None
        }
    }

    /// Whether the code of this status can be stored in `bits` bits.
    pub open spec fn fits(self, bits: u8) -> bool {
        self.code() <= field_mask(bits)
    }

    /// A status is found again from its code, and a code from its status.
    pub proof fn lemma_code_lossless(self)
        ensures
            StatusType::of_code(self.code()) == Some(self),
            StatusType::is_code(self.code()),
    {
    }

    /// The codes of the status set are exactly the numbers with a status.
    pub proof fn lemma_closed_set(value: u8)
        ensures
            StatusType::is_code(value) <==> StatusType::of_code(value) is Some,
            StatusType::is_code(value) <==> (value == 0 || value == 1 || value == 2 || value == 3
                || value == 11 || value == 12 || value == 13 || value == 14 || value == 15),
            StatusType::of_code(value) is Some ==> StatusType::of_code(value)->0.code() == value,
    {
    }

    /// The numeric code of this status.
    pub fn value(self) -> (v: u8)
        ensures
            v == self.code(),
            StatusType::is_code(v),
    {
        match self {
            StatusType::Valid => 0x00,
            StatusType::Invalid => 0x01,
            StatusType::Suspended => 0x02,
            StatusType::ApplicationSpecific3 => 0x03,
            StatusType::ApplicationSpecific11 => 0x0B,
            StatusType::ApplicationSpecific12 => 0x0C,
            StatusType::ApplicationSpecific13 => 0x0D,
            StatusType::ApplicationSpecific14 => 0x0E,
            StatusType::ApplicationSpecific15 => 0x0F,
        }
    }
}

impl TryFromSpecImpl<u8> for StatusType {
    open spec fn obeys_try_from_spec() -> bool {
        true
    }

    open spec fn try_from_spec(value: u8) -> Result<Self, Self::Error> {
        match StatusType::of_code(value) {
            Some(status) => Ok(status),
            None => Err(StatusTypeError::UndefinedStatusType(value)),
        }
    }
}

impl TryFrom<u8> for StatusType {
    type Error = StatusTypeError;

    /// Accepts exactly the nine codes of the status set.
    fn try_from(value: u8) -> (r: Result<Self, Self::Error>)
        ensures
            r is Ok <==> StatusType::is_code(value),
            r is Ok ==> r->Ok_0.code() == value,
            r is Err ==> r->Err_0 == StatusTypeError::UndefinedStatusType(value),
    {
        match value {
            0x00 => Ok(StatusType::Valid),
            0x01 => Ok(StatusType::Invalid),
            0x02 => Ok(StatusType::Suspended),
            0x03 => Ok(StatusType::ApplicationSpecific3),
            0x0B => Ok(StatusType::ApplicationSpecific11),
            0x0C => Ok(StatusType::ApplicationSpecific12),
            0x0D => Ok(StatusType::ApplicationSpecific13),
            0x0E => Ok(StatusType::ApplicationSpecific14),
            0x0F => Ok(StatusType::ApplicationSpecific15),
            _ => Err(StatusTypeError::UndefinedStatusType(value)),
        }
    }
}

} // verus!
