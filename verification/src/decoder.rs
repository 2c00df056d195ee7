//! Reading statuses out of a status list.

use crate::base64::{base64url_decode, base64url_decoded};
use crate::compression::{zlib_decompress, zlib_inflated};
use crate::encoder::codes_of;
use crate::error::{DecoderError, StatusTypeError};
use crate::layout::{
    byte_position, field_of, lemma_fitting_value, lemma_packed_field, lemma_packed_len,
    lemma_position_bound, lemma_position_in_range, lemma_slots_per_byte, packed_bytes, packed_len,
    slot_in_byte, slots_per_byte, valid_width,
};
use crate::types::{StatusList, StatusType};
use vstd::prelude::*;

verus! {

/// What reading the status at `index` out of packed `bytes` gives: the
/// status whose code the field holds, or the reason why there is none.
pub open spec fn unpacked(bytes: Seq<u8>, bits: u8, index: int) -> Result<
    StatusType,
    DecoderError,
> {
    let position = byte_position(index, bits);
    if position >= bytes.len() {
        Err(DecoderError::InvalidByteIndex(position as usize))
    } else {
        let value = field_of(bytes[position], bits, slot_in_byte(index, bits));
        match StatusType::of_code(value) {
            Some(status) => Ok(status),
            None => Err(DecoderError::InvalidStatusType(value)),
        }
    }
}

/// Packing and then reading back gives each status that fits the width.
/// A status whose code needs more bits is cut to the width when it is
/// packed, and is not read back.
pub proof fn lemma_unpack_packed(statuses: Seq<StatusType>, bits: u8, index: int)
    requires
        valid_width(bits),
        0 <= index < statuses.len(),
        index <= usize::MAX,
        statuses[index].fits(bits),
    ensures
        unpacked(packed_bytes(codes_of(statuses), bits), bits, index) == Ok::<
            StatusType,
            DecoderError,
        >(statuses[index]),
{
    let codes = codes_of(statuses);
    lemma_packed_len(codes.len(), bits);
    lemma_position_bound(packed_len(codes.len(), bits) as int, bits, index);
    lemma_packed_field(codes, bits, index);
    lemma_fitting_value(codes[index], bits);
    statuses[index].lemma_code_lossless();
}

/// Reading past the last slot of any buffer, an empty one too, reports the
/// byte that the index falls in; reading a slot of the buffer never does.
pub proof fn lemma_unpack_bounds(bytes: Seq<u8>, bits: u8, index: int)
    requires
        valid_width(bits),
        0 <= index <= usize::MAX,
    ensures
        index >= bytes.len() * slots_per_byte(bits) <==> unpacked(bytes, bits, index) == Err::<
            StatusType,
            DecoderError,
        >(DecoderError::InvalidByteIndex(byte_position(index, bits) as usize)),
{
    lemma_position_in_range(bytes.len() as int, bits, index);
}

/// The packed bytes of a status list, decompressed, with their bit width.
pub struct StatusListDecoder {
    raw_bytes: Vec<u8>,
    bits_per_status: u8,
}

impl StatusListDecoder {
    #[verifier::type_invariant]
    spec fn well_formed(&self) -> bool {
        valid_width(self.bits_per_status)
    }

    /// The packed bytes that this decoder reads from.
    pub closed spec fn bytes(&self) -> Seq<u8> {
        self.raw_bytes@
    }

    /// The bit width of one status.
    pub closed spec fn width(&self) -> u8 {
        self.bits_per_status
    }

    /// The number of slots in the packed bytes.
    pub open spec fn slot_count(&self) -> int {
        self.bytes().len() * slots_per_byte(self.width())
    }

    /// The error for a width that is not 1, 2, 4 or 8: a creation error
    /// whose text names the width.
    pub open spec fn width_rejected(bits: u8, error: DecoderError) -> bool {
        &&& error is StatusListCreationError
        &&& error->StatusListCreationError_0@ == StatusTypeError::InvalidBitsPerStatus(
            bits,
        ).message()
    }

    fn reject_width(bits: u8) -> (error: DecoderError)
        ensures
            Self::width_rejected(bits, error),
    {
        DecoderError::StatusListCreationError(
            StatusTypeError::InvalidBitsPerStatus(bits).to_string(),
        )
    }

    /// Wraps the outcome of decompressing a payload. A width that is not 1,
    /// 2, 4 or 8 gives a creation error, whatever the outcome was.
    /// Otherwise the bytes become a decoder of the given width, and a
    /// failure becomes a decompression error with the same text.
    pub fn wrap_inflated(bits: u8, inflated: Result<Vec<u8>, String>) -> (result: Result<
        Self,
        DecoderError,
    >)
        ensures
            !valid_width(bits) ==> result is Err && Self::width_rejected(bits, result->Err_0),
            valid_width(bits) && inflated is Ok ==> result is Ok && result->Ok_0.bytes()
                == inflated->Ok_0@ && result->Ok_0.width() == bits,
            valid_width(bits) && inflated is Err ==> result is Err && result->Err_0
                == DecoderError::DecompressionError(inflated->Err_0),
    {
        if bits != 1 && bits != 2 && bits != 4 && bits != 8 {
            return Err(Self::reject_width(bits));
        }
        match inflated {
            Ok(raw_bytes) => Ok(Self { raw_bytes, bits_per_status: bits }),
            Err(message) => Err(DecoderError::DecompressionError(message)),
        }
    }

    /// A decoder over the payload of a status list. A list whose width is
    /// not 1, 2, 4 or 8 is turned away with a creation error before its
    /// payload is looked at. Otherwise this succeeds exactly when the
    /// payload is a zlib stream that inflates; the decoder then reads from
    /// the inflated bytes at the list's width.
    pub fn new(status_list: &StatusList) -> (result: Result<Self, DecoderError>)
        ensures
            !valid_width(status_list.bits) ==> result is Err && Self::width_rejected(
                status_list.bits,
                result->Err_0,
            ),
            valid_width(status_list.bits) ==> (result is Ok <==> zlib_inflated(status_list.lst@)
                is Some),
            result is Ok ==> Some(result->Ok_0.bytes()) == zlib_inflated(status_list.lst@)
                && result->Ok_0.width() == status_list.bits,
            valid_width(status_list.bits) && result is Err ==> result->Err_0
                is DecompressionError,
    {
        let bits = status_list.bits;
        if bits != 1 && bits != 2 && bits != 4 && bits != 8 {
            return Err(Self::reject_width(bits));
        }
        Self::wrap_inflated(bits, zlib_decompress(status_list.lst.as_slice()))
    }

    /// The status at `index`: the byte that holds it is found, its field is
    /// read, and the value is looked up in the status set. An index past the
    /// last byte and a value that is no status code are reported, each with
    /// the number that was rejected.
    pub fn get_status(&self, index: usize) -> (result: Result<StatusType, DecoderError>)
        ensures
            result == unpacked(self.bytes(), self.width(), index as int),
            index >= self.slot_count() <==> result == Err::<StatusType, DecoderError>(
                DecoderError::InvalidByteIndex(
                    byte_position(index as int, self.width()) as usize,
                ),
            ),
    {
        proof {
            use_type_invariant(self);
            lemma_slots_per_byte(self.bits_per_status);
        }
        let statuses_per_byte: usize = 8 / self.bits_per_status as usize;
        let byte_index: usize = index / statuses_per_byte;
        let position_in_byte: u8 = (index % statuses_per_byte) as u8;
        if byte_index >= self.raw_bytes.len() {
            return Err(DecoderError::InvalidByteIndex(byte_index));
        }
        let byte: u8 = self.raw_bytes[byte_index];
        let bit_shift: u8 = match self.bits_per_status {
            1 => position_in_byte,
            2 => position_in_byte * 2,
            4 => if position_in_byte == 0 {
                4
            } else {
                0
            },
            _ => 0,
        };
        let mask: u8 = match self.bits_per_status {
            1 => 0x01,
            2 => 0x03,
            4 => 0x0F,
            _ => 0xFF,
        };
        let value: u8 = (byte >> bit_shift) & mask;
        match StatusType::try_from(value) {
            Ok(status) => Ok(status),
            Err(_) => Err(DecoderError::InvalidStatusType(value)),
        }
    }

    /// The packed bytes.
    pub fn get_raw_bytes(&self) -> (bytes: &[u8])
        ensures
            bytes@ == self.bytes(),
    {
        self.raw_bytes.as_slice()
    }

    /// The number of statuses that the packed bytes have room for.
    pub fn len(&self) -> (count: usize)
        requires
            self.slot_count() <= usize::MAX,
        ensures
            count == self.slot_count(),
    {
        proof {
            use_type_invariant(self);
            lemma_slots_per_byte(self.bits_per_status);
        }
        self.raw_bytes.len() * (8 / self.bits_per_status as usize)
    }

    /// Whether there are no packed bytes.
    pub fn is_empty(&self) -> (empty: bool)
        ensures
            empty <==> self.bytes().len() == 0,
    {
        self.raw_bytes.is_empty()
    }
    /// Continues from the outcome of decoding base64url text: the decoded
    /// bytes are decompressed into a decoder of width 8, and a failure to
    /// decode becomes a base64 error with the same text.
    pub fn from_decoded(decoded: Result<Vec<u8>, String>) -> (result: Result<Self, DecoderError>)
        ensures
            decoded is Err ==> result is Err && result->Err_0 == DecoderError::Base64Error(
                decoded->Err_0,
            ),
            decoded is Ok ==> (result is Ok <==> zlib_inflated(decoded->Ok_0@) is Some),
            decoded is Ok && result is Ok ==> Some(result->Ok_0.bytes()) == zlib_inflated(
                decoded->Ok_0@,
            ) && result->Ok_0.width() == 8,
            decoded is Ok && result is Err ==> result->Err_0 is DecompressionError,
    {
        match decoded {
            Ok(compressed) => Self::wrap_inflated(8, zlib_decompress(compressed.as_slice())),
            Err(message) => Err(DecoderError::Base64Error(message)),
        }
    }

    /// Reads a payload given as unpadded base64url text, at width 8. Text
    /// that is no base64url gives a base64 error; bytes that are no zlib
    /// stream give a decompression error; otherwise the decoder reads from
    /// the inflated bytes.
    pub fn new_from_base64(base64_str: &str) -> (result: Result<Self, DecoderError>)
        ensures
            match base64url_decoded(base64_str@) {
                None => result is Err && result->Err_0 is Base64Error,
                Some(compressed) => match zlib_inflated(compressed) {
                    None => result is Err && result->Err_0 is DecompressionError,
                    Some(bytes) => result is Ok && result->Ok_0.bytes() == bytes
                        && result->Ok_0.width() == 8,
                },
            },
    {
        Self::from_decoded(base64url_decode(base64_str))
    }
}

} // verus!
