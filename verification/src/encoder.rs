//! Packing statuses into bytes.

use crate::compression::{zlib_compress, zlib_deflated, zlib_inflated};
use crate::error::BuilderError;
use crate::layout::{
    byte_position, fields_agree, lemma_packed_from_fields, lemma_packed_len,
    lemma_slots_per_byte, lemma_write_agrees, lemma_zeroed_agrees, packed_bytes, packed_len,
    slot_in_byte, slots_per_byte, valid_width, with_field,
};
use crate::types::{StatusList, StatusType};
use vstd::prelude::*;

verus! {

/// The codes of a list of statuses, in order.
pub open spec fn codes_of(statuses: Seq<StatusType>) -> Seq<u8> {
    Seq::new(statuses.len(), |i: int| statuses[i].code())
}

/// Packs statuses at a fixed bit width.
#[derive(Debug)]
pub struct StatusListEncoder {
    bits_per_status: u8,
}

impl StatusListEncoder {
    /// The bit width that this encoder packs at.
    pub closed spec fn width(&self) -> u8 {
        self.bits_per_status
    }

    /// An encoder for the given width. Any width is accepted here; packing
    /// rejects one that is not 1, 2, 4 or 8.
    pub fn new(bits_per_status: u8) -> (encoder: Self)
        ensures
            encoder.width() == bits_per_status,
    {
        Self { bits_per_status }
    }

    /// Writes `status` into the field of `bytes` that belongs to `index`:
    /// the field is cleared, then the code, cut to the width, is set in it.
    /// No other bit changes.
    pub fn encode_status(&self, bytes: &mut [u8], index: usize, status: StatusType)
        requires
            valid_width(self.width()),
            byte_position(index as int, self.width()) < old(bytes)@.len(),
        ensures
            final(bytes)@ == old(bytes)@.update(
                byte_position(index as int, self.width()),
                with_field(
                    old(bytes)@[byte_position(index as int, self.width())],
                    self.width(),
                    slot_in_byte(index as int, self.width()),
                    status.code(),
                ),
            ),
    {
        let statuses_per_byte: usize = 8 / self.bits_per_status as usize;
        assert(statuses_per_byte == slots_per_byte(self.bits_per_status)) by {
            lemma_slots_per_byte(self.bits_per_status);
        }
        let byte_index: usize = index / statuses_per_byte;
        let position_in_byte: u8 = (index % statuses_per_byte) as u8;
        let status_value: u8 = status.value();
        let bit_shift: u8 = match self.bits_per_status {
            1 => position_in_byte,
            2 => position_in_byte * 2,
            4 => if position_in_byte == 0 {
                4
            } else {
                0
            },
            _ => 0,
        };
        let mask: u8 = match self.bits_per_status {
            1 => 0x01,
            2 => 0x03,
            4 => 0x0F,
            _ => 0xFF,
        };
        let cleared: u8 = bytes[byte_index] & !(mask << bit_shift);
        bytes[byte_index] = cleared | ((status_value & mask) << bit_shift);
    }
    /// Writes `status` into the field of `bytes` that belongs to `index`,
    /// exactly as `encode_status` does: the same field, the same layout at
    /// every width, and no other bit changed.
    pub fn encode_status1(&self, bytes: &mut [u8], index: usize, status: StatusType)
        requires
            valid_width(self.width()),
            byte_position(index as int, self.width()) < old(bytes)@.len(),
        ensures
            final(bytes)@ == old(bytes)@.update(
                byte_position(index as int, self.width()),
                with_field(
                    old(bytes)@[byte_position(index as int, self.width())],
                    self.width(),
                    slot_in_byte(index as int, self.width()),
                    status.code(),
                ),
            ),
    {
        let statuses_per_byte: usize = 8 / self.bits_per_status as usize;
        assert(statuses_per_byte == slots_per_byte(self.bits_per_status)) by {
            lemma_slots_per_byte(self.bits_per_status);
        }
        let byte_index: usize = index / statuses_per_byte;
        let position_in_byte: u8 = (index % statuses_per_byte) as u8;
        let status_value: u8 = status.value();
        let bit_shift: u8 = match self.bits_per_status {
            1 => position_in_byte,
            2 => position_in_byte * 2,
            4 => if position_in_byte == 0 {
                4
            } else {
                0
            },
            _ => 0,
        };
        let mask: u8 = match self.bits_per_status {
            1 => 0x01,
            2 => 0x03,
            4 => 0x0F,
            _ => 0xFF,
        };
        let cleared: u8 = bytes[byte_index] & !(mask << bit_shift);
        bytes[byte_index] = cleared | ((status_value & mask) << bit_shift);
    }

    /// Packs `statuses` into as few bytes as hold them, each status in the
    /// field of its index and unused fields zero. Fails exactly when the
    /// encoder's width is not 1, 2, 4 or 8.
    pub fn encode_statuses(&self, statuses: &[StatusType]) -> (result: Result<
        Vec<u8>,
        BuilderError,
    >)
        ensures
            valid_width(self.width()) ==> result is Ok && result->Ok_0@ == packed_bytes(
                codes_of(statuses@),
                self.width(),
            ),
            !valid_width(self.width()) ==> result is Err && result->Err_0
                == BuilderError::InvalidBitsPerStatus(self.width()),
    {
        let bits = self.bits_per_status;
        if bits != 1 && bits != 2 && bits != 4 && bits != 8 {
            return Err(BuilderError::InvalidBitsPerStatus(bits));
        }
        let count: usize = statuses.len();
        let statuses_per_byte: usize = 8 / bits as usize;
        let ghost codes = codes_of(statuses@);
        proof {
            lemma_slots_per_byte(bits);
            lemma_packed_len(codes.len(), bits);
        }
        let whole: usize = count / statuses_per_byte;
        let num_bytes: usize = if count % statuses_per_byte == 0 {
            whole
        } else {
            whole + 1
        };
        let mut bytes: Vec<u8> = vec![0u8; num_bytes];
        proof {
            lemma_zeroed_agrees(bytes@, codes, bits);
        }
        let mut i: usize = 0;
        while i < count
            invariant
                valid_width(bits),
                bits == self.width(),
                count == statuses@.len(),
                codes == codes_of(statuses@),
                0 <= i <= count,
                bytes@.len() == packed_len(codes.len(), bits),
                fields_agree(bytes@, codes.take(i as int), bits),
            decreases count - i,
        {
            proof {
                lemma_write_agrees(bytes@, codes, bits, i as int);
            }
            self.encode_status(bytes.as_mut_slice(), i, statuses[i]);
            i += 1;
        }
        proof {
            assert(codes.take(count as int) =~= codes);
            lemma_packed_from_fields(bytes@, codes, bits);
        }
        Ok(bytes)
    }
    /// Wraps the outcome of compressing the packed bytes: the compressed
    /// bytes become a status list of this encoder's width, without an
    /// aggregation URI, and a failure becomes a compression error with the
    /// same text.
    pub fn wrap_compressed(&self, compressed: Result<Vec<u8>, String>) -> (result: Result<
        StatusList,
        BuilderError,
    >)
        ensures
            compressed is Ok ==> result is Ok && result->Ok_0.bits == self.width()
                && result->Ok_0.lst == compressed->Ok_0 && result->Ok_0.aggregation_uri is None,
            compressed is Err ==> result is Err && result->Err_0
                == BuilderError::CompressionError(compressed->Err_0),
    {
        match compressed {
            Ok(lst) => Ok(StatusList { bits: self.bits_per_status, lst, aggregation_uri: None }),
            Err(message) => Err(BuilderError::CompressionError(message)),
        }
    }

    /// Compresses packed bytes into a status list of this encoder's width.
    /// This always succeeds: the bytes are in memory, and compressing them
    /// has no other way to fail. The list's payload is the zlib stream of
    /// `bytes`, which inflates back to `bytes`, and the list has no
    /// aggregation URI.
    pub fn finalize(&self, bytes: &[u8]) -> (result: Result<StatusList, BuilderError>)
        ensures
            result is Ok,
            result->Ok_0.bits == self.width(),
            result->Ok_0.lst@ == zlib_deflated(bytes@),
            zlib_inflated(result->Ok_0.lst@) == Some(bytes@),
            result->Ok_0.aggregation_uri is None,
    {
        self.wrap_compressed(zlib_compress(bytes))
    }
}

} // verus!
