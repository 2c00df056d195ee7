//! Collecting statuses and building a status list from them.

use crate::compression::{zlib_deflated, zlib_inflated};
use crate::decoder::{lemma_unpack_packed, unpacked, StatusListDecoder};
use crate::encoder::{codes_of, StatusListEncoder};
use crate::error::{BuilderError, DecoderError, StatusTypeError};
use crate::layout::{packed_bytes, valid_width};
use crate::types::{BitsPerStatus, StatusList, StatusType};
use vstd::prelude::*;

verus! {

/// An append-only list of statuses with the bit width to pack them at.
///
/// The index of a status is its place in the order of appending, counted
/// from zero. Appending takes `&mut self`: a builder that is shared between
/// threads is put behind a lock, and each append is then one step under
/// that lock.
#[derive(Debug)]
pub struct StatusListBuilder {
    statuses: Vec<StatusType>,
    bits_per_status: BitsPerStatus,
}

impl StatusListBuilder {
    /// The statuses collected so far, in the order of appending.
    pub closed spec fn statuses(&self) -> Seq<StatusType> {
        self.statuses@
    }

    /// The bit width of one status.
    pub closed spec fn width(&self) -> u8 {
        self.bits_per_status.bit_count()
    }

    /// Whether `list` is what building from this state gives: the width,
    /// the zlib stream of the packed statuses, and no aggregation URI.
    pub open spec fn builds(&self, list: StatusList) -> bool {
        let packed = packed_bytes(codes_of(self.statuses()), self.width());
        &&& list.bits == self.width()
        &&& list.lst@ == zlib_deflated(packed)
        &&& zlib_inflated(list.lst@) == Some(packed)
        &&& list.aggregation_uri is None
    }

    /// An empty builder. Fails exactly when the width is not 1, 2, 4 or 8.
    pub fn new(bits_per_status: u8) -> (result: Result<Self, StatusTypeError>)
        ensures
            valid_width(bits_per_status) ==> result is Ok && result->Ok_0.width()
                == bits_per_status && result->Ok_0.statuses() == Seq::<StatusType>::empty(),
            !valid_width(bits_per_status) ==> result is Err && result->Err_0
                == StatusTypeError::InvalidBitsPerStatus(bits_per_status),
    {
        Self::from_vec(Vec::new(), bits_per_status)
    }

    /// A builder that starts from `statuses`. Fails exactly when the width
    /// is not 1, 2, 4 or 8.
    pub fn from_vec(statuses: Vec<StatusType>, bits_per_status: u8) -> (result: Result<
        Self,
        StatusTypeError,
    >)
        ensures
            valid_width(bits_per_status) ==> result is Ok && result->Ok_0.width()
                == bits_per_status && result->Ok_0.statuses() == statuses@,
            !valid_width(bits_per_status) ==> result is Err && result->Err_0
                == StatusTypeError::InvalidBitsPerStatus(bits_per_status),
    {
        match BitsPerStatus::try_from(bits_per_status) {
            Ok(width) => Ok(Self { statuses, bits_per_status: width }),
            Err(e) => Err(e),
        }
    }

    /// Appends a status and returns its index, which is now the highest.
    pub fn add_status(&mut self, status: StatusType) -> (index: usize)
        ensures
            final(self).statuses() == old(self).statuses().push(status),
            final(self).width() == old(self).width(),
            index == old(self).statuses().len(),
    {
        let index: usize = self.statuses.len();
        self.statuses.push(status);
        index
    }

    /// The index of the status appended last, or `None` while the builder
    /// is empty.
    pub fn get_last_index(&self) -> (last: Option<usize>)
        ensures
            self.statuses().len() == 0 ==> last is None,
            self.statuses().len() > 0 ==> last == Some((self.statuses().len() - 1) as usize),
    {
        if self.statuses.len() == 0 {
            None
        } else {
            Some(self.statuses.len() - 1)
        }
    }

    /// The bit width of one status, which is 1, 2, 4 or 8.
    pub fn get_bits_per_status(&self) -> (bits: u8)
        ensures
            bits == self.width(),
            valid_width(bits),
    {
        self.bits_per_status.bits()
    }

    /// The statuses collected so far.
    pub fn get_statuses(&self) -> (statuses: &[StatusType])
        ensures
            statuses@ == self.statuses(),
    {
        self.statuses.as_slice()
    }

    /// Packs the statuses and compresses them into a status list. This
    /// always succeeds. The builder is left as it was, so building again
    /// gives the same list.
    pub fn build(&self) -> (result: Result<StatusList, BuilderError>)
        ensures
            result is Ok,
            self.builds(result->Ok_0),
    {
        let encoder = StatusListEncoder::new(self.bits_per_status.bits());
        match encoder.encode_statuses(self.statuses.as_slice()) {
            Ok(bytes) => encoder.finalize(bytes.as_slice()),
            Err(e) => Err(e),
        }
    }

    /// Building twice from one state gives the same width and the same
    /// payload, byte for byte.
    pub proof fn lemma_build_repeatable(&self, first: StatusList, second: StatusList)
        requires
            self.builds(first),
            self.builds(second),
        ensures
            first.bits == second.bits,
            first.lst@ == second.lst@,
    {
    }
    /// A list built from this state reads back: a decoder over the inflated
    /// payload of the list, at the list's width, gives at each index the
    /// status that was appended there, provided that its code fits the
    /// width.
    pub proof fn lemma_built_list_reads_back(
        &self,
        list: StatusList,
        decoder: StatusListDecoder,
        index: int,
    )
        requires
            self.builds(list),
            Some(decoder.bytes()) == zlib_inflated(list.lst@),
            decoder.width() == list.bits,
            0 <= index < self.statuses().len(),
            index <= usize::MAX,
            self.statuses()[index].fits(self.width()),
        ensures
            unpacked(decoder.bytes(), decoder.width(), index) == Ok::<StatusType, DecoderError>(
                self.statuses()[index],
            ),
    {
        lemma_unpack_packed(self.statuses(), self.width(), index);
    }
}

} // verus!
