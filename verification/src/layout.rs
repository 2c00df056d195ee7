//! The bit layout of a packed status list.
//!
//! A byte holds `8 / width` fields of `width` bits each. Widths 1 and 2 fill a
//! byte from its least significant bit upwards; width 4 puts the first status
//! in the high nibble and the second in the low nibble; width 8 uses the
//! whole byte.

use vstd::prelude::*;

verus! {

/// The bit widths that a status list may use.
pub open spec fn valid_width(bits: u8) -> bool {
    bits == 1 || bits == 2 || bits == 4 || bits == 8
}

/// How many statuses one byte holds.
pub open spec fn slots_per_byte(bits: u8) -> int {
    if bits == 1 {
        8
    } else if bits == 2 {
        4
    } else if bits == 4 {
        2
    } else {
        1
    }
}

/// A byte holds eight bits, so a valid width divides it into `8 / width`
/// slots.
pub proof fn lemma_slots_per_byte(bits: u8)
    requires
        valid_width(bits),
    ensures
        slots_per_byte(bits) == 8int / (bits as int),
        slots_per_byte(bits) * bits == 8,
{
    if bits == 1 {
        assert(8int / (bits as int) == 8);
    } else if bits == 2 {
        assert(8int / (bits as int) == 4);
    } else if bits == 4 {
        assert(8int / (bits as int) == 2);
    } else {
        assert(8int / (bits as int) == 1);
    }
}

/// The byte of the packed list that holds the status at `index`.
pub open spec fn byte_position(index: int, bits: u8) -> int {
    index / slots_per_byte(bits)
}

/// The slot, within its byte, of the status at `index`.
pub open spec fn slot_in_byte(index: int, bits: u8) -> u8 {
    (index % slots_per_byte(bits)) as u8
}

/// The mask that keeps the low `bits` bits of a byte.
pub open spec fn field_mask(bits: u8) -> u8 {
    if bits == 1 {
        0x01
    } else if bits == 2 {
        0x03
    } else if bits == 4 {
        0x0F
    } else {
        0xFF
    }
}

/// The position of the lowest bit of the field at `slot`.
pub open spec fn field_shift(bits: u8, slot: u8) -> u8 {
    if bits == 1 {
        slot
    } else if bits == 2 {
        (slot * 2) as u8
    } else if bits == 4 {
        if slot == 0 {
            4
        } else {
            0
        }
    } else {
        0
    }
}

/// The value that a byte holds in the field at `slot`.
pub open spec fn field_of(byte: u8, bits: u8, slot: u8) -> u8 {
    (byte >> field_shift(bits, slot)) & field_mask(bits)
}

/// The byte after the field at `slot` is cleared and `value`, cut to the
/// width, is written into it.
pub open spec fn with_field(byte: u8, bits: u8, slot: u8, value: u8) -> u8 {
    (byte & !(field_mask(bits) << field_shift(bits, slot))) | ((value & field_mask(bits))
        << field_shift(bits, slot))
}

/// Writing a field and reading it back gives the value cut to the width.
pub proof fn lemma_field_written(byte: u8, bits: u8, slot: u8, value: u8)
    by (bit_vector)
    requires
        bits == 1 || bits == 2 || bits == 4 || bits == 8,
        bits == 1 ==> slot < 8,
        bits == 2 ==> slot < 4,
        bits == 4 ==> slot < 2,
        bits == 8 ==> slot < 1,
    ensures
        field_of(with_field(byte, bits, slot, value), bits, slot) == value & field_mask(bits),
{
}

/// Writing a field leaves the other fields of the byte as they were.
pub proof fn lemma_field_kept(byte: u8, bits: u8, slot: u8, value: u8, other: u8)
    by (bit_vector)
    requires
        bits == 1 || bits == 2 || bits == 4 || bits == 8,
        bits == 1 ==> slot < 8 && other < 8,
        bits == 2 ==> slot < 4 && other < 4,
        bits == 4 ==> slot < 2 && other < 2,
        bits == 8 ==> slot < 1 && other < 1,
        slot != other,
    ensures
        field_of(with_field(byte, bits, slot, value), bits, other) == field_of(byte, bits, other),
{
}

/// The field that the status at `index` contributes: its code cut to the
/// width, and zero past the end of the list.
pub open spec fn slot_value(codes: Seq<u8>, bits: u8, index: int) -> u8 {
    if 0 <= index < codes.len() {
        codes[index] & field_mask(bits)
    } else {
        0
    }
}

/// Eight one-bit fields as one byte, the first in the lowest bit.
pub open spec fn join_bits(v0: u8, v1: u8, v2: u8, v3: u8, v4: u8, v5: u8, v6: u8, v7: u8) -> u8 {
    v0 | (v1 << 1) | (v2 << 2) | (v3 << 3) | (v4 << 4) | (v5 << 5) | (v6 << 6) | (v7 << 7)
}

/// Four two-bit fields as one byte, the first in the lowest two bits.
pub open spec fn join_pairs(v0: u8, v1: u8, v2: u8, v3: u8) -> u8 {
    v0 | (v1 << 2) | (v2 << 4) | (v3 << 6)
}

/// Two four-bit fields as one byte, the first in the high nibble.
pub open spec fn join_nibbles(v0: u8, v1: u8) -> u8 {
    (v0 << 4) | v1
}

/// The byte at `position` of the packed form of `codes`.
pub open spec fn packed_byte(codes: Seq<u8>, bits: u8, position: int) -> u8 {
    let first = position * slots_per_byte(bits);
    if bits == 1 {
        join_bits(
            slot_value(codes, bits, first),
            slot_value(codes, bits, first + 1),
            slot_value(codes, bits, first + 2),
            slot_value(codes, bits, first + 3),
            slot_value(codes, bits, first + 4),
            slot_value(codes, bits, first + 5),
            slot_value(codes, bits, first + 6),
            slot_value(codes, bits, first + 7),
        )
    } else if bits == 2 {
        join_pairs(
            slot_value(codes, bits, first),
            slot_value(codes, bits, first + 1),
            slot_value(codes, bits, first + 2),
            slot_value(codes, bits, first + 3),
        )
    } else if bits == 4 {
        join_nibbles(slot_value(codes, bits, first), slot_value(codes, bits, first + 1))
    } else {
        slot_value(codes, bits, first)
    }
}

/// The number of bytes that `count` statuses occupy.
pub open spec fn packed_len(count: nat, bits: u8) -> nat {
    ((count + slots_per_byte(bits) - 1) / slots_per_byte(bits)) as nat
}

/// The packed form of a list of status codes: as few bytes as hold them all,
/// unused fields zero.
pub open spec fn packed_bytes(codes: Seq<u8>, bits: u8) -> Seq<u8> {
    Seq::new(packed_len(codes.len(), bits), |position: int| packed_byte(codes, bits, position))
}

/// A byte is the join of its eight one-bit fields.
pub proof fn lemma_join_bits(byte: u8)
    by (bit_vector)
    ensures
        byte == join_bits(
            field_of(byte, 1, 0),
            field_of(byte, 1, 1),
            field_of(byte, 1, 2),
            field_of(byte, 1, 3),
            field_of(byte, 1, 4),
            field_of(byte, 1, 5),
            field_of(byte, 1, 6),
            field_of(byte, 1, 7),
        ),
{
}

/// A byte is the join of its four two-bit fields.
pub proof fn lemma_join_pairs(byte: u8)
    by (bit_vector)
    ensures
        byte == join_pairs(
            field_of(byte, 2, 0),
            field_of(byte, 2, 1),
            field_of(byte, 2, 2),
            field_of(byte, 2, 3),
        ),
{
}

/// A byte is the join of its two nibbles, and its own only eight-bit field.
pub proof fn lemma_join_nibbles(byte: u8)
    by (bit_vector)
    ensures
        byte == join_nibbles(field_of(byte, 4, 0), field_of(byte, 4, 1)),
        byte == field_of(byte, 8, 0),
{
}

/// The fields of a join of one-bit values are those values.
pub proof fn lemma_split_bits(v0: u8, v1: u8, v2: u8, v3: u8, v4: u8, v5: u8, v6: u8, v7: u8)
    by (bit_vector)
    requires
        v0 <= 1,
        v1 <= 1,
        v2 <= 1,
        v3 <= 1,
        v4 <= 1,
        v5 <= 1,
        v6 <= 1,
        v7 <= 1,
    ensures
        field_of(join_bits(v0, v1, v2, v3, v4, v5, v6, v7), 1, 0) == v0,
        field_of(join_bits(v0, v1, v2, v3, v4, v5, v6, v7), 1, 1) == v1,
        field_of(join_bits(v0, v1, v2, v3, v4, v5, v6, v7), 1, 2) == v2,
        field_of(join_bits(v0, v1, v2, v3, v4, v5, v6, v7), 1, 3) == v3,
        field_of(join_bits(v0, v1, v2, v3, v4, v5, v6, v7), 1, 4) == v4,
        field_of(join_bits(v0, v1, v2, v3, v4, v5, v6, v7), 1, 5) == v5,
        field_of(join_bits(v0, v1, v2, v3, v4, v5, v6, v7), 1, 6) == v6,
        field_of(join_bits(v0, v1, v2, v3, v4, v5, v6, v7), 1, 7) == v7,
{
}

/// The fields of a join of two-bit values are those values.
pub proof fn lemma_split_pairs(v0: u8, v1: u8, v2: u8, v3: u8)
    by (bit_vector)
    requires
        v0 <= 3,
        v1 <= 3,
        v2 <= 3,
        v3 <= 3,
    ensures
        field_of(join_pairs(v0, v1, v2, v3), 2, 0) == v0,
        field_of(join_pairs(v0, v1, v2, v3), 2, 1) == v1,
        field_of(join_pairs(v0, v1, v2, v3), 2, 2) == v2,
        field_of(join_pairs(v0, v1, v2, v3), 2, 3) == v3,
{
}

/// The fields of a join of two nibbles are those nibbles.
pub proof fn lemma_split_nibbles(v0: u8, v1: u8)
    by (bit_vector)
    requires
        v0 <= 15,
        v1 <= 15,
    ensures
        field_of(join_nibbles(v0, v1), 4, 0) == v0,
        field_of(join_nibbles(v0, v1), 4, 1) == v1,
{
}

/// A value cut to a width is at most the mask of that width, and the only
/// eight-bit field of a byte is the byte.
pub proof fn lemma_mask_bound(value: u8, bits: u8)
    by (bit_vector)
    ensures
        value & field_mask(bits) <= field_mask(bits),
        field_of(value, 8, 0) == value,
{
}


/// Whether every field of `bytes` holds what the status at its index
/// contributes to the packed form of `codes`.
pub open spec fn fields_agree(bytes: Seq<u8>, codes: Seq<u8>, bits: u8) -> bool {
    forall|index: int|
        0 <= index < bytes.len() * slots_per_byte(bits) ==> field_of(
            bytes[byte_position(index, bits)],
            bits,
            slot_in_byte(index, bits),
        ) == #[trigger] slot_value(codes, bits, index)
}

/// Reading any field of the packed form gives the code at that index, cut
/// to the width, or zero past the end of the list.
pub proof fn lemma_packed_field(codes: Seq<u8>, bits: u8, index: int)
    requires
        valid_width(bits),
        0 <= index < packed_len(codes.len(), bits) * slots_per_byte(bits),
    ensures
        field_of(
            packed_bytes(codes, bits)[byte_position(index, bits)],
            bits,
            slot_in_byte(index, bits),
        ) == slot_value(codes, bits, index),
{
    let position = index / slots_per_byte(bits);
    let first = position * slots_per_byte(bits);
    let slot = index % slots_per_byte(bits);
    lemma_position_bound(packed_len(codes.len(), bits) as int, bits, index);
    assert(packed_bytes(codes, bits)[position] == packed_byte(codes, bits, position));
    if bits == 1 {
        let v0 = slot_value(codes, bits, first);
        let v1 = slot_value(codes, bits, first + 1);
        let v2 = slot_value(codes, bits, first + 2);
        let v3 = slot_value(codes, bits, first + 3);
        let v4 = slot_value(codes, bits, first + 4);
        let v5 = slot_value(codes, bits, first + 5);
        let v6 = slot_value(codes, bits, first + 6);
        let v7 = slot_value(codes, bits, first + 7);
        lemma_slot_bound(codes, bits, first);
        lemma_slot_bound(codes, bits, first + 1);
        lemma_slot_bound(codes, bits, first + 2);
        lemma_slot_bound(codes, bits, first + 3);
        lemma_slot_bound(codes, bits, first + 4);
        lemma_slot_bound(codes, bits, first + 5);
        lemma_slot_bound(codes, bits, first + 6);
        lemma_slot_bound(codes, bits, first + 7);
        lemma_split_bits(v0, v1, v2, v3, v4, v5, v6, v7);
    } else if bits == 2 {
        let v0 = slot_value(codes, bits, first);
        let v1 = slot_value(codes, bits, first + 1);
        let v2 = slot_value(codes, bits, first + 2);
        let v3 = slot_value(codes, bits, first + 3);
        lemma_slot_bound(codes, bits, first);
        lemma_slot_bound(codes, bits, first + 1);
        lemma_slot_bound(codes, bits, first + 2);
        lemma_slot_bound(codes, bits, first + 3);
        lemma_split_pairs(v0, v1, v2, v3);
    } else if bits == 4 {
        let v0 = slot_value(codes, bits, first);
        let v1 = slot_value(codes, bits, first + 1);
        lemma_slot_bound(codes, bits, first);
        lemma_slot_bound(codes, bits, first + 1);
        lemma_split_nibbles(v0, v1);
    } else {
        lemma_mask_bound(slot_value(codes, bits, first), bits);
    }
}

/// An index below `count` whole bytes of slots lies in one of those bytes.
pub proof fn lemma_position_bound(count: int, bits: u8, index: int)
    requires
        valid_width(bits),
        0 <= index < count * slots_per_byte(bits),
    ensures
        0 <= byte_position(index, bits) < count,
        0 <= slot_in_byte(index, bits) < slots_per_byte(bits),
        index == byte_position(index, bits) * slots_per_byte(bits) + slot_in_byte(index, bits),
{
    if bits == 1 {
        assert(count * slots_per_byte(bits) == count * 8);
        assert(0 <= index / 8 < count);
    } else if bits == 2 {
        assert(count * slots_per_byte(bits) == count * 4);
        assert(0 <= index / 4 < count);
    } else if bits == 4 {
        assert(count * slots_per_byte(bits) == count * 2);
        assert(0 <= index / 2 < count);
    } else {
        assert(count * slots_per_byte(bits) == count * 1);
        assert(0 <= index / 1 < count);
    }
}

/// What a status contributes fits the width.
pub proof fn lemma_slot_bound(codes: Seq<u8>, bits: u8, index: int)
    ensures
        slot_value(codes, bits, index) <= field_mask(bits),
{
    if 0 <= index < codes.len() {
        lemma_mask_bound(codes[index], bits);
    }
}

/// A buffer of the packed length whose fields all agree with `codes` is the
/// packed form of `codes`: the fields of a byte determine it.
pub proof fn lemma_packed_from_fields(bytes: Seq<u8>, codes: Seq<u8>, bits: u8)
    requires
        valid_width(bits),
        bytes.len() == packed_len(codes.len(), bits),
        fields_agree(bytes, codes, bits),
    ensures
        bytes == packed_bytes(codes, bits),
{
    assert forall|position: int| 0 <= position < bytes.len() implies bytes[position]
        == packed_byte(codes, bits, position) by {
        let first = position * slots_per_byte(bits);
        let byte = bytes[position];
        if bits == 1 {
            assert(first == position * 8);
            lemma_join_bits(byte);
            assert(field_of(byte, bits, 0) == slot_value(codes, bits, first));
            assert(field_of(byte, bits, 1) == slot_value(codes, bits, first + 1));
            assert(field_of(byte, bits, 2) == slot_value(codes, bits, first + 2));
            assert(field_of(byte, bits, 3) == slot_value(codes, bits, first + 3));
            assert(field_of(byte, bits, 4) == slot_value(codes, bits, first + 4));
            assert(field_of(byte, bits, 5) == slot_value(codes, bits, first + 5));
            assert(field_of(byte, bits, 6) == slot_value(codes, bits, first + 6));
            assert(field_of(byte, bits, 7) == slot_value(codes, bits, first + 7));
        } else if bits == 2 {
            assert(first == position * 4);
            lemma_join_pairs(byte);
            assert(field_of(byte, bits, 0) == slot_value(codes, bits, first));
            assert(field_of(byte, bits, 1) == slot_value(codes, bits, first + 1));
            assert(field_of(byte, bits, 2) == slot_value(codes, bits, first + 2));
            assert(field_of(byte, bits, 3) == slot_value(codes, bits, first + 3));
        } else if bits == 4 {
            assert(first == position * 2);
            lemma_join_nibbles(byte);
            assert(field_of(byte, bits, 0) == slot_value(codes, bits, first));
            assert(field_of(byte, bits, 1) == slot_value(codes, bits, first + 1));
        } else {
            assert(first == position * 1);
            lemma_join_nibbles(byte);
            assert(field_of(byte, bits, 0) == slot_value(codes, bits, first));
        }
    }
    assert(bytes =~= packed_bytes(codes, bits));
}


/// Every field of a zero byte is zero.
pub proof fn lemma_zero_field(bits: u8, slot: u8)
    by (bit_vector)
    ensures
        field_of(0, bits, slot) == 0,
{
}

/// The packed length is the least number of bytes with a slot for every
/// status.
pub proof fn lemma_packed_len(count: nat, bits: u8)
    requires
        valid_width(bits),
    ensures
        count <= packed_len(count, bits) * slots_per_byte(bits) < count + slots_per_byte(bits),
        packed_len(count, bits) == count / (slots_per_byte(bits) as nat) + (if count % (
        slots_per_byte(bits) as nat) == 0 {
            0nat
        } else {
            1nat
        }),
{
    let length = packed_len(count, bits);
    if bits == 1 {
        assert(length * slots_per_byte(bits) == length * 8);
        assert(length == (count + 7) / 8);
        assert(length == count / 8 + (if count % 8 == 0 { 0nat } else { 1nat }));
    } else if bits == 2 {
        assert(length * slots_per_byte(bits) == length * 4);
        assert(length == (count + 3) / 4);
        assert(length == count / 4 + (if count % 4 == 0 { 0nat } else { 1nat }));
    } else if bits == 4 {
        assert(length * slots_per_byte(bits) == length * 2);
        assert(length == (count + 1) / 2);
        assert(length == count / 2 + (if count % 2 == 0 { 0nat } else { 1nat }));
    } else {
        assert(length * slots_per_byte(bits) == length * 1);
        assert(length == (count + 0) / 1);
        assert(length == count / 1 + (if count % 1 == 0 { 0nat } else { 1nat }));
    }
}

/// A zeroed buffer agrees with the empty list of codes.
pub proof fn lemma_zeroed_agrees(bytes: Seq<u8>, codes: Seq<u8>, bits: u8)
    requires
        forall|position: int| 0 <= position < bytes.len() ==> bytes[position] == 0,
        valid_width(bits),
    ensures
        fields_agree(bytes, codes.take(0), bits),
{
    assert forall|index: int| 0 <= index < bytes.len() * slots_per_byte(bits) implies field_of(
        bytes[byte_position(index, bits)],
        bits,
        slot_in_byte(index, bits),
    ) == #[trigger] slot_value(codes.take(0), bits, index) by {
        lemma_position_bound(bytes.len() as int, bits, index);
        lemma_zero_field(bits, slot_in_byte(index, bits));
    }
}

/// Writing the code at index `done` into a buffer that agrees with the
/// first `done` codes gives one that agrees with the first `done + 1`.
pub proof fn lemma_write_agrees(bytes: Seq<u8>, codes: Seq<u8>, bits: u8, done: int)
    requires
        valid_width(bits),
        0 <= done < codes.len(),
        bytes.len() == packed_len(codes.len(), bits),
        fields_agree(bytes, codes.take(done), bits),
    ensures
        0 <= byte_position(done, bits) < bytes.len(),
        fields_agree(
            bytes.update(
                byte_position(done, bits),
                with_field(
                    bytes[byte_position(done, bits)],
                    bits,
                    slot_in_byte(done, bits),
                    codes[done],
                ),
            ),
            codes.take(done + 1),
            bits,
        ),
{
    lemma_packed_len(codes.len(), bits);
    lemma_position_bound(bytes.len() as int, bits, done);
    let target = byte_position(done, bits);
    let slot = slot_in_byte(done, bits);
    let after = bytes.update(target, with_field(bytes[target], bits, slot, codes[done]));
    assert forall|index: int| 0 <= index < after.len() * slots_per_byte(bits) implies field_of(
        after[byte_position(index, bits)],
        bits,
        slot_in_byte(index, bits),
    ) == #[trigger] slot_value(codes.take(done + 1), bits, index) by {
        lemma_position_bound(bytes.len() as int, bits, index);
        let earlier = slot_value(codes.take(done), bits, index);
        if index == done {
            lemma_field_written(bytes[target], bits, slot, codes[done]);
        } else if byte_position(index, bits) == target {
            lemma_field_kept(bytes[target], bits, slot, codes[done], slot_in_byte(index, bits));
        }
    }
}


/// Cutting a value that fits the width leaves it as it is.
pub proof fn lemma_fitting_value(value: u8, bits: u8)
    by (bit_vector)
    requires
        value <= field_mask(bits),
    ensures
        value & field_mask(bits) == value,
{
}


/// An index falls in one of the first `count` bytes exactly when it is below
/// the number of slots in those bytes.
pub proof fn lemma_position_in_range(count: int, bits: u8, index: int)
    requires
        valid_width(bits),
        0 <= index,
        0 <= count,
    ensures
        0 <= byte_position(index, bits),
        byte_position(index, bits) < count <==> index < count * slots_per_byte(bits),
{
    if bits == 1 {
        assert(count * slots_per_byte(bits) == count * 8);
        assert(index / 8 < count <==> index < count * 8);
    } else if bits == 2 {
        assert(count * slots_per_byte(bits) == count * 4);
        assert(index / 4 < count <==> index < count * 4);
    } else if bits == 4 {
        assert(count * slots_per_byte(bits) == count * 2);
        assert(index / 2 < count <==> index < count * 2);
    } else {
        assert(count * slots_per_byte(bits) == count * 1);
        assert(index / 1 < count <==> index < count * 1);
    }
}

} // verus!
