//! The key-index codec: linear key numbers against the controller's packed
//! row/column identifiers.

use vstd::prelude::*;

verus! {

/// Number of keys on the pad.
pub const KEY_COUNT: u8 = 16;

/// The packed identifier of the key with linear index `index`: the row (the
/// two high bits of a 4-bit index) moves up by one position, the column (the
/// two low bits) stays in place.
pub open spec fn pack(index: u8) -> u8 {
    ((index & 0x0C) << 1) | (index & 0x03)
}

/// The linear index that a packed identifier stands for.
pub open spec fn unpack(wire: u8) -> u8 {
    ((wire & 0xF8) >> 1) | (wire & 0x03)
}

/// A key of the pad, held as its linear index in row-major order.
pub struct Key(u8);

impl Key {
    /// The linear index that this key holds.
    pub closed spec fn index(&self) -> u8 {
        self.0
    }

    /// The key that a packed identifier from the wire stands for.
    pub fn deserialize(wire_byte: u8) -> (key: Key)
        ensures
            key.index() == unpack(wire_byte),
    {
        Key(((wire_byte & 0xF8) >> 1) | (wire_byte & 0x03))
    }

    /// The packed identifier under which the controller knows this key.
    pub fn serialize(&self) -> (wire: u8)
        ensures
            wire == pack(self.index()),
    {
        ((self.0 & 0x0C) << 1) | (self.0 & 0x03)
    }

    /// The linear index of this key.
    pub fn as_index(&self) -> (index: u8)
        ensures
            index == self.index(),
    {
        self.0
    }

    /// The key with the given linear index.
    pub fn from_index(index: u8) -> (key: Key)
        ensures
            key.index() == index,
    {
        Key(index)
    }
}

/// Packing keeps the low four bits of an index and nothing else: unpacking a
/// packed index gives the index back exactly when it is below 16.
pub proof fn lemma_unpack_pack(index: u8)
    ensures
        unpack(pack(index)) == index & 0x0F,
        index < KEY_COUNT ==> unpack(pack(index)) == index,
        unpack(pack(index)) == index ==> index < KEY_COUNT,
{
    assert(unpack(pack(index)) == index & 0x0F) by (bit_vector);
    assert(index < 16 <==> index & 0x0F == index) by (bit_vector);
}

/// On the pad, a packed identifier is the row times eight plus the column:
/// bit 2 stays clear between the two fields.
pub proof fn lemma_pack_rows_and_columns(index: u8)
    requires
        index < KEY_COUNT,
    ensures
        pack(index) == (index / 4) * 8 + index % 4,
        pack(index) & 0x04 == 0,
{
    assert(index < 16 ==> pack(index) == (index / 4) * 8 + index % 4) by (bit_vector);
    assert(pack(index) & 0x04 == 0) by (bit_vector);
}

/// Packing loses nothing on the pad: two keys with the same packed
/// identifier are the same key, and an identifier made of a row and a column
/// field is packed from the index it unpacks to.
pub proof fn lemma_pack_is_one_to_one(a: u8, b: u8, wire: u8)
    ensures
        a < KEY_COUNT && b < KEY_COUNT && pack(a) == pack(b) ==> a == b,
        wire & 0xE4 == 0 ==> unpack(wire) < KEY_COUNT && pack(unpack(wire)) == wire,
{
    lemma_unpack_pack(a);
    lemma_unpack_pack(b);
    assert(wire & 0xE4 == 0 ==> unpack(wire) < 16 && pack(unpack(wire)) == wire) by (bit_vector);
}

} // verus!
