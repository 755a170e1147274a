//! Byte encodings of the values that make up a scheduler key. The bytes come from
//! `parity_scale_codec`; this module says what they are.

use parity_scale_codec::Encode;
use vstd::prelude::*;

verus! {

/// The `width` lowest bytes of `x`, lowest first.
pub open spec fn le_bytes(x: nat, width: nat) -> Seq<u8>
    decreases width,
{
    if width == 0 {
        Seq::empty()
    } else {
        seq![(x % 256) as u8] + le_bytes(x / 256, (width - 1) as nat)
    }
}

/// The number of values that `width` bytes can tell apart.
pub open spec fn capacity(width: nat) -> nat
    decreases width,
{
    if width == 0 {
        1
    } else {
        256 * capacity((width - 1) as nat)
    }
}

/// `le_bytes` gives as many bytes as it is asked for.
pub proof fn lemma_le_bytes_len(x: nat, width: nat)
    ensures
        le_bytes(x, width).len() == width,
    decreases width,
{
    if width > 0 {
        lemma_le_bytes_len(x / 256, (width - 1) as nat);
    }
}

/// Numbers that fit in `width` bytes and have the same bytes are the same number.
pub proof fn lemma_le_bytes_injective(x: nat, y: nat, width: nat)
    requires
        x < capacity(width),
        y < capacity(width),
        le_bytes(x, width) == le_bytes(y, width),
    ensures
        x == y,
    decreases width,
{
    if width > 0 {
        let rest: nat = (width - 1) as nat;
        let bx = le_bytes(x, width);
        let by = le_bytes(y, width);
        assert(bx[0] == (x % 256) as u8);
        assert(by[0] == (y % 256) as u8);
        assert(bx.subrange(1, bx.len() as int) == le_bytes(x / 256, rest));
        assert(by.subrange(1, by.len() as int) == le_bytes(y / 256, rest));
        lemma_le_bytes_injective(x / 256, y / 256, rest);
    }
}

/// A `u32` fits in four bytes and a `u64` in eight.
pub proof fn lemma_capacity_of_integers()
    ensures
        capacity(4) == 0x1_0000_0000,
        capacity(8) == 0x1_0000_0000_0000_0000,
{
    reveal_with_fuel(capacity, 9);
}

/// The bytes of an asset identifier. Calls `Encode::encode` of `parity_scale_codec` on a
/// `u32`, which writes the four bytes of the number, lowest first.
#[verifier::external_body]
pub(crate) fn encode_u32(x: u32) -> (r: Vec<u8>)
    ensures
        r@ == le_bytes(x as nat, 4),
{
    x.encode()
}

/// The bytes of a poll identifier. Calls `Encode::encode` of `parity_scale_codec` on a
/// `u64`, which writes the eight bytes of the number, lowest first.
#[verifier::external_body]
pub(crate) fn encode_u64(x: u64) -> (r: Vec<u8>)
    ensures
        r@ == le_bytes(x as nat, 8),
{
    x.encode()
}

/// The bytes of an eight-byte tag. Calls `Encode::encode` of `parity_scale_codec` on a
/// byte array, which writes the bytes as they stand, without a length in front.
#[verifier::external_body]
pub(crate) fn encode_tag(tag: &[u8; 8]) -> (r: Vec<u8>)
    ensures
        r@ == tag@,
{
    tag.encode()
}

} // verus!
