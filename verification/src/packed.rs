//! The packed return word: a pointer and a length in one 64-bit value.
//!
//! Guest calls that hand a buffer to the host return a single word. Its low 32
//! bits are the buffer's address in guest memory, its high 32 bits the
//! buffer's length.

use vstd::prelude::*;

verus! {

/// The address that a packed word carries.
pub open spec fn packed_ptr(packed: u64) -> u32 {
    (packed % 0x1_0000_0000) as u32
}

/// The length that a packed word carries.
pub open spec fn packed_length(packed: u64) -> u32 {
    (packed / 0x1_0000_0000) as u32
}

/// The packed word for an address and a length.
pub open spec fn pack(ptr: u32, length: u32) -> u64 {
    (length * 0x1_0000_0000 + ptr) as u64
}

/// Splits a packed word into `(ptr, length)`.
pub fn expand_return_pointer(packed: u64) -> (parts: (u32, u32))
    ensures
        parts.0 == packed_ptr(packed),
        parts.1 == packed_length(packed),
        pack(parts.0, parts.1) == packed,
{
    let ptr: u32 = (packed & 0xFFFF_FFFF) as u32;
    let length: u32 = (packed >> 32) as u32;
    assert((packed & 0xFFFF_FFFF) as u32 == (packed % 0x1_0000_0000) as u32) by (bit_vector);
    assert((packed >> 32) as u32 == (packed / 0x1_0000_0000) as u32) by (bit_vector);
    proof {
        lemma_pack_of_expanded(packed);
    }
    (ptr, length)
}

/// Joins an address and a length into a packed word.
pub fn pack_return_pointer(ptr: u32, length: u32) -> (packed: u64)
    ensures
        packed == pack(ptr, length),
        packed_ptr(packed) == ptr,
        packed_length(packed) == length,
{
    let packed: u64 = (ptr as u64) | ((length as u64) << 32);
    assert((ptr as u64) | ((length as u64) << 32) == (length as u64) * 0x1_0000_0000 + (ptr as u64))
        by (bit_vector);
    proof {
        lemma_expand_of_packed(ptr, length);
    }
    packed
}

/// Packing an address and a length and splitting the word again gives back
/// exactly that address and that length, for every pair of 32-bit values.
pub proof fn lemma_expand_of_packed(ptr: u32, length: u32)
    ensures
        packed_ptr(pack(ptr, length)) == ptr,
        packed_length(pack(ptr, length)) == length,
{
    let word: int = length * 0x1_0000_0000 + ptr;
    assert(0 <= word <= u64::MAX);
    assert(word % 0x1_0000_0000 == ptr && word / 0x1_0000_0000 == length) by (nonlinear_arith)
        requires
            word == length * 0x1_0000_0000 + ptr,
            0 <= ptr < 0x1_0000_0000,
            0 <= length,
    ;
}

/// Splitting a word and packing the two halves again gives back the word:
/// no two words carry the same address and length.
pub proof fn lemma_pack_of_expanded(packed: u64)
    ensures
        pack(packed_ptr(packed), packed_length(packed)) == packed,
{
    let low: int = (packed % 0x1_0000_0000) as int;
    let high: int = (packed / 0x1_0000_0000) as int;
    assert(0 <= low < 0x1_0000_0000);
    assert(0 <= high < 0x1_0000_0000);
    assert(high * 0x1_0000_0000 + low == packed) by (nonlinear_arith)
        requires
            low == packed % 0x1_0000_0000,
            high == packed / 0x1_0000_0000,
    ;
}

} // verus!
