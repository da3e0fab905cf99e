//! Binary layout of the submission instruction.
//!
//! The instruction is a fixed 80-byte buffer: an 8-byte discriminator,
//! the observed slot as 8 little-endian bytes, then the two 32-byte roots.

use vstd::prelude::*;

verus! {

/// Byte `i` of the little-endian encoding of `v`.
pub open spec fn u64_le_byte(v: u64, i: int) -> u8 {
    ((v >> ((8 * i) as u64)) & 0xff) as u8
}

/// The 8-byte little-endian encoding of `v`.
pub open spec fn u64_le_seq(v: u64) -> Seq<u8> {
    Seq::new(8, |i: int| u64_le_byte(v, i))
}

/// The fixed instruction discriminator that the destination program
/// recognizes.
pub open spec fn discriminator() -> Seq<u8> {
    seq![249u8, 209u8, 47u8, 60u8, 18u8, 3u8, 81u8, 219u8]
}

/// The all-zero 32-byte placeholder used for the state root.
pub open spec fn zero32() -> Seq<u8> {
    Seq::new(32, |i: int| 0u8)
}

/// The full instruction buffer for a given slot and root pair.
pub open spec fn instruction_bytes(slot: u64, tree_root: Seq<u8>, state_root: Seq<u8>) -> Seq<u8> {
    discriminator() + u64_le_seq(slot) + tree_root + state_root
}

/// The instruction buffer is always exactly 80 bytes, and reads back
/// piece by piece: the discriminator in the first 8 bytes, the slot's
/// little-endian encoding in the next 8, the tree root in the 32 after
/// that, and the state root in the last 32.
pub proof fn lemma_instruction_layout(slot: u64, tree_root: Seq<u8>, state_root: Seq<u8>)
    requires
        tree_root.len() == 32,
        state_root.len() == 32,
    ensures
        instruction_bytes(slot, tree_root, state_root).len() == 80,
        instruction_bytes(slot, tree_root, state_root).subrange(0, 8) == discriminator(),
        instruction_bytes(slot, tree_root, state_root).subrange(8, 16) == u64_le_seq(slot),
        instruction_bytes(slot, tree_root, state_root).subrange(16, 48) == tree_root,
        instruction_bytes(slot, tree_root, state_root).subrange(48, 80) == state_root,
{
    let whole = instruction_bytes(slot, tree_root, state_root);
    assert(whole.subrange(0, 8) =~= discriminator());
    assert(whole.subrange(8, 16) =~= u64_le_seq(slot));
    assert(whole.subrange(16, 48) =~= tree_root);
    assert(whole.subrange(48, 80) =~= state_root);
}

/// Encodes `v` as its 8 little-endian bytes.
pub fn u64_le_bytes(v: u64) -> (r: Vec<u8>)
    ensures
        r@ == u64_le_seq(v),
{
    let mut r: Vec<u8> = Vec::new();
    let mut i: usize = 0;
    while i < 8
        invariant
            i <= 8,
            r@.len() == i as int,
            forall|j: int| 0 <= j < i ==> r@[j] == u64_le_byte(v, j),
        decreases 8 - i,
    {
        let sh: u64 = (8 * i) as u64;
        r.push(((v >> sh) & 0xff) as u8);
        i = i + 1;
    }
    proof {
        assert(r@ =~= u64_le_seq(v));
    }
    r
}

/// The discriminator as a fresh buffer.
pub fn discriminator_bytes() -> (r: Vec<u8>)
    ensures
        r@ == discriminator(),
{
    let mut r: Vec<u8> = Vec::new();
    r.push(249);
    r.push(209);
    r.push(47);
    r.push(60);
    r.push(18);
    r.push(3);
    r.push(81);
    r.push(219);
    proof {
        assert(r@ =~= discriminator());
    }
    r
}

/// The all-zero placeholder root as a fresh buffer.
pub fn zero_root() -> (r: Vec<u8>)
    ensures
        r@ == zero32(),
{
    let r: Vec<u8> = vec![0u8; 32];
    proof {
        assert(r@ =~= zero32());
    }
    r
}

/// Builds the instruction buffer: discriminator, little-endian slot,
/// tree root, state root. Always exactly 80 bytes; cannot fail.
pub fn build_instruction_data(slot: u64, tree_root: &Vec<u8>, state_root: &Vec<u8>) -> (r: Vec<u8>)
    requires
        tree_root@.len() == 32,
        state_root@.len() == 32,
    ensures
        r@ == instruction_bytes(slot, tree_root@, state_root@),
        r@.len() == 80,
{
    let mut r = discriminator_bytes();
    let mut slot_bytes = u64_le_bytes(slot);
    r.append(&mut slot_bytes);
    r.extend_from_slice(tree_root.as_slice());
    r.extend_from_slice(state_root.as_slice());
    proof {
        assert(r@ =~= instruction_bytes(slot, tree_root@, state_root@));
    }
    r
}

} // verus!
