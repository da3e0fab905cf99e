//! Deterministic derivation of the destination address for a slot's roots.
//!
//! The destination program owns one account per slot, found by the chain's
//! program-derived-address scheme from the seed tag `"roots"` and the
//! slot's 8 little-endian bytes. The derivation must agree bit for bit
//! with the destination program's own, so the search itself is the
//! chain library's; this module fixes the seeds and names the result.

use vstd::prelude::*;

use crate::codec::u64_le_seq;
use crate::codec::u64_le_bytes;
use crate::errors::RelayError;

verus! {

/// The address and bump seed that the program-derived-address search
/// returns for seeds `(tag, num)` under `program`, or `None` in the
/// statistically improbable event that no bump yields a valid address.
/// The search is a pure function of the seeds and the program id.
pub uninterp spec fn pda_of(tag: Seq<u8>, num: Seq<u8>, program: Seq<u8>) -> Option<(Seq<u8>, u8)>;

/// The seed tag `"roots"` as bytes.
pub open spec fn roots_tag() -> Seq<u8> {
    seq![114u8, 111u8, 111u8, 116u8, 115u8]
}

/// The seed tag `"roots"` as a fresh buffer.
pub fn roots_tag_bytes() -> (r: Vec<u8>)
    ensures
        r@ == roots_tag(),
{
    let mut r: Vec<u8> = Vec::new();
    r.push(114);
    r.push(111);
    r.push(111);
    r.push(116);
    r.push(115);
    proof {
        assert(r@ =~= roots_tag());
    }
    r
}

/// Relies on solana_program::pubkey::Pubkey::try_find_program_address with
/// the two given seeds: its result is a pure function of the seeds and the
/// program id, and a found address is 32 bytes.
#[verifier::external_body]
fn find_program_address_two_seeds(tag: &Vec<u8>, num: &Vec<u8>, program: &Vec<u8>) -> (r: Option<
    (Vec<u8>, u8),
>)
    requires
        program@.len() == 32,
    ensures
        match r {
            Some(p) => pda_of(tag@, num@, program@) == Some((p.0@, p.1)) && p.0@.len() == 32,
            None => pda_of(tag@, num@, program@) is None,
        },
{
    let program_id = solana_program::pubkey::Pubkey::try_from(program.as_slice()).unwrap();
    let found = solana_program::pubkey::Pubkey::try_find_program_address(
        &[tag.as_slice(), num.as_slice()],
        &program_id,
    );
    found.map(|(address, bump)| (address.to_bytes().to_vec(), bump))
}

/// An address the destination program owns, with the bump seed that made
/// it valid.
#[derive(Debug, PartialEq, Eq)]
pub struct DerivedAddress {
    /// The 32-byte derived address.
    pub address: Vec<u8>,
    /// The bump seed the search settled on.
    pub bump: u8,
}

impl DerivedAddress {
    /// The address is exactly 32 bytes.
    pub open spec fn wf(&self) -> bool {
        self.address@.len() == 32
    }
}

/// Derives the destination address for `slot`'s roots under `program`:
/// the program-derived address for the seeds `"roots"` and the slot's 8
/// little-endian bytes. Deterministic in both arguments; fails exactly
/// when the underlying search finds no viable address.
pub fn derive_roots_address(slot: u64, program: &Vec<u8>) -> (r: Result<
    DerivedAddress,
    RelayError,
>)
    requires
        program@.len() == 32,
    ensures
        match pda_of(roots_tag(), u64_le_seq(slot), program@) {
            Some(p) => {
                &&& r is Ok
                &&& r->Ok_0.wf()
                &&& r->Ok_0.address@ == p.0
                &&& r->Ok_0.bump == p.1
            },
            None => r == Err::<DerivedAddress, RelayError>(RelayError::AddressDerivationFailed),
        },
{
    let tag = roots_tag_bytes();
    let num = u64_le_bytes(slot);
    match find_program_address_two_seeds(&tag, &num, program) {
        Some((address, bump)) => Ok(DerivedAddress { address, bump }),
        None => Err(RelayError::AddressDerivationFailed),
    }
}

/// Derivation is deterministic: two outcomes of the search for the same
/// slot and program are the same outcome, so two calls of
/// `derive_roots_address` with identical arguments return identical
/// addresses and bumps.
pub proof fn lemma_derive_deterministic(
    slot: u64,
    program: Seq<u8>,
    r1: Option<(Seq<u8>, u8)>,
    r2: Option<(Seq<u8>, u8)>,
)
    requires
        r1 == pda_of(roots_tag(), u64_le_seq(slot), program),
        r2 == pda_of(roots_tag(), u64_le_seq(slot), program),
    ensures
        r1 == r2,
{
}

} // verus!
