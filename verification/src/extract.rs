//! Slicing the root pair out of a raw source-account snapshot.
//!
//! The snapshot's first 8 bytes are an account header; the tree root is the
//! 32 bytes after it. The state root is deliberately the all-zero
//! placeholder: this version has no world-state source yet, and the gap is
//! kept visible rather than papered over.

use vstd::prelude::*;

use crate::codec::zero32;
use crate::codec::zero_root;
use crate::errors::RelayError;

verus! {

/// The byte offset where the tree root starts in the account data.
pub open spec fn root_offset() -> int {
    8
}

/// The least account-data length from which a root can be extracted.
pub open spec fn min_account_len() -> int {
    40
}

/// The two 32-byte roots that a submission carries.
#[derive(Debug, PartialEq, Eq)]
pub struct RootPair {
    /// The root read out of the source account.
    pub tree_root: Vec<u8>,
    /// The all-zero placeholder for the not-yet-computed world state root.
    pub state_root: Vec<u8>,
}

impl RootPair {
    /// Both roots are exactly 32 bytes.
    pub open spec fn wf(&self) -> bool {
        self.tree_root@.len() == 32 && self.state_root@.len() == 32
    }
}

/// Extracts the root pair from raw account bytes: the 32 bytes at offset 8
/// become the tree root and the state root is all zeros. Fails exactly when
/// the data is shorter than 40 bytes.
pub fn extract(data: &Vec<u8>) -> (r: Result<RootPair, RelayError>)
    ensures
        data@.len() < min_account_len() ==> r == Err::<RootPair, RelayError>(
            RelayError::MalformedAccountData,
        ),
        data@.len() >= min_account_len() ==> {
            &&& r is Ok
            &&& r->Ok_0.wf()
            &&& r->Ok_0.tree_root@ == data@.subrange(root_offset(), root_offset() + 32)
            &&& r->Ok_0.state_root@ == zero32()
        },
{
    if data.len() < 40 {
        return Err(RelayError::MalformedAccountData);
    }
    let mut tree_root: Vec<u8> = Vec::new();
    let mut i: usize = 0;
    while i < 32
        invariant
            i <= 32,
            data@.len() >= 40,
            tree_root@.len() == i as int,
            forall|j: int| 0 <= j < i ==> tree_root@[j] == data@[8 + j],
        decreases 32 - i,
    {
        tree_root.push(data[8 + i]);
        i = i + 1;
    }
    let state_root = zero_root();
    proof {
        assert(tree_root@ =~= data@.subrange(root_offset(), root_offset() + 32));
    }
    Ok(RootPair { tree_root, state_root })
}

} // verus!
