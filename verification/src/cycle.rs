//! Planning one relay cycle from the raw read result.
//!
//! A cycle reads the source account once, and everything after that read
//! is a pure decision: either a `RelayError` that the caller logs and
//! swallows, or a complete submission plan — the instruction bytes and the
//! ordered accounts of the transaction. The caller performs the read
//! before and the signing, sending and confirming after; nothing here is
//! retained between cycles, so every cycle re-derives its plan from
//! scratch.

use vstd::prelude::*;

use crate::address::derive_roots_address;
use crate::address::pda_of;
use crate::address::roots_tag;
use crate::codec::build_instruction_data;
use crate::codec::instruction_bytes;
use crate::codec::u64_le_seq;
use crate::codec::zero32;
use crate::errors::RelayError;
use crate::extract::extract;
use crate::extract::min_account_len;
use crate::extract::root_offset;

verus! {

/// One account of the submission, in transaction order.
#[derive(Debug, PartialEq, Eq)]
pub struct AccountRef {
    /// The account's 32-byte address.
    pub address: Vec<u8>,
    /// Whether the transaction may modify the account.
    pub writable: bool,
    /// Whether the account must sign the transaction.
    pub signer: bool,
}

impl AccountRef {
    /// The address is exactly 32 bytes.
    pub open spec fn wf(&self) -> bool {
        self.address@.len() == 32
    }

    /// This entry refers to `address` with exactly these two flags.
    pub open spec fn refers_to(&self, address: Seq<u8>, writable: bool, signer: bool) -> bool {
        self.address@ == address && self.writable == writable && self.signer == signer
    }
}

/// Everything the caller needs to sign and send one submission.
#[derive(Debug, PartialEq, Eq)]
pub struct SubmissionPlan {
    /// The destination program the instruction is addressed to.
    pub program: Vec<u8>,
    /// The 80-byte instruction buffer.
    pub data: Vec<u8>,
    /// The accounts of the instruction, in their fixed order.
    pub accounts: Vec<AccountRef>,
}

/// The system program's fixed address: 32 zero bytes (base58
/// `11111111111111111111111111111111`).
pub open spec fn system_program_address() -> Seq<u8> {
    zero32()
}

impl SubmissionPlan {
    /// The plan that a read of `data` observed at `slot` must produce:
    /// instruction bytes from the extracted tree root and the zero state
    /// root, addressed to the fixed four accounts in order — the
    /// destination state account (writable), the system program
    /// (read-only), the derived per-slot account (writable), and the
    /// wallet (writable signer).
    pub open spec fn is_plan_for(
        &self,
        data: Seq<u8>,
        slot: u64,
        program: Seq<u8>,
        slots_account: Seq<u8>,
        wallet: Seq<u8>,
        derived: Seq<u8>,
    ) -> bool {
        &&& self.program@ == program
        &&& self.data@ == instruction_bytes(
            slot,
            data.subrange(root_offset(), root_offset() + 32),
            zero32(),
        )
        &&& self.accounts@.len() == 4
        &&& self.accounts@[0].refers_to(slots_account, true, false)
        &&& self.accounts@[1].refers_to(system_program_address(), false, false)
        &&& self.accounts@[2].refers_to(derived, true, false)
        &&& self.accounts@[3].refers_to(wallet, true, true)
    }

    /// Every account address is 32 bytes.
    pub open spec fn wf(&self) -> bool {
        &&& self.program@.len() == 32
        &&& forall|i: int| 0 <= i < self.accounts@.len() ==> self.accounts@[i].wf()
    }
}

/// The system program's address as a fresh buffer.
pub fn system_program_address_bytes() -> (r: Vec<u8>)
    ensures
        r@ == system_program_address(),
{
    let r: Vec<u8> = vec![0u8; 32];
    proof {
        assert(r@ =~= system_program_address());
    }
    r
}

/// What the signing-and-submission step reported back to the cycle.
/// The step itself is the caller's — it signs, sends and waits — and it
/// hands the cycle exactly one of these.
#[derive(Debug, PartialEq, Eq)]
pub enum SubmitEvent {
    /// The destination ledger confirmed the transaction; the bytes are
    /// its confirmation identifier.
    Confirmed(Vec<u8>),
    /// The transaction could not be signed or serialized.
    SigningFailed,
    /// The remote submission call itself failed.
    TransportFailed,
    /// The transaction was sent but was not confirmed.
    ConfirmationFailed,
}

/// Concludes the cycle from the submission step's report: a confirmation
/// identifier on success, and otherwise the error kind the taxonomy
/// assigns to what failed — `SubmissionError` for signing or
/// serialization, `TransportError` for the remote call, and
/// `ConfirmationError` for a send without a confirmation.
pub fn conclude_submission(event: SubmitEvent) -> (r: Result<Vec<u8>, RelayError>)
    ensures
        match event {
            SubmitEvent::Confirmed(receipt) => r == Ok::<Vec<u8>, RelayError>(receipt),
            SubmitEvent::SigningFailed => r == Err::<Vec<u8>, RelayError>(
                RelayError::SubmissionError,
            ),
            SubmitEvent::TransportFailed => r == Err::<Vec<u8>, RelayError>(
                RelayError::TransportError,
            ),
            SubmitEvent::ConfirmationFailed => r == Err::<Vec<u8>, RelayError>(
                RelayError::ConfirmationError,
            ),
        },
{
    match event {
        SubmitEvent::Confirmed(receipt) => Ok(receipt),
        SubmitEvent::SigningFailed => Err(RelayError::SubmissionError),
        SubmitEvent::TransportFailed => Err(RelayError::TransportError),
        SubmitEvent::ConfirmationFailed => Err(RelayError::ConfirmationError),
    }
}

/// Plans one cycle from the outcome of the source read.
///
/// `account` is the source account's bytes, or `None` where the read
/// succeeded but found no account; `slot` is the ledger height the read
/// reported. Fails with `AccountNotFound` when the account is missing,
/// `MalformedAccountData` when its bytes are shorter than 40, and
/// `AddressDerivationFailed` when the address search finds nothing;
/// otherwise returns the full plan for exactly these inputs.
pub fn plan_cycle(
    account: &Option<Vec<u8>>,
    slot: u64,
    program: &Vec<u8>,
    slots_account: &Vec<u8>,
    wallet: &Vec<u8>,
) -> (r: Result<SubmissionPlan, RelayError>)
    requires
        program@.len() == 32,
        slots_account@.len() == 32,
        wallet@.len() == 32,
    ensures
        account is None ==> r == Err::<SubmissionPlan, RelayError>(RelayError::AccountNotFound),
        account matches Some(data) ==> (if data@.len() < min_account_len() {
            r == Err::<SubmissionPlan, RelayError>(RelayError::MalformedAccountData)
        } else {
            match pda_of(roots_tag(), u64_le_seq(slot), program@) {
                Some(p) => {
                    &&& r is Ok
                    &&& r->Ok_0.wf()
                    &&& r->Ok_0.is_plan_for(data@, slot, program@, slots_account@, wallet@, p.0)
                },
                None => r == Err::<SubmissionPlan, RelayError>(
                    RelayError::AddressDerivationFailed,
                ),
            }
        }),
{
    let data = match account {
        Some(data) => data,
        None => {
            return Err(RelayError::AccountNotFound);
        },
    };
    let roots = extract(data)?;
    let derived = derive_roots_address(slot, program)?;
    let instruction_data = build_instruction_data(slot, &roots.tree_root, &roots.state_root);
    let mut accounts: Vec<AccountRef> = Vec::new();
    accounts.push(
        AccountRef { address: slots_account.clone(), writable: true, signer: false },
    );
    accounts.push(
        AccountRef { address: system_program_address_bytes(), writable: false, signer: false },
    );
    accounts.push(AccountRef { address: derived.address, writable: true, signer: false });
    accounts.push(AccountRef { address: wallet.clone(), writable: true, signer: true });
    Ok(SubmissionPlan { program: program.clone(), data: instruction_data, accounts })
}

} // verus!
