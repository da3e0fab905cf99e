//! The closed set of per-cycle failures. Each variant names the step that
//! failed, so a caller can choose a recovery policy per kind rather than by
//! inspecting message text.

use vstd::prelude::*;

verus! {

/// Why a relay cycle stopped before confirming a submission.
#[derive(Clone, Copy, Debug, PartialEq, Eq, Structural)]
pub enum RelayError {
    /// The source account exists in no form: the read succeeded but
    /// returned nothing.
    AccountNotFound,
    /// A remote call itself failed (network, node, deserialization).
    TransportError,
    /// The source account's bytes are too short to hold the expected
    /// header and root.
    MalformedAccountData,
    /// The deterministic address derivation found no viable address.
    AddressDerivationFailed,
    /// The transaction could not be signed or serialized.
    SubmissionError,
    /// The transaction was sent but its confirmation failed.
    ConfirmationError,
}

} // verus!
