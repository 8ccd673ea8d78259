//! The error kinds that a vault operation can fail with. Every failure path
//! returns a distinct, inspectable kind, and a failed operation commits no
//! partial effect.
use vstd::prelude::*;

verus! {

/// Why a vault operation was rejected.
#[derive(Clone, Copy, Debug, PartialEq, Eq, Structural)]
pub enum VaultError {
    /// The operation was handed fewer (or more) accounts than it needs.
    NotEnoughAccounts,
    /// The instruction selector is unknown, or the payload has the wrong size.
    InvalidInstructionData,
    /// A signer precondition is unmet, or the address bound to the recovered
    /// commitment does not match the vault address (split and close).
    MissingRequiredSignature,
    /// Open was attempted on a vault account that already holds a payload.
    AccountAlreadyInitialized,
    /// The canonical seeded derivation does not match the vault address (open).
    PdaMismatch,
}

} // verus!
