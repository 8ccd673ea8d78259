//! The three vault operations and their binary instruction encodings. Byte 0
//! of an inbound instruction selects the operation; the remaining bytes are
//! that operation's fixed-layout payload.
use vstd::prelude::*;

use crate::errors::VaultError;

pub mod close_vault;
pub mod open_vault;
pub mod split_vault;

verus! {

/// The operation an inbound instruction selects.
#[derive(Clone, Copy, Debug, PartialEq, Eq, Structural)]
pub enum ProgramInstruction {
    OpenVault,
    SplitVault,
    CloseVault,
}

/// The operation a selector byte stands for: 0 opens, 1 splits, 2 closes, and
/// any other value is invalid.
pub open spec fn instruction_of_byte(value: u8) -> Result<ProgramInstruction, VaultError> {
    match value {
        0u8 => Ok(ProgramInstruction::OpenVault),
        1u8 => Ok(ProgramInstruction::SplitVault),
        2u8 => Ok(ProgramInstruction::CloseVault),
        _ => Err(VaultError::InvalidInstructionData),
    }
}

/// The number of accounts an operation must be handed, in order.
pub open spec fn accounts_required(ix: ProgramInstruction) -> int {
    match ix {
        ProgramInstruction::OpenVault => 3,
        ProgramInstruction::SplitVault => 3,
        ProgramInstruction::CloseVault => 2,
    }
}

impl ProgramInstruction {
    /// Decode the operation selector byte.
    pub fn try_from(value: &u8) -> (r: Result<ProgramInstruction, VaultError>)
        ensures
            r == instruction_of_byte(*value),
    {
        match *value {
            0 => Ok(ProgramInstruction::OpenVault),
            1 => Ok(ProgramInstruction::SplitVault),
            2 => Ok(ProgramInstruction::CloseVault),
            _ => Err(VaultError::InvalidInstructionData),
        }
    }

    /// Check that an operation was handed exactly the accounts it needs.
    pub fn check_account_count(&self, supplied: usize) -> (r: Result<(), VaultError>)
        ensures
            r == (if supplied == accounts_required(*self) {
                Ok::<(), VaultError>(())
            } else {
                Err::<(), VaultError>(VaultError::NotEnoughAccounts)
            }),
    {
        let needed: usize = match self {
            ProgramInstruction::OpenVault => 3,
            ProgramInstruction::SplitVault => 3,
            ProgramInstruction::CloseVault => 2,
        };
        if supplied == needed {
            Ok(())
        } else {
            Err(VaultError::NotEnoughAccounts)
        }
    }
}

} // verus!
