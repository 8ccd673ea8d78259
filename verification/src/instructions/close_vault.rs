//! Close: spend a vault by one-time signature, moving its entire balance to a
//! refund destination, then destroy the vault account. A terminal transition.
use vstd::prelude::*;

use crate::account::Account;
use crate::account::closed_vault;
use crate::account::credited;
use crate::account::AccountView;
use crate::account::UNOWNED;
use crate::crypto::commitment_of;
use crate::crypto::recover_commitment;
use crate::crypto::SIG_BYTES;
use crate::errors::VaultError;
use crate::pda::bind_address;
use crate::pda::bind_spec;
use crate::util::bytes32_equal;
use crate::ID;

verus! {

/// The size in bytes of a close payload: the one-time signature and one bump
/// byte.
pub const CLOSE_VAULT_LEN: usize = 897;

/// The close instruction payload.
pub struct CloseVault {
    /// The one-time signature over the refund destination address.
    pub signature: Vec<u8>,
    /// The raw-derivation discriminant byte.
    pub bump: u8,
}

impl CloseVault {
    /// A well-formed payload carries a full-size signature.
    pub open spec fn wf(&self) -> bool {
        self.signature@.len() == SIG_BYTES
    }
}

/// Decode a close payload. Exactly the payloads of the fixed size are valid.
pub fn parse_close_vault(data: &[u8]) -> (r: Result<CloseVault, VaultError>)
    ensures
        data@.len() == CLOSE_VAULT_LEN ==> {
            &&& r is Ok
            &&& r->Ok_0.wf()
            &&& r->Ok_0.signature@ == data@.subrange(0, SIG_BYTES as int)
            &&& r->Ok_0.bump == data@[SIG_BYTES as int]
        },
        data@.len() != CLOSE_VAULT_LEN ==> r == Err::<CloseVault, VaultError>(
            VaultError::InvalidInstructionData,
        ),
{
    if data.len() != CLOSE_VAULT_LEN {
        return Err(VaultError::InvalidInstructionData);
    }
    let signature = vstd::slice::slice_to_vec(vstd::slice::slice_subrange(data, 0, SIG_BYTES));
    let bump = *vstd::slice::slice_index_get(data, SIG_BYTES);
    Ok(CloseVault { signature, bump })
}

/// What close returns, as a function of the accounts and the payload: the
/// payload must decode, and the raw domain-tagged derivation of the commitment
/// recovered from the signature over the refund destination address — the
/// signed message is exactly those 32 bytes — must equal the vault address.
pub open spec fn close_vault_outcome(
    vault: AccountView,
    refund: AccountView,
    data: Seq<u8>,
) -> Result<(), VaultError> {
    if data.len() != CLOSE_VAULT_LEN {
        Err(VaultError::InvalidInstructionData)
    } else {
        let sig = data.subrange(0, SIG_BYTES as int);
        let bump = data[SIG_BYTES as int];
        if bind_spec(commitment_of(sig, refund.key), bump, ID@) != vault.key {
            Err(VaultError::MissingRequiredSignature)
        } else {
            Ok(())
        }
    }
}

/// Close the vault. The host guarantees that total balances fit the balance
/// unit, which bounds the refund credit.
pub fn close_vault(vault: &mut Account, refund: &mut Account, data: &[u8]) -> (r: Result<
    (),
    VaultError,
>)
    requires
        old(refund).lamports + old(vault).lamports <= u64::MAX,
    ensures
        r == close_vault_outcome(old(vault)@, old(refund)@, data@),
        r is Err ==> final(vault)@ == old(vault)@ && final(refund)@ == old(refund)@,
        r is Ok ==> final(vault)@ == closed_vault(old(vault)@) && final(refund)@ == credited(
            old(refund)@,
            old(vault)@.lamports,
        ),
{
    let ix_data = match parse_close_vault(data) {
        Ok(ix_data) => ix_data,
        Err(e) => { return Err(e) },
    };
    let commitment = recover_commitment(ix_data.signature.as_slice(), refund.key.as_slice());
    let bound = bind_address(&commitment, ix_data.bump, &ID);
    if !bytes32_equal(&bound, &vault.key) {
        return Err(VaultError::MissingRequiredSignature);
    }
    refund.lamports = refund.lamports + vault.lamports;
    vault.lamports = 0;
    vault.data = Vec::new();
    vault.owner = UNOWNED;
    Ok(())
}

} // verus!
