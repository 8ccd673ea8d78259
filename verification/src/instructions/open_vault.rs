//! Open: create a vault account at the canonical seeded derivation of the
//! payer's identity and a bump, fund it to the rent-exempt minimum, and
//! persist the owner record. The only state-creating transition.
use vstd::prelude::*;

use crate::account::Account;
use crate::account::AccountView;
use crate::errors::VaultError;
use crate::pda::vault_pda_spec;
use crate::states::VaultState;
use crate::ID;

verus! {

/// The size in bytes of an open payload: one hash byte and one bump byte.
pub const OPEN_VAULT_LEN: usize = 2;

/// The open instruction payload.
#[derive(Clone, Copy, Debug, PartialEq, Eq, Structural)]
pub struct OpenVault {
    /// A seed byte mixed into the signing authority for account creation.
    pub hash: u8,
    /// The canonical-derivation discriminant byte.
    pub bump: u8,
}

/// Decode an open payload. Exactly the payloads of the fixed size are valid.
pub fn parse_open_vault(data: &[u8]) -> (r: Result<OpenVault, VaultError>)
    ensures
        r == (if data@.len() == OPEN_VAULT_LEN {
            Ok::<OpenVault, VaultError>((OpenVault { hash: data@[0], bump: data@[1] }))
        } else {
            Err::<OpenVault, VaultError>(VaultError::InvalidInstructionData)
        }),
{
    if data.len() != OPEN_VAULT_LEN {
        return Err(VaultError::InvalidInstructionData);
    }
    let hash = *vstd::slice::slice_index_get(data, 0);
    let bump = *vstd::slice::slice_index_get(data, 1);
    Ok(OpenVault { hash, bump })
}

/// What open returns, as a function of the accounts and the payload: the payer
/// must sign, the vault must be uninitialized, the payload must decode, and
/// the vault address must equal the canonical derivation from the payer's
/// identity and the bump.
pub open spec fn open_vault_outcome(payer: AccountView, vault: AccountView, data: Seq<u8>) -> Result<
    (),
    VaultError,
> {
    if !payer.is_signer {
        Err(VaultError::MissingRequiredSignature)
    } else if vault.data.len() != 0 {
        Err(VaultError::AccountAlreadyInitialized)
    } else if data.len() != OPEN_VAULT_LEN {
        Err(VaultError::InvalidInstructionData)
    } else if vault_pda_spec(payer.key, data[1], ID@) != vault.key {
        Err(VaultError::PdaMismatch)
    } else {
        Ok(())
    }
}

/// The vault account a successful open leaves behind: funded to the rent
/// minimum, owned by this program, holding the owner record.
pub open spec fn opened_vault(payer: AccountView, vault: AccountView, rent_minimum: u64) -> AccountView {
    AccountView {
        key: vault.key,
        lamports: (vault.lamports + rent_minimum) as u64,
        data: payer.key,
        owner: ID@,
        is_signer: vault.is_signer,
    }
}

/// The payer a successful open leaves behind: debited by the rent minimum.
pub open spec fn opened_payer(payer: AccountView, rent_minimum: u64) -> AccountView {
    AccountView {
        key: payer.key,
        lamports: (payer.lamports - rent_minimum) as u64,
        data: payer.data,
        owner: payer.owner,
        is_signer: payer.is_signer,
    }
}

/// Open the vault. `rent_minimum` is the host's minimum balance for a
/// rent-exempt account of the record's size; the host guarantees the payer can
/// fund it, and that total balances fit the balance unit.
pub fn open_vault(payer: &mut Account, vault: &mut Account, data: &[u8], rent_minimum: u64) -> (r:
    Result<(), VaultError>)
    requires
        old(payer).lamports >= rent_minimum,
        old(vault).lamports + rent_minimum <= u64::MAX,
    ensures
        r == open_vault_outcome(old(payer)@, old(vault)@, data@),
        r is Err ==> final(payer)@ == old(payer)@ && final(vault)@ == old(vault)@,
        r is Ok ==> final(payer)@ == opened_payer(old(payer)@, rent_minimum) && final(vault)@
            == opened_vault(old(payer)@, old(vault)@, rent_minimum),
{
    if !payer.is_signer {
        return Err(VaultError::MissingRequiredSignature);
    }
    if vault.data.len() != 0 {
        return Err(VaultError::AccountAlreadyInitialized);
    }
    let ix_data = match parse_open_vault(data) {
        Ok(ix_data) => ix_data,
        Err(e) => { return Err(e) },
    };
    match VaultState::validate_pda(ix_data.bump, &vault.key, &payer.key) {
        Ok(()) => {},
        Err(e) => { return Err(e) },
    }
    payer.lamports = payer.lamports - rent_minimum;
    vault.lamports = vault.lamports + rent_minimum;
    let record = VaultState { owner: payer.key };
    vault.data = record.to_bytes();
    vault.owner = ID;
    Ok(())
}

} // verus!
