//! The persisted vault record and the canonical-derivation check that ties a
//! vault account's address to its owner.
use vstd::prelude::*;

use crate::errors::VaultError;
use crate::pda::derive_vault_address;
use crate::pda::vault_pda_spec;
use crate::util::bytes32_equal;
use crate::ID;

verus! {

/// The size in bytes of a persisted [`VaultState`]: the 32-byte owner, no
/// header, no versioning field.
pub const VAULT_STATE_LEN: usize = 32;

/// The payload persisted inside a vault account between a successful open and
/// the split or close that destroys it.
pub struct VaultState {
    /// The identity the vault was opened for.
    pub owner: [u8; 32],
}

impl VaultState {
    /// The byte layout of the record: exactly the owner bytes.
    pub fn to_bytes(&self) -> (v: Vec<u8>)
        ensures
            v@ == self.owner@,
    {
        let mut v: Vec<u8> = Vec::new();
        crate::util::push_bytes(&mut v, self.owner.as_slice());
        v
    }

    /// Read a record back from a persisted payload. Exactly the payloads of
    /// the record's size are accepted.
    pub fn from_bytes(data: &[u8]) -> (r: Option<VaultState>)
        ensures
            data@.len() == VAULT_STATE_LEN ==> r is Some && r->0.owner@ == data@,
            data@.len() != VAULT_STATE_LEN ==> r is None,
    {
        if data.len() != VAULT_STATE_LEN {
            return None;
        }
        let mut owner: [u8; 32] = [0; 32];
        let mut i: usize = 0;
        while i < 32
            invariant
                i <= 32,
                data@.len() == 32,
                forall|j: int| 0 <= j < i ==> owner@[j] == data@[j],
            decreases 32 - i,
        {
            owner[i] = *vstd::slice::slice_index_get(data, i);
            i = i + 1;
        }
        assert(owner@ =~= data@);
        Some(VaultState { owner })
    }

    /// Check that `pda` is the canonical seeded derivation of the vault
    /// address for `owner` and `bump` under this program's identity.
    pub fn validate_pda(bump: u8, pda: &[u8; 32], owner: &[u8; 32]) -> (r: Result<(), VaultError>)
        ensures
            r == (if vault_pda_spec(owner@, bump, ID@) == pda@ {
                Ok::<(), VaultError>(())
            } else {
                Err::<(), VaultError>(VaultError::PdaMismatch)
            }),
    {
        let derived = derive_vault_address(owner, bump, &ID);
        if bytes32_equal(&derived, pda) {
            Ok(())
        } else {
            Err(VaultError::PdaMismatch)
        }
    }
}

} // verus!
