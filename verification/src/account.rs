//! The library's model of a host account: the address, balance, payload and
//! signer bit that the vault logic reads and writes. The host runtime owns the
//! real accounts; it hands these plain values in and applies the resulting
//! values back, under its per-account write lock and all-or-nothing commit.
use vstd::prelude::*;

verus! {

/// A 32-byte account address whose bytes are all zero: the owner of an
/// account that does not exist (a closed account is handed back to it).
pub const UNOWNED: [u8; 32] = [
    0, 0, 0, 0, 0, 0, 0, 0, 0, 0, 0, 0, 0, 0, 0, 0, 0, 0, 0, 0, 0, 0, 0, 0, 0, 0, 0, 0, 0, 0, 0,
    0,
];

/// An account as the vault logic sees it.
pub struct Account {
    /// The account's address.
    pub key: [u8; 32],
    /// The account's balance, in the smallest balance unit.
    pub lamports: u64,
    /// The account's persisted payload. Empty for an uninitialized account.
    pub data: Vec<u8>,
    /// The identity of the program that owns the account.
    pub owner: [u8; 32],
    /// Whether the account carries an authenticating signature.
    pub is_signer: bool,
}

/// The mathematical value of an [`Account`].
pub struct AccountView {
    pub key: Seq<u8>,
    pub lamports: u64,
    pub data: Seq<u8>,
    pub owner: Seq<u8>,
    pub is_signer: bool,
}

impl View for Account {
    type V = AccountView;

    open spec fn view(&self) -> AccountView {
        AccountView {
            key: self.key@,
            lamports: self.lamports,
            data: self.data@,
            owner: self.owner@,
            is_signer: self.is_signer,
        }
    }
}

/// An account credited with a balance, all else unchanged.
pub open spec fn credited(account: AccountView, amount: u64) -> AccountView {
    AccountView {
        key: account.key,
        lamports: (account.lamports + amount) as u64,
        data: account.data,
        owner: account.owner,
        is_signer: account.is_signer,
    }
}

/// A destroyed vault account: balance zero, payload empty, unowned.
pub open spec fn closed_vault(vault: AccountView) -> AccountView {
    AccountView {
        key: vault.key,
        lamports: 0u64,
        data: Seq::empty(),
        owner: UNOWNED@,
        is_signer: vault.is_signer,
    }
}

} // verus!
