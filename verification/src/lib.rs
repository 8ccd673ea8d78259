//! A single-use, post-quantum-signature-protected escrow ("vault") on a
//! deterministic-address account model.
//!
//! A vault holds a balance and is unlocked exclusively by presenting a valid
//! one-time hash-based signature whose recovered public-key commitment matches
//! the value bound into the vault's address. The library provides the
//! address-binding scheme, the one-time-signature recovery and aggregation
//! procedure, and the three-operation vault lifecycle (open, split, close)
//! with their binary instruction encodings.
use vstd::prelude::*;

pub mod account;
pub mod crypto;
pub mod errors;
pub mod instructions;
pub mod laws;
pub mod pda;
pub mod states;
pub mod util;

verus! {

/// The identity of the vault program. Account addresses are derived from seed
/// values together with this identity.
pub const ID: [u8; 32] = [
    243, 146, 251, 117, 78, 239, 8, 144, 181, 13, 128, 127, 31, 18, 18, 207, 214, 245, 252, 186,
    75, 132, 81, 97, 175, 210, 29, 32, 176, 51, 119, 34,
];

} // verus!
