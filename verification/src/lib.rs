//! Verified models of an ERC-3643 (T-REX) security token, the compliance
//! module and the identity registry that it consults, and the attestation
//! predicate used beside them.
//!
//! Each contract is a value holding the state that the contract keeps in
//! its ledger storage. Every public operation returns `Err` exactly where
//! the contract refuses the call with one of its errors, and then leaves
//! every state it was given unchanged, as the host rolls back a refused
//! invocation.
pub mod host;
pub mod ledger;
pub mod agents;
pub mod compliance;
pub mod identity_registry;
pub mod token_state;
pub mod token;
pub mod predicate;
pub mod fixture;
pub mod laws;
pub mod supply;

use vstd::prelude::*;

verus! {

/// An account (a Soroban `Address`) as the rules see it: a plain identifier
/// that is only ever compared and used as a key.
pub type AccountId = u64;

} // verus!
