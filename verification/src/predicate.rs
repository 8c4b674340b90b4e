//! Attestation-based authorization of a transaction: an attester's signed
//! approval, accepted when its signature is the expected one.
use vstd::prelude::*;

use crate::host::{byte_content, bytes_equal, bytes_from_slice};
use crate::AccountId;

verus! {

/// The signature that authorizes a transaction: the bytes of
/// `valid_signature`.
pub const VALID_SIGNATURE: [u8; 15] = [118,97,108,105,100,95,115,105,103,110,97,116,117,114,101];

/// A signature that does not: the bytes of `invalid_signature`.
pub const INVALID_SIGNATURE: [u8; 17] = [105,110,118,97,108,105,100,95,115,105,103,110,97,116,117,114,101];

/// An attester's approval of a transaction.
pub struct Attestation {
    /// The unique identifier for the attestation
    pub uuid: soroban_sdk::String,
    /// The timestamp by which the attestation must be executed
    pub expiration: u64,
    /// The attester
    pub attester: AccountId,
    /// The attester's signature
    pub signature: soroban_sdk::Bytes,
}

/// Why an attestation does not authorize a transaction.
#[derive(Clone, Copy, Debug, PartialEq, Eq, Structural)]
pub enum PredicateError {
    /// The attestation is not valid
    Invalid,
}

/// Authorizes a transaction when the attestation's signature is
/// `VALID_SIGNATURE`; the arguments of the transaction and its sender play
/// no part.
pub fn authorize_transaction(
    env: &soroban_sdk::Env,
    attestation: &Attestation,
    args: &soroban_sdk::Vec<soroban_sdk::Val>,
    sender: AccountId,
) -> (r: Result<(), PredicateError>)
    ensures
        r == (if byte_content(attestation.signature) == VALID_SIGNATURE@ {
            Ok::<(), PredicateError>(())
        } else {
            Err(PredicateError::Invalid)
        }),
{
    let valid_sig = bytes_from_slice(env, VALID_SIGNATURE.as_slice());
    if bytes_equal(&attestation.signature, &valid_sig) {
        Ok(())
    } else {
        Err(PredicateError::Invalid)
    }
}

} // verus!
