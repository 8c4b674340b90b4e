use rwa_token::predicate::{authorize_transaction, Attestation, PredicateError, INVALID_SIGNATURE, VALID_SIGNATURE};
use soroban_sdk::{Bytes, Env, String, Val, Vec};

const ATTESTER: u64 = 1;
const SENDER: u64 = 2;

#[test]
fn test_authorize_transaction_with_valid_signature() {
    let env = Env::default();

    let attestation = Attestation {
        uuid: String::from_str(&env, "test-uuid"),
        expiration: 1000,
        attester: ATTESTER,
        signature: Bytes::from_slice(&env, &VALID_SIGNATURE),
    };

    let args: Vec<Val> = Vec::new(&env);

    let result = authorize_transaction(&env, &attestation, &args, SENDER);
    assert!(result.is_ok());
}

#[test]
fn test_authorize_transaction_with_invalid_signature() {
    let env = Env::default();

    let attestation = Attestation {
        uuid: String::from_str(&env, "test-uuid"),
        expiration: 1000,
        attester: ATTESTER,
        signature: Bytes::from_slice(&env, &INVALID_SIGNATURE),
    };

    let args: Vec<Val> = Vec::new(&env);

    let result = authorize_transaction(&env, &attestation, &args, SENDER);
    assert!(result.is_err());
    assert_eq!(result.unwrap_err(), PredicateError::Invalid);
}

#[test]
fn test_authorize_transaction_with_random_signature() {
    let env = Env::default();

    let attestation = Attestation {
        uuid: String::from_str(&env, "test-uuid"),
        expiration: 1000,
        attester: ATTESTER,
        signature: Bytes::from_slice(&env, b"random_bytes"),
    };

    let args: Vec<Val> = Vec::new(&env);

    let result = authorize_transaction(&env, &attestation, &args, SENDER);
    assert!(result.is_err());
    assert_eq!(result.unwrap_err(), PredicateError::Invalid);
}

#[test]
fn valid_signature_constant_spells_valid_signature() {
    assert_eq!(&VALID_SIGNATURE, b"valid_signature");
    assert_eq!(&INVALID_SIGNATURE, b"invalid_signature");
}

#[test]
fn a_prefix_of_the_valid_signature_is_refused() {
    let env = Env::default();
    let attestation = Attestation {
        uuid: String::from_str(&env, "test-uuid"),
        expiration: 1000,
        attester: ATTESTER,
        signature: Bytes::from_slice(&env, b"valid_signatur"),
    };
    let args: Vec<Val> = Vec::new(&env);
    assert_eq!(authorize_transaction(&env, &attestation, &args, SENDER), Err(PredicateError::Invalid));
}
