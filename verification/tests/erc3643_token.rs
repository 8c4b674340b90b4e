use rwa_token::compliance::MockCompliance;
use rwa_token::identity_registry::MockIdentityRegistry;
use rwa_token::token::MockERC3643Token;
use rwa_token::token_state::{ERC3643Error, LedgerStep};
use soroban_sdk::{Env, String};

const REGISTRY_ADMIN: u64 = 10;
const REGISTRY_ID: u64 = 20;
const COMPLIANCE_ADMIN: u64 = 11;
const COMPLIANCE_ID: u64 = 21;
const ADMIN: u64 = 12;
const TOKEN_ID: u64 = 22;
const USER1: u64 = 30;
const USER2: u64 = 31;
const IDENTITY1: u64 = 40;
const IDENTITY2: u64 = 41;

struct Setup {
    e: Env,
    client: MockERC3643Token,
    registry: MockIdentityRegistry,
    compliance: MockCompliance,
}

fn setup_test() -> Setup {
    let e = Env::default();

    let mut registry = MockIdentityRegistry::new(&e, REGISTRY_ID, REGISTRY_ADMIN);
    let mut compliance = MockCompliance::new(COMPLIANCE_ID, COMPLIANCE_ADMIN);

    let name = String::from_str(&e, "TREX Token");
    let symbol = String::from_str(&e, "TREX");
    let client = MockERC3643Token::new(&e, TOKEN_ID, ADMIN, name, symbol, 7, REGISTRY_ID, COMPLIANCE_ID);

    compliance.bind_token(TOKEN_ID);

    registry.mock_set_verified(USER1, IDENTITY1, 840); // US
    registry.mock_set_verified(USER2, IDENTITY2, 826); // UK

    compliance.set_transfer_limit(USER1, 1000_0000000);
    compliance.set_transfer_limit(USER2, 1000_0000000);

    Setup { e, client, registry, compliance }
}

#[test]
fn test_test_initialize() {
    let s = setup_test();
    let client = &s.client;

    assert_eq!(*client.name(), String::from_str(&s.e, "TREX Token"));
    assert_eq!(*client.symbol(), String::from_str(&s.e, "TREX"));
    assert_eq!(client.decimals(), 7);
    assert_eq!(client.total_supply(), 0);
    assert!(!client.paused());
}

#[test]
fn test_mint_and_transfer() {
    let mut s = setup_test();

    s.client.mint(USER1, 1000, &s.registry, &mut s.compliance).unwrap();
    assert_eq!(s.client.balance(USER1), 1000);
    assert_eq!(s.client.total_supply(), 1000);

    s.client.transfer(USER1, USER2, 300, &s.registry, &mut s.compliance).unwrap();
    assert_eq!(s.client.balance(USER1), 700);
    assert_eq!(s.client.balance(USER2), 300);
}

#[test]
fn test_freeze_address() {
    let mut s = setup_test();

    s.client.mint(USER1, 1000, &s.registry, &mut s.compliance).unwrap();

    s.client.set_address_frozen(USER1, true);
    assert!(s.client.is_frozen(USER1));

    s.client.set_address_frozen(USER1, false);
    assert!(!s.client.is_frozen(USER1));
}

#[test]
fn test_freeze_partial_tokens() {
    let mut s = setup_test();

    s.client.mint(USER1, 1000, &s.registry, &mut s.compliance).unwrap();

    s.client.freeze_partial_tokens(USER1, 400).unwrap();
    assert_eq!(s.client.get_frozen_tokens(USER1), 400);

    s.client.unfreeze_partial_tokens(USER1, 200).unwrap();
    assert_eq!(s.client.get_frozen_tokens(USER1), 200);
}

#[test]
fn test_pause() {
    let mut s = setup_test();

    s.client.mint(USER1, 1000, &s.registry, &mut s.compliance).unwrap();

    s.client.pause();
    assert!(s.client.paused());

    s.client.unpause();
    assert!(!s.client.paused());
}

#[test]
fn test_forced_transfer() {
    let mut s = setup_test();

    s.client.mint(USER1, 1000, &s.registry, &mut s.compliance).unwrap();

    s.client.set_address_frozen(USER1, true);

    // Normal transfer would fail, but forced transfer should work
    assert_eq!(s.client.forced_transfer(USER1, USER2, 500, &s.registry, &mut s.compliance), Ok(true));
    assert_eq!(s.client.balance(USER1), 500);
    assert_eq!(s.client.balance(USER2), 500);
}

#[test]
fn test_burn() {
    let mut s = setup_test();

    s.client.mint(USER1, 1000, &s.registry, &mut s.compliance).unwrap();
    assert_eq!(s.client.total_supply(), 1000);

    s.client.burn(USER1, 300, &mut s.compliance).unwrap();
    assert_eq!(s.client.balance(USER1), 700);
    assert_eq!(s.client.total_supply(), 700);
}

#[test]
fn test_recovery() {
    let mut s = setup_test();

    s.client.mint(USER1, 1000, &s.registry, &mut s.compliance).unwrap();

    s.client.freeze_partial_tokens(USER1, 200).unwrap();

    let new_wallet = 50;
    let new_identity = 51;
    s.registry.mock_set_verified(new_wallet, new_identity, 840);

    assert_eq!(s.client.recovery_address(USER1, new_wallet, new_identity, &s.registry), Ok(true));

    assert_eq!(s.client.balance(USER1), 0);
    assert_eq!(s.client.get_frozen_tokens(USER1), 0);
    assert_eq!(s.client.balance(new_wallet), 1000);
    assert_eq!(s.client.get_frozen_tokens(new_wallet), 200);
}

#[test]
fn test_allowance_and_transfer_from() {
    let mut s = setup_test();

    s.client.mint(USER1, 1000, &s.registry, &mut s.compliance).unwrap();

    let spender = 60;

    // The ledger sequence of a fresh environment is 0.
    let sequence: u32 = 0;
    let expiration = sequence + 1000;
    s.client.approve(USER1, spender, 500, expiration);
    assert_eq!(s.client.allowance(USER1, spender), 500);

    s.client
        .transfer_from(spender, USER1, USER2, 200, sequence, &s.registry, &mut s.compliance)
        .unwrap();
    assert_eq!(s.client.balance(USER1), 800);
    assert_eq!(s.client.balance(USER2), 200);
    assert_eq!(s.client.allowance(USER1, spender), 300);
}

#[test]
fn test_agent_management() {
    let mut s = setup_test();

    let agent = 70;

    s.client.add_agent(agent);
    assert!(s.client.is_agent(agent));

    s.client.remove_agent(agent);
    assert!(!s.client.is_agent(agent));
}

#[test]
fn test_batch_mint() {
    let mut s = setup_test();

    let user3 = 32;
    let identity3 = 42;
    s.registry.mock_set_verified(user3, identity3, 276); // Germany

    let to_list = [USER1, USER2, user3];
    let amounts = [100_i128, 200_i128, 300_i128];
    s.client.batch_mint(&to_list, &amounts, &s.registry, &mut s.compliance).unwrap();

    assert_eq!(s.client.balance(USER1), 100);
    assert_eq!(s.client.balance(USER2), 200);
    assert_eq!(s.client.balance(user3), 300);
    assert_eq!(s.client.total_supply(), 600);
}

#[test]
fn test_is_verified() {
    let s = setup_test();

    assert!(s.client.is_verified(USER1, &s.registry));

    let unverified_user = 80;
    assert!(!s.client.is_verified(unverified_user, &s.registry));
}

#[test]
fn test_can_transfer_compliance() {
    let mut s = setup_test();

    s.client.mint(USER1, 1000, &s.registry, &mut s.compliance).unwrap();

    assert!(s.client.can_transfer(USER1, USER2, 500, &s.compliance));

    s.compliance.set_transfer_limit(USER2, 200);

    assert!(s.client.can_transfer(USER1, USER2, 200, &s.compliance));

    assert!(!s.client.can_transfer(USER1, USER2, 300, &s.compliance));
}

// ----- Refusals: one input for each error the token answers with -----

#[test]
fn transfer_while_paused_is_refused_and_changes_nothing() {
    let mut s = setup_test();
    s.client.mint(USER1, 1000, &s.registry, &mut s.compliance).unwrap();
    s.client.pause();
    assert_eq!(
        s.client.transfer(USER1, USER2, 100, &s.registry, &mut s.compliance),
        Err(ERC3643Error::TokenPaused)
    );
    assert_eq!(
        s.client.forced_transfer(USER1, USER2, 100, &s.registry, &mut s.compliance),
        Err(ERC3643Error::TokenPaused)
    );
    assert_eq!(s.client.balance(USER1), 1000);
    assert_eq!(s.client.balance(USER2), 0);
    assert_eq!(s.compliance.get_transferred_amount(USER2), 0);
}

#[test]
fn transfer_from_frozen_wallet_is_refused() {
    let mut s = setup_test();
    s.client.mint(USER1, 1000, &s.registry, &mut s.compliance).unwrap();
    s.client.set_address_frozen(USER1, true);
    assert_eq!(
        s.client.transfer(USER1, USER2, 100, &s.registry, &mut s.compliance),
        Err(ERC3643Error::FrozenWallet)
    );
    s.client.set_address_frozen(USER1, false);
    s.client.set_address_frozen(USER2, true);
    assert_eq!(
        s.client.transfer(USER1, USER2, 100, &s.registry, &mut s.compliance),
        Err(ERC3643Error::FrozenWallet)
    );
    assert_eq!(s.client.balance(USER1), 1000);
}

#[test]
fn transfer_of_frozen_tokens_is_refused() {
    let mut s = setup_test();
    s.client.mint(USER1, 1000, &s.registry, &mut s.compliance).unwrap();
    s.client.freeze_partial_tokens(USER1, 400).unwrap();
    assert_eq!(
        s.client.transfer(USER1, USER2, 601, &s.registry, &mut s.compliance),
        Err(ERC3643Error::InsufficientBalance)
    );
    s.client.transfer(USER1, USER2, 600, &s.registry, &mut s.compliance).unwrap();
    assert_eq!(s.client.balance(USER1), 400);
    assert_eq!(s.client.balance(USER2), 600);
}

#[test]
fn transfer_to_unverified_receiver_is_refused() {
    let mut s = setup_test();
    s.client.mint(USER1, 1000, &s.registry, &mut s.compliance).unwrap();
    assert_eq!(
        s.client.transfer(USER1, 80, 100, &s.registry, &mut s.compliance),
        Err(ERC3643Error::InvalidIdentity)
    );
    assert_eq!(s.client.mint(80, 100, &s.registry, &mut s.compliance), Err(ERC3643Error::InvalidIdentity));
    assert_eq!(s.client.recovery_address(USER1, 80, 81, &s.registry), Err(ERC3643Error::InvalidIdentity));
    assert_eq!(s.client.balance(USER1), 1000);
    assert_eq!(s.client.total_supply(), 1000);
}

#[test]
fn transfer_over_the_receivers_limit_is_refused() {
    let mut s = setup_test();
    s.client.mint(USER1, 1000, &s.registry, &mut s.compliance).unwrap();
    s.compliance.set_transfer_limit(USER2, 200);
    assert_eq!(
        s.client.transfer(USER1, USER2, 201, &s.registry, &mut s.compliance),
        Err(ERC3643Error::ComplianceFailure)
    );
    // a forced transfer skips the compliance check
    assert_eq!(s.client.forced_transfer(USER1, USER2, 201, &s.registry, &mut s.compliance), Ok(true));
    assert_eq!(s.compliance.get_transferred_amount(USER2), 201);
}

#[test]
fn forced_transfer_beyond_balance_is_refused() {
    let mut s = setup_test();
    s.client.mint(USER1, 100, &s.registry, &mut s.compliance).unwrap();
    assert_eq!(
        s.client.forced_transfer(USER1, USER2, 101, &s.registry, &mut s.compliance),
        Err(ERC3643Error::InsufficientBalance)
    );
    assert_eq!(s.client.balance(USER1), 100);
}

#[test]
fn burn_beyond_balance_is_refused() {
    let mut s = setup_test();
    s.client.mint(USER1, 100, &s.registry, &mut s.compliance).unwrap();
    assert_eq!(s.client.burn(USER1, 101, &mut s.compliance), Err(ERC3643Error::InsufficientBalance));
    assert_eq!(s.client.total_supply(), 100);
}

#[test]
fn burn_from_is_always_refused() {
    let s = setup_test();
    assert_eq!(s.client.burn_from(USER2, USER1, 1), Err(ERC3643Error::Unauthorized));
}

#[test]
fn freeze_beyond_balance_and_unfreeze_beyond_frozen_are_refused() {
    let mut s = setup_test();
    s.client.mint(USER1, 100, &s.registry, &mut s.compliance).unwrap();
    assert_eq!(s.client.freeze_partial_tokens(USER1, 101), Err(ERC3643Error::InsufficientBalance));
    s.client.freeze_partial_tokens(USER1, 60).unwrap();
    assert_eq!(s.client.unfreeze_partial_tokens(USER1, 61), Err(ERC3643Error::InsufficientFrozenTokens));
    assert_eq!(s.client.get_frozen_tokens(USER1), 60);
}

#[test]
fn transfer_from_with_expired_or_short_allowance_is_refused() {
    let mut s = setup_test();
    s.client.mint(USER1, 1000, &s.registry, &mut s.compliance).unwrap();
    let spender = 60;
    s.client.approve(USER1, spender, 500, 10);
    assert_eq!(
        s.client.transfer_from(spender, USER1, USER2, 100, 11, &s.registry, &mut s.compliance),
        Err(ERC3643Error::AllowanceExpired)
    );
    assert_eq!(
        s.client.transfer_from(spender, USER1, USER2, 501, 10, &s.registry, &mut s.compliance),
        Err(ERC3643Error::InsufficientAllowance)
    );
    // a refused transfer leaves the allowance untouched
    s.client.set_address_frozen(USER2, true);
    assert_eq!(
        s.client.transfer_from(spender, USER1, USER2, 100, 10, &s.registry, &mut s.compliance),
        Err(ERC3643Error::FrozenWallet)
    );
    assert_eq!(s.client.allowance(USER1, spender), 500);
    // no allowance at all has expired at ledger 0
    assert_eq!(
        s.client.transfer_from(61, USER1, USER2, 1, 1, &s.registry, &mut s.compliance),
        Err(ERC3643Error::AllowanceExpired)
    );
}

#[test]
fn batch_with_mismatched_lists_is_refused() {
    let mut s = setup_test();
    assert_eq!(
        s.client.batch_mint(&[USER1, USER2], &[1], &s.registry, &mut s.compliance),
        Err(ERC3643Error::ArrayLengthMismatch)
    );
    assert_eq!(
        s.client.batch_transfer(USER1, &[USER2], &[], &s.registry, &mut s.compliance),
        Err(ERC3643Error::ArrayLengthMismatch)
    );
    assert_eq!(
        s.client.batch_forced_transfer(&[USER1], &[USER2, USER1], &[1], &s.registry, &mut s.compliance),
        Err(ERC3643Error::ArrayLengthMismatch)
    );
    assert_eq!(s.client.batch_burn(&[USER1], &[1, 2], &mut s.compliance), Err(ERC3643Error::ArrayLengthMismatch));
    assert_eq!(s.client.batch_set_address_frozen(&[USER1], &[]), Err(ERC3643Error::ArrayLengthMismatch));
}

#[test]
fn refused_batch_changes_nothing() {
    let mut s = setup_test();
    s.client.mint(USER1, 1000, &s.registry, &mut s.compliance).unwrap();
    // the third transfer goes to an unverified account
    let r = s.client.batch_transfer(USER1, &[USER2, USER2, 80], &[100, 100, 100], &s.registry, &mut s.compliance);
    assert_eq!(r, Err(ERC3643Error::InvalidIdentity));
    assert_eq!(s.client.balance(USER1), 1000);
    assert_eq!(s.client.balance(USER2), 0);
    assert_eq!(s.compliance.get_transferred_amount(USER2), 0);
    // the second burn exceeds the balance
    let r = s.client.batch_burn(&[USER1, USER1], &[600, 600], &mut s.compliance);
    assert_eq!(r, Err(ERC3643Error::InsufficientBalance));
    assert_eq!(s.client.balance(USER1), 1000);
    assert_eq!(s.client.total_supply(), 1000);
    assert_eq!(s.compliance.get_transferred_amount(USER1), 1000);
}

#[test]
fn batches_apply_in_order() {
    let mut s = setup_test();
    s.client.mint(USER1, 1000, &s.registry, &mut s.compliance).unwrap();
    s.client.batch_transfer(USER1, &[USER2, USER2], &[100, 250], &s.registry, &mut s.compliance).unwrap();
    assert_eq!(s.client.balance(USER1), 650);
    assert_eq!(s.client.balance(USER2), 350);
    s.client
        .batch_forced_transfer(&[USER2, USER1], &[USER1, USER2], &[50, 20], &s.registry, &mut s.compliance)
        .unwrap();
    assert_eq!(s.client.balance(USER1), 680);
    assert_eq!(s.client.balance(USER2), 320);
    s.client.batch_burn(&[USER1, USER2], &[80, 20], &mut s.compliance).unwrap();
    assert_eq!(s.client.balance(USER1), 600);
    assert_eq!(s.client.balance(USER2), 300);
    assert_eq!(s.client.total_supply(), 900);
    s.client.batch_set_address_frozen(&[USER1, USER2, USER1], &[true, true, false]).unwrap();
    assert!(!s.client.is_frozen(USER1));
    assert!(s.client.is_frozen(USER2));
}

#[test]
fn transfer_to_oneself_is_refused() {
    let mut s = setup_test();
    s.client.mint(USER1, 1000, &s.registry, &mut s.compliance).unwrap();
    assert_eq!(
        s.client.transfer(USER1, USER1, 100, &s.registry, &mut s.compliance),
        Err(ERC3643Error::SelfTransfer)
    );
    assert_eq!(
        s.client.forced_transfer(USER1, USER1, 100, &s.registry, &mut s.compliance),
        Err(ERC3643Error::SelfTransfer)
    );
    assert_eq!(s.client.balance(USER1), 1000);
    assert_eq!(s.client.total_supply(), 1000);
    assert_eq!(s.compliance.get_transferred_amount(USER1), 1000);
}

#[test]
fn paused_token_refuses_a_transfer_to_oneself_as_paused() {
    let mut s = setup_test();
    s.client.mint(USER1, 1000, &s.registry, &mut s.compliance).unwrap();
    s.client.pause();
    assert_eq!(
        s.client.transfer(USER1, USER1, 100, &s.registry, &mut s.compliance),
        Err(ERC3643Error::TokenPaused)
    );
}

#[test]
fn recovery_adds_to_the_new_wallets_balance() {
    let mut s = setup_test();
    s.client.mint(USER1, 1000, &s.registry, &mut s.compliance).unwrap();
    s.client.mint(USER2, 300, &s.registry, &mut s.compliance).unwrap();
    s.client.freeze_partial_tokens(USER1, 100).unwrap();
    s.client.freeze_partial_tokens(USER2, 50).unwrap();
    assert_eq!(s.client.recovery_address(USER1, USER2, IDENTITY2, &s.registry), Ok(true));
    assert_eq!(s.client.balance(USER2), 1300);
    assert_eq!(s.client.get_frozen_tokens(USER2), 150);
    assert_eq!(s.client.balance(USER1), 0);
    assert_eq!(s.client.get_frozen_tokens(USER1), 0);
    assert_eq!(s.client.balance(USER1) + s.client.balance(USER2), s.client.total_supply());
}

#[test]
fn recovery_into_the_same_wallet_changes_nothing() {
    let mut s = setup_test();
    s.client.mint(USER1, 1000, &s.registry, &mut s.compliance).unwrap();
    s.client.freeze_partial_tokens(USER1, 100).unwrap();
    assert_eq!(s.client.recovery_address(USER1, USER1, IDENTITY1, &s.registry), Ok(true));
    assert_eq!(s.client.balance(USER1), 1000);
    assert_eq!(s.client.get_frozen_tokens(USER1), 100);
}

#[test]
fn recovery_overflow_check() {
    let mut s = setup_test();
    s.compliance.set_transfer_limit(USER1, 0);
    s.compliance.set_transfer_limit(USER2, 0);
    s.client.mint(USER1, i128::MAX - 5, &s.registry, &mut s.compliance).unwrap();
    assert!(s.client.recovery_fits_now(USER2, USER1));
    assert!(s.client.recovery_fits_now(USER1, USER1));
    assert!(s.client.recovery_fits_now(USER1, USER2));
}

#[test]
fn setters_change_metadata_and_wiring() {
    let mut s = setup_test();
    s.client.set_name(String::from_str(&s.e, "Renamed"));
    s.client.set_symbol(String::from_str(&s.e, "RNM"));
    assert_eq!(*s.client.name(), String::from_str(&s.e, "Renamed"));
    assert_eq!(*s.client.symbol(), String::from_str(&s.e, "RNM"));
    assert_eq!(s.client.identity_registry(), REGISTRY_ID);
    assert_eq!(s.client.compliance(), COMPLIANCE_ID);
    s.client.set_identity_registry(99);
    s.client.set_compliance(98);
    assert_eq!(s.client.identity_registry(), 99);
    assert_eq!(s.client.compliance(), 98);
}

#[test]
fn approve_sets_only_its_own_allowance() {
    let mut s = setup_test();
    s.client.approve(USER1, 60, 500, 100);
    s.client.approve(USER1, 61, 7, 100);
    s.client.approve(60, USER1, 9, 100);
    assert_eq!(s.client.allowance(USER1, 60), 500);
    assert_eq!(s.client.allowance(USER1, 61), 7);
    assert_eq!(s.client.allowance(60, USER1), 9);
    assert_eq!(s.client.allowance(61, USER1), 0);
}

#[test]
fn unfreezing_what_was_frozen_restores_the_frozen_part() {
    let mut s = setup_test();
    s.client.mint(USER1, 1000, &s.registry, &mut s.compliance).unwrap();
    s.client.freeze_partial_tokens(USER1, 150).unwrap();
    s.client.freeze_partial_tokens(USER1, 250).unwrap();
    assert_eq!(s.client.get_frozen_tokens(USER1), 400);
    s.client.unfreeze_partial_tokens(USER1, 250).unwrap();
    assert_eq!(s.client.get_frozen_tokens(USER1), 150);
}

#[test]
fn recovery_into_an_empty_wallet_keeps_supply() {
    let mut s = setup_test();
    s.client.mint(USER1, 1000, &s.registry, &mut s.compliance).unwrap();
    s.client.mint(USER2, 200, &s.registry, &mut s.compliance).unwrap();
    let new_wallet = 50;
    s.registry.mock_set_verified(new_wallet, 51, 840);
    s.client.recovery_address(USER1, new_wallet, 51, &s.registry).unwrap();
    let sum = s.client.balance(USER1) + s.client.balance(USER2) + s.client.balance(new_wallet);
    assert_eq!(sum, s.client.total_supply());
}

#[test]
fn receiver_without_limit_may_receive_any_amount() {
    let mut s = setup_test();
    let user3 = 33;
    s.registry.mock_set_verified(user3, 43, 840);
    s.client.mint(USER1, 1000, &s.registry, &mut s.compliance).unwrap();
    s.client.transfer(USER1, user3, 900, &s.registry, &mut s.compliance).unwrap();
    assert_eq!(s.client.balance(user3), 900);
    assert!(s.client.can_transfer(USER1, user3, i128::MAX - 900, &s.compliance));
}

#[test]
fn overflow_checks_tell_where_the_token_would_trap() {
    let mut s = setup_test();
    s.compliance.set_transfer_limit(USER1, 0);
    s.client.mint(USER1, i128::MAX, &s.registry, &mut s.compliance).unwrap();
    let more = LedgerStep::Mint { to: USER1, amount: 1 };
    assert!(!s.client.step_fits_now(more, &s.registry, &s.compliance));
    // a mint to an unverified receiver is refused before any arithmetic
    let refused = LedgerStep::Mint { to: 80, amount: 1 };
    assert!(s.client.step_fits_now(refused, &s.registry, &s.compliance));
    let burn = LedgerStep::Burn { from: USER1, amount: 5 };
    assert!(s.client.step_fits_now(burn, &s.registry, &s.compliance));
    let transfer = LedgerStep::Transfer { from: USER1, to: USER2, amount: 5, checked: true };
    assert!(s.client.step_fits_now(transfer, &s.registry, &s.compliance));
    assert!(s.client.freeze_fits_now(USER1, 5));
    assert!(s.client.freeze_partial_tokens(USER1, 5).is_ok());
    assert!(!s.client.freeze_fits_now(USER1, i128::MAX));
    assert!(s.client.unfreeze_fits_now(USER1, 5));
    assert!(!s.client.unfreeze_fits_now(USER1, i128::MIN));
    s.client.approve(USER1, 60, 10, 100);
    assert!(s.client.spend_fits_now(USER1, 60, 4));
    assert!(!s.client.spend_fits_now(USER1, 60, i128::MIN));
}

#[test]
fn compliance_overflow_checks() {
    let mut s = setup_test();
    assert!(s.compliance.check_fits_now(USER2, 5));
    s.compliance.transferred(USER1, USER2, i128::MAX);
    assert!(!s.compliance.receipt_fits_now(USER2, 1));
    assert!(!s.compliance.check_fits_now(USER2, 1));
    s.compliance.set_transfer_limit(USER2, 0);
    assert!(s.compliance.check_fits_now(USER2, 1));
    assert!(s.compliance.release_fits_now(USER2, 1));
    assert!(!s.compliance.release_fits_now(USER2, -1));
}

#[test]
fn registry_room_checks() {
    let s = setup_test();
    assert!(s.registry.can_list_more());
    assert!(s.registry.can_allow_country(840));
}

#[test]
fn batch_overflow_checks_leave_the_token_unchanged() {
    let mut s = setup_test();
    s.compliance.set_transfer_limit(USER1, 0);
    s.compliance.set_transfer_limit(USER2, 0);
    s.client.mint(USER1, i128::MAX - 10, &s.registry, &mut s.compliance).unwrap();
    assert!(!s.client.batch_mint_fits_now(&[USER1, USER2], &[5, 100], &s.registry, &mut s.compliance));
    assert!(s.client.batch_mint_fits_now(&[USER1, USER2], &[5, 5], &s.registry, &mut s.compliance));
    assert!(s.client.batch_burn_fits_now(&[USER1, USER1], &[5, 5], &mut s.compliance));
    assert!(s.client.batch_transfer_fits_now(USER1, &[USER2, USER2], &[5, 5], &s.registry, &mut s.compliance));
    assert!(s.client.batch_forced_transfer_fits_now(&[USER1], &[USER2], &[7], &s.registry, &mut s.compliance));
    assert_eq!(s.client.balance(USER1), i128::MAX - 10);
    assert_eq!(s.client.balance(USER2), 0);
    assert_eq!(s.client.total_supply(), i128::MAX - 10);
    assert_eq!(s.compliance.get_transferred_amount(USER2), 0);
}

#[test]
fn batch_mint_and_burn_move_supply_by_their_sums() {
    let mut s = setup_test();
    s.client.batch_mint(&[USER1, USER2, USER1], &[100, 200, 300], &s.registry, &mut s.compliance).unwrap();
    assert_eq!(s.client.total_supply(), 600);
    s.client.batch_burn(&[USER1, USER2], &[50, 25], &mut s.compliance).unwrap();
    assert_eq!(s.client.total_supply(), 525);
    assert_eq!(s.client.balance(USER1) + s.client.balance(USER2), 525);
}

#[test]
fn freezing_never_exceeds_the_balance() {
    let mut s = setup_test();
    s.client.mint(USER1, 100, &s.registry, &mut s.compliance).unwrap();
    s.client.freeze_partial_tokens(USER1, 60).unwrap();
    assert_eq!(s.client.freeze_partial_tokens(USER1, 41), Err(ERC3643Error::InsufficientBalance));
    assert_eq!(s.client.get_frozen_tokens(USER1), 60);
    s.client.freeze_partial_tokens(USER1, 40).unwrap();
    assert_eq!(s.client.get_frozen_tokens(USER1), 100);
    assert_eq!(s.client.balance(USER1), 100);
}
