//! Flows through the token, its compliance module and its registry, as a
//! lending pool holding the token would drive them.
use rwa_token::fixture::Erc3643Fixture;
use rwa_token::token_state::ERC3643Error;
use soroban_sdk::{Env, String};

const SCALAR_9: i128 = 1_000_000_000;
const ADMIN: u64 = 1;
const POOL: u64 = 2;
const SAMWISE: u64 = 3;

fn fixture(e: &Env) -> Erc3643Fixture {
    Erc3643Fixture::create(e, ADMIN, String::from_str(e, "TREX1"), 9, 10, 11, 12)
}

#[test]
fn fixture_is_wired() {
    let e = Env::default();
    let f = fixture(&e);
    assert_eq!(f.token.identity_registry(), f.id_registry.address());
    assert_eq!(f.token.compliance(), f.compliance.address());
    assert_eq!(*f.token.name(), String::from_str(&e, "TREX1"));
    assert_eq!(*f.token.symbol(), String::from_str(&e, "TREX1"));
    assert_eq!(f.token.decimals(), 9);
    assert_eq!(f.token.address(), 12);
    assert_eq!(f.compliance.get_admin(), ADMIN);
    assert_eq!(f.id_registry.get_admin(), ADMIN);
}

#[test]
fn withdrawals_stop_at_the_cumulative_limit() {
    let e = Env::default();
    let mut f = fixture(&e);
    f.id_registry.add_allowed_country(0);
    f.id_registry.register_identity(POOL, POOL, 0).unwrap();
    f.compliance.set_transfer_limit(POOL, i128::MAX);

    let mint_amount = 1_000 * SCALAR_9;
    let withdrawal_budget = 200 * SCALAR_9;
    f.id_registry.add_allowed_country(123);
    f.id_registry.register_identity(SAMWISE, SAMWISE, 123).unwrap();
    f.compliance.set_transfer_limit(SAMWISE, mint_amount + withdrawal_budget);

    f.token.mint(SAMWISE, mint_amount, &f.id_registry, &mut f.compliance).unwrap();
    f.token.transfer(SAMWISE, POOL, mint_amount, &f.id_registry, &mut f.compliance).unwrap();
    assert_eq!(f.token.balance(SAMWISE), 0);

    f.token.transfer(POOL, SAMWISE, 100 * SCALAR_9, &f.id_registry, &mut f.compliance).unwrap();
    f.token.transfer(POOL, SAMWISE, 100 * SCALAR_9, &f.id_registry, &mut f.compliance).unwrap();
    assert_eq!(f.token.balance(SAMWISE), 200 * SCALAR_9);

    let r = f.token.transfer(POOL, SAMWISE, SCALAR_9, &f.id_registry, &mut f.compliance);
    assert_eq!(r, Err(ERC3643Error::ComplianceFailure));
    assert_eq!(f.token.balance(SAMWISE), 200 * SCALAR_9);
    assert_eq!(f.compliance.get_transferred_amount(SAMWISE), 1_200 * SCALAR_9);
}

#[test]
fn withdrawals_stop_when_the_country_is_removed() {
    let e = Env::default();
    let mut f = fixture(&e);
    f.id_registry.add_allowed_country(0);
    f.id_registry.register_identity(POOL, POOL, 0).unwrap();
    f.compliance.set_transfer_limit(POOL, i128::MAX);

    let country_code = 456u32;
    f.id_registry.add_allowed_country(country_code);
    f.id_registry.register_identity(SAMWISE, SAMWISE, country_code).unwrap();
    f.compliance.set_transfer_limit(SAMWISE, 10_000 * SCALAR_9);

    f.token.mint(SAMWISE, 1_000 * SCALAR_9, &f.id_registry, &mut f.compliance).unwrap();
    f.token.transfer(SAMWISE, POOL, 1_000 * SCALAR_9, &f.id_registry, &mut f.compliance).unwrap();
    f.token.transfer(POOL, SAMWISE, 100 * SCALAR_9, &f.id_registry, &mut f.compliance).unwrap();
    assert_eq!(f.token.balance(SAMWISE), 100 * SCALAR_9);

    f.id_registry.remove_allowed_country(country_code);
    let r = f.token.transfer(POOL, SAMWISE, 100 * SCALAR_9, &f.id_registry, &mut f.compliance);
    assert_eq!(r, Err(ERC3643Error::InvalidIdentity));
    assert_eq!(f.token.balance(SAMWISE), 100 * SCALAR_9);
}

#[test]
fn revoked_holder_can_still_be_moved_by_force_to_a_verified_wallet() {
    let e = Env::default();
    let mut f = fixture(&e);
    let rescue = 4;
    f.id_registry.register_identity(SAMWISE, SAMWISE, 789).unwrap();
    f.id_registry.register_identity(rescue, rescue, 789).unwrap();
    f.compliance.set_transfer_limit(SAMWISE, 10_000 * SCALAR_9);
    f.token.mint(SAMWISE, 1_000 * SCALAR_9, &f.id_registry, &mut f.compliance).unwrap();

    f.id_registry.delete_identity(SAMWISE).unwrap();
    assert!(!f.token.is_verified(SAMWISE, &f.id_registry));
    // the revoked holder cannot receive, but its tokens can be moved out
    assert_eq!(
        f.token.forced_transfer(rescue, SAMWISE, 0, &f.id_registry, &mut f.compliance),
        Err(ERC3643Error::InvalidIdentity)
    );
    assert_eq!(
        f.token.forced_transfer(SAMWISE, rescue, 400 * SCALAR_9, &f.id_registry, &mut f.compliance),
        Ok(true)
    );
    assert_eq!(f.token.balance(rescue), 400 * SCALAR_9);
    assert_eq!(f.token.balance(SAMWISE), 600 * SCALAR_9);
    assert_eq!(f.token.total_supply(), 1_000 * SCALAR_9);
}

#[test]
fn mint_then_burn_restores_balance_and_supply() {
    let e = Env::default();
    let mut f = fixture(&e);
    f.id_registry.register_identity(SAMWISE, SAMWISE, 1).unwrap();
    f.compliance.set_transfer_limit(SAMWISE, 10_000);
    f.token.mint(SAMWISE, 700, &f.id_registry, &mut f.compliance).unwrap();
    f.token.mint(SAMWISE, 300, &f.id_registry, &mut f.compliance).unwrap();
    f.token.burn(SAMWISE, 300, &mut f.compliance).unwrap();
    assert_eq!(f.token.balance(SAMWISE), 700);
    assert_eq!(f.token.total_supply(), 700);
    assert_eq!(f.compliance.get_transferred_amount(SAMWISE), 700);
}

#[test]
fn supply_equals_the_sum_of_balances_through_a_session() {
    let e = Env::default();
    let mut f = fixture(&e);
    let users = [3u64, 4, 5];
    for u in users {
        f.id_registry.register_identity(u, u, 1).unwrap();
        f.compliance.set_transfer_limit(u, 1_000_000);
    }
    f.token.batch_mint(&users, &[500, 300, 200], &f.id_registry, &mut f.compliance).unwrap();
    f.token.transfer(3, 4, 120, &f.id_registry, &mut f.compliance).unwrap();
    f.token.forced_transfer(4, 5, 20, &f.id_registry, &mut f.compliance).unwrap();
    f.token.burn(5, 70, &mut f.compliance).unwrap();
    let sum: i128 = users.iter().map(|u| f.token.balance(*u)).sum();
    assert_eq!(sum, f.token.total_supply());
    assert_eq!(f.token.total_supply(), 930);
}

#[test]
fn unpausing_lets_transfers_through_again() {
    let e = Env::default();
    let mut f = fixture(&e);
    f.id_registry.register_identity(SAMWISE, SAMWISE, 1).unwrap();
    f.id_registry.register_identity(POOL, POOL, 1).unwrap();
    f.compliance.set_transfer_limit(SAMWISE, 1_000);
    f.compliance.set_transfer_limit(POOL, 1_000);
    f.token.mint(SAMWISE, 100, &f.id_registry, &mut f.compliance).unwrap();
    f.token.pause();
    assert_eq!(
        f.token.transfer(SAMWISE, POOL, 10, &f.id_registry, &mut f.compliance),
        Err(ERC3643Error::TokenPaused)
    );
    f.token.unpause();
    f.token.transfer(SAMWISE, POOL, 10, &f.id_registry, &mut f.compliance).unwrap();
    assert_eq!(f.token.balance(POOL), 10);
}
