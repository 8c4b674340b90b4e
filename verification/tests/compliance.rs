use rwa_token::compliance::{ComplianceError, MockCompliance};

const CONTRACT: u64 = 100;
const ADMIN: u64 = 1;
const USER1: u64 = 2;
const USER2: u64 = 3;

#[test]
fn lib_test_initialize() {
    let client = MockCompliance::new(CONTRACT, ADMIN);
    assert_eq!(client.get_admin(), ADMIN);
}

#[test]
fn test_transfer_limits() {
    let mut client = MockCompliance::new(CONTRACT, ADMIN);

    // Set limit for user2
    client.set_transfer_limit(USER2, 500);
    assert_eq!(client.get_transfer_limit(USER2), 500);

    // Can transfer up to limit
    assert!(client.can_transfer(USER1, USER2, 500));
    assert!(client.can_transfer(USER1, USER2, 400));

    // Cannot exceed limit
    assert!(!client.can_transfer(USER1, USER2, 501));
}

#[test]
fn test_transferred_tracking() {
    let mut client = MockCompliance::new(CONTRACT, ADMIN);

    client.set_transfer_limit(USER2, 1000);

    client.transferred(USER1, USER2, 300);
    assert_eq!(client.get_transferred_amount(USER2), 300);

    assert!(client.can_transfer(USER1, USER2, 700));
    assert!(!client.can_transfer(USER1, USER2, 701));

    client.transferred(USER1, USER2, 500);
    assert_eq!(client.get_transferred_amount(USER2), 800);

    assert!(client.can_transfer(USER1, USER2, 200));
    assert!(!client.can_transfer(USER1, USER2, 201));
}

#[test]
fn test_reset_transferred() {
    let mut client = MockCompliance::new(CONTRACT, ADMIN);

    client.set_transfer_limit(USER2, 500);
    client.transferred(USER1, USER2, 500);

    assert!(!client.can_transfer(USER1, USER2, 1));

    client.reset_transferred_amount(USER2);
    assert_eq!(client.get_transferred_amount(USER2), 0);

    assert!(client.can_transfer(USER1, USER2, 500));
}

#[test]
fn test_token_binding() {
    let mut client = MockCompliance::new(CONTRACT, ADMIN);
    let token = 7;

    client.bind_token(token);
    assert!(client.is_token_bound(token));
    assert_eq!(client.get_token_bound(), Ok(token));

    client.unbind_token(token);
    assert!(!client.is_token_bound(token));
}

#[test]
fn get_token_bound_without_binding_is_refused() {
    let client = MockCompliance::new(CONTRACT, ADMIN);
    assert_eq!(client.get_token_bound(), Err(ComplianceError::NoTokenBound));
}

#[test]
fn unbinding_another_token_keeps_the_binding() {
    let mut client = MockCompliance::new(CONTRACT, ADMIN);
    client.bind_token(7);
    client.unbind_token(8);
    assert!(client.is_token_bound(7));
    assert_eq!(client.get_token_bound(), Ok(7));
}

#[test]
fn zero_limit_means_no_limit() {
    let mut client = MockCompliance::new(CONTRACT, ADMIN);
    assert_eq!(client.get_transfer_limit(USER2), 0);
    assert!(client.can_transfer(USER1, USER2, 1_000_000));
    client.transferred(USER1, USER2, 5_000);
    assert!(client.can_transfer(USER1, USER2, i128::MAX));
    client.set_transfer_limit(USER2, 6_000);
    assert!(!client.can_transfer(USER1, USER2, 1_001));
    client.set_transfer_limit(USER2, 0);
    assert!(client.can_transfer(USER1, USER2, 1_001));
}

#[test]
fn created_counts_toward_the_limit() {
    let mut client = MockCompliance::new(CONTRACT, ADMIN);
    client.set_transfer_limit(USER1, 1200);
    client.created(USER1, 1000);
    assert_eq!(client.get_transferred_amount(USER1), 1000);
    assert!(client.can_transfer(USER2, USER1, 200));
    assert!(!client.can_transfer(USER2, USER1, 201));
}

#[test]
fn destroyed_lowers_the_received_amount_not_below_zero() {
    let mut client = MockCompliance::new(CONTRACT, ADMIN);
    client.transferred(USER2, USER1, 300);
    client.destroyed(USER1, 100);
    assert_eq!(client.get_transferred_amount(USER1), 200);
    client.destroyed(USER1, 500);
    assert_eq!(client.get_transferred_amount(USER1), 0);
    client.transferred(USER2, USER1, 50);
    client.destroyed(USER1, 50);
    assert_eq!(client.get_transferred_amount(USER1), 0);
}

#[test]
fn receipts_accumulate() {
    let mut client = MockCompliance::new(CONTRACT, ADMIN);
    client.set_transfer_limit(USER2, 1000);
    client.transferred(USER1, USER2, 400);
    client.transferred(USER1, USER2, 350);
    assert_eq!(client.get_transferred_amount(USER2), 750);
    assert!(client.can_transfer(USER1, USER2, 250));
    assert!(!client.can_transfer(USER1, USER2, 251));
}
