use mini_runtime::balances::Balances;
use mini_runtime::proof_of_existence::Proof;
use mini_runtime::support::ErrorKind;
use mini_runtime::system::System;

#[test]
fn test_set_balance() {
    let mut balances = Balances::new();
    let balance_amount = 42;

    assert_eq!(balances.balance(&String::from("foo")), 0);

    balances.set_balance(String::from("foo"), balance_amount);

    assert_eq!(balances.balance(&String::from("foo")), balance_amount);
}

#[test]
fn test_transfer_works() {
    let mut balances = Balances::new();

    balances.set_balance(String::from("foo"), 100);
    balances.transfer(String::from("foo"), String::from("bar"), 100).unwrap();

    assert_eq!(balances.balance(&String::from("foo")), 0);
    assert_eq!(balances.balance(&String::from("bar")), 100);
}

#[test]
fn test_inc_block_number() {
    let mut system = System::new();

    assert_eq!(system.block_number(), 0);
    system.inc_block_nubmer();
    assert_eq!(system.block_number(), 1);
}

#[test]
fn test_inc_nonce() {
    let mut system = System::new();

    system.inc_nonce(String::from("alice"));
    assert_eq!(system.nonce(&String::from("alice")), 1);

    system.inc_nonce(String::from("alice"));
    assert_eq!(system.nonce(&String::from("alice")), 2);
}

#[test]
fn test_unseen_account_balance_is_zero() {
    let mut balances = Balances::new();

    balances.set_balance(String::from("foo"), 55);
    balances.transfer(String::from("foo"), String::from("bar"), 5).unwrap();

    assert_eq!(balances.balance(&String::from("never-seen")), 0);
}

#[test]
fn test_set_balance_overwrites() {
    let mut balances = Balances::new();

    balances.set_balance(String::from("foo"), 42);
    balances.set_balance(String::from("foo"), 7);

    assert_eq!(balances.balance(&String::from("foo")), 7);
}

#[test]
fn test_transfer_conserves_total() {
    let mut balances = Balances::new();

    balances.set_balance(String::from("a"), 100);
    balances.set_balance(String::from("b"), 30);

    balances.transfer(String::from("a"), String::from("b"), 40).unwrap();

    assert_eq!(balances.balance(&String::from("a")), 60);
    assert_eq!(balances.balance(&String::from("b")), 70);
    assert_eq!(
        balances.balance(&String::from("a")) + balances.balance(&String::from("b")),
        130
    );
}

#[test]
fn test_underflow_rejection() {
    let mut balances = Balances::new();

    balances.set_balance(String::from("a"), 100);
    balances.set_balance(String::from("b"), 3);

    let result = balances.transfer(String::from("a"), String::from("b"), 150);

    assert_eq!(result, Err(ErrorKind::InsufficientBalance));
    assert_eq!(balances.balance(&String::from("a")), 100);
    assert_eq!(balances.balance(&String::from("b")), 3);
}

#[test]
fn test_overflow_rejection() {
    let mut balances = Balances::new();

    balances.set_balance(String::from("a"), 100);
    balances.set_balance(String::from("b"), u128::MAX);

    let result = balances.transfer(String::from("a"), String::from("b"), 1);

    assert_eq!(result, Err(ErrorKind::BalanceOverflow));
    assert_eq!(balances.balance(&String::from("a")), 100);
    assert_eq!(balances.balance(&String::from("b")), u128::MAX);
}

#[test]
fn test_claim_lifecycle() {
    let mut poe = Proof::new();

    assert!(poe.create_claim(String::from("Alice"), String::from("c1")).is_ok());

    assert_eq!(
        poe.create_claim(String::from("Bob"), String::from("c1")),
        Err(ErrorKind::ClaimAlreadyExists)
    );

    assert_eq!(
        poe.revoke_claim(String::from("Bob"), String::from("c1")),
        Err(ErrorKind::NotClaimOwner)
    );

    assert!(poe.revoke_claim(String::from("Alice"), String::from("c1")).is_ok());

    assert_eq!(
        poe.revoke_claim(String::from("Alice"), String::from("c1")),
        Err(ErrorKind::ClaimNotFound)
    );
}
