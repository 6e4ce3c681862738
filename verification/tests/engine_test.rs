//! The engine taken through transactions for one and for several clients.

use ledger_demo_rs::{
    Amount, ClientId, Engine, TransactionError, TransactionId, TransactionStatus, TransactionType,
};
use rust_decimal::Decimal;
use std::str::FromStr;

fn dec(text: &str) -> Amount {
    let d = Decimal::from_str(text).unwrap();
    Amount::new(d.mantissa(), d.scale()).unwrap()
}

fn make_deposit(client_id: u16, tx_id: u32, amount: Amount) -> TransactionType {
    TransactionType::Deposit {
        client_id: ClientId(client_id),
        transaction_id: TransactionId(tx_id),
        amount,
        status: TransactionStatus::Applied,
    }
}

fn make_withdrawal(client_id: u16, tx_id: u32, amount: Amount) -> TransactionType {
    TransactionType::Withdrawal {
        client_id: ClientId(client_id),
        transaction_id: TransactionId(tx_id),
        amount,
    }
}

fn make_dispute(client_id: u16, tx_id: u32) -> TransactionType {
    TransactionType::Dispute {
        client_id: ClientId(client_id),
        transaction_id: TransactionId(tx_id),
    }
}

fn make_resolve(client_id: u16, tx_id: u32) -> TransactionType {
    TransactionType::Resolve {
        client_id: ClientId(client_id),
        transaction_id: TransactionId(tx_id),
    }
}

fn make_chargeback(client_id: u16, tx_id: u32) -> TransactionType {
    TransactionType::Chargeback {
        client_id: ClientId(client_id),
        transaction_id: TransactionId(tx_id),
    }
}

#[test]
fn deposit_creates_account() {
    let mut engine = Engine::new();
    engine.process(make_deposit(1, 100, dec("50.00"))).unwrap();

    let account = engine.get_account(&ClientId(1)).unwrap();
    assert_eq!(account.available, dec("50.00"));
    assert_eq!(account.total(), dec("50.00"));
}


#[test]
fn multiple_deposits_same_client() {
    let mut engine = Engine::new();
    engine.process(make_deposit(1, 1, dec("100.00"))).unwrap();
    engine.process(make_deposit(1, 2, dec("50.00"))).unwrap();

    let account = engine.get_account(&ClientId(1)).unwrap();
    assert_eq!(account.available, dec("150.00"));
}


#[test]
fn engine_test_multiple_clients() {
    let mut engine = Engine::new();
    engine.process(make_deposit(1, 1, dec("100.00"))).unwrap();
    engine.process(make_deposit(2, 2, dec("200.00"))).unwrap();

    let account1 = engine.get_account(&ClientId(1)).unwrap();
    let account2 = engine.get_account(&ClientId(2)).unwrap();
    assert_eq!(account1.available, dec("100.00"));
    assert_eq!(account2.available, dec("200.00"));
}


#[test]
fn withdrawal_after_deposit() {
    let mut engine = Engine::new();
    engine.process(make_deposit(1, 1, dec("100.00"))).unwrap();
    engine.process(make_withdrawal(1, 2, dec("30.00"))).unwrap();

    let account = engine.get_account(&ClientId(1)).unwrap();
    assert_eq!(account.available, dec("70.00"));
}


#[test]
fn withdrawal_insufficient_funds() {
    let mut engine = Engine::new();
    engine.process(make_deposit(1, 1, dec("50.00"))).unwrap();

    let result = engine.process(make_withdrawal(1, 2, dec("100.00")));
    assert_eq!(result, Err(TransactionError::InsufficientFunds));

    let account = engine.get_account(&ClientId(1)).unwrap();
    assert_eq!(account.available, dec("50.00"));
}


#[test]
fn withdrawal_on_new_account_fails() {
    let mut engine = Engine::new();
    let result = engine.process(make_withdrawal(1, 1, dec("100.00")));
    assert_eq!(result, Err(TransactionError::InsufficientFunds));
}


#[test]
fn duplicate_transaction_id_returns_error() {
    let mut engine = Engine::new();
    engine.process(make_deposit(1, 1, dec("100.00"))).unwrap();

    let result = engine.process(make_deposit(1, 1, dec("50.00")));
    assert_eq!(result, Err(TransactionError::DuplicateTransaction));
}


#[test]
fn dispute_resolve_flow() {
    let mut engine = Engine::new();
    engine.process(make_deposit(1, 1, dec("100.00"))).unwrap();
    engine.process(make_dispute(1, 1)).unwrap();

    let account = engine.get_account(&ClientId(1)).unwrap();
    assert_eq!(account.available, dec("0.00"));
    assert_eq!(account.held, dec("100.00"));

    engine.process(make_resolve(1, 1)).unwrap();

    let account = engine.get_account(&ClientId(1)).unwrap();
    assert_eq!(account.available, dec("100.00"));
    assert_eq!(account.held, dec("0.00"));
}


#[test]
fn dispute_chargeback_flow() {
    let mut engine = Engine::new();
    engine.process(make_deposit(1, 1, dec("100.00"))).unwrap();
    engine.process(make_dispute(1, 1)).unwrap();
    engine.process(make_chargeback(1, 1)).unwrap();

    let account = engine.get_account(&ClientId(1)).unwrap();
    assert_eq!(account.available, dec("0.00"));
    assert_eq!(account.held, dec("0.00"));
    assert_eq!(account.total(), dec("0.00"));
    assert!(account.locked);
}


#[test]
fn dispute_nonexistent_account_returns_error() {
    let mut engine = Engine::new();
    let result = engine.process(make_dispute(1, 1));
    assert_eq!(result, Err(TransactionError::TransactionNotFound));
}


#[test]
fn dispute_nonexistent_transaction_returns_error() {
    let mut engine = Engine::new();
    engine.process(make_deposit(1, 1, dec("100.00"))).unwrap();

    let result = engine.process(make_dispute(1, 999));
    assert_eq!(result, Err(TransactionError::TransactionNotFound));
}


#[test]
fn resolve_without_dispute_returns_error() {
    let mut engine = Engine::new();
    engine.process(make_deposit(1, 1, dec("100.00"))).unwrap();

    let result = engine.process(make_resolve(1, 1));
    assert_eq!(result, Err(TransactionError::NotDisputed));
}


#[test]
fn chargeback_without_dispute_returns_error() {
    let mut engine = Engine::new();
    engine.process(make_deposit(1, 1, dec("100.00"))).unwrap();

    let result = engine.process(make_chargeback(1, 1));
    assert_eq!(result, Err(TransactionError::NotDisputed));
}


#[test]
fn dispute_after_full_withdrawal_fails() {
    let mut engine = Engine::new();

    engine.process(make_deposit(1, 1, dec("100.00"))).unwrap();

    engine.process(make_withdrawal(1, 2, dec("100.00"))).unwrap();

    let account = engine.get_account(&ClientId(1)).unwrap();
    assert_eq!(account.available, dec("0.00"));
    assert_eq!(account.held, dec("0.00"));

    let result = engine.process(make_dispute(1, 1));
    assert_eq!(
        result,
        Err(TransactionError::InsufficientFunds),
        "Dispute should fail: cannot hold $100 when available balance is $0"
    );

    let account = engine.get_account(&ClientId(1)).unwrap();
    assert_eq!(account.available, dec("0.00"));
    assert_eq!(account.held, dec("0.00"));
    assert!(!account.locked, "Account should not be locked");
}


#[test]
fn dispute_after_partial_withdrawal_fails() {
    let mut engine = Engine::new();

    engine.process(make_deposit(1, 1, dec("100.00"))).unwrap();

    engine.process(make_withdrawal(1, 2, dec("60.00"))).unwrap();

    let account = engine.get_account(&ClientId(1)).unwrap();
    assert_eq!(account.available, dec("40.00"));

    let result = engine.process(make_dispute(1, 1));
    assert_eq!(
        result,
        Err(TransactionError::InsufficientFunds),
        "Dispute should fail: cannot hold $100 when only $40 is available"
    );

    let account = engine.get_account(&ClientId(1)).unwrap();
    assert_eq!(account.available, dec("40.00"));
    assert_eq!(account.held, dec("0.00"));
}


#[test]
fn dispute_succeeds_when_sufficient_funds_remain() {
    let mut engine = Engine::new();

    engine.process(make_deposit(1, 1, dec("100.00"))).unwrap();

    engine.process(make_deposit(1, 2, dec("50.00"))).unwrap();

    engine.process(make_withdrawal(1, 3, dec("40.00"))).unwrap();

    let account = engine.get_account(&ClientId(1)).unwrap();
    assert_eq!(account.available, dec("110.00"));
    assert_eq!(account.held, dec("0.00"));

    engine.process(make_dispute(1, 1)).unwrap();

    let account = engine.get_account(&ClientId(1)).unwrap();
    assert_eq!(
        account.available,
        dec("10.00"),
        "available should be $110 - $100 = $10"
    );
    assert_eq!(account.held, dec("100.00"), "held should be $100");
    assert_eq!(account.total(), dec("110.00"), "total should be unchanged");
}


#[test]
fn dispute_fails_for_all_deposits_when_funds_depleted() {
    let mut engine = Engine::new();

    engine.process(make_deposit(1, 1, dec("100.00"))).unwrap();
    engine.process(make_deposit(1, 2, dec("50.00"))).unwrap();
    engine.process(make_withdrawal(1, 3, dec("120.00"))).unwrap();

    let account = engine.get_account(&ClientId(1)).unwrap();
    assert_eq!(account.available, dec("30.00"));

    let result1 = engine.process(make_dispute(1, 1));
    assert_eq!(result1, Err(TransactionError::InsufficientFunds));

    let result2 = engine.process(make_dispute(1, 2));
    assert_eq!(result2, Err(TransactionError::InsufficientFunds));

    let account = engine.get_account(&ClientId(1)).unwrap();
    assert_eq!(account.available, dec("30.00"));
    assert_eq!(account.held, dec("0.00"));
}


#[test]
fn dispute_smaller_deposit_succeeds_after_withdrawal() {
    let mut engine = Engine::new();

    engine.process(make_deposit(1, 1, dec("100.00"))).unwrap();
    engine.process(make_deposit(1, 2, dec("20.00"))).unwrap();
    engine.process(make_withdrawal(1, 3, dec("90.00"))).unwrap();

    let account = engine.get_account(&ClientId(1)).unwrap();
    assert_eq!(account.available, dec("30.00"));

    let result1 = engine.process(make_dispute(1, 1));
    assert_eq!(result1, Err(TransactionError::InsufficientFunds));

    engine
        .process(make_dispute(1, 2))
        .expect("Dispute should succeed for $20 when $30 is available");

    let account = engine.get_account(&ClientId(1)).unwrap();
    assert_eq!(account.available, dec("10.00"));
    assert_eq!(account.held, dec("20.00"));
}


#[test]
fn withdrawal_during_dispute_fails() {
    let mut engine = Engine::new();

    engine.process(make_deposit(1, 1, dec("100.00"))).unwrap();
    engine.process(make_dispute(1, 1)).unwrap();

    let account = engine.get_account(&ClientId(1)).unwrap();
    assert_eq!(account.available, dec("0.00"));
    assert_eq!(account.held, dec("100.00"));

    let result = engine.process(make_withdrawal(1, 2, dec("1.00")));
    assert_eq!(result, Err(TransactionError::InsufficientFunds));
}


#[test]
fn chargeback_with_remaining_balance_locks_account() {
    let mut engine = Engine::new();

    engine.process(make_deposit(1, 1, dec("100.00"))).unwrap();
    engine.process(make_deposit(1, 2, dec("100.00"))).unwrap();
    engine.process(make_withdrawal(1, 3, dec("50.00"))).unwrap();

    engine.process(make_dispute(1, 2)).unwrap();

    let account = engine.get_account(&ClientId(1)).unwrap();
    assert_eq!(account.available, dec("50.00"));
    assert_eq!(account.held, dec("100.00"));

    engine.process(make_chargeback(1, 2)).unwrap();

    let account = engine.get_account(&ClientId(1)).unwrap();
    assert_eq!(
        account.available,
        dec("50.00"),
        "Client keeps their remaining $50"
    );
    assert_eq!(account.held, dec("0.00"));
    assert_eq!(account.total(), dec("50.00"));
    assert!(account.locked, "Account must be locked after chargeback");

    let result = engine.process(make_withdrawal(1, 4, dec("50.00")));
    assert_eq!(result, Err(TransactionError::AccountLocked));
}

