//! Amounts, the record of claimed identifiers, and whole runs of the engine.

use ledger_demo_rs::{
    Account, AccountData, AccountSnapshot, Amount, ClientId, Engine, TransactionError,
    TransactionId, TransactionQueue, TransactionStatus, TransactionType,
};
use rust_decimal::Decimal;
use std::str::FromStr;

fn dec(text: &str) -> Amount {
    let d = Decimal::from_str(text).unwrap();
    Amount::new(d.mantissa(), d.scale()).unwrap()
}

fn deposit(client: u16, tx: u32, amount: &str) -> TransactionType {
    TransactionType::Deposit {
        client_id: ClientId(client),
        transaction_id: TransactionId(tx),
        amount: dec(amount),
        status: TransactionStatus::Applied,
    }
}

fn withdrawal(client: u16, tx: u32, amount: &str) -> TransactionType {
    TransactionType::Withdrawal {
        client_id: ClientId(client),
        transaction_id: TransactionId(tx),
        amount: dec(amount),
    }
}

fn dispute(client: u16, tx: u32) -> TransactionType {
    TransactionType::Dispute { client_id: ClientId(client), transaction_id: TransactionId(tx) }
}

fn resolve(client: u16, tx: u32) -> TransactionType {
    TransactionType::Resolve { client_id: ClientId(client), transaction_id: TransactionId(tx) }
}

fn chargeback(client: u16, tx: u32) -> TransactionType {
    TransactionType::Chargeback { client_id: ClientId(client), transaction_id: TransactionId(tx) }
}

fn state(engine: &Engine, client: u16) -> (Amount, Amount, Amount, bool) {
    let s: AccountSnapshot = engine.get_account(&ClientId(client)).unwrap();
    (s.available(), s.held(), s.total(), s.locked())
}

const MOST: i128 = 79_228_162_514_264_337_593_543_950_335;

#[test]
fn amount_new_checks_the_range() {
    assert!(Amount::new(MOST, 28).is_some());
    assert!(Amount::new(-MOST, 0).is_some());
    assert!(Amount::new(MOST + 1, 0).is_none());
    assert!(Amount::new(-MOST - 1, 0).is_none());
    assert!(Amount::new(1, 29).is_none());
    let a = Amount::new(12345, 2).unwrap();
    assert_eq!(a.mantissa, 12345);
    assert_eq!(a.scale, 2);
    assert!(a.is_wf());
    assert!(!(Amount { mantissa: 1, scale: 40 }).is_wf());
}

#[test]
fn amount_sum_keeps_the_larger_scale() {
    let r = dec("1.5").checked_add(dec("2.25")).unwrap();
    assert_eq!(r.mantissa, 375);
    assert_eq!(r.scale, 2);
    let r = dec("1.10").checked_add(dec("1.90")).unwrap();
    assert_eq!(r.mantissa, 300);
    assert_eq!(r.scale, 2);
    let r = dec("-7").checked_add(dec("0.5")).unwrap();
    assert_eq!(r.mantissa, -65);
    assert_eq!(r.scale, 1);
}

#[test]
fn amount_sum_with_zero_is_the_other_amount() {
    let r = dec("0.00").checked_add(dec("5")).unwrap();
    assert_eq!((r.mantissa, r.scale), (5, 0));
    let r = dec("5").checked_add(dec("0.00")).unwrap();
    assert_eq!((r.mantissa, r.scale), (5, 0));
    let r = dec("0.00").checked_add(dec("0.0000")).unwrap();
    assert_eq!((r.mantissa, r.scale), (0, 4));
}

#[test]
fn amount_difference_keeps_the_larger_scale() {
    let r = dec("100.00").checked_sub(dec("30.5")).unwrap();
    assert_eq!((r.mantissa, r.scale), (6950, 2));
    let r = dec("1").checked_sub(dec("2.5")).unwrap();
    assert_eq!((r.mantissa, r.scale), (-15, 1));
    let r = dec("2.50").checked_sub(dec("2.5")).unwrap();
    assert_eq!((r.mantissa, r.scale), (0, 2));
}

#[test]
fn amount_difference_with_zero() {
    let r = dec("0.00").checked_sub(dec("5.5")).unwrap();
    assert_eq!((r.mantissa, r.scale), (-55, 1));
    let r = dec("5.5").checked_sub(dec("0.000")).unwrap();
    assert_eq!((r.mantissa, r.scale), (55, 1));
    let r = dec("0").checked_sub(dec("0.00")).unwrap();
    assert_eq!((r.mantissa, r.scale), (0, 2));
}

#[test]
fn amount_sum_out_of_range_is_none() {
    let most = Amount::new(MOST, 0).unwrap();
    assert!(most.checked_add(dec("1")).is_none());
    assert!(most.checked_add(most).is_none());
    let least = Amount::new(-MOST, 0).unwrap();
    assert!(least.checked_sub(dec("1")).is_none());
    assert_eq!(most.checked_sub(most).unwrap().mantissa, 0);
}

#[test]
fn amount_order_and_equality_go_by_the_number() {
    assert!(dec("1.5").less_than(&dec("1.51")));
    assert!(!dec("1.50").less_than(&dec("1.5")));
    assert!(dec("-2").less_than(&dec("0.0001")));
    assert!(!dec("100").less_than(&dec("99.9999")));
    assert_eq!(dec("1.50"), dec("1.5"));
    assert_eq!(dec("0.000"), Amount::zero());
    assert_ne!(dec("1.5"), dec("1.51"));
    assert!(dec("0.01").is_positive());
    assert!(!dec("0.00").is_positive());
    assert!(dec("-0.01").is_negative());
    assert!(!dec("0").is_negative());
}

#[test]
fn amounts_out_of_range_are_equal_where_their_fields_are() {
    let a = Amount { mantissa: 1, scale: 40 };
    let b = Amount { mantissa: 1, scale: 40 };
    let c = Amount { mantissa: 10, scale: 41 };
    assert!(a == b);
    assert!(a != c);
}

#[test]
fn amount_rounds_half_to_even() {
    let r = dec("0.00005").round_dp(4);
    assert_eq!((r.mantissa, r.scale), (0, 4));
    let r = dec("0.00015").round_dp(4);
    assert_eq!((r.mantissa, r.scale), (2, 4));
    let r = dec("0.00025").round_dp(4);
    assert_eq!((r.mantissa, r.scale), (2, 4));
    let r = dec("0.000251").round_dp(4);
    assert_eq!((r.mantissa, r.scale), (3, 4));
    let r = dec("-0.00015").round_dp(4);
    assert_eq!((r.mantissa, r.scale), (-2, 4));
    let r = dec("-0.00014").round_dp(4);
    assert_eq!((r.mantissa, r.scale), (-1, 4));
    let r = dec("6.5").round_dp(0);
    assert_eq!((r.mantissa, r.scale), (6, 0));
    let r = dec("7.5").round_dp(0);
    assert_eq!((r.mantissa, r.scale), (8, 0));
    let r = dec("123.456789").round_dp(4);
    assert_eq!((r.mantissa, r.scale), (1234568, 4));
    let r = dec("0.000000").round_dp(4);
    assert_eq!((r.mantissa, r.scale), (0, 4));
}

#[test]
fn amount_with_few_digits_is_not_rounded() {
    let r = dec("1.5").round_dp(4);
    assert_eq!((r.mantissa, r.scale), (15, 1));
    let r = dec("1000").round_dp(4);
    assert_eq!((r.mantissa, r.scale), (1000, 0));
    let r = dec("1.2345").round_dp(4);
    assert_eq!((r.mantissa, r.scale), (12345, 4));
}

#[test]
fn amount_text() {
    assert_eq!(dec("123.4568").to_text(), "123.4568");
    assert_eq!(dec("-0.5").to_text(), "-0.5");
    assert_eq!(Amount::new(0, 4).unwrap().to_text(), "0.0000");
    assert_eq!(Amount::new(15, 3).unwrap().to_text(), "0.015");
    assert_eq!(Amount::zero().to_text(), "0");
}

#[test]
fn record_kinds_are_read_without_regard_to_case() {
    let amount = Some(dec("1.5"));
    assert_eq!(TransactionType::from_record("deposit", 1, 2, amount), Some(deposit(1, 2, "1.5")));
    assert_eq!(TransactionType::from_record("DEPOSIT", 1, 2, amount), Some(deposit(1, 2, "1.5")));
    assert_eq!(
        TransactionType::from_record("Withdrawal", 3, 4, amount),
        Some(withdrawal(3, 4, "1.5"))
    );
    assert_eq!(TransactionType::from_record("dispute", 5, 6, None), Some(dispute(5, 6)));
    assert_eq!(TransactionType::from_record("Resolve", 5, 6, amount), Some(resolve(5, 6)));
    assert_eq!(TransactionType::from_record("chargeBack", 5, 6, None), Some(chargeback(5, 6)));
}

#[test]
fn records_without_amount_or_of_unknown_kind_give_nothing() {
    assert_eq!(TransactionType::from_record("deposit", 1, 2, None), None);
    assert_eq!(TransactionType::from_record("withdrawal", 1, 2, None), None);
    assert_eq!(TransactionType::from_record("transfer", 1, 2, Some(dec("1"))), None);
    assert_eq!(TransactionType::from_record("", 1, 2, Some(dec("1"))), None);
    assert_eq!(TransactionType::from_record(" deposit", 1, 2, Some(dec("1"))), None);
    let upper = "DEPOSIT".to_string();
    assert_eq!(TransactionType::from_lowercase_record(&upper, 1, 2, Some(dec("1"))), None);
}

#[test]
fn transaction_fields() {
    let d = deposit(7, 9, "2.5");
    assert_eq!(d.id(), TransactionId(9));
    assert_eq!(d.client_id(), ClientId(7));
    assert_eq!(d.amount(), dec("2.5"));
    assert_eq!(d.status(), TransactionStatus::Applied);
    assert!(d.is_monetary());
    let w = withdrawal(7, 10, "1");
    assert_eq!(w.amount(), dec("1"));
    assert!(w.is_monetary());
    let c = chargeback(8, 11);
    assert_eq!(c.id(), TransactionId(11));
    assert_eq!(c.client_id(), ClientId(8));
    assert_eq!(c.amount(), Amount::zero());
    assert_eq!(c.status(), TransactionStatus::Applied);
    assert!(!c.is_monetary());
    assert_eq!(ClientId(8).value(), 8);
    assert_eq!(TransactionId(11).value(), 11);
}

#[test]
fn queue_refuses_an_identifier_twice() {
    let mut queue = TransactionQueue::new();
    assert!(!queue.contains(TransactionId(1)));
    assert_eq!(queue.push(deposit(1, 1, "5")), Ok(()));
    assert!(queue.contains(TransactionId(1)));
    assert!(!queue.contains(TransactionId(2)));
    assert_eq!(queue.push(withdrawal(2, 1, "5")), Err(TransactionError::DuplicateTransaction));
    assert_eq!(queue.push(withdrawal(2, 2, "5")), Ok(()));
    assert!(queue.contains(TransactionId(2)));
}

#[test]
fn single_deposit() {
    let mut engine = Engine::new();
    engine.process(deposit(1, 1, "100.0000")).unwrap();
    assert_eq!(state(&engine, 1), (dec("100.0000"), dec("0"), dec("100.0000"), false));
}

#[test]
fn deposit_then_withdrawal() {
    let mut engine = Engine::new();
    engine.process(deposit(1, 1, "100.0000")).unwrap();
    engine.process(withdrawal(1, 2, "30.0000")).unwrap();
    assert_eq!(state(&engine, 1), (dec("70.0000"), dec("0"), dec("70.0000"), false));
}

#[test]
fn dispute_then_resolve_restores_the_balances() {
    let mut engine = Engine::new();
    engine.process(deposit(1, 1, "100")).unwrap();
    let before = state(&engine, 1);
    engine.process(dispute(1, 1)).unwrap();
    assert_eq!(state(&engine, 1), (dec("0"), dec("100"), dec("100"), false));
    engine.process(resolve(1, 1)).unwrap();
    assert_eq!(state(&engine, 1), (dec("100"), dec("0"), dec("100"), false));
    assert_eq!(state(&engine, 1), before);
}

#[test]
fn dispute_then_chargeback_locks_the_account() {
    let mut engine = Engine::new();
    engine.process(deposit(1, 1, "100")).unwrap();
    engine.process(dispute(1, 1)).unwrap();
    let disputed = state(&engine, 1);
    engine.process(chargeback(1, 1)).unwrap();
    assert_eq!(state(&engine, 1), (dec("0"), dec("0"), dec("0"), true));
    assert_eq!(state(&engine, 1).0, disputed.0);
    assert_eq!(engine.process(deposit(1, 2, "10")), Err(TransactionError::AccountLocked));
    assert_eq!(engine.process(withdrawal(1, 3, "10")), Err(TransactionError::AccountLocked));
    assert_eq!(state(&engine, 1), (dec("0"), dec("0"), dec("0"), true));
}

#[test]
fn dispute_after_withdrawal_is_refused() {
    let mut engine = Engine::new();
    engine.process(deposit(1, 1, "100")).unwrap();
    engine.process(withdrawal(1, 2, "100")).unwrap();
    assert_eq!(engine.process(dispute(1, 1)), Err(TransactionError::InsufficientFunds));
    assert_eq!(state(&engine, 1), (dec("0"), dec("0"), dec("0"), false));
}

#[test]
fn dispute_with_enough_funds_left() {
    let mut engine = Engine::new();
    engine.process(deposit(1, 1, "100")).unwrap();
    engine.process(deposit(1, 2, "50")).unwrap();
    engine.process(withdrawal(1, 3, "40")).unwrap();
    engine.process(dispute(1, 1)).unwrap();
    assert_eq!(state(&engine, 1), (dec("10.0000"), dec("100.0000"), dec("110.0000"), false));
    assert_eq!(engine.process(dispute(1, 1)), Err(TransactionError::AlreadyDisputed));
    assert_eq!(state(&engine, 1), (dec("10.0000"), dec("100.0000"), dec("110.0000"), false));
}

#[test]
fn deposits_add_up() {
    let mut engine = Engine::new();
    let amounts = ["0.0001", "12.5", "100", "7.25", "0.3333"];
    let mut tx = 1;
    for a in amounts {
        assert_eq!(engine.process(deposit(4, tx, a)), Ok(()));
        tx += 1;
    }
    assert_eq!(state(&engine, 4), (dec("120.0834"), dec("0"), dec("120.0834"), false));
}

#[test]
fn withdrawal_of_the_deposited_amount_restores_available() {
    let mut engine = Engine::new();
    engine.process(deposit(1, 1, "17.5")).unwrap();
    let before = state(&engine, 1).0;
    engine.process(deposit(1, 2, "0.025")).unwrap();
    engine.process(withdrawal(1, 3, "0.025")).unwrap();
    assert_eq!(state(&engine, 1).0, before);
}

#[test]
fn resolve_and_chargeback_need_a_dispute() {
    let mut engine = Engine::new();
    engine.process(deposit(1, 1, "100")).unwrap();
    let before = state(&engine, 1);
    assert_eq!(engine.process(resolve(1, 1)), Err(TransactionError::NotDisputed));
    assert_eq!(engine.process(chargeback(1, 1)), Err(TransactionError::NotDisputed));
    assert_eq!(state(&engine, 1), before);
    assert_eq!(engine.process(resolve(1, 5)), Err(TransactionError::TransactionNotFound));
    assert_eq!(engine.process(chargeback(2, 1)), Err(TransactionError::TransactionNotFound));
}

#[test]
fn withdrawal_at_and_above_the_available_funds() {
    let mut engine = Engine::new();
    engine.process(deposit(1, 1, "100")).unwrap();
    assert_eq!(
        engine.process(withdrawal(1, 2, "100.0000000000000000000000001")),
        Err(TransactionError::InsufficientFunds)
    );
    assert_eq!(state(&engine, 1).0, dec("100"));
    assert_eq!(engine.process(withdrawal(1, 3, "100")), Ok(()));
    assert_eq!(state(&engine, 1).0, Amount::zero());
}

#[test]
fn one_of_many_deposits_with_one_identifier_succeeds() {
    let mut engine = Engine::new();
    let mut accepted = 0;
    let mut duplicates = 0;
    for _ in 0..10 {
        match engine.process(deposit(1, 77, "5")) {
            Ok(()) => accepted += 1,
            Err(TransactionError::DuplicateTransaction) => duplicates += 1,
            Err(other) => panic!("{}", other.message()),
        }
    }
    assert_eq!(accepted, 1);
    assert_eq!(duplicates, 9);
    assert_eq!(state(&engine, 1).0, dec("5"));
}

#[test]
fn a_refused_deposit_keeps_its_identifier() {
    let mut engine = Engine::new();
    assert_eq!(engine.process(deposit(1, 1, "0")), Err(TransactionError::InvalidAmount));
    assert_eq!(engine.process(deposit(1, 1, "5")), Err(TransactionError::DuplicateTransaction));
    assert_eq!(engine.process(withdrawal(2, 1, "5")), Err(TransactionError::DuplicateTransaction));
    assert_eq!(state(&engine, 1), (dec("0"), dec("0"), dec("0"), false));
    assert!(engine.get_account(&ClientId(2)).is_none());
}

#[test]
fn disputes_do_not_claim_identifiers() {
    let mut engine = Engine::new();
    engine.process(deposit(1, 1, "5")).unwrap();
    assert_eq!(engine.process(dispute(1, 2)), Err(TransactionError::TransactionNotFound));
    assert_eq!(engine.process(deposit(1, 2, "5")), Ok(()));
    assert_eq!(engine.process(dispute(1, 2)), Ok(()));
    assert_eq!(engine.process(dispute(1, 2)), Err(TransactionError::AlreadyDisputed));
}

#[test]
fn withdrawals_cannot_be_disputed() {
    let mut engine = Engine::new();
    engine.process(deposit(1, 1, "50")).unwrap();
    engine.process(withdrawal(1, 2, "20")).unwrap();
    assert_eq!(engine.process(dispute(1, 2)), Err(TransactionError::TransactionNotFound));
}

#[test]
fn accounts_lists_every_client_once() {
    let mut engine = Engine::new();
    assert!(engine.accounts().is_empty());
    engine.process(deposit(3, 1, "10.0")).unwrap();
    engine.process(deposit(1, 2, "20.0")).unwrap();
    engine.process(deposit(2, 3, "30.0")).unwrap();
    engine.process(deposit(1, 4, "0.5")).unwrap();
    let mut seen: Vec<(u16, Amount)> =
        engine.accounts().iter().map(|s| (s.client_id().0, s.available())).collect();
    seen.sort_by_key(|entry| entry.0);
    assert_eq!(seen, vec![(1, dec("20.5")), (2, dec("30.0")), (3, dec("10.0"))]);
}

#[test]
fn try_process_gives_none_where_a_balance_is_out_of_range() {
    let mut engine = Engine::new();
    let most = TransactionType::Deposit {
        client_id: ClientId(1),
        transaction_id: TransactionId(1),
        amount: Amount::new(MOST, 0).unwrap(),
        status: TransactionStatus::Applied,
    };
    assert_eq!(engine.try_process(most), Some(Ok(())));
    let before = state_without_total(&engine, 1);
    assert_eq!(engine.try_process(deposit(1, 2, "1")), None);
    assert_eq!(state_without_total(&engine, 1), before);
    assert_eq!(
        engine.try_process(deposit(1, 2, "1")),
        Some(Err(TransactionError::DuplicateTransaction))
    );
    assert_eq!(engine.try_process(dispute(1, 1)), Some(Ok(())));
    assert_eq!(engine.try_process(withdrawal(1, 3, "1")), Some(Err(TransactionError::InsufficientFunds)));
    assert_eq!(engine.try_process(dispute(9, 1)), Some(Err(TransactionError::TransactionNotFound)));
}

fn state_without_total(engine: &Engine, client: u16) -> (Amount, Amount, bool) {
    let s = engine.get_account(&ClientId(client)).unwrap();
    (s.available(), s.held(), s.locked())
}

#[test]
fn try_add_transaction_gives_none_where_a_balance_is_out_of_range() {
    let mut account = Account::new(ClientId(1));
    let most = TransactionType::Deposit {
        client_id: ClientId(1),
        transaction_id: TransactionId(1),
        amount: Amount::new(MOST, 0).unwrap(),
        status: TransactionStatus::Applied,
    };
    assert_eq!(account.try_add_transaction(most), Some(Ok(())));
    assert!(!account.admits(&deposit(1, 2, "1")));
    assert_eq!(account.try_add_transaction(deposit(1, 2, "1")), None);
    assert_eq!(account.available(), Amount::new(MOST, 0).unwrap());
    assert_eq!(account.try_add_transaction(deposit(1, 3, "0")), Some(Err(TransactionError::InvalidAmount)));
    assert_eq!(account.try_add_transaction(withdrawal(1, 4, "1")), Some(Ok(())));
    assert_eq!(account.available(), Amount::new(MOST - 1, 0).unwrap());
    assert_eq!(account.try_total(), Some(Amount::new(MOST - 1, 0).unwrap()));
    assert_eq!(account.client_id(), ClientId(1));
}

#[test]
fn sums_beyond_the_exact_range_are_those_of_the_decimal_type() {
    let mut account = Account::new(ClientId(1));
    let big = Amount::new(MOST - 5, 0).unwrap();
    let first = TransactionType::Deposit {
        client_id: ClientId(1),
        transaction_id: TransactionId(1),
        amount: big,
        status: TransactionStatus::Applied,
    };
    assert_eq!(account.try_add_transaction(first), Some(Ok(())));
    let expected = Decimal::from_i128_with_scale(MOST - 5, 0)
        .checked_add(Decimal::from_str("0.4").unwrap())
        .unwrap();
    assert_eq!(account.try_add_transaction(deposit(1, 2, "0.4")), Some(Ok(())));
    let got = account.available();
    assert_eq!((got.mantissa, got.scale), (expected.mantissa(), expected.scale()));
}

#[test]
fn account_keeps_the_record_of_each_deposit() {
    let mut engine = Engine::new();
    engine.process(deposit(1, 1, "100")).unwrap();
    engine.process(deposit(1, 2, "50")).unwrap();
    engine.process(dispute(1, 1)).unwrap();
    engine.process(dispute(1, 2)).unwrap();
    engine.process(resolve(1, 2)).unwrap();
    assert_eq!(state(&engine, 1), (dec("50"), dec("100"), dec("150"), false));
    assert_eq!(engine.process(resolve(1, 2)), Err(TransactionError::NotDisputed));
    assert_eq!(engine.process(dispute(1, 2)), Err(TransactionError::AlreadyDisputed));
    engine.process(chargeback(1, 1)).unwrap();
    assert_eq!(state(&engine, 1), (dec("50"), dec("0"), dec("50"), true));
    assert_eq!(engine.process(dispute(1, 1)), Err(TransactionError::AlreadyDisputed));
    assert_eq!(engine.process(chargeback(1, 1)), Err(TransactionError::NotDisputed));
}

#[test]
fn a_locked_account_stays_locked() {
    let mut engine = Engine::new();
    engine.process(deposit(1, 1, "100")).unwrap();
    engine.process(deposit(1, 2, "40")).unwrap();
    engine.process(dispute(1, 1)).unwrap();
    engine.process(dispute(1, 2)).unwrap();
    engine.process(chargeback(1, 1)).unwrap();
    let locked = state(&engine, 1);
    assert_eq!(locked, (dec("0"), dec("40"), dec("40"), true));
    let later = [
        deposit(1, 3, "5"),
        withdrawal(1, 4, "5"),
        resolve(1, 2),
        chargeback(1, 2),
        dispute(1, 1),
    ];
    for t in later {
        assert!(engine.process(t).is_err());
        assert_eq!(state(&engine, 1), locked);
    }
    assert_eq!(engine.process(resolve(1, 2)), Err(TransactionError::AccountLocked));
    assert_eq!(engine.process(dispute(1, 9)), Err(TransactionError::TransactionNotFound));
}

#[test]
fn transactions_for_different_clients_commute() {
    let for_one = [deposit(1, 1, "100"), withdrawal(1, 2, "30.5"), dispute(1, 1)];
    let for_two = [deposit(2, 11, "7.25"), dispute(2, 11), chargeback(2, 11)];
    let mut first = Engine::new();
    for t in for_one.iter().chain(for_two.iter()) {
        let _ = first.process(*t);
    }
    let mut second = Engine::new();
    for i in 0..3 {
        let _ = second.process(for_two[i]);
        let _ = second.process(for_one[i]);
    }
    for client in [1, 2] {
        assert_eq!(state(&first, client), state(&second, client));
    }
    assert_eq!(state(&first, 1), (dec("69.5"), dec("0"), dec("69.5"), false));
    assert_eq!(state(&first, 2), (dec("0"), dec("0"), dec("0"), true));
}

#[test]
fn new_engines_and_queues_are_empty() {
    let engine = Engine::default();
    assert!(engine.accounts().is_empty());
    assert!(engine.get_account(&ClientId(0)).is_none());
    let queue = TransactionQueue::default();
    assert!(!queue.contains(TransactionId(0)));
}

#[test]
fn account_data_decides_without_changing_anything() {
    let mut data = AccountData::new(ClientId(3));
    assert_eq!(data.client_id(), ClientId(3));
    assert_eq!(data.decide(&deposit(3, 1, "10")), Ok(()));
    assert_eq!(data.decide(&deposit(4, 1, "10")), Err(TransactionError::ClientMismatch));
    assert_eq!(data.decide(&withdrawal(3, 1, "10")), Err(TransactionError::InsufficientFunds));
    assert_eq!(data.decide(&dispute(3, 1)), Err(TransactionError::TransactionNotFound));
    assert!(data.admits(&deposit(3, 1, "10")));
    assert_eq!(data.available(), Amount::zero());
    assert!(data.deposit_record(TransactionId(1)).is_none());
    assert_eq!(data.apply(deposit(3, 1, "10")), Ok(()));
    let record = data.deposit_record(TransactionId(1)).unwrap();
    assert_eq!(record.amount, dec("10"));
    assert_eq!(record.status, TransactionStatus::Applied);
    assert_eq!(data.apply(dispute(3, 1)), Ok(()));
    assert_eq!(data.deposit_record(TransactionId(1)).unwrap().status, TransactionStatus::Inflight);
    assert_eq!(data.apply(resolve(3, 1)), Ok(()));
    assert_eq!(data.deposit_record(TransactionId(1)).unwrap().status, TransactionStatus::Resolved);
    assert_eq!(data.apply(deposit(3, 2, "1")), Ok(()));
    assert_eq!(data.apply(dispute(3, 2)), Ok(()));
    assert_eq!(data.apply(chargeback(3, 2)), Ok(()));
    assert_eq!(data.deposit_record(TransactionId(2)).unwrap().status, TransactionStatus::Voided);
    assert_eq!(data.deposit_record(TransactionId(2)).unwrap().amount, dec("1"));
    assert_eq!((data.available(), data.held(), data.locked()), (dec("10"), dec("0"), true));
}

#[test]
fn account_snapshot_reads_all_fields_together() {
    let mut account = Account::new(ClientId(5));
    account.add_transaction(deposit(5, 1, "2.5")).unwrap();
    account.add_transaction(deposit(5, 2, "1.25")).unwrap();
    account.add_transaction(dispute(5, 2)).unwrap();
    let s = account.snapshot();
    assert_eq!(s.client_id(), ClientId(5));
    assert_eq!((s.available(), s.held(), s.locked()), (dec("2.5"), dec("1.25"), false));
    assert_eq!(s.total(), dec("3.75"));
    assert_eq!(s.try_total(), Some(dec("3.75")));
    assert_eq!(account.total(), dec("3.75"));
}

#[test]
fn sums_of_short_amounts_are_exact_up_to_nineteen_digits_apart() {
    let a = Amount::new(7, 0).unwrap();
    let b = Amount::new(1, 19).unwrap();
    let r = a.checked_add(b).unwrap();
    assert_eq!((r.mantissa, r.scale), (70_000_000_000_000_000_001, 19));
    let r = a.checked_sub(b).unwrap();
    assert_eq!((r.mantissa, r.scale), (69_999_999_999_999_999_999, 19));
    let r = b.checked_sub(a).unwrap();
    assert_eq!((r.mantissa, r.scale), (-69_999_999_999_999_999_999, 19));

    let wide = Amount::new(18_446_744_073_709_551_615, 0).unwrap();
    let fine = Amount::new(18_446_744_073_709_551_615, 9).unwrap();
    let r = wide.checked_add(fine).unwrap();
    assert_eq!(
        (r.mantissa, r.scale),
        (18_446_744_073_709_551_615 * 1_000_000_000 + 18_446_744_073_709_551_615, 9)
    );
    let r = fine.checked_sub(wide).unwrap();
    assert_eq!(
        (r.mantissa, r.scale),
        (18_446_744_073_709_551_615 - 18_446_744_073_709_551_615 * 1_000_000_000, 9)
    );

    let r = Amount::new(4_294_967_295, 2).unwrap().checked_add(Amount::new(4_294_967_295, 2).unwrap());
    assert_eq!(r.map(|x| (x.mantissa, x.scale)), Some((8_589_934_590, 2)));
    let r = Amount::new(4_294_967_295, 0).unwrap().checked_add(Amount::new(5, 3).unwrap());
    assert_eq!(r.map(|x| (x.mantissa, x.scale)), Some((4_294_967_295_005, 3)));
    let r = Amount::new(-3, 1).unwrap().checked_sub(Amount::new(-3, 1).unwrap());
    assert_eq!(r.map(|x| (x.mantissa, x.scale)), Some((0, 1)));
    let r = Amount::new(-3, 1).unwrap().checked_add(Amount::new(-45, 2).unwrap());
    assert_eq!(r.map(|x| (x.mantissa, x.scale)), Some((-75, 2)));
}

#[test]
fn amounts_of_far_scales_compare_by_the_number() {
    let most = Amount::new(MOST, 0).unwrap();
    let tiny = Amount::new(1, 28).unwrap();
    let neg_tiny = Amount::new(-1, 28).unwrap();
    assert!(tiny.less_than(&most));
    assert!(!most.less_than(&tiny));
    assert!(neg_tiny.less_than(&tiny));
    assert!(Amount::new(-MOST, 0).unwrap().less_than(&neg_tiny));
    assert!(!Amount::new(MOST, 28).unwrap().less_than(&Amount::new(MOST, 28).unwrap()));
    assert!(Amount::new(79_228_162_514, 28).unwrap().less_than(&Amount::new(8, 18).unwrap()));
    assert!(Amount::new(1, 0).unwrap() == Amount::new(10_000_000_000_000_000_000_000_000_000, 28).unwrap());
    assert!(Amount::new(0, 28).unwrap() == Amount::new(0, 0).unwrap());
    assert!(most != Amount::new(MOST, 1).unwrap());
}

#[test]
fn rounding_of_wide_amounts() {
    let r = Amount::new(MOST, 28).unwrap().round_dp(4);
    assert_eq!((r.mantissa, r.scale), (79_228, 4));
    let r = Amount::new(-MOST, 5).unwrap().round_dp(4);
    assert_eq!((r.mantissa, r.scale), (-7_922_816_251_426_433_759_354_395_034, 4));
    let r = Amount::new(25, 1).unwrap().round_dp(0);
    assert_eq!((r.mantissa, r.scale), (2, 0));
    let r = Amount::new(35, 1).unwrap().round_dp(0);
    assert_eq!((r.mantissa, r.scale), (4, 0));
    let r = Amount::new(5, 28).unwrap().round_dp(4);
    assert_eq!((r.mantissa, r.scale), (0, 4));
    let r = Amount::new(5_000_000_000_000_000_000_000_001, 28).unwrap().round_dp(3);
    assert_eq!((r.mantissa, r.scale), (1, 3));
    let r = Amount::new(5_000_000_000_000_000_000_000_000, 28).unwrap().round_dp(3);
    assert_eq!((r.mantissa, r.scale), (0, 3));
    let r = Amount::new(15_000_000_000_000_000_000_000_000, 28).unwrap().round_dp(3);
    assert_eq!((r.mantissa, r.scale), (2, 3));
    let r = Amount::new(1, 3).unwrap().round_dp(40);
    assert_eq!((r.mantissa, r.scale), (1, 3));
}

#[test]
fn held_funds_are_the_deposits_under_dispute() {
    let mut engine = Engine::new();
    engine.process(deposit(1, 1, "10.5")).unwrap();
    engine.process(deposit(1, 2, "0.25")).unwrap();
    engine.process(deposit(1, 3, "4")).unwrap();
    assert_eq!(state(&engine, 1).1, dec("0"));
    engine.process(dispute(1, 1)).unwrap();
    assert_eq!(state(&engine, 1).1, dec("10.5"));
    engine.process(dispute(1, 3)).unwrap();
    assert_eq!(state(&engine, 1).1, dec("14.5"));
    engine.process(dispute(1, 2)).unwrap();
    assert_eq!(state(&engine, 1).1, dec("14.75"));
    engine.process(resolve(1, 3)).unwrap();
    assert_eq!(state(&engine, 1).1, dec("10.75"));
    engine.process(chargeback(1, 2)).unwrap();
    assert_eq!(state(&engine, 1), (dec("4"), dec("10.5"), dec("14.5"), true));
}

#[test]
fn identifiers_are_shown_as_numbers() {
    assert_eq!(ClientId(0).to_text(), "0");
    assert_eq!(ClientId(65535).to_text(), "65535");
    assert_eq!(TransactionId(7).to_text(), "7");
    assert_eq!(TransactionId(4294967295).to_text(), "4294967295");
}
