//! Tests of the ledger engine over concrete record sequences. Amounts are
//! fixed-point values in 1/10000 units, so 10.0 is written 100_000.

use csv_parser::engine::Ledger;
use csv_parser::engine::process;
use csv_parser::structs::AccountData;
use csv_parser::structs::LedgerEntry;
use csv_parser::structs::Transaction;
use csv_parser::structs::TransactionType;

fn deposit(client: u16, tx: u32, amount: i128) -> Transaction {
    Transaction {
        col_type: TransactionType::Deposit,
        client_id: client,
        transaction_id: Some(tx),
        amount: Some(amount),
        disputed: false,
    }
}

fn withdrawal(client: u16, tx: u32, amount: i128) -> Transaction {
    Transaction {
        col_type: TransactionType::Withdrawal,
        client_id: client,
        transaction_id: Some(tx),
        amount: Some(amount),
        disputed: false,
    }
}

fn reference(kind: TransactionType, client: u16, tx: u32) -> Transaction {
    Transaction {
        col_type: kind,
        client_id: client,
        transaction_id: Some(tx),
        amount: None,
        disputed: false,
    }
}

fn account(available: i128, held: i128, total: i128, locked: bool) -> AccountData {
    AccountData {
        available,
        held,
        total,
        locked,
    }
}

#[test]
fn deposits_and_withdrawal_across_two_clients() {
    let records = vec![
        deposit(1, 1, 100_000),
        deposit(2, 2, 50_000),
        deposit(1, 3, 30_000),
        withdrawal(1, 4, 80_000),
    ];
    let ledger = process(&records);
    assert_eq!(ledger.account(1), Some(account(50_000, 0, 50_000, false)));
    assert_eq!(ledger.account(2), Some(account(50_000, 0, 50_000, false)));
}

#[test]
fn dispute_holds_funds() {
    let records = vec![deposit(1, 1, 100_000), reference(TransactionType::Dispute, 1, 1)];
    let ledger = process(&records);
    assert_eq!(ledger.account(1), Some(account(0, 100_000, 100_000, false)));
    assert_eq!(
        ledger.entry(1),
        Some(LedgerEntry {
            client_id: 1,
            amount: 100_000,
            disputed: true,
        })
    );
}

#[test]
fn chargeback_locks_account_and_later_deposit_has_no_effect() {
    let mut ledger = Ledger::new();
    ledger.apply(deposit(1, 1, 100_000));
    ledger.apply(reference(TransactionType::Dispute, 1, 1));
    ledger.apply(reference(TransactionType::Chargeback, 1, 1));
    assert_eq!(ledger.account(1), Some(account(0, 0, 0, true)));
    ledger.apply(deposit(1, 5, 10_000));
    assert_eq!(ledger.account(1), Some(account(0, 0, 0, true)));
}

#[test]
fn duplicate_transaction_id_is_ignored() {
    let records = vec![deposit(1, 1, 100_000), deposit(1, 1, 100_000)];
    let ledger = process(&records);
    assert_eq!(ledger.account(1), Some(account(100_000, 0, 100_000, false)));
}

#[test]
fn duplicate_id_across_kinds_keeps_first_entry() {
    let records = vec![deposit(1, 1, 100_000), withdrawal(2, 1, 40_000)];
    let ledger = process(&records);
    // The second record's id collides, so neither its balance effect nor
    // its retention happens; the first entry survives untouched.
    assert_eq!(ledger.account(1), Some(account(100_000, 0, 100_000, false)));
    assert_eq!(ledger.account(2), Some(account(0, 0, 0, false)));
    assert_eq!(
        ledger.entry(1),
        Some(LedgerEntry {
            client_id: 1,
            amount: 100_000,
            disputed: false,
        })
    );
}

#[test]
fn dispute_then_resolve_restores_balances() {
    let mut ledger = Ledger::new();
    ledger.apply(deposit(1, 1, 100_000));
    ledger.apply(deposit(1, 2, 25_000));
    ledger.apply(reference(TransactionType::Dispute, 1, 1));
    assert_eq!(ledger.account(1), Some(account(25_000, 100_000, 125_000, false)));
    ledger.apply(reference(TransactionType::Resolve, 1, 1));
    assert_eq!(ledger.account(1), Some(account(125_000, 0, 125_000, false)));
    assert_eq!(
        ledger.entry(1),
        Some(LedgerEntry {
            client_id: 1,
            amount: 100_000,
            disputed: false,
        })
    );
}

#[test]
fn resolve_and_dispute_after_chargeback_are_noops() {
    let mut ledger = Ledger::new();
    ledger.apply(deposit(1, 1, 100_000));
    ledger.apply(reference(TransactionType::Dispute, 1, 1));
    ledger.apply(reference(TransactionType::Chargeback, 1, 1));
    let after = ledger.account(1);
    ledger.apply(reference(TransactionType::Resolve, 1, 1));
    assert_eq!(ledger.account(1), after);
    ledger.apply(reference(TransactionType::Dispute, 1, 1));
    assert_eq!(ledger.account(1), after);
    assert_eq!(
        ledger.entry(1),
        Some(LedgerEntry {
            client_id: 1,
            amount: 100_000,
            disputed: false,
        })
    );
}

#[test]
fn withdrawal_of_exact_balance_succeeds() {
    let records = vec![deposit(1, 1, 100_000), withdrawal(1, 2, 100_000)];
    let ledger = process(&records);
    assert_eq!(ledger.account(1), Some(account(0, 0, 0, false)));
}

#[test]
fn withdrawal_exceeding_balance_is_rejected_whole() {
    let records = vec![deposit(1, 1, 100_000), withdrawal(1, 2, 100_001)];
    let ledger = process(&records);
    assert_eq!(ledger.account(1), Some(account(100_000, 0, 100_000, false)));
    // The rejected withdrawal is still retained under its fresh id.
    assert_eq!(
        ledger.entry(2),
        Some(LedgerEntry {
            client_id: 1,
            amount: 100_001,
            disputed: false,
        })
    );
}

#[test]
fn cross_client_dispute_is_rejected() {
    let records = vec![
        deposit(1, 1, 100_000),
        reference(TransactionType::Dispute, 2, 1),
    ];
    let ledger = process(&records);
    assert_eq!(ledger.account(1), Some(account(100_000, 0, 100_000, false)));
    // The disputing client's account is still created on first mention.
    assert_eq!(ledger.account(2), Some(account(0, 0, 0, false)));
    assert_eq!(
        ledger.entry(1),
        Some(LedgerEntry {
            client_id: 1,
            amount: 100_000,
            disputed: false,
        })
    );
}

#[test]
fn dispute_of_unknown_transaction_is_a_noop() {
    let records = vec![deposit(1, 1, 100_000), reference(TransactionType::Dispute, 1, 99)];
    let ledger = process(&records);
    assert_eq!(ledger.account(1), Some(account(100_000, 0, 100_000, false)));
}

#[test]
fn resolve_of_undisputed_entry_is_a_noop() {
    let records = vec![deposit(1, 1, 100_000), reference(TransactionType::Resolve, 1, 1)];
    let ledger = process(&records);
    assert_eq!(ledger.account(1), Some(account(100_000, 0, 100_000, false)));
    assert_eq!(
        ledger.entry(1),
        Some(LedgerEntry {
            client_id: 1,
            amount: 100_000,
            disputed: false,
        })
    );
}

#[test]
fn chargeback_of_undisputed_entry_is_a_noop() {
    let records = vec![deposit(1, 1, 100_000), reference(TransactionType::Chargeback, 1, 1)];
    let ledger = process(&records);
    assert_eq!(ledger.account(1), Some(account(100_000, 0, 100_000, false)));
}

#[test]
fn deposit_without_transaction_id_is_not_applied_or_retained() {
    let record = Transaction {
        col_type: TransactionType::Deposit,
        client_id: 3,
        transaction_id: None,
        amount: Some(70_000),
        disputed: false,
    };
    let ledger = process(&vec![record]);
    assert_eq!(ledger.account(3), Some(account(0, 0, 0, false)));
}

#[test]
fn deposit_without_amount_is_retained_with_zero_amount() {
    let record = Transaction {
        col_type: TransactionType::Deposit,
        client_id: 4,
        transaction_id: Some(8),
        amount: None,
        disputed: false,
    };
    let mut ledger = Ledger::new();
    ledger.apply(record);
    assert_eq!(ledger.account(4), Some(account(0, 0, 0, false)));
    assert_eq!(
        ledger.entry(8),
        Some(LedgerEntry {
            client_id: 4,
            amount: 0,
            disputed: false,
        })
    );
    // Disputing the zero-amount entry is legal but functionally inert.
    ledger.apply(reference(TransactionType::Dispute, 4, 8));
    assert_eq!(ledger.account(4), Some(account(0, 0, 0, false)));
    assert_eq!(
        ledger.entry(8),
        Some(LedgerEntry {
            client_id: 4,
            amount: 0,
            disputed: true,
        })
    );
}

#[test]
fn deposit_to_locked_account_is_still_retained() {
    let mut ledger = Ledger::new();
    ledger.apply(deposit(1, 1, 100_000));
    ledger.apply(reference(TransactionType::Dispute, 1, 1));
    ledger.apply(reference(TransactionType::Chargeback, 1, 1));
    // The balance effect is blocked by the lock, but retention still
    // claims the transaction id for the whole run.
    ledger.apply(deposit(1, 6, 10_000));
    assert_eq!(ledger.account(1), Some(account(0, 0, 0, true)));
    assert_eq!(
        ledger.entry(6),
        Some(LedgerEntry {
            client_id: 1,
            amount: 10_000,
            disputed: false,
        })
    );
    // So a later deposit under that id from another client is ignored.
    ledger.apply(deposit(2, 6, 10_000));
    assert_eq!(ledger.account(2), Some(account(0, 0, 0, false)));
}

#[test]
fn total_is_available_plus_held_at_every_step() {
    let records = vec![
        deposit(1, 1, 100_000),
        deposit(1, 2, 42_000),
        reference(TransactionType::Dispute, 1, 1),
        withdrawal(1, 3, 2_000),
        reference(TransactionType::Resolve, 1, 1),
        reference(TransactionType::Dispute, 1, 2),
        reference(TransactionType::Chargeback, 1, 2),
        deposit(2, 4, 5),
    ];
    let mut ledger = Ledger::new();
    for r in records {
        ledger.apply(r);
        for client in [1u16, 2u16] {
            if let Some(a) = ledger.account(client) {
                assert_eq!(a.total, a.available + a.held);
            }
        }
    }
    assert_eq!(ledger.account(1), Some(account(98_000, 0, 98_000, true)));
}

#[test]
fn empty_run_reports_no_accounts() {
    let ledger = process(&Vec::new());
    assert_eq!(ledger.account(0), None);
    assert!(ledger.accounts().is_empty());
}

#[test]
fn negative_available_after_dispute_of_withdrawn_funds() {
    // Dispute a deposit after its funds already left: available goes
    // negative while total is unaffected by the dispute itself.
    let records = vec![
        deposit(1, 1, 100_000),
        withdrawal(1, 2, 60_000),
        reference(TransactionType::Dispute, 1, 1),
    ];
    let ledger = process(&records);
    assert_eq!(ledger.account(1), Some(account(-60_000, 100_000, 40_000, false)));
}
