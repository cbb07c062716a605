//! Properties of the ledger model, proved once and for all: the balance
//! invariant, the permanence of a lock, the idempotence of duplicate
//! transaction ids, the dispute round trip, and the withdrawal boundary.

use vstd::prelude::*;
use crate::engine::LedgerView;
use crate::engine::account_or_new;
use crate::engine::apply_record;
use crate::engine::apply_records;
use crate::engine::empty_ledger;
use crate::engine::fits_i128;
use crate::engine::process_records;
use crate::engine::retained_entry;
use crate::structs::AccountData;
use crate::structs::LedgerEntry;
use crate::structs::Transaction;
use crate::structs::TransactionType;

verus! {

/// An account whose books balance: total is exactly available plus held.
pub open spec fn account_balanced(a: AccountData) -> bool {
    a.total == a.available + a.held
}

/// A state in which every stored account balances.
pub open spec fn ledger_balanced(lv: LedgerView) -> bool {
    forall|c: u16| #[trigger] lv.accounts.contains_key(c) ==> account_balanced(lv.accounts[c])
}

/// One record keeps every account balanced: each accepted effect credits
/// or debits available/held/total together so that total stays exactly
/// available plus held.
pub proof fn lemma_apply_record_balanced(lv: LedgerView, r: Transaction)
    requires
        ledger_balanced(lv),
    ensures
        ledger_balanced(apply_record(lv, r)),
{
    assert(account_balanced(account_or_new(lv.accounts, r.client_id)));
}

/// A whole record sequence keeps every account balanced.
pub proof fn lemma_apply_records_balanced(lv: LedgerView, records: Seq<Transaction>)
    requires
        ledger_balanced(lv),
    ensures
        ledger_balanced(apply_records(lv, records)),
    decreases records.len(),
{
    if records.len() > 0 {
        lemma_apply_records_balanced(lv, records.drop_last());
        lemma_apply_record_balanced(apply_records(lv, records.drop_last()), records.last());
    }
}

/// The balance invariant: after processing any record sequence from the
/// empty ledger, every account satisfies total == available + held, as
/// exact decimal equality.
pub proof fn lemma_process_balanced(records: Seq<Transaction>)
    ensures
        ledger_balanced(process_records(records)),
{
    lemma_apply_records_balanced(empty_ledger(), records);
}

/// A locked account is frozen: no single further record, of any kind and
/// from any client, changes it in any way.
pub proof fn lemma_locked_account_frozen(lv: LedgerView, r: Transaction, client: u16)
    requires
        lv.accounts.contains_key(client),
        lv.accounts[client].locked,
    ensures
        apply_record(lv, r).accounts.contains_key(client),
        apply_record(lv, r).accounts[client] == lv.accounts[client],
{
}

/// Lock permanence: once an account is locked, no subsequent record
/// sequence changes its available, held, or total balances (indeed it
/// changes nothing about the account at all).
pub proof fn lemma_locked_account_stays_frozen(
    lv: LedgerView,
    records: Seq<Transaction>,
    client: u16,
)
    requires
        lv.accounts.contains_key(client),
        lv.accounts[client].locked,
    ensures
        apply_records(lv, records).accounts.contains_key(client),
        apply_records(lv, records).accounts[client] == lv.accounts[client],
    decreases records.len(),
{
    if records.len() > 0 {
        lemma_locked_account_stays_frozen(lv, records.drop_last(), client);
        lemma_locked_account_frozen(apply_records(lv, records.drop_last()), records.last(), client);
    }
}

/// Idempotence of duplicate ids: a deposit whose transaction id is already
/// retained changes no balance of any client and retains nothing; its
/// only trace is that the addressed client's account now exists.
pub proof fn lemma_duplicate_deposit_is_noop(lv: LedgerView, r: Transaction, tx: u32)
    requires
        r.col_type == TransactionType::Deposit,
        r.transaction_id == Some(tx),
        lv.entries.contains_key(tx),
    ensures
        apply_record(lv, r).entries == lv.entries,
        forall|c: u16|
            account_or_new(#[trigger] apply_record(lv, r).accounts, c) == account_or_new(
                lv.accounts,
                c,
            ),
{
}

/// The dispute record referencing a transaction id.
pub open spec fn dispute_record(client: u16, tx: u32) -> Transaction {
    Transaction {
        col_type: TransactionType::Dispute,
        client_id: client,
        transaction_id: Some(tx),
        amount: None,
        disputed: false,
    }
}

/// The resolve record referencing a transaction id.
pub open spec fn resolve_record(client: u16, tx: u32) -> Transaction {
    Transaction {
        col_type: TransactionType::Resolve,
        client_id: client,
        transaction_id: Some(tx),
        amount: None,
        disputed: false,
    }
}

/// The chargeback record referencing a transaction id.
pub open spec fn chargeback_record(client: u16, tx: u32) -> Transaction {
    Transaction {
        col_type: TransactionType::Chargeback,
        client_id: client,
        transaction_id: Some(tx),
        amount: None,
        disputed: false,
    }
}

/// Whether a dispute of entry `tx` by its owner `client` would take
/// effect on state `lv`: the owner's account exists unlocked, the entry is
/// retained, not yet disputed, owned by that client, and the moved amount
/// keeps both balances representable.
pub open spec fn dispute_applies(lv: LedgerView, client: u16, tx: u32) -> bool {
    &&& lv.accounts.contains_key(client)
    &&& !lv.accounts[client].locked
    &&& lv.entries.contains_key(tx)
    &&& lv.entries[tx].client_id == client
    &&& !lv.entries[tx].disputed
    &&& fits_i128(lv.accounts[client].held + lv.entries[tx].amount)
    &&& fits_i128(lv.accounts[client].available - lv.entries[tx].amount)
}

/// Dispute round trip: a dispute followed by a resolve of the same
/// transaction id restores the whole ledger state — in particular the
/// owner's available and held balances — exactly to its pre-dispute
/// value.
pub proof fn lemma_dispute_resolve_round_trip(lv: LedgerView, client: u16, tx: u32)
    requires
        dispute_applies(lv, client, tx),
    ensures
        apply_record(apply_record(lv, dispute_record(client, tx)), resolve_record(client, tx))
            == lv,
{
    let mid = apply_record(lv, dispute_record(client, tx));
    let after = apply_record(mid, resolve_record(client, tx));
    assert(after.accounts =~= lv.accounts);
    assert(after.entries =~= lv.entries);
    assert(after =~= lv);
}

/// Dispute then chargeback: the owner's held balance returns to its
/// pre-dispute value while available and total are reduced by the entry's
/// amount, the account is locked, and the entry leaves its disputed
/// state.
pub proof fn lemma_dispute_chargeback(lv: LedgerView, client: u16, tx: u32)
    requires
        dispute_applies(lv, client, tx),
        fits_i128(lv.accounts[client].total - lv.entries[tx].amount),
    ensures
        ({
            let after = apply_record(
                apply_record(lv, dispute_record(client, tx)),
                chargeback_record(client, tx),
            );
            &&& after.accounts.contains_key(client)
            &&& after.accounts[client].available == lv.accounts[client].available
                - lv.entries[tx].amount
            &&& after.accounts[client].held == lv.accounts[client].held
            &&& after.accounts[client].total == lv.accounts[client].total - lv.entries[tx].amount
            &&& after.accounts[client].locked
            &&& after.entries.contains_key(tx)
            &&& !after.entries[tx].disputed
            &&& after.entries[tx].client_id == client
        }),
{
}

/// After a chargeback the entry is inert: any further dispute, resolve or
/// chargeback referencing that transaction id — from the locked owner or
/// from any other client — changes neither the entry index nor the
/// owner's account.
pub proof fn lemma_entry_of_locked_owner_inert(lv: LedgerView, tx: u32, r2: Transaction)
    requires
        lv.entries.contains_key(tx),
        lv.accounts.contains_key(lv.entries[tx].client_id),
        lv.accounts[lv.entries[tx].client_id].locked,
        r2.transaction_id == Some(tx),
        r2.col_type == TransactionType::Dispute || r2.col_type == TransactionType::Resolve
            || r2.col_type == TransactionType::Chargeback,
    ensures
        apply_record(lv, r2).entries == lv.entries,
        apply_record(lv, r2).accounts.contains_key(lv.entries[tx].client_id),
        apply_record(lv, r2).accounts[lv.entries[tx].client_id] == lv.accounts[lv.entries[tx].client_id],
{
}

/// The withdrawal record for a client, transaction id and amount.
pub open spec fn withdrawal_record(client: u16, tx: u32, amt: i128) -> Transaction {
    Transaction {
        col_type: TransactionType::Withdrawal,
        client_id: client,
        transaction_id: Some(tx),
        amount: Some(amt),
        disputed: false,
    }
}

/// Withdrawal boundary, accepting half: a withdrawal of exactly the
/// available balance succeeds, leaving available at zero, total reduced by
/// the amount, and held untouched; the record is retained.
pub proof fn lemma_withdrawal_exact_balance(lv: LedgerView, client: u16, tx: u32, amt: i128)
    requires
        lv.accounts.contains_key(client),
        !lv.accounts[client].locked,
        !lv.entries.contains_key(tx),
        amt == lv.accounts[client].available,
        fits_i128(lv.accounts[client].total - amt),
    ensures
        ({
            let after = apply_record(lv, withdrawal_record(client, tx, amt));
            &&& after.accounts.contains_key(client)
            &&& after.accounts[client].available == 0
            &&& after.accounts[client].held == lv.accounts[client].held
            &&& after.accounts[client].total == lv.accounts[client].total - amt
            &&& after.accounts[client].locked == lv.accounts[client].locked
            &&& after.entries == lv.entries.insert(
                tx,
                retained_entry(withdrawal_record(client, tx, amt)),
            )
        }),
{
}

/// Withdrawal boundary, rejecting half: a withdrawal exceeding the
/// available balance by any positive amount leaves every balance of the
/// account untouched — there is no partial debit — though the record is
/// still retained under its fresh transaction id.
pub proof fn lemma_withdrawal_insufficient_rejected(lv: LedgerView, client: u16, tx: u32, amt: i128)
    requires
        lv.accounts.contains_key(client),
        !lv.entries.contains_key(tx),
        amt > lv.accounts[client].available,
    ensures
        ({
            let after = apply_record(lv, withdrawal_record(client, tx, amt));
            &&& after.accounts.contains_key(client)
            &&& after.accounts[client] == lv.accounts[client]
            &&& after.entries == lv.entries.insert(
                tx,
                retained_entry(withdrawal_record(client, tx, amt)),
            )
        }),
{
}

} // verus!
