//! The ledger engine: a mathematical model of how each record kind acts on
//! the running state, and a verified executable `Ledger` that implements
//! that model exactly.

use vstd::prelude::*;
use std::collections::HashMap;
use crate::structs::AccountData;
use crate::structs::LedgerEntry;
use crate::structs::Transaction;
use crate::structs::TransactionType;
use crate::structs::new_account;

verus! {

broadcast use vstd::std_specs::hash::group_hash_axioms;

/// Whether an exact integer value is representable as an `i128`. Every
/// balance effect is applied only when all of its updated balances are
/// representable; otherwise the record is dropped like any other
/// inapplicable record.
pub open spec fn fits_i128(x: int) -> bool {
    i128::MIN <= x <= i128::MAX
}

/// The full state of the engine: one account per client seen so far, and
/// the retained dispute-eligible transactions keyed by transaction id.
#[verifier::ext_equal]
pub struct LedgerView {
    /// One account per client id, created on first mention.
    pub accounts: Map<u16, AccountData>,
    /// Retained deposits/withdrawals, keyed by transaction id,
    /// first-insert-wins.
    pub entries: Map<u32, LedgerEntry>,
}

/// The state before any record: no accounts, no retained transactions.
pub open spec fn empty_ledger() -> LedgerView {
    LedgerView { accounts: Map::empty(), entries: Map::empty() }
}

/// The account a record addresses: the stored one, or a fresh account on
/// first mention of the client id.
pub open spec fn account_or_new(accounts: Map<u16, AccountData>, client: u16) -> AccountData {
    if accounts.contains_key(client) {
        accounts[client]
    } else {
        new_account()
    }
}

/// The effect of a deposit on its account: credit `amount` to available
/// and total. It applies only when a transaction id is present and not
/// already retained, an amount is present, and both updated balances are
/// representable; otherwise the account is unchanged.
pub open spec fn apply_deposit(
    acct: AccountData,
    entries: Map<u32, LedgerEntry>,
    r: Transaction,
) -> AccountData {
    match (r.transaction_id, r.amount) {
        (Some(tx), Some(amt)) => {
            if !entries.contains_key(tx) && fits_i128(acct.available + amt)
                && fits_i128(acct.total + amt) {
                AccountData {
                    available: (acct.available + amt) as i128,
                    total: (acct.total + amt) as i128,
                    ..acct
                }
            } else {
                acct
            }
        },
        _ => acct,
    }
}

/// The effect of a withdrawal on its account: debit `amount` from
/// available and total. Beyond the deposit guards it also requires the
/// remaining available balance to be non-negative; insufficient funds
/// leave the account fully unchanged.
pub open spec fn apply_withdrawal(
    acct: AccountData,
    entries: Map<u32, LedgerEntry>,
    r: Transaction,
) -> AccountData {
    match (r.transaction_id, r.amount) {
        (Some(tx), Some(amt)) => {
            if !entries.contains_key(tx) && fits_i128(acct.available - amt)
                && fits_i128(acct.total - amt) && acct.available - amt >= 0 {
                AccountData {
                    available: (acct.available - amt) as i128,
                    total: (acct.total - amt) as i128,
                    ..acct
                }
            } else {
                acct
            }
        },
        _ => acct,
    }
}

/// The effect of a dispute: move the referenced entry's amount from
/// available to held and mark the entry disputed. It applies only when the
/// referenced entry exists, is not already disputed, and is owned by the
/// record's client; any guard failure leaves both state components
/// unchanged.
pub open spec fn apply_dispute(
    acct: AccountData,
    entries: Map<u32, LedgerEntry>,
    r: Transaction,
) -> (AccountData, Map<u32, LedgerEntry>) {
    match r.transaction_id {
        Some(tx) => {
            if entries.contains_key(tx) {
                let e = entries[tx];
                if !e.disputed && r.client_id == e.client_id
                    && fits_i128(acct.held + e.amount)
                    && fits_i128(acct.available - e.amount) {
                    (
                        AccountData {
                            available: (acct.available - e.amount) as i128,
                            held: (acct.held + e.amount) as i128,
                            ..acct
                        },
                        entries.insert(tx, LedgerEntry { disputed: true, ..e }),
                    )
                } else {
                    (acct, entries)
                }
            } else {
                (acct, entries)
            }
        },
        None => (acct, entries),
    }
}

/// The effect of a resolve: reverse an open dispute, moving the entry's
/// amount from held back to available and clearing the disputed mark. It
/// applies only when the referenced entry exists, is currently disputed,
/// and is owned by the record's client.
pub open spec fn apply_resolve(
    acct: AccountData,
    entries: Map<u32, LedgerEntry>,
    r: Transaction,
) -> (AccountData, Map<u32, LedgerEntry>) {
    match r.transaction_id {
        Some(tx) => {
            if entries.contains_key(tx) {
                let e = entries[tx];
                if e.disputed && r.client_id == e.client_id
                    && fits_i128(acct.held - e.amount)
                    && fits_i128(acct.available + e.amount) {
                    (
                        AccountData {
                            available: (acct.available + e.amount) as i128,
                            held: (acct.held - e.amount) as i128,
                            ..acct
                        },
                        entries.insert(tx, LedgerEntry { disputed: false, ..e }),
                    )
                } else {
                    (acct, entries)
                }
            } else {
                (acct, entries)
            }
        },
        None => (acct, entries),
    }
}

/// The effect of a chargeback: debit the disputed entry's amount from held
/// and total, clear the disputed mark, and lock the account permanently.
/// Its guards are those of a resolve.
pub open spec fn apply_chargeback(
    acct: AccountData,
    entries: Map<u32, LedgerEntry>,
    r: Transaction,
) -> (AccountData, Map<u32, LedgerEntry>) {
    match r.transaction_id {
        Some(tx) => {
            if entries.contains_key(tx) {
                let e = entries[tx];
                if e.disputed && r.client_id == e.client_id
                    && fits_i128(acct.held - e.amount)
                    && fits_i128(acct.total - e.amount) {
                    (
                        AccountData {
                            held: (acct.held - e.amount) as i128,
                            total: (acct.total - e.amount) as i128,
                            locked: true,
                            ..acct
                        },
                        entries.insert(tx, LedgerEntry { disputed: false, ..e }),
                    )
                } else {
                    (acct, entries)
                }
            } else {
                (acct, entries)
            }
        },
        None => (acct, entries),
    }
}

/// The balance effect of one record of any kind on its (unlocked) account
/// and on the entry index.
pub open spec fn apply_effect(
    acct: AccountData,
    entries: Map<u32, LedgerEntry>,
    r: Transaction,
) -> (AccountData, Map<u32, LedgerEntry>) {
    match r.col_type {
        TransactionType::Deposit => (apply_deposit(acct, entries, r), entries),
        TransactionType::Withdrawal => (apply_withdrawal(acct, entries, r), entries),
        TransactionType::Dispute => apply_dispute(acct, entries, r),
        TransactionType::Resolve => apply_resolve(acct, entries, r),
        TransactionType::Chargeback => apply_chargeback(acct, entries, r),
    }
}

/// The entry amount a retained record contributes: its amount, or zero
/// when the amount was absent (a tolerated, self-contradictory input).
pub open spec fn amount_or_zero(r: Transaction) -> i128 {
    match r.amount {
        Some(a) => a,
        None => 0,
    }
}

/// The snapshot retained for an eligible deposit or withdrawal.
pub open spec fn retained_entry(r: Transaction) -> LedgerEntry {
    LedgerEntry { client_id: r.client_id, amount: amount_or_zero(r), disputed: false }
}

/// Retention: a deposit or withdrawal that carries a transaction id not
/// already retained is snapshotted into the entry index, regardless of
/// whether its balance effect applied. Other kinds are never retained.
pub open spec fn apply_retention(
    entries: Map<u32, LedgerEntry>,
    r: Transaction,
) -> Map<u32, LedgerEntry> {
    match r.transaction_id {
        Some(tx) => {
            if (r.col_type == TransactionType::Deposit
                || r.col_type == TransactionType::Withdrawal) && !entries.contains_key(tx) {
                entries.insert(tx, retained_entry(r))
            } else {
                entries
            }
        },
        None => entries,
    }
}

/// How one record transforms the whole ledger state: resolve or create the
/// client's account, apply the balance effect unless the account is
/// locked, then perform retention (which happens even for locked
/// accounts).
pub open spec fn apply_record(lv: LedgerView, r: Transaction) -> LedgerView {
    let acct0 = account_or_new(lv.accounts, r.client_id);
    let (acct1, entries1) = if acct0.locked {
        (acct0, lv.entries)
    } else {
        apply_effect(acct0, lv.entries, r)
    };
    LedgerView {
        accounts: lv.accounts.insert(r.client_id, acct1),
        entries: apply_retention(entries1, r),
    }
}

/// Folding a whole record sequence over a starting state, in input order.
pub open spec fn apply_records(lv: LedgerView, records: Seq<Transaction>) -> LedgerView
    decreases records.len(),
{
    if records.len() == 0 {
        lv
    } else {
        apply_record(apply_records(lv, records.drop_last()), records.last())
    }
}

/// The state produced by a whole run over a record sequence, starting from
/// the empty ledger.
pub open spec fn process_records(records: Seq<Transaction>) -> LedgerView {
    apply_records(empty_ledger(), records)
}

/// The executable engine state: two associative stores, mirrored exactly
/// by `LedgerView`.
pub struct Ledger {
    accounts: HashMap<u16, AccountData>,
    entries: HashMap<u32, LedgerEntry>,
}

impl View for Ledger {
    type V = LedgerView;

    closed spec fn view(&self) -> LedgerView {
        LedgerView { accounts: self.accounts@, entries: self.entries@ }
    }
}

/// The balance effect of a deposit record, against the exec entry index.
fn effect_deposit(acct: AccountData, entries: &HashMap<u32, LedgerEntry>, r: Transaction) -> (res:
    AccountData)
    ensures
        res == apply_deposit(acct, entries@, r),
{
    match (r.transaction_id, r.amount) {
        (Some(tx), Some(amt)) => {
            if !entries.contains_key(&tx) {
                match (acct.available.checked_add(amt), acct.total.checked_add(amt)) {
                    (Some(av), Some(tot)) => AccountData { available: av, total: tot, ..acct },
                    _ => acct,
                }
            } else {
                acct
            }
        },
        _ => acct,
    }
}

/// The balance effect of a withdrawal record, against the exec entry
/// index.
fn effect_withdrawal(
    acct: AccountData,
    entries: &HashMap<u32, LedgerEntry>,
    r: Transaction,
) -> (res: AccountData)
    ensures
        res == apply_withdrawal(acct, entries@, r),
{
    match (r.transaction_id, r.amount) {
        (Some(tx), Some(amt)) => {
            if !entries.contains_key(&tx) {
                match (acct.available.checked_sub(amt), acct.total.checked_sub(amt)) {
                    (Some(av), Some(tot)) => {
                        if av >= 0 {
                            AccountData { available: av, total: tot, ..acct }
                        } else {
                            acct
                        }
                    },
                    _ => acct,
                }
            } else {
                acct
            }
        },
        _ => acct,
    }
}

/// Looks up the referenced entry by value, if any.
fn lookup_entry(entries: &HashMap<u32, LedgerEntry>, tx: u32) -> (res: Option<LedgerEntry>)
    ensures
        entries@.contains_key(tx) ==> res == Some(entries@[tx]),
        !entries@.contains_key(tx) ==> res is None,
{
    match entries.get(&tx) {
        Some(e) => Some(*e),
        None => None,
    }
}

/// The effect of a dispute record on the account and the entry index.
fn effect_dispute(acct: AccountData, entries: &mut HashMap<u32, LedgerEntry>, r: Transaction) -> (
    res: AccountData)
    ensures
        (res, final(entries)@) == apply_dispute(acct, old(entries)@, r),
{
    match r.transaction_id {
        Some(tx) => {
            match lookup_entry(entries, tx) {
                Some(e) => {
                    if !e.disputed && r.client_id == e.client_id {
                        match (acct.held.checked_add(e.amount), acct.available.checked_sub(
                            e.amount,
                        )) {
                            (Some(h), Some(av)) => {
                                entries.insert(tx, LedgerEntry { disputed: true, ..e });
                                AccountData { available: av, held: h, ..acct }
                            },
                            _ => acct,
                        }
                    } else {
                        acct
                    }
                },
                None => acct,
            }
        },
        None => acct,
    }
}

/// The effect of a resolve record on the account and the entry index.
fn effect_resolve(acct: AccountData, entries: &mut HashMap<u32, LedgerEntry>, r: Transaction) -> (
    res: AccountData)
    ensures
        (res, final(entries)@) == apply_resolve(acct, old(entries)@, r),
{
    match r.transaction_id {
        Some(tx) => {
            match lookup_entry(entries, tx) {
                Some(e) => {
                    if e.disputed && r.client_id == e.client_id {
                        match (acct.held.checked_sub(e.amount), acct.available.checked_add(
                            e.amount,
                        )) {
                            (Some(h), Some(av)) => {
                                entries.insert(tx, LedgerEntry { disputed: false, ..e });
                                AccountData { available: av, held: h, ..acct }
                            },
                            _ => acct,
                        }
                    } else {
                        acct
                    }
                },
                None => acct,
            }
        },
        None => acct,
    }
}

/// The effect of a chargeback record on the account and the entry index.
fn effect_chargeback(
    acct: AccountData,
    entries: &mut HashMap<u32, LedgerEntry>,
    r: Transaction,
) -> (res: AccountData)
    ensures
        (res, final(entries)@) == apply_chargeback(acct, old(entries)@, r),
{
    match r.transaction_id {
        Some(tx) => {
            match lookup_entry(entries, tx) {
                Some(e) => {
                    if e.disputed && r.client_id == e.client_id {
                        match (acct.held.checked_sub(e.amount), acct.total.checked_sub(e.amount)) {
                            (Some(h), Some(tot)) => {
                                entries.insert(tx, LedgerEntry { disputed: false, ..e });
                                AccountData { held: h, total: tot, locked: true, ..acct }
                            },
                            _ => acct,
                        }
                    } else {
                        acct
                    }
                },
                None => acct,
            }
        },
        None => acct,
    }
}

/// Retention of an eligible deposit or withdrawal into the entry index.
fn retain(entries: &mut HashMap<u32, LedgerEntry>, r: Transaction)
    ensures
        final(entries)@ == apply_retention(old(entries)@, r),
{
    match r.transaction_id {
        Some(tx) => {
            match r.col_type {
                TransactionType::Deposit | TransactionType::Withdrawal => {
                    if !entries.contains_key(&tx) {
                        let amt: i128 = match r.amount {
                            Some(a) => a,
                            None => 0,
                        };
                        entries.insert(
                            tx,
                            LedgerEntry { client_id: r.client_id, amount: amt, disputed: false },
                        );
                    }
                },
                _ => {},
            }
        },
        None => {},
    }
}

impl Ledger {
    /// A ledger that has seen no records yet.
    pub fn new() -> (l: Ledger)
        ensures
            l@ == empty_ledger(),
    {
        Ledger { accounts: HashMap::new(), entries: HashMap::new() }
    }

    /// Applies one record to the running state, exactly as the model
    /// `apply_record` describes: the client's account is created on first
    /// mention; a locked account takes no balance effect; retention of
    /// eligible deposits/withdrawals happens regardless.
    pub fn apply(&mut self, r: Transaction)
        ensures
            final(self)@ == apply_record(old(self)@, r),
    {
        let client = r.client_id;
        let acct0: AccountData = match self.accounts.get(&client) {
            Some(a) => *a,
            None => AccountData::default(),
        };
        let acct1: AccountData;
        if acct0.locked {
            acct1 = acct0;
        } else {
            match r.col_type {
                TransactionType::Deposit => {
                    acct1 = effect_deposit(acct0, &self.entries, r);
                },
                TransactionType::Withdrawal => {
                    acct1 = effect_withdrawal(acct0, &self.entries, r);
                },
                TransactionType::Dispute => {
                    acct1 = effect_dispute(acct0, &mut self.entries, r);
                },
                TransactionType::Resolve => {
                    acct1 = effect_resolve(acct0, &mut self.entries, r);
                },
                TransactionType::Chargeback => {
                    acct1 = effect_chargeback(acct0, &mut self.entries, r);
                },
            }
        }
        self.accounts.insert(client, acct1);
        retain(&mut self.entries, r);
    }

    /// The stored account of a client, if that client has been mentioned.
    pub fn account(&self, client: u16) -> (r: Option<AccountData>)
        ensures
            self@.accounts.contains_key(client) ==> r == Some(self@.accounts[client]),
            !self@.accounts.contains_key(client) ==> r is None,
    {
        match self.accounts.get(&client) {
            Some(a) => Some(*a),
            None => None,
        }
    }

    /// The retained entry under a transaction id, if any.
    pub fn entry(&self, tx: u32) -> (r: Option<LedgerEntry>)
        ensures
            self@.entries.contains_key(tx) ==> r == Some(self@.entries[tx]),
            !self@.entries.contains_key(tx) ==> r is None,
    {
        lookup_entry(&self.entries, tx)
    }

    /// The full account mapping, for reporting.
    pub fn accounts(&self) -> (m: &HashMap<u16, AccountData>)
        ensures
            m@ == self@.accounts,
    {
        &self.accounts
    }
}

/// Runs the whole engine over a record sequence in input order, starting
/// from the empty ledger; the result is exactly the model's fold.
pub fn process(records: &Vec<Transaction>) -> (l: Ledger)
    ensures
        l@ == process_records(records@),
{
    let mut l = Ledger::new();
    let n = records.len();
    let mut i: usize = 0;
    while i < n
        invariant
            n == records@.len(),
            i <= n,
            l@ == apply_records(empty_ledger(), records@.take(i as int)),
        decreases n - i,
    {
        l.apply(records[i]);
        proof {
            assert(records@.take(i + 1 as int).drop_last() =~= records@.take(i as int));
            assert(records@.take(i + 1 as int).last() == records@[i as int]);
        }
        i = i + 1;
    }
    proof {
        assert(records@.take(n as int) =~= records@);
    }
    l
}

} // verus!
