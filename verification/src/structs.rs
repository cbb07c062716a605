//! The data model: transaction records, client accounts, and retained
//! ledger entries.

use vstd::prelude::*;

verus! {

/// The kind of an input record; it dictates how the remaining fields are
/// interpreted by the ledger engine.
#[derive(Clone, Copy, Debug, PartialEq, Eq, Structural)]
pub enum TransactionType {
    Deposit,
    Withdrawal,
    Dispute,
    Resolve,
    Chargeback,
}

/// One decoded input row.
///
/// `amount` is an exact fixed-point decimal with four fractional digits,
/// stored as a signed count of 1/10000 units; it is present only for
/// deposits and withdrawals. `transaction_id` is present for all kinds in
/// practice, but absence is tolerated (such a record has no effect beyond
/// creating the client's account).
#[derive(Clone, Copy, Debug, PartialEq, Eq)]
pub struct Transaction {
    /// What kind of record this is.
    pub col_type: TransactionType,
    /// The client whose account the record addresses.
    pub client_id: u16,
    /// The transaction this record introduces (deposit/withdrawal) or
    /// references (dispute/resolve/chargeback).
    pub transaction_id: Option<u32>,
    /// Fixed-point amount in 1/10000 units; meaningful only for
    /// deposits and withdrawals.
    pub amount: Option<i128>,
    /// Dispute flag carried on the row shape; always false on decoded
    /// input.
    pub disputed: bool,
}

/// Balances and lock state of one client account. All three balances are
/// fixed-point decimals in 1/10000 units.
#[derive(Clone, Copy, Debug, PartialEq, Eq, Structural)]
pub struct AccountData {
    /// Funds freely usable by the client.
    pub available: i128,
    /// Funds held back while a dispute is open.
    pub held: i128,
    /// Sum of available and held funds.
    pub total: i128,
    /// Set permanently by a chargeback; blocks all further balance
    /// effects for this client.
    pub locked: bool,
}

/// The account every client starts from: zero balances, not locked.
pub open spec fn new_account() -> AccountData {
    AccountData { available: 0, held: 0, total: 0, locked: false }
}

impl Default for AccountData {
    /// A fresh account: zero balances, not locked.
    fn default() -> (a: AccountData)
        ensures
            a == new_account(),
    {
        AccountData { available: 0, held: 0, total: 0, locked: false }
    }
}

/// A retained snapshot of an accepted deposit or withdrawal, keyed by its
/// transaction id; the only records eligible for a later dispute.
#[derive(Clone, Copy, Debug, PartialEq, Eq, Structural)]
pub struct LedgerEntry {
    /// The client that owns the retained transaction.
    pub client_id: u16,
    /// Fixed-point amount in 1/10000 units; zero if the retained record
    /// carried no amount.
    pub amount: i128,
    /// Whether the entry is currently under dispute.
    pub disputed: bool,
}

} // verus!
