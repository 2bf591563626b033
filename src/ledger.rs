//! The rules of the ledger as mathematics: what one transaction does to the
//! accounts (in first-seen order) and to the history of disputable deposits.
use crate::amount::Amount;
use crate::types::{Account, Transaction, TransactionType};
use vstd::prelude::*;

verus! {

/// Where a disputable deposit stands.
#[derive(Clone, Copy, Debug, PartialEq, Eq, Structural)]
pub enum TransactionInfo {
    Regular,
    UnderDispute,
}

/// What the engine remembers of a deposit.
#[derive(Clone, Copy, Debug, PartialEq, Eq, Structural)]
pub struct HistoryRecord {
    pub status: TransactionInfo,
    pub amount: Amount,
}

pub open spec fn fits_i128(x: int) -> bool {
    i128::MIN <= x <= i128::MAX
}

/// Balances the engine can store: each of them and their sum fit in `i128`.
pub open spec fn representable(available: int, held: int) -> bool {
    fits_i128(available) && fits_i128(held) && fits_i128(available + held)
}

/// The account with new balances; the total is their sum.
pub open spec fn with_balances(a: Account, available: int, held: int, locked: bool) -> Account {
    Account {
        client_id: a.client_id,
        available: Amount { units: available as i128 },
        held: Amount { units: held as i128 },
        total: Amount { units: (available + held) as i128 },
        locked,
    }
}

pub open spec fn contains_client(accounts: Seq<Account>, client_id: u16) -> bool {
    exists|i: int| 0 <= i < accounts.len() && accounts[i].client_id == client_id
}

pub open spec fn position_of(accounts: Seq<Account>, client_id: u16) -> int {
    choose|i: int| 0 <= i < accounts.len() && accounts[i].client_id == client_id
}

/// The client's account, or a fresh one where the client is new.
pub open spec fn account_for(accounts: Seq<Account>, client_id: u16) -> Account {
    if contains_client(accounts, client_id) {
        accounts[position_of(accounts, client_id)]
    } else {
        Account::fresh(client_id)
    }
}

/// Puts an account in its client's place, or after all others for a new client.
pub open spec fn store_account(accounts: Seq<Account>, a: Account) -> Seq<Account> {
    if contains_client(accounts, a.client_id) {
        accounts.update(position_of(accounts, a.client_id), a)
    } else {
        accounts.push(a)
    }
}

pub open spec fn unique_clients(accounts: Seq<Account>) -> bool {
    forall|i: int, j: int|
        0 <= i < accounts.len() && 0 <= j < accounts.len() && accounts[i].client_id
            == accounts[j].client_id ==> i == j
}

pub open spec fn all_balanced(accounts: Seq<Account>) -> bool {
    forall|i: int| 0 <= i < accounts.len() ==> #[trigger] accounts[i].is_balanced()
}

/// The history holds a record for `tx_id` in the given status.
pub open spec fn has_status(
    history: Map<u32, HistoryRecord>,
    tx_id: u32,
    status: TransactionInfo,
) -> bool {
    history.contains_key(tx_id) && history[tx_id].status == status
}

/// One transaction applied to its client's account and to the history.
/// Every failed precondition leaves both as they were; so does a result
/// that the balances could not hold.
pub open spec fn apply_spec(
    a: Account,
    history: Map<u32, HistoryRecord>,
    tx_id: u32,
    kind: TransactionType,
) -> (Account, Map<u32, HistoryRecord>) {
    let av = a.available.value();
    let h = a.held.value();
    match kind {
        TransactionType::Deposit(amt) => {
            if representable(av + amt.value(), h) {
                (
                    with_balances(a, av + amt.value(), h, a.locked),
                    history.insert(
                        tx_id,
                        HistoryRecord { status: TransactionInfo::Regular, amount: amt },
                    ),
                )
            } else {
                (a, history)
            }
        },
        TransactionType::Withdrawal(amt) => {
            if av >= amt.value() && representable(av - amt.value(), h) {
                (with_balances(a, av - amt.value(), h, a.locked), history)
            } else {
                (a, history)
            }
        },
        TransactionType::Dispute => {
            let m = history[tx_id].amount.value();
            if has_status(history, tx_id, TransactionInfo::Regular) && av >= m && representable(
                av - m,
                h + m,
            ) {
                (
                    with_balances(a, av - m, h + m, a.locked),
                    history.insert(
                        tx_id,
                        HistoryRecord {
                            status: TransactionInfo::UnderDispute,
                            amount: history[tx_id].amount,
                        },
                    ),
                )
            } else {
                (a, history)
            }
        },
        TransactionType::Resolve => {
            let m = history[tx_id].amount.value();
            if has_status(history, tx_id, TransactionInfo::UnderDispute) && representable(
                av + m,
                h - m,
            ) {
                (with_balances(a, av + m, h - m, a.locked), history.remove(tx_id))
            } else {
                (a, history)
            }
        },
        TransactionType::Chargeback => {
            let m = history[tx_id].amount.value();
            if has_status(history, tx_id, TransactionInfo::UnderDispute) && representable(
                av,
                h - m,
            ) {
                (with_balances(a, av, h - m, true), history.remove(tx_id))
            } else {
                (a, history)
            }
        },
    }
}

/// The ledger after one transaction: the client's account is created where
/// it is new, then updated by the rules of `apply_spec`.
pub open spec fn step(
    accounts: Seq<Account>,
    history: Map<u32, HistoryRecord>,
    tx: Transaction,
) -> (Seq<Account>, Map<u32, HistoryRecord>) {
    let r = apply_spec(account_for(accounts, tx.client_id), history, tx.tx_id, tx.tx_type);
    (store_account(accounts, r.0), r.1)
}

} // verus!
