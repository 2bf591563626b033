use crate::amount::Amount;
use crate::ledger::{
    account_for, all_balanced, apply_spec, contains_client, position_of, representable,
    step, store_account, unique_clients, with_balances, HistoryRecord, TransactionInfo,
};
use crate::types::{Account, Transaction, TransactionType};
use std::collections::HashMap;
use vstd::prelude::*;

verus! {

/// The ledger: every client's account, in the order the clients were first
/// seen, and the record of each deposit that can still be disputed.
pub struct Engine {
    accounts: Vec<Account>,
    positions: HashMap<u16, usize>,
    history: HashMap<u32, HistoryRecord>,
}

/// The account with the given balances, where they and their sum fit.
fn rebalanced(a: Account, available: i128, held: i128, locked: bool) -> (r: Option<Account>)
    ensures
        r == if representable(available as int, held as int) {
            Some(with_balances(a, available as int, held as int, locked))
        } else {
            None::<Account>
        },
{
    match available.checked_add(held) {
        Some(total) => Some(
            Account {
                client_id: a.client_id,
                available: Amount { units: available },
                held: Amount { units: held },
                total: Amount { units: total },
                locked,
            },
        ),
        None => None,
    }
}

/// Applies one transaction to its client's account and to the history.
fn apply_to(
    a: Account,
    history: &mut HashMap<u32, HistoryRecord>,
    tx_id: u32,
    kind: TransactionType,
) -> (r: Account)
    ensures
        (r, final(history)@) == apply_spec(a, old(history)@, tx_id, kind),
{
    let av = a.available.units;
    let h = a.held.units;
    match kind {
        TransactionType::Deposit(amt) => {
            if let Some(nav) = av.checked_add(amt.units) {
                if let Some(r) = rebalanced(a, nav, h, a.locked) {
                    history.insert(
                        tx_id,
                        HistoryRecord { status: TransactionInfo::Regular, amount: amt },
                    );
                    return r;
                }
            }
            a
        },
        TransactionType::Withdrawal(amt) => {
            if av >= amt.units {
                if let Some(nav) = av.checked_sub(amt.units) {
                    if let Some(r) = rebalanced(a, nav, h, a.locked) {
                        return r;
                    }
                }
            }
            a
        },
        TransactionType::Dispute => {
            if let Some(rec) = history.get(&tx_id) {
                let rec = *rec;
                if rec.status == TransactionInfo::Regular && av >= rec.amount.units {
                    if let (Some(nav), Some(nh)) = (
                        av.checked_sub(rec.amount.units),
                        h.checked_add(rec.amount.units),
                    ) {
                        if let Some(r) = rebalanced(a, nav, nh, a.locked) {
                            history.insert(
                                tx_id,
                                HistoryRecord {
                                    status: TransactionInfo::UnderDispute,
                                    amount: rec.amount,
                                },
                            );
                            return r;
                        }
                    }
                }
            }
            a
        },
        TransactionType::Resolve => {
            if let Some(rec) = history.get(&tx_id) {
                let rec = *rec;
                if rec.status == TransactionInfo::UnderDispute {
                    if let (Some(nav), Some(nh)) = (
                        av.checked_add(rec.amount.units),
                        h.checked_sub(rec.amount.units),
                    ) {
                        if let Some(r) = rebalanced(a, nav, nh, a.locked) {
                            history.remove(&tx_id);
                            return r;
                        }
                    }
                }
            }
            a
        },
        TransactionType::Chargeback => {
            if let Some(rec) = history.get(&tx_id) {
                let rec = *rec;
                if rec.status == TransactionInfo::UnderDispute {
                    if let Some(nh) = h.checked_sub(rec.amount.units) {
                        if let Some(r) = rebalanced(a, av, nh, true) {
                            history.remove(&tx_id);
                            return r;
                        }
                    }
                }
            }
            a
        },
    }
}

impl Engine {
    /// The accounts, in the order their clients were first seen.
    pub closed spec fn accounts_view(&self) -> Seq<Account> {
        self.accounts@
    }

    /// The deposits that can still be disputed, by transaction id.
    pub closed spec fn history_view(&self) -> Map<u32, HistoryRecord> {
        self.history@
    }

    /// Clients are unique, every total is the sum of its balances, and
    /// `positions` gives the index of each client's account.
    pub closed spec fn wf(&self) -> bool {
        &&& unique_clients(self.accounts@)
        &&& all_balanced(self.accounts@)
        &&& forall|c: u16| #[trigger]
            self.positions@.contains_key(c) <==> contains_client(self.accounts@, c)
        &&& forall|c: u16| #[trigger]
            self.positions@.contains_key(c) ==> {
                &&& self.positions@[c] < self.accounts@.len()
                &&& self.accounts@[self.positions@[c] as int].client_id == c
            }
    }

    pub fn new() -> (r: Engine)
        ensures
            r.wf(),
            r.accounts_view() == Seq::<Account>::empty(),
            r.history_view() == Map::<u32, HistoryRecord>::empty(),
    {
        Engine { accounts: Vec::new(), positions: HashMap::new(), history: HashMap::new() }
    }

    /// Applies one transaction. Inapplicable ones change no balance and no
    /// record, though they still open an account for a new client.
    pub fn add_transaction(&mut self, tx: Transaction)
        requires
            old(self).wf(),
        ensures
            final(self).wf(),
            (final(self).accounts_view(), final(self).history_view()) == step(
                old(self).accounts_view(),
                old(self).history_view(),
                tx,
            ),
            unique_clients(final(self).accounts_view()),
            all_balanced(final(self).accounts_view()),
    {
        let ghost accounts0 = self.accounts@;
        let c = tx.client_id;
        // A client seen for the first time gets a fresh account at the end.
        let pos: usize = match self.positions.get(&c) {
            Some(p) => *p,
            None => {
                let p = self.accounts.len();
                self.accounts.push(Account::new(c));
                self.positions.insert(c, p);
                p
            },
        };
        let ghost mid = self.accounts@;
        assert(self.wf()) by {
            if !contains_client(accounts0, c) {
                assert forall|x: u16| #[trigger]
                    self.positions@.contains_key(x) <==> contains_client(mid, x) by {
                    if contains_client(accounts0, x) {
                        let i = choose|i: int|
                            0 <= i < accounts0.len() && accounts0[i].client_id == x;
                        assert(mid[i].client_id == x);
                    }
                    if x == c {
                        assert(mid[pos as int].client_id == c);
                    }
                    if contains_client(mid, x) && x != c {
                        let i = choose|i: int| 0 <= i < mid.len() && mid[i].client_id == x;
                        assert(accounts0[i].client_id == x);
                    }
                }
            }
        }
        let current = self.accounts[pos];
        assert(current == account_for(accounts0, c)) by {
            if contains_client(accounts0, c) {
                assert(pos < accounts0.len() && accounts0[pos as int].client_id == c);
                assert(position_of(accounts0, c) == pos);
            }
        }
        let updated = apply_to(current, &mut self.history, tx.tx_id, tx.tx_type);
        self.accounts.set(pos, updated);
        assert(self.accounts@ =~= store_account(accounts0, updated));
        assert(updated.client_id == c && updated.is_balanced());
        assert forall|i: int| 0 <= i < mid.len() implies #[trigger] self.accounts@[i].client_id
            == mid[i].client_id by {}
        assert forall|x: u16| #[trigger]
            self.positions@.contains_key(x) <==> contains_client(self.accounts@, x) by {
            if contains_client(mid, x) {
                let i = choose|i: int| 0 <= i < mid.len() && mid[i].client_id == x;
                assert(self.accounts@[i].client_id == x);
            }
            if contains_client(self.accounts@, x) {
                let i = choose|i: int|
                    0 <= i < self.accounts@.len() && self.accounts@[i].client_id == x;
                assert(mid[i].client_id == x);
            }
        }
    }

    /// The account of a client, where the client has been seen.
    pub fn account(&self, client_id: u16) -> (r: Option<Account>)
        requires
            self.wf(),
        ensures
            r == if contains_client(self.accounts_view(), client_id) {
                Some(account_for(self.accounts_view(), client_id))
            } else {
                None::<Account>
            },
    {
        match self.positions.get(&client_id) {
            Some(p) => {
                let a = self.accounts[*p];
                assert(position_of(self.accounts@, client_id) == *p);
                Some(a)
            },
            None => None,
        }
    }

    /// Every account, in the order its client was first seen.
    pub fn get_accounts(self) -> (r: Vec<Account>)
        requires
            self.wf(),
        ensures
            r@ == self.accounts_view(),
    {
        self.accounts
    }
}

} // verus!
