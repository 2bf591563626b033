use crate::amount::Amount;
use vstd::prelude::*;

verus! {

/// What a transaction does; deposits and withdrawals carry their amount,
/// the dispute steps refer to an earlier deposit through the transaction id.
#[derive(Clone, Copy, Debug, PartialEq, Eq, Structural)]
pub enum TransactionType {
    Deposit(Amount),
    Withdrawal(Amount),
    Dispute,
    Resolve,
    Chargeback,
}

/// One input event for the engine.
#[derive(Clone, Copy, Debug, PartialEq, Eq, Structural)]
pub struct Transaction {
    pub client_id: u16,
    pub tx_id: u32,
    pub tx_type: TransactionType,
}

/// The balances of one client.
#[derive(Clone, Copy, Debug, PartialEq, Eq, Structural)]
pub struct Account {
    pub client_id: u16,
    pub available: Amount,
    pub held: Amount,
    pub total: Amount,
    pub locked: bool,
}

impl Account {
    /// An account that has seen no funds.
    pub open spec fn fresh(client_id: u16) -> Account {
        Account {
            client_id,
            available: Amount { units: 0 },
            held: Amount { units: 0 },
            total: Amount { units: 0 },
            locked: false,
        }
    }

    /// The total is the sum of what is available and what is held.
    pub open spec fn is_balanced(self) -> bool {
        self.total.value() == self.available.value() + self.held.value()
    }

    pub fn new(client_id: u16) -> (r: Account)
        ensures
            r == Account::fresh(client_id),
    {
        Account {
            client_id,
            available: Amount::zero(),
            held: Amount::zero(),
            total: Amount::zero(),
            locked: false,
        }
    }
}

} // verus!
