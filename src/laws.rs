//! Properties of the ledger rules that hold for every state.
use crate::amount::Amount;
use crate::ledger::{
    account_for, all_balanced, apply_spec, contains_client, has_status, position_of, representable, step,
    store_account, unique_clients, HistoryRecord, TransactionInfo,
};
use crate::types::{Account, Transaction, TransactionType};
use vstd::prelude::*;

verus! {

/// After an account is stored, looking up its client finds it, and clients
/// stay unique.
pub proof fn lemma_store_then_find(accounts: Seq<Account>, a: Account)
    requires
        unique_clients(accounts),
    ensures
        account_for(store_account(accounts, a), a.client_id) == a,
        unique_clients(store_account(accounts, a)),
        forall|c: u16|
            c != a.client_id ==> account_for(store_account(accounts, a), c) == account_for(
                accounts,
                c,
            ),
{
    let s = store_account(accounts, a);
    let c = a.client_id;
    if contains_client(accounts, c) {
        let p = position_of(accounts, c);
        assert(s[p].client_id == c);
        assert(contains_client(s, c));
        assert(position_of(s, c) == p);
    } else {
        let p = accounts.len() as int;
        assert(s[p].client_id == c);
        assert(contains_client(s, c));
        assert(position_of(s, c) == p);
    }
    assert forall|x: u16| x != c implies account_for(s, x) == account_for(accounts, x) by {
        if contains_client(accounts, x) {
            let i = position_of(accounts, x);
            assert(s[i].client_id == x);
            assert(contains_client(s, x));
            assert(position_of(s, x) == i);
        }
        if contains_client(s, x) {
            let i = position_of(s, x);
            assert(accounts[i].client_id == x);
        }
    }
}

/// The account that a state gives a client belongs to that client.
proof fn lemma_found_account_owner(accounts: Seq<Account>, c: u16)
    ensures
        account_for(accounts, c).client_id == c,
{
}

/// The account that a state gives a client is one of its accounts, or fresh.
proof fn lemma_found_account_balanced(accounts: Seq<Account>, c: u16)
    requires
        all_balanced(accounts),
    ensures
        account_for(accounts, c).is_balanced(),
        account_for(accounts, c).client_id == c,
{
    if contains_client(accounts, c) {
        let p = position_of(accounts, c);
        assert(accounts[p].is_balanced());
    }
}

/// Every account's total is the sum of its available and held funds, after
/// any transaction, where it was so before.
pub proof fn lemma_step_keeps_totals(
    accounts: Seq<Account>,
    history: Map<u32, HistoryRecord>,
    tx: Transaction,
)
    requires
        unique_clients(accounts),
        all_balanced(accounts),
    ensures
        unique_clients(step(accounts, history, tx).0),
        all_balanced(step(accounts, history, tx).0),
{
    lemma_found_account_balanced(accounts, tx.client_id);
    let a = step(accounts, history, tx).0;
    let u = account_for(a, tx.client_id);
    lemma_store_then_find(accounts, u);
    assert forall|i: int| 0 <= i < a.len() implies #[trigger] a[i].is_balanced() by {
        if contains_client(accounts, tx.client_id) {
            if i != position_of(accounts, tx.client_id) {
                assert(a[i] == accounts[i]);
            }
        } else if i < accounts.len() {
            assert(a[i] == accounts[i]);
        }
    }
}

/// What a transaction that changes nothing leaves: the accounts as they were,
/// with a fresh account for a client seen for the first time.
pub open spec fn untouched(
    accounts: Seq<Account>,
    history: Map<u32, HistoryRecord>,
    client_id: u16,
) -> (Seq<Account>, Map<u32, HistoryRecord>) {
    if contains_client(accounts, client_id) {
        (accounts, history)
    } else {
        (accounts.push(Account::fresh(client_id)), history)
    }
}

proof fn lemma_store_found(accounts: Seq<Account>, client_id: u16)
    ensures
        store_account(accounts, account_for(accounts, client_id)) == untouched(
            accounts,
            Map::<u32, HistoryRecord>::empty(),
            client_id,
        ).0,
{
    if contains_client(accounts, client_id) {
        assert(store_account(accounts, account_for(accounts, client_id)) =~= accounts);
    }
}

/// A dispute, resolve or chargeback that names a transaction id the history
/// does not hold changes no account and no record.
pub proof fn lemma_unknown_reference_is_noop(
    accounts: Seq<Account>,
    history: Map<u32, HistoryRecord>,
    tx: Transaction,
)
    requires
        !history.contains_key(tx.tx_id),
        tx.tx_type is Dispute || tx.tx_type is Resolve || tx.tx_type is Chargeback,
    ensures
        step(accounts, history, tx) == untouched(accounts, history, tx.client_id),
{
    lemma_store_found(accounts, tx.client_id);
}

/// A withdrawal of more than is available changes nothing.
pub proof fn lemma_withdrawal_over_available_is_noop(
    accounts: Seq<Account>,
    history: Map<u32, HistoryRecord>,
    client_id: u16,
    tx_id: u32,
    amount: Amount,
)
    requires
        amount.value() > account_for(accounts, client_id).available.value(),
    ensures
        step(
            accounts,
            history,
            Transaction { client_id, tx_id, tx_type: TransactionType::Withdrawal(amount) },
        ) == untouched(accounts, history, client_id),
{
    lemma_store_found(accounts, client_id);
}

/// Disputing a deposit that is already under dispute changes nothing.
pub proof fn lemma_second_dispute_is_noop(
    accounts: Seq<Account>,
    history: Map<u32, HistoryRecord>,
    client_id: u16,
    tx_id: u32,
)
    requires
        has_status(history, tx_id, TransactionInfo::UnderDispute),
    ensures
        step(accounts, history, Transaction { client_id, tx_id, tx_type: TransactionType::Dispute })
            == untouched(accounts, history, client_id),
{
    lemma_store_found(accounts, client_id);
}

/// A dispute followed by a resolve of the same transaction leaves the
/// client's available and held funds as they were before the dispute, unless
/// the transaction was already under dispute.
pub proof fn lemma_dispute_then_resolve_restores(
    accounts: Seq<Account>,
    history: Map<u32, HistoryRecord>,
    client_id: u16,
    tx_id: u32,
)
    requires
        unique_clients(accounts),
        !has_status(history, tx_id, TransactionInfo::UnderDispute),
    ensures
        ({
            let s1 = step(
                accounts,
                history,
                Transaction { client_id, tx_id, tx_type: TransactionType::Dispute },
            );
            let s2 = step(
                s1.0,
                s1.1,
                Transaction { client_id, tx_id, tx_type: TransactionType::Resolve },
            );
            &&& account_for(s2.0, client_id).available == account_for(
                accounts,
                client_id,
            ).available
            &&& account_for(s2.0, client_id).held == account_for(accounts, client_id).held
        }),
{
    let s1 = step(
        accounts,
        history,
        Transaction { client_id, tx_id, tx_type: TransactionType::Dispute },
    );
    let r1 = apply_spec(account_for(accounts, client_id), history, tx_id, TransactionType::Dispute);
    lemma_found_account_owner(accounts, client_id);
    lemma_store_then_find(accounts, r1.0);
    let r2 = apply_spec(r1.0, r1.1, tx_id, TransactionType::Resolve);
    lemma_store_then_find(s1.0, r2.0);
}

/// A dispute that takes effect (the deposit is not under dispute, its amount
/// is not negative, and the available funds cover it), followed by a
/// chargeback of the same transaction: the held funds drop by the disputed
/// amount, the available funds stay as the dispute left them, the account is
/// locked and the deposit's record is gone.
pub proof fn lemma_dispute_then_chargeback(
    accounts: Seq<Account>,
    history: Map<u32, HistoryRecord>,
    client_id: u16,
    tx_id: u32,
)
    requires
        unique_clients(accounts),
        all_balanced(accounts),
        has_status(history, tx_id, TransactionInfo::Regular),
        history[tx_id].amount.value() >= 0,
        account_for(accounts, client_id).available.value() >= history[tx_id].amount.value(),
        representable(
            account_for(accounts, client_id).available.value() - history[tx_id].amount.value(),
            account_for(accounts, client_id).held.value() + history[tx_id].amount.value(),
        ),
    ensures
        ({
            let s1 = step(
                accounts,
                history,
                Transaction { client_id, tx_id, tx_type: TransactionType::Dispute },
            );
            let s2 = step(
                s1.0,
                s1.1,
                Transaction { client_id, tx_id, tx_type: TransactionType::Chargeback },
            );
            &&& account_for(s2.0, client_id).held.value() == account_for(s1.0, client_id).held.value()
                - history[tx_id].amount.value()
            &&& account_for(s2.0, client_id).available == account_for(s1.0, client_id).available
            &&& account_for(s2.0, client_id).locked
            &&& !s2.1.contains_key(tx_id)
        }),
{
    let s1 = step(
        accounts,
        history,
        Transaction { client_id, tx_id, tx_type: TransactionType::Dispute },
    );
    let r1 = apply_spec(account_for(accounts, client_id), history, tx_id, TransactionType::Dispute);
    lemma_found_account_owner(accounts, client_id);
    lemma_store_then_find(accounts, r1.0);
    lemma_found_account_balanced(accounts, client_id);
    let r2 = apply_spec(r1.0, r1.1, tx_id, TransactionType::Chargeback);
    lemma_store_then_find(s1.0, r2.0);
}

} // verus!
