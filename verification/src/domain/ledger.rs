//! The mathematical model of an account: what a ledger holds and what its
//! balance is, over unbounded integers.

use crate::domain::bank_account::Transaction;
use vstd::prelude::*;
use vstd::seq_lib::{to_multiset_build, to_multiset_contains, to_multiset_len, to_multiset_remove};

verus! {

/// The sum of the signed amounts of `history`, taken in order.
pub open spec fn net_movement(history: Seq<Transaction>) -> int
    decreases history.len(),
{
    if history.len() == 0 {
        0
    } else {
        net_movement(history.drop_last()) + history.last().signed_amount()
    }
}

/// What an account is, apart from how it is stored.
pub struct Ledger {
    pub account_number: Seq<char>,
    pub initial_amount: int,
    pub transactions: Seq<Transaction>,
}

impl Ledger {
    /// The ledger of an account that was just opened: no transaction yet.
    pub open spec fn opened(account_number: Seq<char>, initial_amount: int) -> Ledger {
        Ledger { account_number, initial_amount, transactions: Seq::empty() }
    }

    /// The ledger after `transaction` was appended to the history.
    pub open spec fn record(self, transaction: Transaction) -> Ledger {
        Ledger { transactions: self.transactions.push(transaction), ..self }
    }

    /// The ledger after each transaction of `batch` was appended, first to
    /// last.
    pub open spec fn record_all(self, batch: Seq<Transaction>) -> Ledger
        decreases batch.len(),
    {
        if batch.len() == 0 {
            self
        } else {
            self.record_all(batch.drop_last()).record(batch.last())
        }
    }

    /// The exact balance: the opening amount plus every signed amount.
    pub open spec fn balance(self) -> int {
        self.initial_amount + net_movement(self.transactions)
    }
}

/// Appending one transaction moves the net movement by its signed amount.
pub proof fn lemma_net_movement_push(history: Seq<Transaction>, transaction: Transaction)
    ensures
        net_movement(history.push(transaction)) == net_movement(history)
            + transaction.signed_amount(),
{
    assert(history.push(transaction).drop_last() == history);
}

/// Taking the entry at `index` out of a history lowers the net movement by
/// that entry's signed amount, wherever the entry stood.
pub proof fn lemma_net_movement_remove(history: Seq<Transaction>, index: int)
    requires
        0 <= index < history.len(),
    ensures
        net_movement(history) == net_movement(history.remove(index))
            + history[index].signed_amount(),
    decreases history.len(),
{
    if index == history.len() - 1 {
        assert(history.remove(index) == history.drop_last());
    } else {
        lemma_net_movement_remove(history.drop_last(), index);
        assert(history.remove(index).drop_last() == history.drop_last().remove(index));
        assert(history.remove(index).last() == history.last());
    }
}

/// Two histories that hold the same transactions, each as often as the
/// other, have the same net movement, in whatever order each holds them.
pub proof fn lemma_net_movement_ignores_order(first: Seq<Transaction>, second: Seq<Transaction>)
    requires
        first.to_multiset() == second.to_multiset(),
    ensures
        net_movement(first) == net_movement(second),
    decreases first.len(),
{
    to_multiset_len(first);
    to_multiset_len(second);
    if first.len() > 0 {
        let moved = first.last();
        let rest = first.drop_last();
        assert(first == rest.push(moved));
        assert(first.contains(moved)) by {
            assert(first[first.len() - 1] == moved);
        }
        to_multiset_contains(first, moved);
        to_multiset_contains(second, moved);
        let index = choose|i: int| 0 <= i < second.len() && second[i] == moved;
        assert(rest.to_multiset() == first.to_multiset().remove(moved)) by {
            to_multiset_build(rest, moved);
        }
        to_multiset_remove(second, index);
        lemma_net_movement_ignores_order(rest, second.remove(index));
        lemma_net_movement_remove(second, index);
    }
}

impl Ledger {
    /// An account that was just opened has an empty history, and its balance
    /// is the amount it was opened with.
    pub proof fn law_opening_balance(account_number: Seq<char>, initial_amount: int)
        ensures
            Ledger::opened(account_number, initial_amount).transactions.len() == 0,
            Ledger::opened(account_number, initial_amount).balance() == initial_amount,
    {
    }

    /// Recording a transaction changes the balance by that transaction's
    /// signed amount, and nothing else about the account.
    pub proof fn law_record_moves_balance(self, transaction: Transaction)
        ensures
            self.record(transaction).balance() == self.balance() + transaction.signed_amount(),
            self.record(transaction).account_number == self.account_number,
            self.record(transaction).initial_amount == self.initial_amount,
    {
        lemma_net_movement_push(self.transactions, transaction);
    }

    /// Recording a transaction puts it at the end of the history and leaves
    /// every earlier entry where it was: the n-th transaction recorded on a
    /// new account is found at index n - 1 ever after.
    pub proof fn law_record_keeps_positions(self, transaction: Transaction)
        ensures
            self.record(transaction).transactions.len() == self.transactions.len() + 1,
            self.record(transaction).transactions[self.transactions.len() as int] == transaction,
            forall|i: int|
                0 <= i < self.transactions.len() ==> #[trigger] self.record(
                    transaction,
                ).transactions[i] == self.transactions[i],
    {
    }

    /// Recording a batch on an account appends the batch, in its order, to
    /// the history that was there.
    pub proof fn law_record_all_appends(self, batch: Seq<Transaction>)
        ensures
            self.record_all(batch).account_number == self.account_number,
            self.record_all(batch).initial_amount == self.initial_amount,
            self.record_all(batch).transactions == self.transactions + batch,
        decreases batch.len(),
    {
        if batch.len() == 0 {
            assert(self.transactions + batch == self.transactions);
        } else {
            self.law_record_all_appends(batch.drop_last());
            assert((self.transactions + batch.drop_last()).push(batch.last())
                == self.transactions + batch);
        }
    }

    /// After any sequence of deposits and withdrawals on a new account, the
    /// history is that sequence and the balance is the opening amount plus
    /// the sum of the signed amounts: each deposit's amount counted as it
    /// is, each withdrawal's amount negated.
    pub proof fn law_balance_after_history(
        account_number: Seq<char>,
        initial_amount: int,
        history: Seq<Transaction>,
    )
        ensures
            Ledger::opened(account_number, initial_amount).record_all(history).transactions
                == history,
            Ledger::opened(account_number, initial_amount).record_all(history).balance()
                == initial_amount + net_movement(history),
    {
        let opened = Ledger::opened(account_number, initial_amount);
        opened.law_record_all_appends(history);
        assert(opened.transactions + history == history);
    }

    /// The balance is the strict left fold of addition over the history,
    /// started at the opening amount.
    pub proof fn law_balance_is_left_fold(self)
        ensures
            self.balance() == self.transactions.fold_left(
                self.initial_amount,
                |sum: int, transaction: Transaction| sum + transaction.signed_amount(),
            ),
        decreases self.transactions.len(),
    {
        if self.transactions.len() > 0 {
            let earlier = Ledger { transactions: self.transactions.drop_last(), ..self };
            earlier.law_balance_is_left_fold();
        }
    }

    /// The balance does not depend on the order of the history: two accounts
    /// opened with the same amount that hold the same transactions, each as
    /// often as the other, have the same balance.
    pub proof fn law_balance_ignores_order(self, other: Ledger)
        requires
            self.initial_amount == other.initial_amount,
            self.transactions.to_multiset() == other.transactions.to_multiset(),
        ensures
            self.balance() == other.balance(),
    {
        lemma_net_movement_ignores_order(self.transactions, other.transactions);
    }
}

} // verus!
