//! A bank account and the transactions recorded on it.

use crate::domain::clock::{now, Timestamp};
use crate::domain::ledger::{lemma_net_movement_push, net_movement, Ledger};
use crate::domain::wrapping::{
    fits_i64, lemma_wrap_add, lemma_wrap_fixes_what_fits, lemma_wrapping_add_wraps,
    lemma_wrapping_sub_wraps, wrap_i64,
};
use vstd::prelude::*;

verus! {

/// One movement of money on an account. The amount is stored as it was
/// given; whether it adds to the balance or takes from it is told by the
/// variant alone.
#[derive(Clone, Copy, Debug, PartialEq, Eq)]
pub enum Transaction {
    Deposit { date: Timestamp, amount: i64 },
    Withdraw { date: Timestamp, amount: i64 },
}

impl Transaction {
    /// The exact effect of this transaction on a balance: the stored amount
    /// for a deposit, its negation for a withdrawal.
    pub open spec fn signed_amount(self) -> int {
        match self {
            Transaction::Deposit { amount, .. } => amount as int,
            Transaction::Withdraw { amount, .. } => -(amount as int),
        }
    }

    /// The signed effect of this transaction as an `i64`.
    ///
    /// The one effect that no `i64` holds is that of a withdrawal of
    /// `i64::MIN`; it wraps to `i64::MIN`.
    pub fn amount(&self) -> (signed: i64)
        ensures
            signed == wrap_i64(self.signed_amount()),
            fits_i64(self.signed_amount()) ==> signed == self.signed_amount(),
    {
        match *self {
            Transaction::Deposit { amount, .. } => amount,
            Transaction::Withdraw { amount, .. } => {
                proof {
                    lemma_wrapping_sub_wraps(0, amount);
                }
                0i64.wrapping_sub(amount)
            },
        }
    }
}

/// One account: its number, the amount it was opened with, and every
/// transaction recorded on it since, oldest first.
///
/// The history only grows. No entry is changed, moved or removed, and the
/// balance is never stored: it is derived from the opening amount and the
/// history each time it is asked for.
pub struct BankAccount {
    account_number: String,
    initial_amount: i64,
    transactions: Vec<Transaction>,
}

impl View for BankAccount {
    type V = Ledger;

    closed spec fn view(&self) -> Ledger {
        Ledger {
            account_number: self.account_number@,
            initial_amount: self.initial_amount as int,
            transactions: self.transactions@,
        }
    }
}

impl BankAccount {
    /// Opens an account with no transaction on it. Any number and any
    /// opening amount are taken as they are, a negative amount too.
    pub fn create_new_account(account_number: String, initial_amount: i64) -> (account: BankAccount)
        ensures
            account@ == Ledger::opened(account_number@, initial_amount as int),
            account@.transactions.len() == 0,
            account@.balance() == initial_amount,
    {
        BankAccount { account_number, initial_amount, transactions: Vec::new() }
    }

    /// The number the account was opened under.
    pub fn account_number(&self) -> (number: &str)
        ensures
            number@ == self@.account_number,
    {
        self.account_number.as_str()
    }

    /// The amount the account was opened with.
    pub fn initial_amount(&self) -> (amount: i64)
        ensures
            amount == self@.initial_amount,
    {
        self.initial_amount
    }

    /// The history, oldest transaction first: the transaction appended by the
    /// n-th call stands at index n - 1.
    pub fn transactions(&self) -> (history: &Vec<Transaction>)
        ensures
            history@ == self@.transactions,
    {
        &self.transactions
    }

    /// The current balance: the opening amount plus the signed amount of
    /// every transaction.
    ///
    /// The sum is exact whenever the exact balance is the value of an `i64`,
    /// whatever the sums on the way were. Otherwise it is the exact balance
    /// wrapped into `i64`.
    pub fn balance(&self) -> (total: i64)
        ensures
            total == wrap_i64(self@.balance()),
            fits_i64(self@.balance()) ==> total == self@.balance(),
    {
        let mut balance: i64 = self.initial_amount;
        let mut index: usize = 0;
        proof {
            lemma_wrap_fixes_what_fits(self.initial_amount as int);
        }
        while index < self.transactions.len()
            invariant
                index <= self.transactions.len(),
                balance == wrap_i64(
                    self.initial_amount + net_movement(self.transactions@.take(index as int)),
                ),
            decreases self.transactions.len() - index,
        {
            let effect: i64 = self.transactions[index].amount();
            proof {
                let seen = self.transactions@.take(index as int);
                let current = self.transactions@[index as int];
                assert(self.transactions@.take(index + 1) == seen.push(current));
                lemma_net_movement_push(seen, current);
                lemma_wrapping_add_wraps(balance, effect);
                lemma_wrap_add(self.initial_amount + net_movement(seen), current.signed_amount());
            }
            balance = balance.wrapping_add(effect);
            index += 1;
        }
        proof {
            assert(self.transactions@.take(index as int) == self.transactions@);
            lemma_wrap_fixes_what_fits(self@.balance());
        }
        balance
    }

    /// Reading the balance is repeatable: what `balance` returns is decided by
    /// the ledger alone, so two readings of an account with nothing recorded
    /// in between are equal.
    pub proof fn law_balance_read_repeats(&self, first: i64, second: i64)
        requires
            first == wrap_i64(self@.balance()),
            second == wrap_i64(self@.balance()),
        ensures
            first == second,
    {
    }

    /// Appends a deposit of `amount` made at `date`. The amount is stored as
    /// given: zero and negative amounts are recorded like any other.
    pub fn deposit_at(&mut self, date: Timestamp, amount: i64)
        ensures
            final(self)@ == old(self)@.record(Transaction::Deposit { date, amount }),
            final(self)@.balance() == old(self)@.balance() + amount,
    {
        self.transactions.push(Transaction::Deposit { date, amount });
        proof {
            old(self)@.law_record_moves_balance(Transaction::Deposit { date, amount });
        }
    }

    /// Appends a withdrawal of `amount` made at `date`. The amount is stored
    /// as given, and the balance is free to go below zero.
    pub fn with_draw_at(&mut self, date: Timestamp, amount: i64)
        ensures
            final(self)@ == old(self)@.record(Transaction::Withdraw { date, amount }),
            final(self)@.balance() == old(self)@.balance() - amount,
    {
        self.transactions.push(Transaction::Withdraw { date, amount });
        proof {
            old(self)@.law_record_moves_balance(Transaction::Withdraw { date, amount });
        }
    }

    /// Appends a deposit of `amount`, stamped with the wall clock's reading
    /// at the call.
    pub fn deposit(&mut self, amount: i64)
        ensures
            final(self)@ == old(self)@.record(final(self)@.transactions.last()),
            final(self)@.transactions.last() is Deposit,
            final(self)@.transactions.last()->Deposit_amount == amount,
            final(self)@.balance() == old(self)@.balance() + amount,
    {
        let date = now();
        self.deposit_at(date, amount);
    }

    /// Appends a withdrawal of `amount`, stamped with the wall clock's
    /// reading at the call.
    pub fn with_draw(&mut self, amount: i64)
        ensures
            final(self)@ == old(self)@.record(final(self)@.transactions.last()),
            final(self)@.transactions.last() is Withdraw,
            final(self)@.transactions.last()->Withdraw_amount == amount,
            final(self)@.balance() == old(self)@.balance() - amount,
    {
        let date = now();
        self.with_draw_at(date, amount);
    }
}

} // verus!
