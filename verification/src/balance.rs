//! Balances and balance deltas: the arithmetic core of the ledger.

use vstd::prelude::*;

use crate::transaction::{Transaction, TransactionKind};

verus! {

/// A balance entry: a spendable amount and a cursed (frozen) amount.
///
/// `cursed` may legitimately exceed `balance` (a pre-emptive curse); both
/// fields are unsigned and therefore never negative.
#[derive(Debug, Copy, Clone, PartialEq, Eq, Structural)]
pub struct Balance(pub u64, pub u64);

/// The net change an operation applies to a balance: a signed delta for the
/// spendable amount and one for the cursed amount.
///
/// The fields are wide enough that the delta of any transaction amount is
/// represented exactly.
#[derive(Debug, Copy, Clone, PartialEq, Eq, Structural)]
pub struct BalanceDelta(pub i128, pub i128);

impl Default for Balance {
    /// The empty balance: nothing spendable, nothing cursed.
    fn default() -> (r: Self)
        ensures
            r == (Balance(0, 0)),
    {
        Balance(0, 0)
    }
}

impl Default for BalanceDelta {
    /// The zero delta: no change to either field.
    fn default() -> (r: Self)
        ensures
            r == (BalanceDelta(0, 0)),
    {
        BalanceDelta(0, 0)
    }
}

impl Balance {
    /// What a withdraw may draw: the spendable amount not currently frozen,
    /// floored at zero when more is cursed than exists.
    pub open spec fn spendable(self) -> int {
        if self.0 >= self.1 {
            self.0 - self.1
        } else {
            0
        }
    }

    /// What a clawback may reclaim: no more than exists and no more than is
    /// currently frozen.
    pub open spec fn clawback_limit(self) -> int {
        if self.0 <= self.1 {
            self.0 as int
        } else {
            self.1 as int
        }
    }

    /// The admission-limit check for one transaction against this snapshot.
    pub open spec fn spec_check_limit(self, t: Transaction) -> bool {
        match t.kind {
            TransactionKind::UserDeposit(_) => true,
            TransactionKind::Curse(_) => true,
            TransactionKind::UserWithdraw(amount) => amount <= self.spendable(),
            TransactionKind::Clawback(amount) => amount <= self.clawback_limit(),
        }
    }

    /// Whether applying `d` keeps both fields within the unsigned range:
    /// neither goes negative, neither overflows.
    pub open spec fn spec_delta_fits(self, d: BalanceDelta) -> bool {
        &&& 0 <= self.0 + d.0 <= u64::MAX
        &&& 0 <= self.1 + d.1 <= u64::MAX
    }

    /// The balance after applying `d` to both fields.
    pub open spec fn spec_apply_delta(self, d: BalanceDelta) -> Balance
        recommends
            self.spec_delta_fits(d),
    {
        Balance((self.0 + d.0) as u64, (self.1 + d.1) as u64)
    }

    /// Whether a limit check of `transaction` against this snapshot passes.
    ///
    /// Deposits and curses only increase tracked quantities and always pass;
    /// withdraws are capped by the unfrozen part of the balance; clawbacks by
    /// the smaller of the balance and the cursed amount.
    pub fn check_limit(&self, transaction: &Transaction) -> (r: bool)
        ensures
            r == self.spec_check_limit(*transaction),
    {
        match &transaction.kind {
            TransactionKind::UserDeposit(_) => true,
            TransactionKind::Curse(_) => true,
            TransactionKind::UserWithdraw(amount) => {
                let user_limit: u64 = self.0.saturating_sub(self.1);
                *amount <= user_limit
            },
            TransactionKind::Clawback(amount) => {
                let clawback_limit: u64 = if self.0 <= self.1 {
                    self.0
                } else {
                    self.1
                };
                *amount <= clawback_limit
            },
        }
    }

    /// Whether `delta` can be applied to this balance without either field
    /// leaving the unsigned range.
    pub fn delta_fits(&self, delta: &BalanceDelta) -> (r: bool)
        ensures
            r == self.spec_delta_fits(*delta),
    {
        let b: i128 = self.0 as i128;
        let c: i128 = self.1 as i128;
        let max: i128 = u64::MAX as i128;
        delta.0 >= -b && delta.0 <= max - b && delta.1 >= -c && delta.1 <= max - c
    }

    /// Add both delta components to the respective fields.
    ///
    /// Callers must have proven the delta safe (`spec_delta_fits`) against
    /// this exact snapshot: an unproven application is a defect, not a
    /// recoverable condition, so this function refuses it by precondition.
    pub fn apply_delta(&mut self, delta: BalanceDelta)
        requires
            old(self).spec_delta_fits(delta),
        ensures
            *final(self) == old(self).spec_apply_delta(delta),
    {
        let b: i128 = self.0 as i128 + delta.0;
        let c: i128 = self.1 as i128 + delta.1;
        self.0 = b as u64;
        self.1 = c as u64;
    }
}

} // verus!
