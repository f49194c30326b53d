//! Transaction requests: a kind (with its amount) and a target account.

use vstd::prelude::*;

use crate::balance::BalanceDelta;

verus! {

/// Which of the two independently tracked balance entries a transaction
/// operates on.
#[derive(Debug, Copy, Clone, PartialEq, Eq, Structural)]
pub enum TransactionTarget {
    Address,
    Object,
}

/// The operation a transaction requests, each carrying a non-negative amount.
#[derive(Debug, Copy, Clone, PartialEq, Eq, Structural)]
pub enum TransactionKind {
    UserDeposit(u64),
    UserWithdraw(u64),
    /// Freeze `amount` of the target's capacity without moving the balance.
    Curse(u64),
    /// Reclaim `amount` from both the balance and the cursed capacity.
    Clawback(u64),
}

/// An immutable value-transfer request.
#[derive(Debug, Copy, Clone, PartialEq, Eq, Structural)]
pub struct Transaction {
    pub kind: TransactionKind,
    pub target: TransactionTarget,
}

impl Transaction {
    /// The amount carried by the transaction's kind.
    pub open spec fn amount(self) -> u64 {
        match self.kind {
            TransactionKind::UserDeposit(amount) => amount,
            TransactionKind::UserWithdraw(amount) => amount,
            TransactionKind::Curse(amount) => amount,
            TransactionKind::Clawback(amount) => amount,
        }
    }

    /// Whether this transaction is a clawback.
    pub open spec fn spec_is_clawback(self) -> bool {
        self.kind is Clawback
    }

    /// The delta this transaction applies to its target balance:
    /// a deposit adds to the balance, a withdraw subtracts from it, a curse
    /// adds to the cursed amount, and a clawback subtracts from both.
    ///
    /// A clawback must take from both fields: taking only from the cursed
    /// amount would leave the balance permanently diminished with capacity
    /// that cannot be un-frozen, and taking only from the balance would leave
    /// the account cursed for an amount that no longer exists.
    pub open spec fn spec_delta(self) -> BalanceDelta {
        match self.kind {
            TransactionKind::UserDeposit(amount) => BalanceDelta(amount as i128, 0),
            TransactionKind::UserWithdraw(amount) => BalanceDelta((-(amount as int)) as i128, 0),
            TransactionKind::Curse(amount) => BalanceDelta(0, amount as i128),
            TransactionKind::Clawback(amount) => BalanceDelta(
                (-(amount as int)) as i128,
                (-(amount as int)) as i128,
            ),
        }
    }

    pub fn is_clawback(&self) -> (r: bool)
        ensures
            r == self.spec_is_clawback(),
    {
        matches!(self.kind, TransactionKind::Clawback(_))
    }

    pub fn into_delta(&self) -> (d: BalanceDelta)
        ensures
            d == self.spec_delta(),
    {
        match &self.kind {
            TransactionKind::UserDeposit(amount) => BalanceDelta(*amount as i128, 0),
            TransactionKind::UserWithdraw(amount) => BalanceDelta(-(*amount as i128), 0),
            TransactionKind::Curse(amount) => BalanceDelta(0, *amount as i128),
            TransactionKind::Clawback(amount) => BalanceDelta(
                -(*amount as i128),
                -(*amount as i128),
            ),
        }
    }

    pub fn address_deposit(amount: u64) -> (t: Self)
        ensures
            t == (Transaction {
                kind: TransactionKind::UserDeposit(amount),
                target: TransactionTarget::Address,
            }),
    {
        Self { kind: TransactionKind::UserDeposit(amount), target: TransactionTarget::Address }
    }

    pub fn object_deposit(amount: u64) -> (t: Self)
        ensures
            t == (Transaction {
                kind: TransactionKind::UserDeposit(amount),
                target: TransactionTarget::Object,
            }),
    {
        Self { kind: TransactionKind::UserDeposit(amount), target: TransactionTarget::Object }
    }

    pub fn address_withdraw(amount: u64) -> (t: Self)
        ensures
            t == (Transaction {
                kind: TransactionKind::UserWithdraw(amount),
                target: TransactionTarget::Address,
            }),
    {
        Self { kind: TransactionKind::UserWithdraw(amount), target: TransactionTarget::Address }
    }

    pub fn object_withdraw(amount: u64) -> (t: Self)
        ensures
            t == (Transaction {
                kind: TransactionKind::UserWithdraw(amount),
                target: TransactionTarget::Object,
            }),
    {
        Self { kind: TransactionKind::UserWithdraw(amount), target: TransactionTarget::Object }
    }

    pub fn object_curse(amount: u64) -> (t: Self)
        ensures
            t == (Transaction {
                kind: TransactionKind::Curse(amount),
                target: TransactionTarget::Object,
            }),
    {
        Self { kind: TransactionKind::Curse(amount), target: TransactionTarget::Object }
    }

    pub fn address_curse(amount: u64) -> (t: Self)
        ensures
            t == (Transaction {
                kind: TransactionKind::Curse(amount),
                target: TransactionTarget::Address,
            }),
    {
        Self { kind: TransactionKind::Curse(amount), target: TransactionTarget::Address }
    }

    pub fn object_clawback(amount: u64) -> (t: Self)
        ensures
            t == (Transaction {
                kind: TransactionKind::Clawback(amount),
                target: TransactionTarget::Object,
            }),
    {
        Self { kind: TransactionKind::Clawback(amount), target: TransactionTarget::Object }
    }

    pub fn address_clawback(amount: u64) -> (t: Self)
        ensures
            t == (Transaction {
                kind: TransactionKind::Clawback(amount),
                target: TransactionTarget::Address,
            }),
    {
        Self { kind: TransactionKind::Clawback(amount), target: TransactionTarget::Address }
    }
}

} // verus!
