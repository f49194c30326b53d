//! Committed ledger state and the realized outcome of settling a transaction.

use vstd::prelude::*;

use crate::balance::{Balance, BalanceDelta};
use crate::transaction::{Transaction, TransactionTarget};

verus! {

/// The realized outcome of settling one transaction: the delta actually
/// applied to each account.
///
/// At most one of the two deltas is non-zero (the one matching the
/// transaction's target); a transaction that cleared for nothing records the
/// zero delta on both.
#[derive(Debug, Copy, Clone, PartialEq, Eq, Structural)]
pub struct Effects {
    pub address_delta: BalanceDelta,
    pub object_delta: BalanceDelta,
}

/// The two committed balances: the durable ledger state between settlement
/// rounds.
#[derive(Debug, Copy, Clone, PartialEq, Eq, Structural)]
pub struct State {
    pub address_state: Balance,
    pub object_state: Balance,
}

impl Default for Effects {
    /// The outcome of a transaction that cleared for nothing: both deltas
    /// zero.
    fn default() -> (r: Self)
        ensures
            r == Effects::zero(),
    {
        Effects { address_delta: BalanceDelta(0, 0), object_delta: BalanceDelta(0, 0) }
    }
}

impl Default for State {
    /// The empty ledger: both balances empty.
    fn default() -> (r: Self)
        ensures
            r == (State { address_state: Balance(0, 0), object_state: Balance(0, 0) }),
    {
        State { address_state: Balance(0, 0), object_state: Balance(0, 0) }
    }
}

impl Effects {
    /// Both deltas zero: the effect of a transaction that cleared for
    /// nothing.
    pub open spec fn zero() -> Effects {
        Effects { address_delta: BalanceDelta(0, 0), object_delta: BalanceDelta(0, 0) }
    }

    /// The effect of fully applying `t`: its delta on the side matching its
    /// target, the zero delta on the other.
    pub open spec fn of_applied(t: Transaction) -> Effects {
        match t.target {
            TransactionTarget::Address => Effects {
                address_delta: t.spec_delta(),
                object_delta: BalanceDelta(0, 0),
            },
            TransactionTarget::Object => Effects {
                address_delta: BalanceDelta(0, 0),
                object_delta: t.spec_delta(),
            },
        }
    }
}

impl State {
    /// The balance entry a target selects.
    pub open spec fn target_balance(self, target: TransactionTarget) -> Balance {
        match target {
            TransactionTarget::Address => self.address_state,
            TransactionTarget::Object => self.object_state,
        }
    }

    /// Whether `t`'s delta can be applied to its target balance without
    /// either field leaving the unsigned range.
    pub open spec fn can_apply(self, t: Transaction) -> bool {
        self.target_balance(t.target).spec_delta_fits(t.spec_delta())
    }

    /// The state after applying `t`'s delta to its target balance; the other
    /// balance is untouched.
    pub open spec fn spec_apply(self, t: Transaction) -> State
        recommends
            self.can_apply(t),
    {
        match t.target {
            TransactionTarget::Address => State {
                address_state: self.address_state.spec_apply_delta(t.spec_delta()),
                object_state: self.object_state,
            },
            TransactionTarget::Object => State {
                address_state: self.address_state,
                object_state: self.object_state.spec_apply_delta(t.spec_delta()),
            },
        }
    }

    /// Apply `transaction`'s delta to its target balance and report the
    /// realized effect.
    ///
    /// The delta must already have been proven safe against this exact
    /// snapshot; settlement checks that before calling.
    pub fn apply(&mut self, transaction: &Transaction) -> (e: Effects)
        requires
            old(self).can_apply(*transaction),
        ensures
            *final(self) == old(self).spec_apply(*transaction),
            e == Effects::of_applied(*transaction),
    {
        let transaction_delta = transaction.into_delta();

        match &transaction.target {
            TransactionTarget::Address => {
                self.address_state.apply_delta(transaction_delta);
                Effects { address_delta: transaction_delta, object_delta: BalanceDelta(0, 0) }
            },
            TransactionTarget::Object => {
                self.object_state.apply_delta(transaction_delta);
                Effects { address_delta: BalanceDelta(0, 0), object_delta: transaction_delta }
            },
        }
    }
}

} // verus!
