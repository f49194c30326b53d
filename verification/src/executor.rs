//! Admission (`schedule`) and atomic batch settlement (`settle`).

use vstd::prelude::*;

use crate::balance::{Balance, BalanceDelta};
use crate::state::{Effects, State};
use crate::transaction::{Transaction, TransactionTarget};

verus! {

/// Whether `schedule` admits `t` against the committed state `s`.
///
/// Address transactions of every kind, and clawbacks of either target, are
/// checked eagerly against the committed balance of their target; object
/// deposits, withdraws and curses are admitted unconditionally, their
/// validity deferred to settlement.
pub open spec fn spec_admits(s: State, t: Transaction) -> bool {
    match (t.target, t.spec_is_clawback()) {
        (TransactionTarget::Address, _) => s.address_state.spec_check_limit(t),
        (TransactionTarget::Object, false) => true,
        (TransactionTarget::Object, true) => s.object_state.spec_check_limit(t),
    }
}

/// Whether `t` applies its delta during settlement (rather than clearing to
/// zero), given the state committed at the start of the settlement call.
///
/// Address transactions and clawbacks were proven safe at schedule time and
/// apply unconditionally; an object deposit, withdraw or curse applies only
/// if it passes the limit check against the committed snapshot.
pub open spec fn applies_at_settlement(committed: State, t: Transaction) -> bool {
    t.target is Address || t.spec_is_clawback() || committed.object_state.spec_check_limit(t)
}

/// The outcome of settling `txs` in order: the final state and the per-
/// transaction effects, or `None` if some applied delta would drive a balance
/// field out of the unsigned range (the fatal invariant violation).
///
/// Deltas accumulate on an evolving next-state seeded from `committed`, while
/// the deferred object checks are all made against the one fixed `committed`
/// snapshot.
pub open spec fn settle_outcome(committed: State, txs: Seq<Transaction>) -> Option<
    (State, Seq<(Transaction, Effects)>),
>
    decreases txs.len(),
{
    if txs.len() == 0 {
        Some((committed, Seq::<(Transaction, Effects)>::empty()))
    } else {
        match settle_outcome(committed, txs.drop_last()) {
            None => None,
            Some((next, effs)) => {
                let t = txs.last();
                if applies_at_settlement(committed, t) {
                    if next.can_apply(t) {
                        Some((next.spec_apply(t), effs.push((t, Effects::of_applied(t)))))
                    } else {
                        None
                    }
                } else {
                    Some((next, effs.push((t, Effects::zero()))))
                }
            },
        }
    }
}

/// A settlement outcome that fails on a prefix fails on the whole batch.
proof fn lemma_settle_outcome_none_prefix(committed: State, txs: Seq<Transaction>, j: int)
    requires
        0 <= j <= txs.len(),
        settle_outcome(committed, txs.take(j)) is None,
    ensures
        settle_outcome(committed, txs) is None,
    decreases txs.len() - j,
{
    if j == txs.len() {
        assert(txs.take(j) =~= txs);
    } else {
        assert(txs.take(j + 1).drop_last() =~= txs.take(j));
        assert(settle_outcome(committed, txs.take(j + 1)) is None);
        lemma_settle_outcome_none_prefix(committed, txs, j + 1);
    }
}

/// Orchestrates admission and settlement of pending transactions against the
/// committed [`State`] it exclusively owns.
#[derive(Debug)]
pub struct Executor {
    pub scheduled_transactions: Vec<Transaction>,
    pub state: State,
}

impl Default for Executor {
    /// A fresh executor: empty ledger, nothing pending.
    fn default() -> (r: Self)
        ensures
            r.scheduled_transactions@ == Seq::<Transaction>::empty(),
            r.state == (State { address_state: Balance(0, 0), object_state: Balance(0, 0) }),
    {
        Executor { scheduled_transactions: Vec::new(), state: State::default() }
    }
}

impl Executor {
    /// Attempt to admit a transaction into the pending batch.
    ///
    /// Admitted transactions are appended to the queue in order; a rejected
    /// transaction is dropped with no state change and will not appear in the
    /// settlement output. Admission succeeds exactly when `spec_admits`
    /// allows it against the currently committed state.
    pub fn schedule(&mut self, transaction: Transaction) -> (r: Result<(), ()>)
        ensures
            r is Ok <==> spec_admits(old(self).state, transaction),
            r is Ok ==> final(self).state == old(self).state
                && final(self).scheduled_transactions@ == old(
                self,
            ).scheduled_transactions@.push(transaction),
            r is Err ==> *final(self) == *old(self),
    {
        match (transaction.target, transaction.is_clawback()) {
            // Address transactions must be checked pre-scheduling.
            (TransactionTarget::Address, _) => {
                if self.state.address_state.check_limit(&transaction) {
                    self.scheduled_transactions.push(transaction);
                    Ok(())
                } else {
                    Err(())
                }
            },
            // Non-clawback object transactions are checked at settlement
            // (and can clear to zero there).
            (TransactionTarget::Object, false) => {
                self.scheduled_transactions.push(transaction);
                Ok(())
            },
            // Clawbacks from either target are unsequenced with respect to
            // each other, so non-underflow must be proven up front.
            (TransactionTarget::Object, true) => {
                if self.state.object_state.check_limit(&transaction) {
                    self.scheduled_transactions.push(transaction);
                    Ok(())
                } else {
                    Err(())
                }
            },
        }
    }

    /// Settle every pending transaction, in scheduling order, against a
    /// working copy of the committed state.
    ///
    /// Address transactions and clawbacks apply unconditionally (they were
    /// proven safe at schedule time, and address operations are sequenced
    /// within the round); object deposits, withdraws and curses are
    /// re-checked against the state as committed at the start of this call
    /// and clear to the zero effect when that check fails. On success the
    /// queue is drained and the evolved state is committed.
    ///
    /// Because the deferred checks all use the one pre-batch snapshot,
    /// several optimistically admitted transactions can jointly exceed the
    /// available funds even though each passes its check alone; an admitted
    /// deposit or curse can likewise overflow a field. Either would break the
    /// balance invariant, so it is reported as `Err` — a defect of the
    /// admission contract, never a normal outcome — and nothing is committed:
    /// the queue and the committed state are left exactly as they were.
    pub fn settle(&mut self) -> (r: Result<Vec<(Transaction, Effects)>, ()>)
        ensures
            match settle_outcome(old(self).state, old(self).scheduled_transactions@) {
                Some(out) => {
                    &&& r matches Ok(v) && v@ == out.1
                    &&& final(self).state == out.0
                    &&& final(self).scheduled_transactions@ == Seq::<Transaction>::empty()
                },
                None => r is Err && *final(self) == *old(self),
            },
    {
        // Checks are done against the committed state; deltas are applied to
        // the evolving next state.
        let committed: State = self.state;
        let mut next_state: State = committed;
        let mut ret: Vec<(Transaction, Effects)> = Vec::new();
        let ghost q: Seq<Transaction> = self.scheduled_transactions@;

        let n: usize = self.scheduled_transactions.len();
        let mut i: usize = 0;
        proof {
            assert(q.take(0) =~= Seq::<Transaction>::empty());
        }
        while i < n
            invariant
                i <= n,
                n == q.len(),
                self.state == committed,
                self.scheduled_transactions@ == q,
                *self == *old(self),
                settle_outcome(committed, q.take(i as int)) == Some((next_state, ret@)),
            decreases n - i,
        {
            let tx: Transaction = self.scheduled_transactions[i];
            proof {
                assert(q.take(i as int + 1).drop_last() =~= q.take(i as int));
                assert(q.take(i as int + 1).last() == tx);
            }

            let applies: bool = match (tx.target, tx.is_clawback()) {
                // Address transactions as well as clawbacks were proven at
                // schedule time; they settle unconditionally.
                (TransactionTarget::Address, _) => true,
                (TransactionTarget::Object, true) => true,
                // Other object transactions are checked now, against the
                // snapshot committed when this settlement round began.
                (TransactionTarget::Object, false) => committed.object_state.check_limit(&tx),
            };

            if applies {
                let target: Balance = match tx.target {
                    TransactionTarget::Address => next_state.address_state,
                    TransactionTarget::Object => next_state.object_state,
                };
                let delta: BalanceDelta = tx.into_delta();
                if target.delta_fits(&delta) {
                    let eff: Effects = next_state.apply(&tx);
                    ret.push((tx, eff));
                } else {
                    // The admission contract was broken: committing would
                    // corrupt the ledger, so nothing is committed.
                    proof {
                        assert(settle_outcome(committed, q.take(i as int + 1)) is None);
                        lemma_settle_outcome_none_prefix(committed, q, i as int + 1);
                    }
                    return Err(());
                }
            } else {
                ret.push(
                    (tx, Effects { address_delta: BalanceDelta(0, 0), object_delta: BalanceDelta(0, 0) }),
                );
            }

            i = i + 1;
        }
        proof {
            assert(q.take(n as int) =~= q);
        }

        self.state = next_state;
        self.scheduled_transactions = Vec::new();
        Ok(ret)
    }
}

} // verus!
