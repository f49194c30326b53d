//! The laws the library states of itself: admission bounds, clawback
//! conservation, object optimism, and settlement atomicity.

use vstd::prelude::*;

use crate::balance::Balance;
use crate::executor::{settle_outcome, spec_admits};
use crate::state::{Effects, State};
use crate::transaction::{Transaction, TransactionKind, TransactionTarget};

verus! {

/// A deposit is always admitted: for every committed state, target and
/// amount, scheduling a deposit never rejects.
pub proof fn lemma_deposit_always_admitted(s: State, t: Transaction)
    requires
        t.kind is UserDeposit,
    ensures
        spec_admits(s, t),
{
}

/// Address withdraw admission bound: an address withdraw is admitted exactly
/// when its amount is at most the unfrozen part of the committed address
/// balance (balance minus cursed, floored at zero).
pub proof fn lemma_address_withdraw_bound(s: State, amount: u64)
    ensures
        spec_admits(
            s,
            (Transaction {
                kind: TransactionKind::UserWithdraw(amount),
                target: TransactionTarget::Address,
            }),
        ) <==> amount <= s.address_state.spendable(),
{
}

/// Clawback admission bound: a clawback of either target is admitted exactly
/// when its amount is at most the smaller of that target's committed balance
/// and cursed amount.
pub proof fn lemma_clawback_bound(s: State, target: TransactionTarget, amount: u64)
    ensures
        spec_admits(
            s,
            (Transaction { kind: TransactionKind::Clawback(amount), target: target }),
        ) <==> amount <= s.target_balance(target).clawback_limit(),
{
}

/// A clawback whose limit check passes can always be applied: the admission
/// check is exactly strong enough that its delta cannot drive either field of
/// the checked balance out of range.
pub proof fn lemma_admitted_clawback_fits(b: Balance, t: Transaction)
    requires
        t.spec_is_clawback(),
        b.spec_check_limit(t),
    ensures
        b.spec_delta_fits(t.spec_delta()),
{
}

/// Applying a clawback decreases both the balance and the cursed amount by
/// exactly its amount, and can only apply where both fields cover that
/// amount, so neither ever goes negative.
pub proof fn lemma_clawback_decreases_both(b: Balance, t: Transaction)
    requires
        t.spec_is_clawback(),
        b.spec_delta_fits(t.spec_delta()),
    ensures
        b.spec_apply_delta(t.spec_delta()).0 == b.0 - t.amount(),
        b.spec_apply_delta(t.spec_delta()).1 == b.1 - t.amount(),
        b.0 >= t.amount(),
        b.1 >= t.amount(),
{
}

/// Object optimism, admission half: a non-clawback object transaction (in
/// particular an object withdraw) is admitted whatever the balances hold.
pub proof fn lemma_object_nonclawback_always_admitted(s: State, t: Transaction)
    requires
        t.target is Object,
        !t.spec_is_clawback(),
    ensures
        spec_admits(s, t),
{
}

/// Object optimism, settlement half: when settling a batch that ends in an
/// object withdraw succeeds, that withdraw either applies in full — the
/// object balance decreases by exactly its amount, nothing else moves — or
/// clears to the zero effect with the state unchanged; never partially.
pub proof fn lemma_object_withdraw_all_or_nothing(
    committed: State,
    txs: Seq<Transaction>,
    t: Transaction,
)
    requires
        t.target is Object,
        t.kind is UserWithdraw,
        settle_outcome(committed, txs.push(t)) is Some,
    ensures
        settle_outcome(committed, txs) is Some,
        ({
            let prev = settle_outcome(committed, txs)->Some_0;
            let out = settle_outcome(committed, txs.push(t))->Some_0;
            ||| {
                &&& out.1 == prev.1.push((t, Effects::of_applied(t)))
                &&& out.0.object_state.0 == prev.0.object_state.0 - t.amount()
                &&& out.0.object_state.1 == prev.0.object_state.1
                &&& out.0.address_state == prev.0.address_state
            }
            ||| {
                &&& out.1 == prev.1.push((t, Effects::zero()))
                &&& out.0 == prev.0
            }
        }),
{
    assert(txs.push(t).drop_last() =~= txs);
    assert(txs.push(t).last() == t);
}

/// The state a sequence of recorded effects produces when each effect's two
/// deltas are applied, in order, to the respective accounts.
pub open spec fn apply_effects(s: State, effs: Seq<Effects>) -> State
    decreases effs.len(),
{
    if effs.len() == 0 {
        s
    } else {
        let prev = apply_effects(s, effs.drop_last());
        let e = effs.last();
        State {
            address_state: prev.address_state.spec_apply_delta(e.address_delta),
            object_state: prev.object_state.spec_apply_delta(e.object_delta),
        }
    }
}

/// Settlement atomicity: a successful settlement records one effect per
/// pending transaction, in scheduling order, and the resulting state is
/// exactly the pre-batch committed state with every recorded effect applied
/// in that order.
pub proof fn lemma_settlement_atomicity(committed: State, txs: Seq<Transaction>)
    requires
        settle_outcome(committed, txs) is Some,
    ensures
        ({
            let out = settle_outcome(committed, txs)->Some_0;
            &&& out.1.len() == txs.len()
            &&& forall|i: int| 0 <= i < txs.len() ==> (#[trigger] out.1[i]).0 == txs[i]
            &&& out.0 == apply_effects(committed, out.1.map_values(|p: (Transaction, Effects)| p.1))
        }),
    decreases txs.len(),
{
    let out = settle_outcome(committed, txs)->Some_0;
    let to_effects = |p: (Transaction, Effects)| p.1;
    if txs.len() == 0 {
        assert(out.1.map_values(to_effects) =~= Seq::<Effects>::empty());
    } else {
        lemma_settlement_atomicity(committed, txs.drop_last());
        let prev = settle_outcome(committed, txs.drop_last())->Some_0;
        assert(out.1.drop_last() =~= prev.1);
        assert(out.1.map_values(to_effects).drop_last() =~= prev.1.map_values(to_effects));
        assert(out.1.map_values(to_effects).last() == out.1.last().1);
    }
}

} // verus!
