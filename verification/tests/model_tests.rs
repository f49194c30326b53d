use settlement::balance::{Balance, BalanceDelta};
use settlement::state::{Effects, State};
use settlement::transaction::{Transaction, TransactionKind, TransactionTarget};

#[test]
fn constructors_set_kind_and_target() {
    let t = Transaction::address_deposit(7);
    assert_eq!(t.kind, TransactionKind::UserDeposit(7));
    assert_eq!(t.target, TransactionTarget::Address);
    let t = Transaction::object_curse(9);
    assert_eq!(t.kind, TransactionKind::Curse(9));
    assert_eq!(t.target, TransactionTarget::Object);
    assert!(Transaction::object_clawback(1).is_clawback());
    assert!(Transaction::address_clawback(1).is_clawback());
    assert!(!Transaction::object_withdraw(1).is_clawback());
    assert!(!Transaction::address_curse(1).is_clawback());
}

#[test]
fn delta_derivation_per_kind() {
    assert_eq!(
        Transaction::address_deposit(5).into_delta(),
        BalanceDelta(5, 0)
    );
    assert_eq!(
        Transaction::object_withdraw(5).into_delta(),
        BalanceDelta(-5, 0)
    );
    assert_eq!(Transaction::address_curse(5).into_delta(), BalanceDelta(0, 5));
    assert_eq!(
        Transaction::object_clawback(5).into_delta(),
        BalanceDelta(-5, -5)
    );
    // The widest amount is represented exactly.
    assert_eq!(
        Transaction::object_withdraw(u64::MAX).into_delta(),
        BalanceDelta(-(u64::MAX as i128), 0)
    );
}

#[test]
fn check_limit_per_kind() {
    let b = Balance(100, 30);
    assert!(b.check_limit(&Transaction::address_deposit(u64::MAX)));
    assert!(b.check_limit(&Transaction::address_curse(u64::MAX)));
    assert!(b.check_limit(&Transaction::address_withdraw(70)));
    assert!(!b.check_limit(&Transaction::address_withdraw(71)));
    assert!(b.check_limit(&Transaction::address_clawback(30)));
    assert!(!b.check_limit(&Transaction::address_clawback(31)));

    // Pre-emptively cursed beyond the balance: withdraws cap at zero,
    // clawbacks at the balance.
    let b = Balance(20, 120);
    assert!(b.check_limit(&Transaction::object_withdraw(0)));
    assert!(!b.check_limit(&Transaction::object_withdraw(1)));
    assert!(b.check_limit(&Transaction::object_clawback(20)));
    assert!(!b.check_limit(&Transaction::object_clawback(21)));
}

#[test]
fn delta_fits_bounds() {
    let b = Balance(10, 20);
    assert!(b.delta_fits(&BalanceDelta(-10, -20)));
    assert!(!b.delta_fits(&BalanceDelta(-11, 0)));
    assert!(!b.delta_fits(&BalanceDelta(0, -21)));
    assert!(b.delta_fits(&BalanceDelta((u64::MAX - 10) as i128, 0)));
    assert!(!b.delta_fits(&BalanceDelta((u64::MAX - 9) as i128, 0)));
}

#[test]
fn apply_delta_adds_componentwise() {
    let mut b = Balance(10, 20);
    b.apply_delta(BalanceDelta(5, -20));
    assert_eq!(b, Balance(15, 0));
}

#[test]
fn state_apply_touches_only_the_target() {
    let mut s = State {
        address_state: Balance(10, 0),
        object_state: Balance(30, 5),
    };
    let e = s.apply(&Transaction::address_deposit(7));
    assert_eq!(
        e,
        Effects {
            address_delta: BalanceDelta(7, 0),
            object_delta: BalanceDelta(0, 0),
        }
    );
    assert_eq!(s.address_state, Balance(17, 0));
    assert_eq!(s.object_state, Balance(30, 5));

    let e = s.apply(&Transaction::object_clawback(5));
    assert_eq!(
        e,
        Effects {
            address_delta: BalanceDelta(0, 0),
            object_delta: BalanceDelta(-5, -5),
        }
    );
    assert_eq!(s.address_state, Balance(17, 0));
    assert_eq!(s.object_state, Balance(25, 0));
}

#[test]
fn defaults_are_zero() {
    assert_eq!(Balance::default(), Balance(0, 0));
    assert_eq!(BalanceDelta::default(), BalanceDelta(0, 0));
    assert_eq!(
        Effects::default(),
        Effects {
            address_delta: BalanceDelta(0, 0),
            object_delta: BalanceDelta(0, 0),
        }
    );
    let s = State::default();
    assert_eq!(s.address_state, Balance(0, 0));
    assert_eq!(s.object_state, Balance(0, 0));
}
