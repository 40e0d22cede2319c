use gork_constitution::{
    Account, GorkConstitution, LedgerError, DEFAULT_AUTONOMOUS_LIMIT, DEFAULT_ROYALTY_BPS,
};

fn creator() -> Account {
    Account::parse("creator.near").unwrap()
}

fn stranger() -> Account {
    Account::parse("stranger.near").unwrap()
}

fn fresh() -> GorkConstitution {
    GorkConstitution::new(creator())
}

#[test]
fn new_sets_defaults() {
    let g = fresh();
    let s = g.get_status();
    assert_eq!(s.royalty_bps, 1500);
    assert_eq!(DEFAULT_ROYALTY_BPS, 1500);
    assert_eq!(DEFAULT_AUTONOMOUS_LIMIT, 1_000_000_000_000_000_000_000_000);
    assert_eq!(s.total_revenue, 0);
    assert_eq!(s.total_royalty_paid, 0);
    assert!(!s.paused);
    assert!(!s.self_sustaining);
    assert!(s.creator == creator());
    assert!(g.can_spend(1_000_000_000_000_000_000_000_000));
    assert!(!g.can_spend(1_000_000_000_000_000_000_000_001));
}

#[test]
fn distribute_ten_thousand() {
    let mut g = fresh();
    let p = g.distribute_revenue(10000).unwrap();
    assert_eq!(p.amount, 1500);
    assert!(p.recipient == creator());
    let s = g.get_status();
    assert_eq!(s.total_revenue, 10000);
    assert_eq!(s.total_royalty_paid, 1500);
}

#[test]
fn distribute_seven_rounds_down() {
    let mut g = fresh();
    let p = g.distribute_revenue(7).unwrap();
    assert_eq!(p.amount, 1);
    let s = g.get_status();
    assert_eq!(s.total_revenue, 7);
    assert_eq!(s.total_royalty_paid, 1);
}

#[test]
fn distribute_small_amount_pays_nothing() {
    let mut g = fresh();
    let p = g.distribute_revenue(6).unwrap();
    assert_eq!(p.amount, 0);
    let s = g.get_status();
    assert_eq!(s.total_revenue, 6);
    assert_eq!(s.total_royalty_paid, 0);
}

#[test]
fn distribute_zero() {
    let mut g = fresh();
    let p = g.distribute_revenue(0).unwrap();
    assert_eq!(p.amount, 0);
    assert_eq!(g.get_status().total_revenue, 0);
}

#[test]
fn repeated_distributions_accumulate() {
    let mut g = fresh();
    assert_eq!(g.distribute_revenue(100).unwrap().amount, 15);
    assert_eq!(g.distribute_revenue(100).unwrap().amount, 15);
    let s = g.get_status();
    assert_eq!(s.total_revenue, 200);
    assert_eq!(s.total_royalty_paid, 30);
}

#[test]
fn distribute_largest_amount() {
    let mut g = fresh();
    let p = g.distribute_revenue(u128::MAX).unwrap();
    assert_eq!(p.amount, 51042355038140769519506191114765231718);
    let s = g.get_status();
    assert_eq!(s.total_revenue, u128::MAX);
    assert_eq!(s.total_royalty_paid, 51042355038140769519506191114765231718);
}

#[test]
fn distribute_overflow_is_refused_without_change() {
    let mut g = fresh();
    g.distribute_revenue(u128::MAX - 5).unwrap();
    let before = g.get_status();
    assert!(matches!(
        g.distribute_revenue(6),
        Err(LedgerError::ArithmeticOverflow)
    ));
    let after = g.get_status();
    assert_eq!(after.total_revenue, before.total_revenue);
    assert_eq!(after.total_royalty_paid, before.total_royalty_paid);
    assert!(g.distribute_revenue(5).is_ok());
    assert_eq!(g.get_status().total_revenue, u128::MAX);
}

#[test]
fn distribute_while_paused_fails() {
    let mut g = fresh();
    g.distribute_revenue(100).unwrap();
    g.pause(&creator()).unwrap();
    for amount in [0u128, 1, 10000, u128::MAX] {
        assert!(matches!(
            g.distribute_revenue(amount),
            Err(LedgerError::Paused)
        ));
    }
    let s = g.get_status();
    assert_eq!(s.total_revenue, 100);
    assert_eq!(s.total_royalty_paid, 15);
}

#[test]
fn resume_allows_distribution_again() {
    let mut g = fresh();
    g.pause(&creator()).unwrap();
    g.resume(&creator()).unwrap();
    assert!(!g.get_status().paused);
    assert!(g.distribute_revenue(10000).is_ok());
}

#[test]
fn can_spend_boundary() {
    let mut g = fresh();
    g.set_autonomous_limit(&creator(), 500).unwrap();
    assert!(g.can_spend(0));
    assert!(g.can_spend(500));
    assert!(!g.can_spend(501));
}

#[test]
fn can_spend_refused_while_paused() {
    let mut g = fresh();
    g.pause(&creator()).unwrap();
    assert!(!g.can_spend(0));
    assert!(!g.can_spend(1));
}

#[test]
fn zero_limit_allows_only_zero() {
    let mut g = fresh();
    g.set_autonomous_limit(&creator(), 0).unwrap();
    assert!(g.can_spend(0));
    assert!(!g.can_spend(1));
}

#[test]
fn largest_limit_allows_everything() {
    let mut g = fresh();
    g.set_autonomous_limit(&creator(), u128::MAX).unwrap();
    assert!(g.can_spend(u128::MAX));
}

#[test]
fn stranger_cannot_administer() {
    let mut g = fresh();
    assert!(matches!(g.pause(&stranger()), Err(LedgerError::NotAuthorized)));
    assert!(!g.get_status().paused);
    assert!(matches!(
        g.set_autonomous_limit(&stranger(), 0),
        Err(LedgerError::NotAuthorized)
    ));
    assert!(g.can_spend(1));
    g.pause(&creator()).unwrap();
    assert!(matches!(g.resume(&stranger()), Err(LedgerError::NotAuthorized)));
    assert!(g.get_status().paused);
}

#[test]
fn pause_twice_same_as_once() {
    let mut once = fresh();
    once.pause(&creator()).unwrap();
    let mut twice = fresh();
    twice.pause(&creator()).unwrap();
    assert!(twice.pause(&creator()).is_ok());
    let a = once.get_status();
    let b = twice.get_status();
    assert_eq!(a.paused, b.paused);
    assert!(b.paused);
    assert_eq!(a.total_revenue, b.total_revenue);
    assert_eq!(a.total_royalty_paid, b.total_royalty_paid);
    assert_eq!(once.can_spend(0), twice.can_spend(0));
}

#[test]
fn resume_when_active_changes_nothing() {
    let mut g = fresh();
    assert!(g.resume(&creator()).is_ok());
    assert!(!g.get_status().paused);
}

#[test]
fn status_is_a_snapshot() {
    let mut g = fresh();
    let s = g.get_status();
    g.distribute_revenue(10000).unwrap();
    g.pause(&creator()).unwrap();
    assert_eq!(s.total_revenue, 0);
    assert_eq!(s.total_royalty_paid, 0);
    assert!(!s.paused);
}

#[test]
fn restore_round_trips_stored_fields() {
    let mut g = fresh();
    g.distribute_revenue(10000).unwrap();
    g.set_autonomous_limit(&creator(), 42).unwrap();
    g.pause(&creator()).unwrap();
    let s = g.get_status();
    let r = GorkConstitution::restore(
        s.creator.clone(),
        s.royalty_bps,
        g.autonomous_limit(),
        s.self_sustaining,
        s.total_revenue,
        s.total_royalty_paid,
        s.paused,
    )
    .unwrap();
    let t = r.get_status();
    assert!(t.creator == creator());
    assert_eq!(r.autonomous_limit(), 42);
    assert_eq!(t.total_revenue, 10000);
    assert_eq!(t.total_royalty_paid, 1500);
    assert!(t.paused);
}

#[test]
fn restore_rejects_impossible_state() {
    assert!(GorkConstitution::restore(creator(), 1500, 0, false, 10000, 1500, false).is_some());
    assert!(GorkConstitution::restore(creator(), 1500, 0, false, 10000, 1501, false).is_none());
    assert!(GorkConstitution::restore(creator(), 1000, 0, false, 0, 0, false).is_none());
    assert!(GorkConstitution::restore(creator(), 1500, 0, false, 7, 1, false).is_some());
    assert!(GorkConstitution::restore(creator(), 1500, 0, false, 6, 1, false).is_none());
}
