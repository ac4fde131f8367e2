use tgbr::util::ClockDivider;

#[test]
fn divider_fires_once_every_period() {
    let mut d = ClockDivider::with_period(3);
    let fired: Vec<bool> = (0..9).map(|_| d.tick()).collect();
    assert_eq!(fired, vec![false, false, true, false, false, true, false, false, true]);
}

#[test]
fn divider_with_period_zero_always_fires() {
    let mut d = ClockDivider::new();
    assert!(d.tick());
    assert!(d.tick());
}

#[test]
fn divider_reset_restarts_the_count() {
    let mut d = ClockDivider::with_period(4);
    assert!(!d.tick());
    assert!(!d.tick());
    d.reset();
    assert!(!d.tick());
    assert!(!d.tick());
    assert!(!d.tick());
    assert!(d.tick());
}

#[test]
fn divider_set_period_behaves_like_with_period() {
    let mut a = ClockDivider::new();
    a.set_period(5);
    let mut b = ClockDivider::with_period(5);
    for _ in 0..12 {
        assert_eq!(a.tick(), b.tick());
    }
}
