use aa_player::time::{low_i64, low_u64, Duration, Instant, Stopwatch, MAX_NANOS};

#[test]
fn spans_have_units() {
    assert_eq!(Duration::from_secs(2), Duration::from_millis(2_000));
    assert_eq!(Duration::from_millis(2), Duration::from_micros(2_000));
    assert_eq!(Duration::from_micros(2), Duration::from_nanos(2_000));
    let d = Duration::from_nanos(61_999_999_999);
    assert_eq!(d.as_secs(), 61);
    assert_eq!(d.as_millis(), 61_999);
    assert_eq!(d.as_micros(), 61_999_999);
    assert_eq!(d.as_nanos(), 61_999_999_999);
    assert_eq!(Duration::from_ticks(1, 3), Duration::from_nanos(333_333_333));
    assert_eq!(Duration::from_ticks(2, 3), Duration::from_nanos(666_666_667));
    assert!(Duration::zero().is_zero());
}

#[test]
fn spans_are_ordered() {
    let (a, b) = (Duration::from_millis(1), Duration::from_millis(2));
    assert!(a < b && b > a && a <= a && a != b);
    assert_eq!(a.shorter(b), a);
    assert_eq!(b.shorter(a), a);
    assert_eq!(a.max(b), b);
}

#[test]
fn spans_add_and_subtract() {
    let (a, b) = (Duration::from_millis(1), Duration::from_millis(2));
    assert_eq!(a.plus(b), Duration::from_millis(3));
    assert_eq!(b.minus(a), a);
    assert_eq!(a.saturating_minus(b), Duration::zero());
    let longest = Duration::from_secs(u64::MAX).saturating_plus(Duration::from_secs(1));
    assert_eq!(longest.as_nanos(), MAX_NANOS);
    assert_eq!(longest.saturating_plus(longest), longest);
}

#[test]
fn large_spans_wrap_where_bits_run_out() {
    let longest = Duration::from_secs(u64::MAX);
    assert_eq!(longest.micros_u64(), ((u64::MAX as u128) * 1_000_000) as u64);
    assert_eq!(longest.micros_i64(), ((u64::MAX as u128) * 1_000_000) as i64);
    assert_eq!(longest.millis_u64(), ((u64::MAX as u128) * 1_000) as u64);
    for x in [0u128, 1, 1 << 63, (1 << 64) - 1, 1 << 64, u128::MAX] {
        assert_eq!(low_u64(x), x as u64);
        assert_eq!(low_i64(x), x as i64);
    }
}

#[test]
fn points_lie_on_a_line() {
    let t = Instant::at_nanos(5_000);
    assert_eq!(t.plus(Duration::from_nanos(7)).since(t), Duration::from_nanos(7));
    assert_eq!(t.since(t.plus(Duration::from_nanos(7))), Duration::zero());
    let before = t.minus(Duration::from_secs(3));
    assert_eq!(t.since(before), Duration::from_secs(3));
}

#[test]
fn watches_run() {
    let w = Stopwatch::start();
    let a = w.now();
    let mut b = w.now();
    for _ in 0..1_000_000 {
        b = w.now();
        if !b.since(a).is_zero() {
            break;
        }
    }
    assert!(!b.since(a).is_zero());
}

#[test]
fn spans_can_be_too_long_to_add() {
    let longest = Duration::from_secs(u64::MAX).plus(Duration::from_nanos(999_999_999));
    assert!(longest.can_add(Duration::zero()));
    assert!(!longest.can_add(Duration::from_nanos(1)));
    assert!(Duration::from_secs(1).can_add(Duration::from_secs(2)));
}
