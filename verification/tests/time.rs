use dw1000::time::{Duration, Instant, TIME_MAX};

#[test]
fn instants_hold_40_bits() {
    assert!(Instant::new(TIME_MAX).is_some());
    assert!(Instant::new(TIME_MAX + 1).is_none());
    assert_eq!(Instant::new(7).unwrap().value(), 7);
}

#[test]
fn duration_since_wraps_around() {
    let early = Instant::new(TIME_MAX - 1).unwrap();
    let late = Instant::new(3).unwrap();
    assert_eq!(late.duration_since(early).value(), 5);
    assert_eq!(early.duration_since(Instant::new(1).unwrap()).value(), TIME_MAX - 2);
}

#[test]
fn adding_durations_wraps_around() {
    let i = Instant::new(TIME_MAX - 1).unwrap();
    assert_eq!((i + Duration::new(5).unwrap()).value(), 3);
    // Adding the time since an earlier instant to it gives the later instant
    let earlier = Instant::new(100).unwrap();
    assert_eq!((earlier + i.duration_since(earlier)).value(), i.value());
    // The time since an instant of a duration added to it is that duration
    let d = Duration::new(TIME_MAX).unwrap();
    assert_eq!((i + d).duration_since(i).value(), TIME_MAX);
}

#[test]
fn durations_from_nanos() {
    assert_eq!(Duration::from_nanos(0).value(), 0);
    assert_eq!(Duration::from_nanos(u32::MAX).value(), u32::MAX as u64 * 64);
    assert!(Duration::new(TIME_MAX).is_some());
    assert!(Duration::new(TIME_MAX + 1).is_none());
}
