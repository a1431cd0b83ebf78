use race_probe::schedule::DelaySchedule;

#[test]
fn starts_at_the_floor() {
    let s = DelaySchedule::new(0, 2000, 10);
    assert_eq!(s.current, 0);
    assert_eq!(s.floor, 0);
    assert_eq!(s.ceiling, 2000);
    assert_eq!(s.step, 10);
}

#[test]
fn advance_climbs_by_one_step() {
    let mut s = DelaySchedule::new(0, 2000, 10);
    s.advance();
    assert_eq!(s.current, 10);
    s.advance();
    assert_eq!(s.current, 20);
}

#[test]
fn advance_wraps_to_the_floor_at_the_ceiling() {
    let mut s = DelaySchedule::new(5, 30, 10);
    s.advance();
    assert_eq!(s.current, 15);
    s.advance();
    assert_eq!(s.current, 25);
    // 25 + 10 would reach past the ceiling: restart at the floor.
    s.advance();
    assert_eq!(s.current, 5);
}

#[test]
fn reset_returns_to_the_floor() {
    let mut s = DelaySchedule::new(100, 1000, 50);
    s.advance();
    s.advance();
    assert_eq!(s.current, 200);
    s.reset();
    assert_eq!(s.current, 100);
}

#[test]
fn current_stays_inside_the_bounds() {
    let mut s = DelaySchedule::new(0, 95, 10);
    for _ in 0..1000 {
        assert!(s.floor <= s.current && s.current < s.ceiling);
        s.advance();
    }
}
