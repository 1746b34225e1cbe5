use game_session::timer::{CBTimesMethod, Timer};

#[test]
fn fresh_timer_is_stopped_and_anchored() {
    let t = Timer::new(Some(10), CBTimesMethod::Multi, 100);
    assert!(!t.get_is_running());
    assert_eq!(t.get_now(), 100);
}

#[test]
fn stopped_timer_never_fires() {
    let mut t = Timer::new(Some(10), CBTimesMethod::Multi, 100);
    assert_eq!(t.update_timer(1000), 0);
    assert_eq!(t.get_now(), 100);
}

#[test]
fn timer_without_interval_is_inert() {
    let mut t = Timer::new(None, CBTimesMethod::Multi, 100);
    t.set_is_running(true);
    assert_eq!(t.update_timer(1000), 0);
    assert_eq!(t.get_now(), 100);
}

#[test]
fn timer_with_zero_interval_is_inert() {
    let mut t = Timer::new(Some(0), CBTimesMethod::Multi, 100);
    t.set_is_running(true);
    assert_eq!(t.update_timer(1000), 0);
    assert_eq!(t.get_now(), 100);
}

#[test]
fn clock_moving_backward_is_a_recoverable_no_op() {
    let mut t = Timer::new(Some(10), CBTimesMethod::Multi, 100);
    t.set_is_running(true);
    assert_eq!(t.update_timer(90), 0);
    assert_eq!(t.get_now(), 100);
    assert!(t.get_is_running());
}

#[test]
fn multi_policy_fires_once_per_owed_interval() {
    // interval d = 10, elapsed = 2*d + 5: fires exactly k = 2.
    let mut t = Timer::new(Some(10), CBTimesMethod::Multi, 100);
    t.set_is_running(true);
    assert_eq!(t.update_timer(125), 2);
    assert_eq!(t.get_now(), 125);
}

#[test]
fn multi_policy_fires_zero_when_under_one_interval() {
    // elapsed = 0*d + 9: fires exactly k = 0, but the poll still succeeds.
    let mut t = Timer::new(Some(10), CBTimesMethod::Multi, 100);
    t.set_is_running(true);
    assert_eq!(t.update_timer(109), 0);
    assert_eq!(t.get_now(), 109);
}

#[test]
fn multi_policy_needs_strictly_more_than_one_interval() {
    // elapsed exactly d does not dispatch.
    let mut t = Timer::new(Some(10), CBTimesMethod::Multi, 100);
    t.set_is_running(true);
    assert_eq!(t.update_timer(110), 0);
    assert_eq!(t.get_now(), 110);
}

#[test]
fn multi_policy_over_successive_polls() {
    let mut t = Timer::new(Some(10), CBTimesMethod::Multi, 100);
    t.set_is_running(true);
    assert_eq!(t.update_timer(125), 2); // 2*10 + 5
    assert_eq!(t.update_timer(134), 0); // 0*10 + 9 since the last poll
    assert_eq!(t.update_timer(145), 1); // 1*10 + 1 since the last poll
    assert_eq!(t.get_now(), 145);
}

#[test]
fn once_policy_fires_once_whatever_is_owed() {
    // elapsed = 3*d + 5, but ONCE fires exactly one callback.
    let mut t = Timer::new(Some(10), CBTimesMethod::ONCE, 100);
    t.set_is_running(true);
    assert_eq!(t.update_timer(135), 1);

    let mut t = Timer::new(Some(10), CBTimesMethod::ONCE, 100);
    t.set_is_running(true);
    assert_eq!(t.update_timer(100 + 987), 1);
}

#[test]
fn fixed_policy_caps_the_owed_count() {
    // owed = 5 intervals, cap = 2: fires exactly min(2, 5) = 2.
    let mut t = Timer::new(Some(10), CBTimesMethod::Fixed(2), 100);
    t.set_is_running(true);
    assert_eq!(t.update_timer(155), 2);
}

#[test]
fn fixed_policy_under_the_cap_fires_owed() {
    // owed = 3 intervals, cap = 8: fires exactly min(8, 3) = 3.
    let mut t = Timer::new(Some(10), CBTimesMethod::Fixed(8), 100);
    t.set_is_running(true);
    assert_eq!(t.update_timer(135), 3);
}

#[test]
fn fixed_policy_with_zero_cap_never_fires() {
    let mut t = Timer::new(Some(10), CBTimesMethod::Fixed(0), 100);
    t.set_is_running(true);
    assert_eq!(t.update_timer(155), 0);
    // The poll still succeeded and moved the reference anchor.
    assert_eq!(t.get_now(), 155);
}

#[test]
fn stopping_only_silences_future_polls() {
    let mut t = Timer::new(Some(10), CBTimesMethod::Multi, 100);
    t.set_is_running(true);
    assert_eq!(t.update_timer(125), 2);
    t.set_is_running(false);
    assert_eq!(t.update_timer(200), 0);
    // Stopping never destroyed the timer: restart and poll again.
    t.set_is_running(true);
    assert_eq!(t.update_timer(150), 2); // 2*10 + 5 past the 125 anchor
}
