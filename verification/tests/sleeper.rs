use power_logger::sleeper::Sleeper;
use power_logger::sleeper::SleeperWithPresets;
use power_logger::sleeper::Suspend;

#[test]
fn remaining_is_the_period_less_the_time_spent() {
    let mut s = Sleeper::new(5_000_000, 60_000_000);
    s.set_t0_now_sub_if_unset(100_000_000, 0);
    assert_eq!(s.get_remaining(103_000_000, 10_000_000), 7_000_000);
}

#[test]
fn remaining_stays_within_bounds_for_periods_below_and_above() {
    let mut s = Sleeper::new(5_000_000, 60_000_000);
    assert_eq!(s.get_remaining(1, 1_000_000), 5_000_000);
    assert_eq!(s.get_remaining(1, 0), 5_000_000);
    assert_eq!(s.get_remaining(1, 61_000_000), 60_000_000);
    assert_eq!(s.get_remaining(1, u64::MAX), 60_000_000);
}

#[test]
fn overrun_cycle_still_sleeps_the_minimum() {
    let mut s = Sleeper::new(5_000_000, 60_000_000);
    s.set_t0_now_sub_if_unset(0, 0);
    assert_eq!(s.get_remaining(500_000_000, 10_000_000), 5_000_000);
}

#[test]
fn asking_twice_without_elapsed_time_gives_the_clamped_period_twice() {
    let mut s = Sleeper::new(5_000_000, 60_000_000);
    s.set_t0_now_sub_if_unset(42, 0);
    let first = s.get_remaining(42, 10_000_000);
    let second = s.get_remaining(42, 10_000_000);
    assert_eq!(first, 10_000_000);
    assert!(second <= first);
    assert_eq!(second, 10_000_000);
}

#[test]
fn asking_forgets_the_beginning_of_the_cycle() {
    let mut s = Sleeper::new(1, 100);
    s.set_t0_now_sub_if_unset(1_000, 0);
    assert_eq!(s.get_remaining(1_040, 50), 10);
    // the next cycle starts afresh
    assert_eq!(s.get_remaining(1_040, 50), 50);
}

#[test]
fn beginning_is_backdated_once() {
    let mut s = Sleeper::new(1, 100);
    s.set_t0_now_sub_if_unset(1_000, 30);
    // a second call does not move a beginning that is on record
    s.set_t0_now_sub_if_unset(1_010, 0);
    assert_eq!(s.get_remaining(1_010, 90), 50);
}

#[test]
fn bounds_in_the_wrong_order_give_the_upper_one() {
    let mut s = Sleeper::new(60, 5);
    assert_eq!(s.get_remaining(0, 30), 5);
}

#[test]
fn clock_that_ran_backwards_counts_as_no_time() {
    let mut s = Sleeper::new(1, 100);
    s.set_t0_now_sub_if_unset(1_000, 0);
    assert_eq!(s.get_remaining(900, 50), 50);
}

#[test]
fn suspend_kinds_follow_the_call() {
    let mut s = Sleeper::new(5, 60);
    assert_eq!(s.sleep_up_to(0, 10), Suspend::Light { usec: 10 });
    assert_eq!(s.reset_then_sleep_up_to(0, 10), Suspend::PowerOff { usec: 10 });
}

#[test]
fn presets_pick_their_period() {
    let mut s = SleeperWithPresets::new(5, 60, 10, 20, 40);
    s.set_t0_now_sub_if_unset(100, 100);
    assert_eq!(s.short_sleep(3), Suspend::Light { usec: 7 });
    assert_eq!(s.enter_low_power(3), Suspend::PowerOff { usec: 20 });
    s.set_t0_now_sub_if_unset(10, 0);
    assert_eq!(s.enter_very_low_power(15), Suspend::PowerOff { usec: 35 });
    assert_eq!(s.enter_very_low_power(15), Suspend::PowerOff { usec: 40 });
}

#[test]
fn suspension_tells_its_length() {
    assert_eq!(Suspend::Light { usec: 7 }.usec(), 7);
    assert_eq!(Suspend::PowerOff { usec: 60_000_000 }.usec(), 60_000_000);
}
