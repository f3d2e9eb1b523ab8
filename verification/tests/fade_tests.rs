use smartonoff::fade::{
    duty_at, step_period_for, FadeDirection, DEFAULT_PAUSE_MS, DEFAULT_STEP_COUNT,
    DEFAULT_STEP_PERIOD_MS,
};

fn sweep(max_duty: u32, step_count: u32, direction: FadeDirection) -> Vec<u32> {
    let mut duties = Vec::new();
    for step in 0..=step_count {
        duties.push(duty_at(max_duty, step_count, step, direction));
    }
    duties
}

#[test]
fn ascending_duty_follows_the_formula() {
    assert_eq!(duty_at(1023, 33, 0, FadeDirection::Ascending), 0);
    assert_eq!(duty_at(1023, 33, 1, FadeDirection::Ascending), 31);
    assert_eq!(duty_at(1023, 33, 2, FadeDirection::Ascending), 62);
    assert_eq!(duty_at(1023, 33, 17, FadeDirection::Ascending), 527);
    assert_eq!(duty_at(1023, 33, 32, FadeDirection::Ascending), 992);
    assert_eq!(duty_at(1023, 33, 33, FadeDirection::Ascending), 1023);
}

#[test]
fn descending_duty_follows_the_formula() {
    assert_eq!(duty_at(1023, 33, 0, FadeDirection::Descending), 1023);
    assert_eq!(duty_at(1023, 33, 1, FadeDirection::Descending), 992);
    assert_eq!(duty_at(1023, 33, 16, FadeDirection::Descending), 527);
    assert_eq!(duty_at(1023, 33, 32, FadeDirection::Descending), 31);
    assert_eq!(duty_at(1023, 33, 33, FadeDirection::Descending), 0);
}

#[test]
fn duty_rounds_down() {
    assert_eq!(duty_at(10, 3, 1, FadeDirection::Ascending), 3);
    assert_eq!(duty_at(10, 3, 2, FadeDirection::Ascending), 6);
    assert_eq!(duty_at(10, 3, 1, FadeDirection::Descending), 6);
    assert_eq!(duty_at(10, 3, 2, FadeDirection::Descending), 3);
}

#[test]
fn duty_of_the_largest_inputs_does_not_overflow() {
    assert_eq!(duty_at(u32::MAX, u32::MAX, u32::MAX, FadeDirection::Ascending), u32::MAX);
    assert_eq!(duty_at(u32::MAX, u32::MAX, 0, FadeDirection::Descending), u32::MAX);
    assert_eq!(duty_at(u32::MAX, 3, 2, FadeDirection::Ascending), 2_863_311_530);
    assert_eq!(duty_at(u32::MAX, 1, 1, FadeDirection::Ascending), u32::MAX);
}

#[test]
fn a_single_step_fade_has_the_two_extremes() {
    assert_eq!(sweep(255, 1, FadeDirection::Ascending), vec![0, 255]);
    assert_eq!(sweep(255, 1, FadeDirection::Descending), vec![255, 0]);
}

#[test]
fn ascending_half_cycle_rises_from_zero_to_max() {
    let duties = sweep(8191, 33, FadeDirection::Ascending);
    assert_eq!(duties.len(), 34);
    assert_eq!(duties[0], 0);
    assert_eq!(duties[33], 8191);
    for pair in duties.windows(2) {
        assert!(pair[0] < pair[1]);
    }
}

#[test]
fn descending_half_cycle_falls_from_max_to_zero() {
    let duties = sweep(8191, 33, FadeDirection::Descending);
    assert_eq!(duties.len(), 34);
    assert_eq!(duties[0], 8191);
    assert_eq!(duties[33], 0);
    for pair in duties.windows(2) {
        assert!(pair[0] > pair[1]);
    }
}

#[test]
fn descending_half_cycle_mirrors_the_ascending_one() {
    let mut up = sweep(1000, 7, FadeDirection::Ascending);
    let down = sweep(1000, 7, FadeDirection::Descending);
    up.reverse();
    assert_eq!(up, down);
}

#[test]
fn half_cycle_values_are_distinct_when_max_reaches_step_count() {
    let duties = sweep(33, 33, FadeDirection::Ascending);
    let expected: Vec<u32> = (0..=33).collect();
    assert_eq!(duties, expected);
}

#[test]
fn half_cycle_repeats_values_when_max_is_below_step_count() {
    let duties = sweep(1, 33, FadeDirection::Ascending);
    assert_eq!(duties.len(), 34);
    assert!(duties[..33].iter().all(|duty| *duty == 0));
    assert_eq!(duties[33], 1);
    for pair in duties.windows(2) {
        assert!(pair[0] <= pair[1]);
    }
}

#[test]
fn a_dark_actuator_stays_dark() {
    assert!(sweep(0, 5, FadeDirection::Ascending).iter().all(|duty| *duty == 0));
    assert!(sweep(0, 5, FadeDirection::Descending).iter().all(|duty| *duty == 0));
}

#[test]
fn step_period_divides_the_half_cycle() {
    assert_eq!(step_period_for(2000, 33), 60);
    assert_eq!(step_period_for(2000, 100), 20);
    assert_eq!(step_period_for(5, 10), 0);
    assert_eq!(step_period_for(u32::MAX, 1), u32::MAX);
}

#[test]
fn defaults_are_as_documented() {
    assert_eq!(DEFAULT_STEP_COUNT, 33);
    assert_eq!(DEFAULT_STEP_PERIOD_MS, 20);
    assert_eq!(DEFAULT_PAUSE_MS, 500);
}
