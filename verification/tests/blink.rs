use pico_labs::blink::{blink_period_ticks, TICK_HZ};

#[test]
fn blink_periods_of_the_exercise() {
    assert_eq!(TICK_HZ, 1_000_000);
    assert_eq!(blink_period_ticks(1), 500_000);
    assert_eq!(blink_period_ticks(3), 166_667);
    assert_eq!(blink_period_ticks(4), 125_000);
    assert_eq!(blink_period_ticks(5), 100_000);
}

#[test]
fn blink_period_never_below_one_tick() {
    assert_eq!(blink_period_ticks(500_000), 1);
    assert_eq!(blink_period_ticks(u64::MAX / 2), 1);
    assert_eq!(blink_period_ticks(333_334), 1);
}

#[test]
fn period_is_the_nearest_tick_count() {
    for freq in 1u64..2000 {
        let hz = 2 * freq;
        let t = blink_period_ticks(freq);
        assert!(t * hz <= TICK_HZ + hz / 2 && TICK_HZ + hz / 2 < (t + 1) * hz);
    }
}
