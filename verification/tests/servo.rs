use pico_labs::servo::{potentiometer_pwm, servo_pwm, PwmSetup, ServoSweep, SERVO_TOP};

#[test]
fn potentiometer_reading_is_the_compare_value() {
    assert_eq!(potentiometer_pwm(1234), PwmSetup { top: 4095, compare_a: 1234, divider_bits: 16 });
    assert_eq!(potentiometer_pwm(0).compare_a, 0);
}

#[test]
fn servo_runs_at_fifty_hertz() {
    assert_eq!(servo_pwm(), PwmSetup { top: 0xB71A, compare_a: 0, divider_bits: 64 * 16 });
}

#[test]
fn servo_pulse_range() {
    let s = ServoSweep::new(SERVO_TOP);
    assert_eq!(s.min_pulse(), 1171);
    assert_eq!(s.max_pulse(), 5859);
}

#[test]
fn servo_sweeps_out_and_back() {
    let s = ServoSweep::new(SERVO_TOP);
    assert_eq!(s.compare_at(0), 1171);
    assert_eq!(s.compare_at(500), 3517);
    assert_eq!(s.compare_at(999), 5859);
    assert_eq!(s.compare_at(1000), 5859);
    assert_eq!(s.compare_at(1500), 3512);
    assert_eq!(s.compare_at(1999), 1171);
    assert_eq!(s.compare_at(2000), 1171);
    assert_eq!(s.compare_at(2500), 3517);
}

#[test]
fn servo_never_leaves_its_range() {
    let s = ServoSweep::new(SERVO_TOP);
    for ms in (0u64..10_000).step_by(7) {
        let c = s.compare_at(ms);
        assert!(1171 <= c && c <= 5859);
        assert_eq!(c, s.compare_at(ms + 2000));
    }
    let big = ServoSweep::new(u16::MAX);
    assert_eq!(big.compare_at(999), big.max_pulse());
}

#[test]
fn way_back_mirrors_way_out() {
    let s = ServoSweep::new(SERVO_TOP);
    for m in 0u64..1000 {
        assert_eq!(s.compare_at(4000 + m), s.compare_at(4000 + 1000 + (999 - m)));
    }
    assert_eq!(s.compare_at(1499), 3517);
}
