use pico_labs::dimmer::{apply_command, Command, Dimmer, FULL, INITIAL_INTENSITY};

#[test]
fn increase_subtracts_a_step() {
    assert_eq!(apply_command(50, Command::Increase), 40);
    assert_eq!(apply_command(10, Command::Increase), 0);
}

#[test]
fn increase_stops_at_zero() {
    assert_eq!(apply_command(5, Command::Increase), 0);
    assert_eq!(apply_command(0, Command::Increase), 0);
}

#[test]
fn decrease_adds_a_step() {
    assert_eq!(apply_command(50, Command::Decrease), 60);
    assert_eq!(apply_command(90, Command::Decrease), 100);
}

#[test]
fn decrease_stops_at_full() {
    assert_eq!(apply_command(95, Command::Decrease), 100);
    assert_eq!(apply_command(100, Command::Decrease), 100);
    assert_eq!(apply_command(245, Command::Decrease), FULL);
}

#[test]
fn dimmer_starts_at_half() {
    let d = Dimmer::new();
    assert_eq!(d.intensity(), INITIAL_INTENSITY);
    assert_eq!(d.intensity(), 50);
}

#[test]
fn dimmer_follows_presses() {
    let mut d = Dimmer::new();
    for _ in 0..7 {
        d.press(Command::Decrease);
    }
    assert_eq!(d.intensity(), 100);
    assert_eq!(d.press(Command::Increase), 90);
    for _ in 0..12 {
        d.press(Command::Increase);
    }
    assert_eq!(d.intensity(), 0);
    assert_eq!(d.press(Command::Decrease), 10);
}

#[test]
fn decrease_undoes_increase_on_values() {
    for x in 10u8..=100 {
        assert_eq!(apply_command(apply_command(x, Command::Increase), Command::Decrease), x);
    }
    for x in 0u8..=90 {
        assert_eq!(apply_command(apply_command(x, Command::Decrease), Command::Increase), x);
    }
}
