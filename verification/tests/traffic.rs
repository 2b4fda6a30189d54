use pico_labs::traffic::{Event, Lights, Phase, TrafficLight};

fn lit(l: Lights) -> (bool, bool, bool) {
    (!l.red, !l.yellow, !l.green)
}

#[test]
fn cycle_without_buttons() {
    let mut t = TrafficLight::new();
    assert_eq!(t.phase(), Phase::Green);
    assert_eq!(t.wait_millis(), 5000);
    assert_eq!(lit(t.lights()), (false, false, true));
    t.on_event(Event::Timeout);
    for k in 0..8u8 {
        assert_eq!(t.phase(), Phase::Yellow(k));
        assert_eq!(t.wait_millis(), 125);
        assert_eq!(lit(t.lights()), (false, k % 2 == 0, false));
        t.on_event(Event::Timeout);
    }
    assert_eq!(t.phase(), Phase::Red);
    assert_eq!(t.wait_millis(), 2000);
    assert_eq!(lit(t.lights()), (true, false, false));
    t.on_event(Event::Timeout);
    assert_eq!(t.phase(), Phase::Green);
    assert_eq!(lit(t.lights()), (false, false, true));
}

#[test]
fn buttons_cut_yellow_short() {
    let mut t = TrafficLight::new();
    t.on_event(Event::BothPressed);
    assert_eq!(t.phase(), Phase::Yellow(0));
    t.on_event(Event::Timeout);
    t.on_event(Event::Timeout);
    assert_eq!(t.phase(), Phase::Yellow(2));
    assert_eq!(lit(t.lights()), (false, true, false));
    t.on_event(Event::BothPressed);
    assert_eq!(t.phase(), Phase::Red);
    assert_eq!(lit(t.lights()), (true, false, false));
    t.on_event(Event::BothPressed);
    assert_eq!(t.phase(), Phase::Green);
}
