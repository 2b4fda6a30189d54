use pico_labs::crossing::{Crossing, CrossingLights, CrossingPhase, Wait};

#[test]
fn one_press_runs_the_whole_sequence() {
    let mut c = Crossing::new();
    let start = c.lights();
    assert_eq!(start, CrossingLights { red: true, green: false, blue: true, yellow: true });
    assert_eq!(c.wait(), Wait::ButtonPress);
    c.advance();
    assert_eq!(c.phase(), CrossingPhase::Warning);
    assert_eq!(c.wait(), Wait::Millis(1000));
    assert_eq!(c.lights(), CrossingLights { red: true, green: true, blue: true, yellow: false });
    c.advance();
    for k in 0..5u8 {
        assert_eq!(c.phase(), CrossingPhase::Walking(k));
        assert_eq!(c.wait(), Wait::Millis(500));
        assert_eq!(c.lights(), CrossingLights { red: false, green: true, blue: k % 2 == 1, yellow: true });
        c.advance();
    }
    assert_eq!(c.phase(), CrossingPhase::Idle);
    assert_eq!(c.lights(), start);
}

#[test]
fn cars_see_one_light_and_red_while_walking() {
    let mut c = Crossing::new();
    for _ in 0..21 {
        let l = c.lights();
        let lit = [!l.red, !l.yellow, !l.green].iter().filter(|x| **x).count();
        assert_eq!(lit, 1);
        if !l.blue {
            assert!(!l.red);
        }
        c.advance();
    }
    assert_eq!(c.phase(), CrossingPhase::Idle);
}
