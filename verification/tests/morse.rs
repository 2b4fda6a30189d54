use pico_labs::morse::{
    display_char_plan, display_plan, DisplayAction, DisplayLevels, MorseChar, MorseSignal,
    GAP_MILLIS, SIGNAL_MILLIS, WORD_BREAK_MILLIS,
};
use MorseSignal::{Blank, Dit, Dot};

fn block(s: MorseSignal) -> Vec<DisplayAction> {
    vec![
        DisplayAction::Show(s),
        DisplayAction::WaitMillis(900),
        DisplayAction::Clear,
        DisplayAction::WaitMillis(100),
    ]
}

#[test]
fn known_letters_have_codes() {
    assert_eq!(MorseChar::try_from('h').unwrap().0, [Dot, Dot, Dot, Dot, Blank]);
    assert_eq!(MorseChar::try_from('H').unwrap().0, [Dot, Dot, Dot, Dot, Blank]);
    assert_eq!(MorseChar::try_from('e').unwrap().0, [Dot, Blank, Blank, Blank, Blank]);
    assert_eq!(MorseChar::try_from('L').unwrap().0, [Dot, Dit, Dot, Dot, Blank]);
    assert_eq!(MorseChar::try_from('o').unwrap().0, [Dit, Dit, Dit, Blank, Blank]);
}

#[test]
fn other_characters_have_no_code() {
    assert!(MorseChar::try_from('x').is_err());
    assert!(MorseChar::try_from(' ').is_err());
    assert!(MorseChar::try_from('1').is_err());
    assert!(MorseChar::try_from('ö').is_err());
}

#[test]
fn timings() {
    assert_eq!(SIGNAL_MILLIS, 900);
    assert_eq!(GAP_MILLIS, 100);
    assert_eq!(WORD_BREAK_MILLIS, 3000);
}

#[test]
fn char_plan_shows_each_signal() {
    assert_eq!(display_char_plan('e'), block(Dot));
    let o: Vec<DisplayAction> = [block(Dit), block(Dit), block(Dit)].concat();
    assert_eq!(display_char_plan('o'), o);
    assert_eq!(display_char_plan('z'), vec![]);
    assert_eq!(MorseChar::try_from('l').unwrap().actions(), [block(Dot), block(Dit), block(Dot), block(Dot)].concat());
}

#[test]
fn text_plan_pauses_between_words() {
    let expected: Vec<DisplayAction> = [
        block(Dot),
        vec![DisplayAction::WaitMillis(3000)],
        [block(Dit), block(Dit), block(Dit)].concat(),
    ]
    .concat();
    assert_eq!(display_plan("e?o"), [block(Dot), [block(Dit), block(Dit), block(Dit)].concat()].concat());
    assert_eq!(display_plan("E O"), expected);
    assert_eq!(display_plan(""), vec![]);
}

#[test]
fn hello_takes_seventeen_seconds_of_signals() {
    let plan = display_plan("Hello");
    let shows = plan.iter().filter(|a| matches!(a, DisplayAction::Show(_))).count();
    assert_eq!(shows, 4 + 1 + 4 + 4 + 3);
    let millis: u64 = plan
        .iter()
        .map(|a| if let DisplayAction::WaitMillis(ms) = a { *ms } else { 0 })
        .sum();
    assert_eq!(millis, 16_000);
}

#[test]
fn display_ends_cleared() {
    let mut levels = DisplayLevels::new();
    for action in display_plan("hello world") {
        levels.apply(action);
        if action == DisplayAction::Show(Dit) {
            assert_eq!(levels, DisplayLevels { left: false, middle: false, right: false });
        }
        if action == DisplayAction::Show(Dot) {
            assert_eq!(levels, DisplayLevels { left: true, middle: false, right: true });
        }
    }
    assert_eq!(levels, DisplayLevels { left: true, middle: true, right: true });
}

#[test]
fn plan_of_a_text_is_the_plans_of_its_parts() {
    let mut joined = display_plan("he");
    joined.extend(display_plan("l o"));
    assert_eq!(display_plan("hel o"), joined);
}
