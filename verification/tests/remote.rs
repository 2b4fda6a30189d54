use pico_labs::leds::{Led, LedLevels};
use pico_labs::remote::{
    button_message, handle_switch_message, parse_selector_command, parse_switch_command, Button,
    LedSelector, Reply, SelectorCommand, SwitchCommand,
};

#[test]
fn selector_commands_are_parsed() {
    assert_eq!(parse_selector_command("led:toggle"), Some(SelectorCommand::Toggle));
    assert_eq!(parse_selector_command("led:red\n"), Some(SelectorCommand::Choose(Led::Red)));
    assert_eq!(parse_selector_command(" led:blue\r\n"), Some(SelectorCommand::Choose(Led::Blue)));
    assert_eq!(parse_selector_command("\tled:green"), Some(SelectorCommand::Choose(Led::Green)));
    assert_eq!(parse_selector_command("led:yellow"), None);
    assert_eq!(parse_selector_command("LED:RED"), None);
    assert_eq!(parse_selector_command(""), None);
}

#[test]
fn selector_answers_and_updates() {
    let mut s = LedSelector::new();
    assert_eq!(s.chosen, Led::Red);
    assert_eq!(s.levels, LedLevels { red: false, blue: false, green: false });
    assert_eq!(s.handle_message("led:toggle\n"), Reply::Accepted);
    assert_eq!(s.levels, LedLevels { red: true, blue: false, green: false });
    assert_eq!(s.handle_message("led:green"), Reply::Accepted);
    assert_eq!(s.chosen, Led::Green);
    assert_eq!(s.levels, LedLevels { red: true, blue: false, green: false });
    assert_eq!(s.handle_message("led:toggle"), Reply::Accepted);
    assert_eq!(s.levels, LedLevels { red: true, blue: false, green: true });
    let before = s;
    assert_eq!(s.handle_message("hello"), Reply::Rejected);
    assert_eq!(s, before);
}

#[test]
fn replies_have_their_text() {
    assert_eq!(Reply::Accepted.as_str(), "ok\n");
    assert_eq!(Reply::Rejected.as_str(), "error\n");
}

#[test]
fn switch_commands_are_parsed() {
    assert_eq!(parse_switch_command("red:on"), Some(SwitchCommand { led: Led::Red, on: true }));
    assert_eq!(parse_switch_command(" red:off "), Some(SwitchCommand { led: Led::Red, on: false }));
    assert_eq!(parse_switch_command("blue:on\n"), Some(SwitchCommand { led: Led::Blue, on: true }));
    assert_eq!(parse_switch_command("blue:off"), Some(SwitchCommand { led: Led::Blue, on: false }));
    assert_eq!(parse_switch_command("green:on"), Some(SwitchCommand { led: Led::Green, on: true }));
    assert_eq!(parse_switch_command("green:off"), Some(SwitchCommand { led: Led::Green, on: false }));
    assert_eq!(parse_switch_command("green:of"), None);
    assert_eq!(parse_switch_command("red on"), None);
}

#[test]
fn switch_messages_set_levels() {
    let mut levels = LedLevels::all_low();
    assert!(handle_switch_message(&mut levels, "blue:on\r\n"));
    assert_eq!(levels, LedLevels { red: false, blue: true, green: false });
    assert!(handle_switch_message(&mut levels, "blue:on"));
    assert_eq!(levels, LedLevels { red: false, blue: true, green: false });
    assert!(handle_switch_message(&mut levels, "red:on"));
    assert!(handle_switch_message(&mut levels, "blue:off"));
    assert_eq!(levels, LedLevels { red: true, blue: false, green: false });
    assert!(!handle_switch_message(&mut levels, "purple:on"));
    assert_eq!(levels, LedLevels { red: true, blue: false, green: false });
}

#[test]
fn buttons_have_messages() {
    assert_eq!(button_message(Button::Sw4), "button4:pressed");
    assert_eq!(button_message(Button::Sw5), "button5:pressed");
    assert_eq!(button_message(Button::Sw6), "button6:pressed");
}

#[test]
fn levels_toggle_and_set() {
    let mut levels = LedLevels::all_low();
    levels.toggle(Led::Green);
    assert!(levels.level(Led::Green));
    levels.toggle(Led::Green);
    assert!(!levels.level(Led::Green));
    levels.set_level(Led::Red, true);
    assert_eq!(levels, LedLevels { red: true, blue: false, green: false });
}

#[test]
fn toggling_twice_restores_the_levels() {
    let mut s = LedSelector::new();
    s.apply(SelectorCommand::Choose(Led::Blue));
    let before = s;
    s.apply(SelectorCommand::Toggle);
    assert_eq!(s.levels, LedLevels { red: false, blue: true, green: false });
    s.apply(SelectorCommand::Toggle);
    assert_eq!(s, before);
}

#[test]
fn unicode_white_space_is_trimmed() {
    assert_eq!(parse_selector_command("\u{3000}led:red\u{a0}\u{2028}"), Some(SelectorCommand::Choose(Led::Red)));
    assert_eq!(parse_switch_command("\u{85}green:off\u{205f}"), Some(SwitchCommand { led: Led::Green, on: false }));
}
