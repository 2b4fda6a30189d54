//! LEDs driven by text commands that arrive over TCP, and the messages that
//! the board sends back.
//!
//! Two protocols are served. The selector protocol picks one LED with
//! `led:red`, `led:blue` or `led:green` and flips it with `led:toggle`,
//! answering `ok` or `error` to each message. The switch protocol sets each
//! LED directly with `red:on`, `red:off` and so on, and the board reports
//! its three buttons as `button4:pressed`, `button5:pressed` and
//! `button6:pressed`. Every incoming message is trimmed of surrounding white
//! space before it is compared.

use vstd::prelude::*;

use crate::leds::{Led, LedLevels};
use crate::text::{all_white_space, chars_of, trim, trim_recovers_padded_word, trimmed_equals};

verus! {

/// A message of the selector protocol.
#[derive(Clone, Copy, Debug, PartialEq, Eq, Structural)]
pub enum SelectorCommand {
    /// Flip the chosen LED.
    Toggle,
    /// Make this LED the chosen one.
    Choose(Led),
}

/// The answer to a message of the selector protocol.
#[derive(Clone, Copy, Debug, PartialEq, Eq, Structural)]
pub enum Reply {
    Accepted,
    Rejected,
}

/// The selector command that the text `s` holds, if any.
pub open spec fn selector_command_of(s: Seq<char>) -> Option<SelectorCommand> {
    let t = trim(s);
    if t == "led:toggle"@ {
        Some(SelectorCommand::Toggle)
    } else if t == "led:red"@ {
        Some(SelectorCommand::Choose(Led::Red))
    } else if t == "led:blue"@ {
        Some(SelectorCommand::Choose(Led::Blue))
    } else if t == "led:green"@ {
        Some(SelectorCommand::Choose(Led::Green))
    } else {
        None
    }
}

/// The text that spells `cmd`.
pub open spec fn selector_keyword(cmd: SelectorCommand) -> Seq<char> {
    match cmd {
        SelectorCommand::Toggle => "led:toggle"@,
        SelectorCommand::Choose(Led::Red) => "led:red"@,
        SelectorCommand::Choose(Led::Blue) => "led:blue"@,
        SelectorCommand::Choose(Led::Green) => "led:green"@,
    }
}

/// Reads a message of the selector protocol.
pub fn parse_selector_command(msg: &str) -> (r: Option<SelectorCommand>)
    ensures
        r == selector_command_of(msg@),
{
    let chars = chars_of(msg);
    if trimmed_equals(&chars, &chars_of("led:toggle")) {
        Some(SelectorCommand::Toggle)
    } else if trimmed_equals(&chars, &chars_of("led:red")) {
        Some(SelectorCommand::Choose(Led::Red))
    } else if trimmed_equals(&chars, &chars_of("led:blue")) {
        Some(SelectorCommand::Choose(Led::Blue))
    } else if trimmed_equals(&chars, &chars_of("led:green")) {
        Some(SelectorCommand::Choose(Led::Green))
    } else {
        None
    }
}

/// The text of a reply.
pub open spec fn reply_text(r: Reply) -> Seq<char> {
    match r {
        Reply::Accepted => "ok\n"@,
        Reply::Rejected => "error\n"@,
    }
}

impl Reply {
    /// The text sent back for this reply.
    pub fn as_str(&self) -> (s: &'static str)
        ensures
            s@ == reply_text(*self),
    {
        match self {
            Reply::Accepted => "ok\n",
            Reply::Rejected => "error\n",
        }
    }
}

/// The LED levels of the selector and the LED that `led:toggle` flips.
#[derive(Clone, Copy, Debug, PartialEq, Eq, Structural)]
pub struct LedSelector {
    pub chosen: Led,
    pub levels: LedLevels,
}

/// The selector after `cmd`.
pub open spec fn selector_after(s: LedSelector, cmd: SelectorCommand) -> LedSelector {
    match cmd {
        SelectorCommand::Toggle => LedSelector {
            levels: s.levels.with_level(s.chosen, !s.levels.level_of(s.chosen)),
            ..s
        },
        SelectorCommand::Choose(led) => LedSelector { chosen: led, ..s },
    }
}

impl LedSelector {
    /// All pins low, with the red LED chosen.
    pub fn new() -> (s: LedSelector)
        ensures
            s.chosen == Led::Red,
            s.levels == (LedLevels { red: false, blue: false, green: false }),
    {
        LedSelector { chosen: Led::Red, levels: LedLevels::all_low() }
    }

    /// Carries out one command.
    pub fn apply(&mut self, cmd: SelectorCommand)
        ensures
            *final(self) == selector_after(*old(self), cmd),
    {
        match cmd {
            SelectorCommand::Toggle => {
                let led = self.chosen;
                self.levels.toggle(led);
            },
            SelectorCommand::Choose(led) => {
                self.chosen = led;
            },
        }
    }

    /// Handles one message: a known command is carried out and answered
    /// `Accepted`; anything else changes nothing and is answered `Rejected`.
    pub fn handle_message(&mut self, msg: &str) -> (r: Reply)
        ensures
            match selector_command_of(msg@) {
                Some(cmd) => r == Reply::Accepted && *final(self) == selector_after(*old(self), cmd),
                None => r == Reply::Rejected && *final(self) == *old(self),
            },
    {
        match parse_selector_command(msg) {
            Some(cmd) => {
                self.apply(cmd);
                Reply::Accepted
            },
            None => Reply::Rejected,
        }
    }
}

/// A message of the switch protocol: drive `led` high (`on`) or low.
#[derive(Clone, Copy, Debug, PartialEq, Eq, Structural)]
pub struct SwitchCommand {
    pub led: Led,
    pub on: bool,
}

/// The switch command that the text `s` holds, if any.
pub open spec fn switch_command_of(s: Seq<char>) -> Option<SwitchCommand> {
    let t = trim(s);
    if t == "red:on"@ {
        Some(SwitchCommand { led: Led::Red, on: true })
    } else if t == "red:off"@ {
        Some(SwitchCommand { led: Led::Red, on: false })
    } else if t == "blue:on"@ {
        Some(SwitchCommand { led: Led::Blue, on: true })
    } else if t == "blue:off"@ {
        Some(SwitchCommand { led: Led::Blue, on: false })
    } else if t == "green:on"@ {
        Some(SwitchCommand { led: Led::Green, on: true })
    } else if t == "green:off"@ {
        Some(SwitchCommand { led: Led::Green, on: false })
    } else {
        None
    }
}

/// The text that spells `cmd`.
pub open spec fn switch_keyword(cmd: SwitchCommand) -> Seq<char> {
    match (cmd.led, cmd.on) {
        (Led::Red, true) => "red:on"@,
        (Led::Red, false) => "red:off"@,
        (Led::Blue, true) => "blue:on"@,
        (Led::Blue, false) => "blue:off"@,
        (Led::Green, true) => "green:on"@,
        (Led::Green, false) => "green:off"@,
    }
}

/// Reads a message of the switch protocol.
pub fn parse_switch_command(msg: &str) -> (r: Option<SwitchCommand>)
    ensures
        r == switch_command_of(msg@),
{
    let chars = chars_of(msg);
    if trimmed_equals(&chars, &chars_of("red:on")) {
        Some(SwitchCommand { led: Led::Red, on: true })
    } else if trimmed_equals(&chars, &chars_of("red:off")) {
        Some(SwitchCommand { led: Led::Red, on: false })
    } else if trimmed_equals(&chars, &chars_of("blue:on")) {
        Some(SwitchCommand { led: Led::Blue, on: true })
    } else if trimmed_equals(&chars, &chars_of("blue:off")) {
        Some(SwitchCommand { led: Led::Blue, on: false })
    } else if trimmed_equals(&chars, &chars_of("green:on")) {
        Some(SwitchCommand { led: Led::Green, on: true })
    } else if trimmed_equals(&chars, &chars_of("green:off")) {
        Some(SwitchCommand { led: Led::Green, on: false })
    } else {
        None
    }
}

/// The levels after the switch message `s`: a known command sets its LED,
/// anything else changes nothing.
pub open spec fn levels_after_switch(levels: LedLevels, s: Seq<char>) -> LedLevels {
    match switch_command_of(s) {
        Some(cmd) => levels.with_level(cmd.led, cmd.on),
        None => levels,
    }
}

/// Handles one message of the switch protocol and says whether it was known.
pub fn handle_switch_message(levels: &mut LedLevels, msg: &str) -> (known: bool)
    ensures
        known == switch_command_of(msg@) is Some,
        *final(levels) == levels_after_switch(*old(levels), msg@),
{
    match parse_switch_command(msg) {
        Some(cmd) => {
            levels.set_level(cmd.led, cmd.on);
            true
        },
        None => false,
    }
}

/// One of the three buttons that the switch protocol reports.
#[derive(Clone, Copy, Debug, PartialEq, Eq, Structural)]
pub enum Button {
    Sw4,
    Sw5,
    Sw6,
}

/// The text that reports a press of `b`.
pub open spec fn button_text(b: Button) -> Seq<char> {
    match b {
        Button::Sw4 => "button4:pressed"@,
        Button::Sw5 => "button5:pressed"@,
        Button::Sw6 => "button6:pressed"@,
    }
}

/// The message sent when `b` is pressed.
pub fn button_message(b: Button) -> (s: &'static str)
    ensures
        s@ == button_text(b),
{
    match b {
        Button::Sw4 => "button4:pressed",
        Button::Sw5 => "button5:pressed",
        Button::Sw6 => "button6:pressed",
    }
}

/// A selector command is recognized whatever white space surrounds it.
pub proof fn padded_selector_commands_are_recognized(
    pre: Seq<char>,
    cmd: SelectorCommand,
    suf: Seq<char>,
)
    requires
        all_white_space(pre),
        all_white_space(suf),
    ensures
        selector_command_of(pre + selector_keyword(cmd) + suf) == Some(cmd),
{
    reveal_strlit("led:toggle");
    reveal_strlit("led:red");
    reveal_strlit("led:blue");
    reveal_strlit("led:green");
    trim_recovers_padded_word(pre, selector_keyword(cmd), suf);
}

/// A switch command is recognized whatever white space surrounds it.
pub proof fn padded_switch_commands_are_recognized(pre: Seq<char>, cmd: SwitchCommand, suf: Seq<char>)
    requires
        all_white_space(pre),
        all_white_space(suf),
    ensures
        switch_command_of(pre + switch_keyword(cmd) + suf) == Some(cmd),
{
    reveal_strlit("red:on");
    reveal_strlit("red:off");
    reveal_strlit("blue:on");
    reveal_strlit("blue:off");
    reveal_strlit("green:on");
    reveal_strlit("green:off");
    trim_recovers_padded_word(pre, switch_keyword(cmd), suf);
    let t = trim(pre + switch_keyword(cmd) + suf);
    if cmd.led != Led::Red || !cmd.on {
        assert(t != "red:on"@) by {
            if t.len() == 6 {
                assert(t[0] != 'r' || t[5] != 'n');
            }
        }
    }
    if cmd.led != Led::Red || cmd.on {
        assert(t != "red:off"@) by {
            if t.len() == 7 {
                assert(t[0] != 'r' || t[6] != 'f');
            }
        }
    }
    if cmd.led != Led::Blue || !cmd.on {
        assert(t != "blue:on"@) by {
            if t.len() == 7 {
                assert(t[0] != 'b' || t[6] != 'n');
            }
        }
    }
    if cmd.led != Led::Blue || cmd.on {
        assert(t != "blue:off"@) by {
            if t.len() == 8 {
                assert(t[0] != 'b' || t[7] != 'f');
            }
        }
    }
    if cmd.led != Led::Green || !cmd.on {
        assert(t != "green:on"@) by {
            if t.len() == 8 {
                assert(t[0] != 'g' || t[7] != 'n');
            }
        }
    }
}

/// Toggling twice gives back the levels that were there before.
pub proof fn toggle_twice_restores(s: LedSelector)
    ensures
        selector_after(selector_after(s, SelectorCommand::Toggle), SelectorCommand::Toggle) == s,
{
}

/// Choosing an LED changes no level; toggling changes the chosen LED's
/// level and no other.
pub proof fn commands_touch_only_their_led(s: LedSelector, chosen: Led, other: Led)
    requires
        other != s.chosen,
    ensures
        selector_after(s, SelectorCommand::Choose(chosen)).levels == s.levels,
        selector_after(s, SelectorCommand::Choose(chosen)).chosen == chosen,
        selector_after(s, SelectorCommand::Toggle).levels.level_of(s.chosen) != s.levels.level_of(
            s.chosen,
        ),
        selector_after(s, SelectorCommand::Toggle).levels.level_of(other) == s.levels.level_of(
            other,
        ),
        selector_after(s, SelectorCommand::Toggle).chosen == s.chosen,
{
}

/// A switch message sets its LED to the level it names and leaves the other
/// LEDs alone; sending the same message again changes nothing more.
pub proof fn switch_messages_set_one_led(levels: LedLevels, msg: Seq<char>, other: Led)
    ensures
        switch_command_of(msg) matches Some(cmd) ==> {
            &&& levels_after_switch(levels, msg).level_of(cmd.led) == cmd.on
            &&& other != cmd.led ==> levels_after_switch(levels, msg).level_of(other)
                == levels.level_of(other)
        },
        levels_after_switch(levels_after_switch(levels, msg), msg) == levels_after_switch(
            levels,
            msg,
        ),
{
}

/// The selector protocol knows exactly its four keywords: a message is read
/// as a command if and only if, trimmed, it is that command's keyword, so
/// any other message is rejected.
pub proof fn selector_accepts_exactly_its_keywords(s: Seq<char>, cmd: SelectorCommand)
    ensures
        selector_command_of(s) == Some(cmd) <==> trim(s) == selector_keyword(cmd),
        selector_command_of(s) is None <==> (forall|c: SelectorCommand|
            trim(s) != #[trigger] selector_keyword(c)),
{
    reveal_strlit("led:toggle");
    reveal_strlit("led:red");
    reveal_strlit("led:blue");
    reveal_strlit("led:green");
    if selector_command_of(s) is None {
        assert forall|c: SelectorCommand| trim(s) != #[trigger] selector_keyword(c) by {
            match c {
                SelectorCommand::Toggle => {},
                SelectorCommand::Choose(Led::Red) => {},
                SelectorCommand::Choose(Led::Blue) => {},
                SelectorCommand::Choose(Led::Green) => {},
            }
        }
    } else {
        let c = selector_command_of(s)->0;
        assert(trim(s) == selector_keyword(c));
    }
}

proof fn switch_keywords_differ(a: SwitchCommand, b: SwitchCommand)
    requires
        a != b,
    ensures
        switch_keyword(a) != switch_keyword(b),
{
    reveal_strlit("red:on");
    reveal_strlit("red:off");
    reveal_strlit("blue:on");
    reveal_strlit("blue:off");
    reveal_strlit("green:on");
    reveal_strlit("green:off");
    let ka = switch_keyword(a);
    let kb = switch_keyword(b);
    if ka.len() == kb.len() {
        assert(ka[0] != kb[0] || ka[ka.len() - 1] != kb[kb.len() - 1]);
    }
}

/// The switch protocol knows exactly its six keywords: a message is read as
/// a command if and only if, trimmed, it is that command's keyword, so any
/// other message sets no LED.
pub proof fn switch_accepts_exactly_its_keywords(s: Seq<char>, cmd: SwitchCommand)
    ensures
        switch_command_of(s) == Some(cmd) <==> trim(s) == switch_keyword(cmd),
        switch_command_of(s) is None <==> (forall|c: SwitchCommand|
            trim(s) != #[trigger] switch_keyword(c)),
{
    reveal_strlit("red:on");
    reveal_strlit("red:off");
    reveal_strlit("blue:on");
    reveal_strlit("blue:off");
    reveal_strlit("green:on");
    reveal_strlit("green:off");
    if trim(s) == switch_keyword(cmd) {
        switch_accepts_exactly_its_keywords_helper(s, cmd);
    }
    if let Some(c) = switch_command_of(s) {
        assert(trim(s) == switch_keyword(c));
        if c != cmd {
            switch_keywords_differ(c, cmd);
        }
    }
    if switch_command_of(s) is None {
        assert forall|c: SwitchCommand| trim(s) != #[trigger] switch_keyword(c) by {
            if trim(s) == switch_keyword(c) {
                switch_accepts_exactly_its_keywords_helper(s, c);
            }
        }
    }
}

proof fn switch_accepts_exactly_its_keywords_helper(s: Seq<char>, c: SwitchCommand)
    requires
        trim(s) == switch_keyword(c),
    ensures
        switch_command_of(s) == Some(c),
{
    reveal_strlit("red:on");
    reveal_strlit("red:off");
    reveal_strlit("blue:on");
    reveal_strlit("blue:off");
    reveal_strlit("green:on");
    reveal_strlit("green:off");
    let t = trim(s);
    if c.led != Led::Red || !c.on {
        switch_keywords_differ(c, SwitchCommand { led: Led::Red, on: true });
    }
    if c.led != Led::Red || c.on {
        switch_keywords_differ(c, SwitchCommand { led: Led::Red, on: false });
    }
    if c.led != Led::Blue || !c.on {
        switch_keywords_differ(c, SwitchCommand { led: Led::Blue, on: true });
    }
    if c.led != Led::Blue || c.on {
        switch_keywords_differ(c, SwitchCommand { led: Led::Blue, on: false });
    }
    if c.led != Led::Green || !c.on {
        switch_keywords_differ(c, SwitchCommand { led: Led::Green, on: true });
    }
}

} // verus!
