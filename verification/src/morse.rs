//! Morse code shown on three LEDs.
//!
//! A dot lights the middle LED, a dash (`Dit`) lights all three. Each signal
//! is shown for 900 ms and followed by a 100 ms gap with the LEDs cleared; a
//! space between words is a 3 s pause. Characters without a code are
//! skipped. The LEDs are wired active low: a low pin lights an LED.

use vstd::prelude::*;

use crate::text::chars_of;

verus! {

/// One slot of a Morse character.
#[derive(Clone, Copy, Debug, PartialEq, Eq, Structural)]
pub enum MorseSignal {
    /// A long signal, shown on all three LEDs.
    Dit,
    /// A short signal, shown on the middle LED.
    Dot,
    /// An unused slot.
    Blank,
}

/// The five signal slots of a character.
pub struct MorseChar(pub [MorseSignal; 5]);

/// The signals of `c`, for the letters the display knows, in either case.
pub open spec fn morse_code(c: char) -> Option<Seq<MorseSignal>> {
    if c == 'h' || c == 'H' {
        Some(
            seq![MorseSignal::Dot, MorseSignal::Dot, MorseSignal::Dot, MorseSignal::Dot, MorseSignal::Blank],
        )
    } else if c == 'e' || c == 'E' {
        Some(
            seq![MorseSignal::Dot, MorseSignal::Blank, MorseSignal::Blank, MorseSignal::Blank, MorseSignal::Blank],
        )
    } else if c == 'l' || c == 'L' {
        Some(
            seq![MorseSignal::Dot, MorseSignal::Dit, MorseSignal::Dot, MorseSignal::Dot, MorseSignal::Blank],
        )
    } else if c == 'o' || c == 'O' {
        Some(
            seq![MorseSignal::Dit, MorseSignal::Dit, MorseSignal::Dit, MorseSignal::Blank, MorseSignal::Blank],
        )
    } else {
        None
    }
}

impl MorseChar {
    /// The code of `value`, compared without regard to ASCII case; `Err`
    /// for a character that has none.
    pub fn try_from(value: char) -> (r: Result<MorseChar, ()>)
        ensures
            match morse_code(value) {
                Some(signals) => r matches Ok(m) && m.0@ == signals,
                None => r is Err,
            },
    {
        let signals = if value == 'h' || value == 'H' {
            [
                MorseSignal::Dot,
                MorseSignal::Dot,
                MorseSignal::Dot,
                MorseSignal::Dot,
                MorseSignal::Blank,
            ]
        } else if value == 'e' || value == 'E' {
            [
                MorseSignal::Dot,
                MorseSignal::Blank,
                MorseSignal::Blank,
                MorseSignal::Blank,
                MorseSignal::Blank,
            ]
        } else if value == 'l' || value == 'L' {
            [
                MorseSignal::Dot,
                MorseSignal::Dit,
                MorseSignal::Dot,
                MorseSignal::Dot,
                MorseSignal::Blank,
            ]
        } else if value == 'o' || value == 'O' {
            [
                MorseSignal::Dit,
                MorseSignal::Dit,
                MorseSignal::Dit,
                MorseSignal::Blank,
                MorseSignal::Blank,
            ]
        } else {
            return Err(());
        };
        assert(signals@ =~= morse_code(value)->0);
        Ok(MorseChar(signals))
    }
}

/// How long a signal stays lit, in milliseconds.
pub const SIGNAL_MILLIS: u64 = 900;

/// The gap after each signal, in milliseconds.
pub const GAP_MILLIS: u64 = 100;

/// The pause for a space between words, in milliseconds.
pub const WORD_BREAK_MILLIS: u64 = 3000;

/// One thing the display does.
#[derive(Clone, Copy, Debug, PartialEq, Eq, Structural)]
pub enum DisplayAction {
    /// Drive low the LEDs of a signal: the middle one for a dot, all three
    /// for a dash. The others keep their level.
    Show(MorseSignal),
    /// Drive all three LEDs high.
    Clear,
    /// Wait this many milliseconds.
    WaitMillis(u64),
}

/// The actions that show one signal.
pub open spec fn signal_actions(signal: MorseSignal) -> Seq<DisplayAction> {
    match signal {
        MorseSignal::Blank => Seq::empty(),
        _ => seq![
            DisplayAction::Show(signal),
            DisplayAction::WaitMillis(SIGNAL_MILLIS),
            DisplayAction::Clear,
            DisplayAction::WaitMillis(GAP_MILLIS),
        ],
    }
}

/// The actions that show `signals`, one after the other.
pub open spec fn signals_actions(signals: Seq<MorseSignal>) -> Seq<DisplayAction>
    decreases signals.len(),
{
    if signals.len() == 0 {
        Seq::empty()
    } else {
        signals_actions(signals.drop_last()) + signal_actions(signals.last())
    }
}

/// The actions that show the character `c`: nothing when it has no code.
pub open spec fn char_actions(c: char) -> Seq<DisplayAction> {
    match morse_code(c) {
        Some(signals) => signals_actions(signals),
        None => Seq::empty(),
    }
}

/// The actions that show `text`: a pause for each space, the code of every
/// other character.
pub open spec fn text_actions(text: Seq<char>) -> Seq<DisplayAction>
    decreases text.len(),
{
    if text.len() == 0 {
        Seq::empty()
    } else {
        text_actions(text.drop_last()) + if text.last() == ' ' {
            seq![DisplayAction::WaitMillis(WORD_BREAK_MILLIS)]
        } else {
            char_actions(text.last())
        }
    }
}

fn push_signal_actions(actions: &mut Vec<DisplayAction>, signal: MorseSignal)
    ensures
        final(actions)@ == old(actions)@ + signal_actions(signal),
{
    match signal {
        MorseSignal::Blank => {},
        _ => {
            actions.push(DisplayAction::Show(signal));
            actions.push(DisplayAction::WaitMillis(SIGNAL_MILLIS));
            actions.push(DisplayAction::Clear);
            actions.push(DisplayAction::WaitMillis(GAP_MILLIS));
        },
    }
    assert(final(actions)@ =~= old(actions)@ + signal_actions(signal));
}

fn push_char_actions(actions: &mut Vec<DisplayAction>, c: char)
    ensures
        final(actions)@ == old(actions)@ + char_actions(c),
{
    let ghost start = actions@;
    match MorseChar::try_from(c) {
        Ok(morse) => {
            let mut i: usize = 0;
            while i < 5
                invariant
                    0 <= i <= 5,
                    morse.0@.len() == 5,
                    actions@ == start + signals_actions(morse.0@.take(i as int)),
                decreases 5 - i,
            {
                assert(morse.0@.take(i + 1).drop_last() =~= morse.0@.take(i as int));
                push_signal_actions(actions, morse.0[i]);
                assert(start + signals_actions(morse.0@.take(i + 1)) =~= start
                    + signals_actions(morse.0@.take(i as int)) + signal_actions(morse.0@[i as int]));
                i = i + 1;
            }
            assert(morse.0@.take(5) =~= morse.0@);
        },
        Err(()) => {
            assert(actions@ =~= start + char_actions(c));
        },
    }
}

impl MorseChar {
    /// The actions that show this character.
    pub fn actions(&self) -> (v: Vec<DisplayAction>)
        ensures
            v@ == signals_actions(self.0@),
    {
        let mut v: Vec<DisplayAction> = Vec::new();
        let mut i: usize = 0;
        while i < 5
            invariant
                0 <= i <= 5,
                self.0@.len() == 5,
                v@ == signals_actions(self.0@.take(i as int)),
            decreases 5 - i,
        {
            assert(self.0@.take(i + 1).drop_last() =~= self.0@.take(i as int));
            push_signal_actions(&mut v, self.0[i]);
            i = i + 1;
        }
        assert(self.0@.take(5) =~= self.0@);
        v
    }
}

/// The actions that show the character `c`; none when it has no code.
pub fn display_char_plan(c: char) -> (v: Vec<DisplayAction>)
    ensures
        v@ == char_actions(c),
        morse_code(c) matches Some(signals) ==> v@ == signals_actions(signals),
        morse_code(c) is None ==> v@.len() == 0,
{
    let mut v: Vec<DisplayAction> = Vec::new();
    push_char_actions(&mut v, c);
    assert(v@ =~= char_actions(c));
    v
}

/// The actions that show `text`.
pub fn display_plan(text: &str) -> (v: Vec<DisplayAction>)
    ensures
        v@ == text_actions(text@),
{
    let chars = chars_of(text);
    let mut v: Vec<DisplayAction> = Vec::new();
    let mut i: usize = 0;
    while i < chars.len()
        invariant
            i <= chars@.len(),
            chars@ == text@,
            v@ == text_actions(chars@.take(i as int)),
        decreases chars.len() - i,
    {
        let c = chars[i];
        assert(chars@.take(i + 1).drop_last() =~= chars@.take(i as int));
        if c == ' ' {
            v.push(DisplayAction::WaitMillis(WORD_BREAK_MILLIS));
        } else {
            push_char_actions(&mut v, c);
        }
        i = i + 1;
    }
    assert(chars@.take(chars@.len() as int) =~= chars@);
    v
}

/// The levels of the left, middle and right LEDs; `true` is a high pin,
/// which leaves an LED dark.
#[derive(Clone, Copy, Debug, PartialEq, Eq, Structural)]
pub struct DisplayLevels {
    pub left: bool,
    pub middle: bool,
    pub right: bool,
}

/// All three LEDs dark.
pub open spec fn cleared() -> DisplayLevels {
    DisplayLevels { left: true, middle: true, right: true }
}

/// The levels after `action`.
pub open spec fn after_action(levels: DisplayLevels, action: DisplayAction) -> DisplayLevels {
    match action {
        DisplayAction::Show(MorseSignal::Dot) => DisplayLevels { middle: false, ..levels },
        DisplayAction::Show(MorseSignal::Dit) => DisplayLevels {
            left: false,
            middle: false,
            right: false,
        },
        DisplayAction::Show(MorseSignal::Blank) => levels,
        DisplayAction::Clear => cleared(),
        DisplayAction::WaitMillis(_) => levels,
    }
}

/// The levels after `actions`, performed in order.
pub open spec fn after_actions(levels: DisplayLevels, actions: Seq<DisplayAction>) -> DisplayLevels
    decreases actions.len(),
{
    if actions.len() == 0 {
        levels
    } else {
        after_action(after_actions(levels, actions.drop_last()), actions.last())
    }
}

impl DisplayLevels {
    /// All three LEDs dark, as the display starts.
    pub fn new() -> (l: DisplayLevels)
        ensures
            l == cleared(),
    {
        DisplayLevels { left: true, middle: true, right: true }
    }

    /// Performs `action` on the levels.
    pub fn apply(&mut self, action: DisplayAction)
        ensures
            *final(self) == after_action(*old(self), action),
    {
        match action {
            DisplayAction::Show(MorseSignal::Dot) => {
                self.middle = false;
            },
            DisplayAction::Show(MorseSignal::Dit) => {
                self.left = false;
                self.middle = false;
                self.right = false;
            },
            DisplayAction::Show(MorseSignal::Blank) => {},
            DisplayAction::Clear => {
                self.left = true;
                self.middle = true;
                self.right = true;
            },
            DisplayAction::WaitMillis(_) => {},
        }
    }
}

proof fn after_actions_concat(levels: DisplayLevels, a: Seq<DisplayAction>, b: Seq<DisplayAction>)
    ensures
        after_actions(levels, a + b) == after_actions(after_actions(levels, a), b),
    decreases b.len(),
{
    if b.len() == 0 {
        assert(a + b =~= a);
    } else {
        assert((a + b).drop_last() =~= a + b.drop_last());
        after_actions_concat(levels, a, b.drop_last());
    }
}

proof fn signal_leaves_display_cleared(signal: MorseSignal)
    ensures
        after_actions(cleared(), signal_actions(signal)) == cleared(),
{
    let acts = signal_actions(signal);
    if signal != MorseSignal::Blank {
        let shown = seq![
            DisplayAction::Show(signal),
            DisplayAction::WaitMillis(SIGNAL_MILLIS),
            DisplayAction::Clear,
        ];
        assert(acts.drop_last() =~= shown);
        assert(shown.last() == DisplayAction::Clear);
        assert(after_actions(cleared(), shown) == cleared());
    }
}

proof fn signals_leave_display_cleared(signals: Seq<MorseSignal>)
    ensures
        after_actions(cleared(), signals_actions(signals)) == cleared(),
    decreases signals.len(),
{
    if signals.len() > 0 {
        signals_leave_display_cleared(signals.drop_last());
        after_actions_concat(
            cleared(),
            signals_actions(signals.drop_last()),
            signal_actions(signals.last()),
        );
        signal_leaves_display_cleared(signals.last());
    }
}

/// Showing any text from a dark display leaves it dark again: every signal
/// is followed by a clear.
pub proof fn text_leaves_display_cleared(text: Seq<char>)
    ensures
        after_actions(cleared(), text_actions(text)) == cleared(),
    decreases text.len(),
{
    if text.len() > 0 {
        text_leaves_display_cleared(text.drop_last());
        let last = if text.last() == ' ' {
            seq![DisplayAction::WaitMillis(WORD_BREAK_MILLIS)]
        } else {
            char_actions(text.last())
        };
        assert(text_actions(text) == text_actions(text.drop_last()) + last);
        after_actions_concat(cleared(), text_actions(text.drop_last()), last);
        if text.last() == ' ' {
            assert(last.drop_last() =~= Seq::<DisplayAction>::empty());
            assert(last.last() == DisplayAction::WaitMillis(WORD_BREAK_MILLIS));
            assert(after_actions(cleared(), last.drop_last()) == cleared());
        } else {
            match morse_code(text.last()) {
                Some(signals) => {
                    signals_leave_display_cleared(signals);
                    assert(last == signals_actions(signals));
                },
                None => {
                    assert(last =~= Seq::<DisplayAction>::empty());
                },
            }
        }
        assert(after_actions(cleared(), last) == cleared());
    }
}

/// A character without a code, other than a space, adds nothing to what
/// the display does.
pub proof fn unknown_characters_are_skipped(text: Seq<char>, c: char)
    requires
        morse_code(c) is None,
        c != ' ',
    ensures
        text_actions(text.push(c)) == text_actions(text),
{
    assert(text.push(c).drop_last() =~= text);
    assert(text_actions(text) + Seq::<DisplayAction>::empty() =~= text_actions(text));
}

/// The actions for a text are those of its parts, one after the other.
pub proof fn text_actions_concat(a: Seq<char>, b: Seq<char>)
    ensures
        text_actions(a + b) == text_actions(a) + text_actions(b),
    decreases b.len(),
{
    if b.len() == 0 {
        assert(a + b =~= a);
        assert(text_actions(a) + Seq::<DisplayAction>::empty() =~= text_actions(a));
    } else {
        assert((a + b).drop_last() =~= a + b.drop_last());
        assert((a + b).last() == b.last());
        text_actions_concat(a, b.drop_last());
        let last = if b.last() == ' ' {
            seq![DisplayAction::WaitMillis(WORD_BREAK_MILLIS)]
        } else {
            char_actions(b.last())
        };
        assert(text_actions(a) + text_actions(b.drop_last()) + last =~= text_actions(a) + (
        text_actions(b.drop_last()) + last));
    }
}

/// A character with a code is shown by the actions of its own code, a
/// block of show, 900 ms, clear, 100 ms for each dot or dash in order; a
/// character without one shows nothing. Inside a text, a character other
/// than a space is shown the same way.
pub proof fn characters_show_their_own_code(c: char)
    ensures
        morse_code(c) matches Some(signals) ==> char_actions(c) == signals_actions(signals),
        morse_code(c) is None ==> char_actions(c).len() == 0,
        c != ' ' ==> text_actions(seq![c]) == char_actions(c),
        c == ' ' ==> text_actions(seq![c]) == seq![DisplayAction::WaitMillis(WORD_BREAK_MILLIS)],
{
    let t = seq![c];
    assert(t.drop_last() =~= Seq::<char>::empty());
    assert(t.last() == c);
    assert(text_actions(t.drop_last()) == Seq::<DisplayAction>::empty());
    assert(Seq::<DisplayAction>::empty() + char_actions(c) =~= char_actions(c));
    assert(Seq::<DisplayAction>::empty() + seq![DisplayAction::WaitMillis(WORD_BREAK_MILLIS)]
        =~= seq![DisplayAction::WaitMillis(WORD_BREAK_MILLIS)]);
}

/// Letters are read without regard to case: an upper-case letter is shown
/// as its lower-case one.
pub proof fn letter_case_does_not_matter()
    ensures
        char_actions('H') == char_actions('h'),
        char_actions('E') == char_actions('e'),
        char_actions('L') == char_actions('l'),
        char_actions('O') == char_actions('o'),
        morse_code('H') == morse_code('h'),
        morse_code('E') == morse_code('e'),
        morse_code('L') == morse_code('l'),
        morse_code('O') == morse_code('o'),
{
}

/// Each shown signal lights its own LEDs: a dot is a block that lights the
/// middle LED, a dash one that lights all three, each held 900 ms and
/// followed by a clear and a 100 ms gap.
pub proof fn signals_show_in_order(signals: Seq<MorseSignal>, i: int)
    requires
        0 <= i < signals.len(),
        forall|j: int| 0 <= j < signals.len() ==> signals[j] != MorseSignal::Blank,
    ensures
        signals_actions(signals).len() == 4 * signals.len(),
        signals_actions(signals)[4 * i] == DisplayAction::Show(signals[i]),
        signals_actions(signals)[4 * i + 1] == DisplayAction::WaitMillis(SIGNAL_MILLIS),
        signals_actions(signals)[4 * i + 2] == DisplayAction::Clear,
        signals_actions(signals)[4 * i + 3] == DisplayAction::WaitMillis(GAP_MILLIS),
    decreases signals.len(),
{
    let prev = signals.drop_last();
    if i < signals.len() - 1 {
        signals_show_in_order(prev, i);
    } else if prev.len() > 0 {
        signals_show_in_order(prev, 0);
    }
}

} // verus!
