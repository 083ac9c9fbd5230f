//! Key presses as the terminal takes them, and how the events of the
//! keyboard become key presses.

use vstd::prelude::*;

verus! {

/// A key press that the terminal acts on.
#[derive(Clone, Copy, Debug, PartialEq, Eq, Structural)]
pub enum KeyPress {
    Up,
    Down,
    Left,
    Right,
    Enter,
    Backspace,
    Escape,
    Delete,
    Home,
    End,
    Unicode(char),
}

/// The key of a keyboard event, as far as the terminal tells keys apart.
#[derive(Clone, Copy, Debug, PartialEq, Eq, Structural)]
pub enum KeyKind {
    ArrowUp,
    ArrowDown,
    ArrowLeft,
    ArrowRight,
    Enter,
    Backspace,
    Escape,
    Delete,
    Home,
    End,
    /// Any key that stands for a character, or for nothing.
    Other,
}

/// What becomes of a keyboard event.
#[derive(Clone, Copy, Debug, PartialEq, Eq, Structural)]
pub enum KeyEventOutcome {
    /// The event is this key press.
    Press(KeyPress),
    /// The event is no key press.
    Ignore,
    /// The event goes to the decoder of the keyboard layout, which knows the
    /// state of the modifier keys: `decoded_key_press` takes what it returns.
    Decode,
}

/// What becomes of the event of a key of kind `kind` that went down (`down`)
/// or up.
///
/// A navigation or editing key is a key press when it goes down and nothing
/// when it comes up. Every other key is left to the layout, in both
/// directions, since shift and its like act by being held.
pub open spec fn key_event_outcome(kind: KeyKind, down: bool) -> KeyEventOutcome {
    match kind {
        KeyKind::Other => KeyEventOutcome::Decode,
        _ => if !down {
            KeyEventOutcome::Ignore
        } else {
            KeyEventOutcome::Press(
                match kind {
                    KeyKind::ArrowUp => KeyPress::Up,
                    KeyKind::ArrowDown => KeyPress::Down,
                    KeyKind::ArrowLeft => KeyPress::Left,
                    KeyKind::ArrowRight => KeyPress::Right,
                    KeyKind::Enter => KeyPress::Enter,
                    KeyKind::Backspace => KeyPress::Backspace,
                    KeyKind::Escape => KeyPress::Escape,
                    KeyKind::Delete => KeyPress::Delete,
                    KeyKind::Home => KeyPress::Home,
                    _ => KeyPress::End,
                },
            )
        },
    }
}

/// Says what becomes of the event of a key of kind `kind` that went down
/// (`down`) or up.
pub fn keyboard_event_to_key_press(kind: KeyKind, down: bool) -> (outcome: KeyEventOutcome)
    ensures
        outcome == key_event_outcome(kind, down),
{
    let converted = match kind {
        KeyKind::ArrowUp => KeyPress::Up,
        KeyKind::ArrowDown => KeyPress::Down,
        KeyKind::ArrowLeft => KeyPress::Left,
        KeyKind::ArrowRight => KeyPress::Right,
        KeyKind::Enter => KeyPress::Enter,
        KeyKind::Backspace => KeyPress::Backspace,
        KeyKind::Escape => KeyPress::Escape,
        KeyKind::Delete => KeyPress::Delete,
        KeyKind::Home => KeyPress::Home,
        KeyKind::End => KeyPress::End,
        KeyKind::Other => {
            return KeyEventOutcome::Decode;
        },
    };
    if down {
        KeyEventOutcome::Press(converted)
    } else {
        KeyEventOutcome::Ignore
    }
}

/// The key press of what the layout decoded: the character, if it decoded
/// one.
pub fn decoded_key_press(decoded: Option<char>) -> (press: Option<KeyPress>)
    ensures
        press == match decoded {
            Some(character) => Some(KeyPress::Unicode(character)),
            None => None,
        },
{
    match decoded {
        Some(character) => Some(KeyPress::Unicode(character)),
        None => None,
    }
}

} // verus!
