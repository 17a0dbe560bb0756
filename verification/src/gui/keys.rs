//! Keyboard navigation of the form: Tab and Shift+Tab, and the up and down
//! arrows, move the focus between fields; keys of the numeric keypad are
//! left to the fields.

use vstd::prelude::*;
use crate::message::Message;

verus! {

/// The keys that take part in navigation.
#[derive(Clone, Copy, Debug, PartialEq, Eq, Structural)]
pub enum Key {
    Tab,
    ArrowDown,
    ArrowUp,
    Other,
}

/// A key press: which key it means, whether it came from the numeric
/// keypad, and whether Shift was held.
#[derive(Clone, Copy, Debug, PartialEq, Eq, Structural)]
pub struct KeyPress {
    pub key: Key,
    pub numpad: bool,
    pub shift: bool,
}

/// Whether a key press moves the focus forward (`Some(true)`), backward
/// (`Some(false)`), or not at all.
pub open spec fn focus_move(k: KeyPress) -> Option<bool> {
    if k.numpad {
        None
    } else {
        match k.key {
            Key::Tab => Some(!k.shift),
            Key::ArrowDown => Some(true),
            Key::ArrowUp => Some(false),
            Key::Other => None,
        }
    }
}

/// The event a key press produces, as `focus_move` states it.
pub fn key_message<H>(k: KeyPress) -> (m: Option<Message<H>>)
    ensures
        match focus_move(k) {
            Some(true) => m == Some(Message::<H>::FocusNext),
            Some(false) => m == Some(Message::<H>::FocusPrevious),
            None => m is None,
        },
{
    if k.numpad {
        return None;
    }
    match k.key {
        Key::Tab => if k.shift {
            Some(Message::FocusPrevious)
        } else {
            Some(Message::FocusNext)
        },
        Key::ArrowDown => Some(Message::FocusNext),
        Key::ArrowUp => Some(Message::FocusPrevious),
        Key::Other => None,
    }
}

} // verus!
