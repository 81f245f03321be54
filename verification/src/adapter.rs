//! From a window's raw input callbacks to engine messages.
//!
//! A host's windowing layer reports pointer and keyboard input piecemeal:
//! the cursor entered, the cursor sits at some position, a button changed,
//! a key went down.  The engine instead wants each mouse message to carry
//! the full picture: event, button held, modifier keys, position.  The
//! tracker here keeps the little state that bridges the two, and the free
//! functions build the messages a host forwards.

use vstd::prelude::*;

use crate::message::KeyboardEvent;
use crate::message::Message;
use crate::message::MouseEvent;
use crate::message::Point;

verus! {

/// Modifier bit: a control key is held.
pub const MODIFIER_CONTROL: u32 = 1;
/// Modifier bit: a shift key is held.
pub const MODIFIER_SHIFT: u32 = 2;
/// Modifier bit: an alt key is held.
pub const MODIFIER_ALT: u32 = 4;

/// Mouse event code: the cursor entered the window.
pub const MOUSE_ENTER: u32 = 0;
/// Mouse event code: the cursor left the window.
pub const MOUSE_LEAVE: u32 = 1;
/// Mouse event code: the cursor moved.
pub const MOUSE_MOVE: u32 = 2;
/// Mouse event code: a button was released.
pub const MOUSE_UP: u32 = 3;
/// Mouse event code: a button was pressed.
pub const MOUSE_DOWN: u32 = 4;

/// Key event code: a key was pressed.
pub const KEY_DOWN: u32 = 0;
/// Key event code: a key was released.
pub const KEY_UP: u32 = 1;

/// Button code: no button is held.
pub const BUTTON_NONE: u32 = 0;
/// Button code: the main (usually left) button.
pub const BUTTON_MAIN: u32 = 1;
/// Button code: the properties (usually right) button.
pub const BUTTON_PROP: u32 = 2;
/// Button code: the middle button.
pub const BUTTON_MIDDLE: u32 = 4;

/// The modifier word for the keys held.
pub open spec fn spec_modifier_bits(ctrl: bool, shift: bool, alt: bool) -> u32 {
    (if ctrl {
        MODIFIER_CONTROL
    } else {
        0
    }) | (if shift {
        MODIFIER_SHIFT
    } else {
        0
    }) | (if alt {
        MODIFIER_ALT
    } else {
        0
    })
}

/// Packs the held modifier keys into the engine's modifier word.
pub fn modifier_bits(ctrl: bool, shift: bool, alt: bool) -> (r: u32)
    ensures
        r == spec_modifier_bits(ctrl, shift, alt),
{
    let c: u32 = if ctrl {
        MODIFIER_CONTROL
    } else {
        0
    };
    let s: u32 = if shift {
        MODIFIER_SHIFT
    } else {
        0
    };
    let a: u32 = if alt {
        MODIFIER_ALT
    } else {
        0
    };
    c | s | a
}

/// Each modifier key owns one bit of the word: every key reads back from
/// the word exactly as it went in, and the word never strays outside the
/// three bits.
pub proof fn lemma_modifier_bits(ctrl: bool, shift: bool, alt: bool)
    ensures
        spec_modifier_bits(ctrl, shift, alt) & MODIFIER_CONTROL != 0 <==> ctrl,
        spec_modifier_bits(ctrl, shift, alt) & MODIFIER_SHIFT != 0 <==> shift,
        spec_modifier_bits(ctrl, shift, alt) & MODIFIER_ALT != 0 <==> alt,
        spec_modifier_bits(ctrl, shift, alt) <= 7,
{
    let c: u32 = if ctrl {
        MODIFIER_CONTROL
    } else {
        0
    };
    let s: u32 = if shift {
        MODIFIER_SHIFT
    } else {
        0
    };
    let a: u32 = if alt {
        MODIFIER_ALT
    } else {
        0
    };
    assert((c | s | a) & 1 == c && (c | s | a) & 2 == s && (c | s | a) & 4 == a && (c | s | a)
        <= 7) by (bit_vector)
        requires
            (c == 0 || c == 1) && (s == 0 || s == 2) && (a == 0 || a == 4),
    ;
}

/// The message that reports keyboard input: key down when `pressed`, key
/// up otherwise, with the scan code and modifier word as given.
pub fn key_input(pressed: bool, scancode: u32, modifiers: u32) -> (m: Message)
    ensures
        m == Message::Keyboard(
            (KeyboardEvent {
                event: if pressed {
                    KEY_DOWN
                } else {
                    KEY_UP
                },
                code: scancode,
                modifiers,
            }),
        ),
{
    let event: u32 = if pressed {
        KEY_DOWN
    } else {
        KEY_UP
    };
    Message::Keyboard(KeyboardEvent { event, code: scancode, modifiers })
}

/// What the window last told us about the pointer: the button held and
/// the cursor's position.  Mouse messages are built from it so that each
/// one carries the full pointer picture.
pub struct PointerTracker {
    pub button: u32,
    pub x: i32,
    pub y: i32,
}

impl PointerTracker {
    /// The mouse message this tracker builds for an event at its position.
    pub open spec fn mouse_message(self, event: u32, modifiers: u32) -> Message {
        Message::Mouse(
            MouseEvent { event, button: self.button, modifiers, pos: Point { x: self.x, y: self.y } },
        )
    }

    /// A fresh tracker: no button held, cursor at the origin.
    pub fn new() -> (t: Self)
        ensures
            t.button == BUTTON_NONE,
            t.x == 0,
            t.y == 0,
    {
        PointerTracker { button: BUTTON_NONE, x: 0, y: 0 }
    }

    /// The message for the cursor entering the window, with no modifiers.
    pub fn enter(&self) -> (m: Message)
        ensures
            m == self.mouse_message(MOUSE_ENTER, 0),
    {
        Message::Mouse(
            MouseEvent {
                event: MOUSE_ENTER,
                button: self.button,
                modifiers: 0,
                pos: Point { x: self.x, y: self.y },
            },
        )
    }

    /// The message for the cursor leaving the window, with no modifiers.
    pub fn leave(&self) -> (m: Message)
        ensures
            m == self.mouse_message(MOUSE_LEAVE, 0),
    {
        Message::Mouse(
            MouseEvent {
                event: MOUSE_LEAVE,
                button: self.button,
                modifiers: 0,
                pos: Point { x: self.x, y: self.y },
            },
        )
    }

    /// Remembers the cursor's new position and reports the move, with the
    /// button held as it was.
    pub fn moved(&mut self, x: i32, y: i32, modifiers: u32) -> (m: Message)
        ensures
            final(self).x == x,
            final(self).y == y,
            final(self).button == old(self).button,
            m == final(self).mouse_message(MOUSE_MOVE, modifiers),
    {
        self.x = x;
        self.y = y;
        Message::Mouse(
            MouseEvent {
                event: MOUSE_MOVE,
                button: self.button,
                modifiers,
                pos: Point { x: self.x, y: self.y },
            },
        )
    }

    /// Remembers which button is now held and reports the press or
    /// release at the cursor's last position.
    pub fn button_input(&mut self, pressed: bool, button: u32, modifiers: u32) -> (m: Message)
        ensures
            final(self).button == button,
            final(self).x == old(self).x,
            final(self).y == old(self).y,
            m == final(self).mouse_message(
                if pressed {
                    MOUSE_DOWN
                } else {
                    MOUSE_UP
                },
                modifiers,
            ),
    {
        self.button = button;
        let event: u32 = if pressed {
            MOUSE_DOWN
        } else {
            MOUSE_UP
        };
        Message::Mouse(
            MouseEvent {
                event,
                button: self.button,
                modifiers,
                pos: Point { x: self.x, y: self.y },
            },
        )
    }
}

} // verus!
