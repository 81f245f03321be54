//! The input adapter: modifier packing and pointer tracking.

use windowless::key_input;
use windowless::modifier_bits;
use windowless::KeyboardEvent;
use windowless::Message;
use windowless::MouseEvent;
use windowless::Point;
use windowless::PointerTracker;
use windowless::BUTTON_MAIN;
use windowless::BUTTON_NONE;
use windowless::KEY_DOWN;
use windowless::KEY_UP;
use windowless::MOUSE_DOWN;
use windowless::MOUSE_ENTER;
use windowless::MOUSE_LEAVE;
use windowless::MOUSE_MOVE;
use windowless::MOUSE_UP;

#[test]
fn modifier_words() {
    assert_eq!(modifier_bits(false, false, false), 0);
    assert_eq!(modifier_bits(true, false, false), 1);
    assert_eq!(modifier_bits(false, true, false), 2);
    assert_eq!(modifier_bits(true, true, false), 3);
    assert_eq!(modifier_bits(false, false, true), 4);
    assert_eq!(modifier_bits(true, true, true), 7);
}

#[test]
fn key_messages() {
    assert_eq!(
        key_input(true, 30, 2),
        Message::Keyboard(KeyboardEvent { event: KEY_DOWN, code: 30, modifiers: 2 })
    );
    assert_eq!(
        key_input(false, 30, 0),
        Message::Keyboard(KeyboardEvent { event: KEY_UP, code: 30, modifiers: 0 })
    );
}

#[test]
fn pointer_session() {
    let mut t = PointerTracker::new();
    assert_eq!(
        t.enter(),
        Message::Mouse(MouseEvent {
            event: MOUSE_ENTER,
            button: BUTTON_NONE,
            modifiers: 0,
            pos: Point { x: 0, y: 0 },
        })
    );
    assert_eq!(
        t.moved(12, 34, 1),
        Message::Mouse(MouseEvent {
            event: MOUSE_MOVE,
            button: BUTTON_NONE,
            modifiers: 1,
            pos: Point { x: 12, y: 34 },
        })
    );
    assert_eq!(
        t.button_input(true, BUTTON_MAIN, 0),
        Message::Mouse(MouseEvent {
            event: MOUSE_DOWN,
            button: BUTTON_MAIN,
            modifiers: 0,
            pos: Point { x: 12, y: 34 },
        })
    );
    // The button stays held through a move.
    assert_eq!(
        t.moved(15, 34, 0),
        Message::Mouse(MouseEvent {
            event: MOUSE_MOVE,
            button: BUTTON_MAIN,
            modifiers: 0,
            pos: Point { x: 15, y: 34 },
        })
    );
    assert_eq!(
        t.button_input(false, BUTTON_NONE, 0),
        Message::Mouse(MouseEvent {
            event: MOUSE_UP,
            button: BUTTON_NONE,
            modifiers: 0,
            pos: Point { x: 15, y: 34 },
        })
    );
    assert_eq!(
        t.leave(),
        Message::Mouse(MouseEvent {
            event: MOUSE_LEAVE,
            button: BUTTON_NONE,
            modifiers: 0,
            pos: Point { x: 15, y: 34 },
        })
    );
}

#[test]
fn negative_cursor_positions_are_kept() {
    let mut t = PointerTracker::new();
    let m = t.moved(-5, -7, 0);
    assert_eq!(
        m,
        Message::Mouse(MouseEvent {
            event: MOUSE_MOVE,
            button: BUTTON_NONE,
            modifiers: 0,
            pos: Point { x: -5, y: -7 },
        })
    );
}
