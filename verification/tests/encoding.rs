//! Byte-exact expectations for every record kind.

use windowless::encode;
use windowless::KeyboardEvent;
use windowless::Message;
use windowless::MouseEvent;
use windowless::PaintEvent;
use windowless::Point;

#[test]
fn create_record() {
    let r = encode(&Message::Create { backend: 5, transparent: true });
    assert_eq!(r, vec![0, 0, 0, 0, 5, 0, 0, 0, 1, 0, 0, 0]);
}

#[test]
fn create_record_opaque() {
    let r = encode(&Message::Create { backend: 0, transparent: false });
    assert_eq!(r, vec![0, 0, 0, 0, 0, 0, 0, 0, 0, 0, 0, 0]);
}

#[test]
fn destroy_record() {
    let r = encode(&Message::Destroy);
    assert_eq!(r, vec![1, 0, 0, 0]);
}

#[test]
fn size_record() {
    let r = encode(&Message::Size { width: 800, height: 600 });
    assert_eq!(r, vec![2, 0, 0, 0, 0x20, 0x03, 0, 0, 0x58, 0x02, 0, 0]);
}

#[test]
fn size_record_largest() {
    let r = encode(&Message::Size { width: u32::MAX, height: 0 });
    assert_eq!(r, vec![2, 0, 0, 0, 0xFF, 0xFF, 0xFF, 0xFF, 0, 0, 0, 0]);
}

#[test]
fn resolution_record() {
    let r = encode(&Message::Resolution { ppi: 96 });
    assert_eq!(r, vec![3, 0, 0, 0, 96, 0, 0, 0]);
}

#[test]
fn focus_record() {
    assert_eq!(encode(&Message::Focus { enter: true }), vec![7, 0, 0, 0, 1, 0, 0, 0]);
    assert_eq!(encode(&Message::Focus { enter: false }), vec![7, 0, 0, 0, 0, 0, 0, 0]);
}

#[test]
fn heartbit_record() {
    let r = encode(&Message::Heartbit { milliseconds: 1000 });
    assert_eq!(r, vec![4, 0, 0, 0, 0xE8, 0x03, 0, 0]);
}

#[test]
fn redraw_record() {
    let r = encode(&Message::Redraw);
    let mut expected = vec![8, 0, 0, 0];
    expected.extend([0; 4]); // alignment padding
    expected.extend([0; 8]); // element handle: the whole document
    expected.extend([1, 0, 0, 0]); // foreground
    expected.extend([0; 4]); // default paint target
    expected.extend([0; 16]); // reserved pointer fields
    assert_eq!(r, expected);
}

#[test]
fn paint_record_with_element() {
    let r = encode(&Message::Paint(PaintEvent { element: 0xDEADBEEF, foreground: false }));
    let mut expected = vec![8, 0, 0, 0];
    expected.extend([0; 4]);
    expected.extend([0xEF, 0xBE, 0xAD, 0xDE, 0, 0, 0, 0]);
    expected.extend([0, 0, 0, 0]); // background layer
    expected.extend([0; 4]);
    expected.extend([0; 16]);
    assert_eq!(r, expected);
}

#[test]
fn mouse_record() {
    let r = encode(&Message::Mouse(MouseEvent {
        event: 4,
        button: 1,
        modifiers: 3,
        pos: Point { x: 10, y: -1 },
    }));
    let mut expected = vec![5, 0, 0, 0];
    expected.extend([4, 0, 0, 0]);
    expected.extend([1, 0, 0, 0]);
    expected.extend([3, 0, 0, 0]);
    expected.extend([10, 0, 0, 0]);
    expected.extend([0xFF, 0xFF, 0xFF, 0xFF]); // -1 in two's complement
    assert_eq!(r, expected);
}

#[test]
fn keyboard_record() {
    let r = encode(&Message::Keyboard(KeyboardEvent { event: 0, code: 30, modifiers: 2 }));
    assert_eq!(r, vec![6, 0, 0, 0, 0, 0, 0, 0, 30, 0, 0, 0, 2, 0, 0, 0]);
}

#[test]
fn dispatch_matches_single_encoders() {
    assert_eq!(
        encode(&Message::Create { backend: 5, transparent: true }),
        windowless::encode_create(5, true)
    );
    assert_eq!(encode(&Message::Destroy), windowless::encode_destroy());
    assert_eq!(encode(&Message::Size { width: 1, height: 2 }), windowless::encode_size(1, 2));
    assert_eq!(encode(&Message::Resolution { ppi: 96 }), windowless::encode_resolution(96));
    assert_eq!(encode(&Message::Focus { enter: true }), windowless::encode_focus(true));
    assert_eq!(
        encode(&Message::Heartbit { milliseconds: 16 }),
        windowless::encode_heartbit(16)
    );
    assert_eq!(encode(&Message::Redraw), windowless::encode_redraw());
    let paint = PaintEvent { element: 7, foreground: true };
    assert_eq!(encode(&Message::Paint(paint)), windowless::encode_paint(&paint));
    let mouse = MouseEvent { event: 2, button: 0, modifiers: 0, pos: Point { x: 3, y: 4 } };
    assert_eq!(encode(&Message::Mouse(mouse)), windowless::encode_mouse(&mouse));
    let key = KeyboardEvent { event: 1, code: 57, modifiers: 0 };
    assert_eq!(encode(&Message::Keyboard(key)), windowless::encode_keyboard(&key));
}

#[test]
fn record_lengths() {
    assert_eq!(encode(&Message::Create { backend: 0, transparent: false }).len(), 12);
    assert_eq!(encode(&Message::Destroy).len(), 4);
    assert_eq!(encode(&Message::Size { width: 0, height: 0 }).len(), 12);
    assert_eq!(encode(&Message::Resolution { ppi: 0 }).len(), 8);
    assert_eq!(encode(&Message::Focus { enter: false }).len(), 8);
    assert_eq!(encode(&Message::Heartbit { milliseconds: 0 }).len(), 8);
    assert_eq!(encode(&Message::Redraw).len(), 40);
    assert_eq!(
        encode(&Message::Paint(PaintEvent { element: 0, foreground: true })).len(),
        40
    );
    assert_eq!(
        encode(&Message::Mouse(MouseEvent {
            event: 0,
            button: 0,
            modifiers: 0,
            pos: Point { x: 0, y: 0 },
        }))
        .len(),
        24
    );
    assert_eq!(
        encode(&Message::Keyboard(KeyboardEvent { event: 0, code: 0, modifiers: 0 })).len(),
        16
    );
}
