//! The fixed-layout records that carry each message to the engine.
//!
//! A record is the engine's C message struct laid out byte for byte as the
//! engine's 64-bit builds read it: every field little-endian, four-byte
//! fields at four-byte offsets, the element handle and the two reserved
//! pointer fields eight bytes wide at eight-byte offsets.  The first four
//! bytes of every record are its code, which tells the engine which fields
//! follow.

use vstd::prelude::*;

use crate::message::Message;
use crate::message::MouseEvent;
use crate::message::KeyboardEvent;
use crate::message::PaintEvent;

verus! {

/// Record code: create an engine instance.
pub const CODE_CREATE: u32 = 0;
/// Record code: destroy the engine instance.
pub const CODE_DESTROY: u32 = 1;
/// Record code: the window size changed.
pub const CODE_SIZE: u32 = 2;
/// Record code: the screen resolution changed.
pub const CODE_RESOLUTION: u32 = 3;
/// Record code: time passed.
pub const CODE_HEARTBIT: u32 = 4;
/// Record code: mouse input.
pub const CODE_MOUSE: u32 = 5;
/// Record code: keyboard input.
pub const CODE_KEY: u32 = 6;
/// Record code: the window gained or lost focus.
pub const CODE_FOCUS: u32 = 7;
/// Record code: paint an element, or the whole document.
pub const CODE_PAINT: u32 = 8;

/// The paint record's target discriminant for "paint to the default surface".
pub const PAINT_TARGET_DEFAULT: u32 = 0;

/// A `bool` as the engine's four-byte flag: one for true, zero for false.
pub open spec fn spec_flag(b: bool) -> u32 {
    if b {
        1
    } else {
        0
    }
}

/// The four bytes of `v`, least significant first.
pub open spec fn u32_le(v: u32) -> Seq<u8> {
    seq![
        (v & 0xff) as u8,
        ((v >> 8) & 0xff) as u8,
        ((v >> 16) & 0xff) as u8,
        ((v >> 24) & 0xff) as u8,
    ]
}

/// The eight bytes of `v`, least significant first.
pub open spec fn u64_le(v: u64) -> Seq<u8> {
    seq![
        (v & 0xff) as u8,
        ((v >> 8) & 0xff) as u8,
        ((v >> 16) & 0xff) as u8,
        ((v >> 24) & 0xff) as u8,
        ((v >> 32) & 0xff) as u8,
        ((v >> 40) & 0xff) as u8,
        ((v >> 48) & 0xff) as u8,
        ((v >> 56) & 0xff) as u8,
    ]
}

/// A signed field travels as its two's-complement bits.
pub open spec fn i32_le(v: i32) -> Seq<u8> {
    u32_le(v as u32)
}

/// The `u32` that four little-endian bytes spell.
pub open spec fn u32_from_le(s: Seq<u8>) -> u32
    recommends
        s.len() == 4,
{
    (s[0] as u32) | (s[1] as u32) << 8 | (s[2] as u32) << 16 | (s[3] as u32) << 24
}

/// The `u64` that eight little-endian bytes spell.
pub open spec fn u64_from_le(s: Seq<u8>) -> u64
    recommends
        s.len() == 8,
{
    (s[0] as u64) | (s[1] as u64) << 8 | (s[2] as u64) << 16 | (s[3] as u64) << 24 | (
    s[4] as u64) << 32 | (s[5] as u64) << 40 | (s[6] as u64) << 48 | (s[7] as u64) << 56
}

/// The record code of each message.
pub open spec fn code_of(m: Message) -> u32 {
    match m {
        Message::Create { .. } => CODE_CREATE,
        Message::Destroy => CODE_DESTROY,
        Message::Size { .. } => CODE_SIZE,
        Message::Resolution { .. } => CODE_RESOLUTION,
        Message::Focus { .. } => CODE_FOCUS,
        Message::Heartbit { .. } => CODE_HEARTBIT,
        Message::Redraw => CODE_PAINT,
        Message::Paint(_) => CODE_PAINT,
        Message::Mouse(_) => CODE_MOUSE,
        Message::Keyboard(_) => CODE_KEY,
    }
}

/// The paint record.  After the code come four padding bytes, which the
/// eight-byte alignment of the element handle inserts; then the handle,
/// the foreground flag, the target discriminant, and the two reserved
/// pointer fields, which a host always leaves null.
pub open spec fn paint_record(element: u64, foreground: bool) -> Seq<u8> {
    u32_le(CODE_PAINT) + u32_le(0) + u64_le(element) + u32_le(spec_flag(foreground))
        + u32_le(PAINT_TARGET_DEFAULT) + u64_le(0) + u64_le(0)
}

/// The bytes of the record that carries `m`.
pub open spec fn encoded(m: Message) -> Seq<u8> {
    match m {
        Message::Create { backend, transparent } => u32_le(CODE_CREATE) + u32_le(backend)
            + u32_le(spec_flag(transparent)),
        Message::Destroy => u32_le(CODE_DESTROY),
        Message::Size { width, height } => u32_le(CODE_SIZE) + u32_le(width) + u32_le(height),
        Message::Resolution { ppi } => u32_le(CODE_RESOLUTION) + u32_le(ppi),
        Message::Focus { enter } => u32_le(CODE_FOCUS) + u32_le(spec_flag(enter)),
        Message::Heartbit { milliseconds } => u32_le(CODE_HEARTBIT) + u32_le(milliseconds),
        Message::Redraw => paint_record(0, true),
        Message::Paint(p) => paint_record(p.element as u64, p.foreground),
        Message::Mouse(e) => u32_le(CODE_MOUSE) + u32_le(e.event) + u32_le(e.button)
            + u32_le(e.modifiers) + i32_le(e.pos.x) + i32_le(e.pos.y),
        Message::Keyboard(k) => u32_le(CODE_KEY) + u32_le(k.event) + u32_le(k.code)
            + u32_le(k.modifiers),
    }
}

/// The fixed size of the record that carries `m`.
pub open spec fn record_len(m: Message) -> nat {
    match m {
        Message::Create { .. } => 12,
        Message::Destroy => 4,
        Message::Size { .. } => 12,
        Message::Resolution { .. } => 8,
        Message::Focus { .. } => 8,
        Message::Heartbit { .. } => 8,
        Message::Redraw => 40,
        Message::Paint(_) => 40,
        Message::Mouse(_) => 24,
        Message::Keyboard(_) => 16,
    }
}

/// Every record opens with the four bytes of its code and has its kind's
/// fixed size, so the engine can read the code first and know the shape of
/// what follows.
pub proof fn lemma_record_shape(m: Message)
    ensures
        encoded(m).len() == record_len(m),
        encoded(m).subrange(0, 4) == u32_le(code_of(m)),
{
    match m {
        Message::Create { .. } => {
            assert(encoded(m).subrange(0, 4) =~= u32_le(code_of(m)));
        },
        Message::Destroy => {
            assert(encoded(m).subrange(0, 4) =~= u32_le(code_of(m)));
        },
        Message::Size { .. } => {
            assert(encoded(m).subrange(0, 4) =~= u32_le(code_of(m)));
        },
        Message::Resolution { .. } => {
            assert(encoded(m).subrange(0, 4) =~= u32_le(code_of(m)));
        },
        Message::Focus { .. } => {
            assert(encoded(m).subrange(0, 4) =~= u32_le(code_of(m)));
        },
        Message::Heartbit { .. } => {
            assert(encoded(m).subrange(0, 4) =~= u32_le(code_of(m)));
        },
        Message::Redraw => {
            assert(encoded(m).subrange(0, 4) =~= u32_le(code_of(m)));
        },
        Message::Paint(_) => {
            assert(encoded(m).subrange(0, 4) =~= u32_le(code_of(m)));
        },
        Message::Mouse(_) => {
            assert(encoded(m).subrange(0, 4) =~= u32_le(code_of(m)));
        },
        Message::Keyboard(_) => {
            assert(encoded(m).subrange(0, 4) =~= u32_le(code_of(m)));
        },
    }
}

/// The four-byte little-endian encoding loses nothing: the bytes spell the
/// value back.
pub proof fn lemma_u32_le_inverts(v: u32)
    ensures
        u32_from_le(u32_le(v)) == v,
{
    assert((((v & 0xff) as u8) as u32) | ((((v >> 8) & 0xff) as u8) as u32) << 8 | ((((v >> 16)
        & 0xff) as u8) as u32) << 16 | ((((v >> 24) & 0xff) as u8) as u32) << 24 == v)
        by (bit_vector);
}

/// The eight-byte little-endian encoding loses nothing either.
pub proof fn lemma_u64_le_inverts(v: u64)
    ensures
        u64_from_le(u64_le(v)) == v,
{
    assert((((v & 0xff) as u8) as u64) | ((((v >> 8) & 0xff) as u8) as u64) << 8 | ((((v >> 16)
        & 0xff) as u8) as u64) << 16 | ((((v >> 24) & 0xff) as u8) as u64) << 24 | ((((v >> 32)
        & 0xff) as u8) as u64) << 32 | ((((v >> 40) & 0xff) as u8) as u64) << 40 | ((((v >> 48)
        & 0xff) as u8) as u64) << 48 | ((((v >> 56) & 0xff) as u8) as u64) << 56 == v)
        by (bit_vector);
}

/// Two messages whose records are byte-identical carry the same code: the
/// leading discriminant never lies about the record it heads.
pub proof fn lemma_same_record_same_code(m1: Message, m2: Message)
    requires
        encoded(m1) == encoded(m2),
    ensures
        code_of(m1) == code_of(m2),
{
    lemma_record_shape(m1);
    lemma_record_shape(m2);
    lemma_u32_le_inverts(code_of(m1));
    lemma_u32_le_inverts(code_of(m2));
    assert(u32_le(code_of(m1)) == u32_le(code_of(m2)));
}

/// Byte-identical paint records carry the same element handle and layer.
proof fn lemma_paint_record_fields(e1: u64, f1: bool, e2: u64, f2: bool)
    requires
        paint_record(e1, f1) == paint_record(e2, f2),
    ensures
        e1 == e2,
        f1 == f2,
{
    assert(paint_record(e1, f1).subrange(8, 16) =~= u64_le(e1));
    assert(paint_record(e2, f2).subrange(8, 16) =~= u64_le(e2));
    lemma_u64_le_inverts(e1);
    lemma_u64_le_inverts(e2);
    assert(paint_record(e1, f1).subrange(16, 20) =~= u32_le(spec_flag(f1)));
    assert(paint_record(e2, f2).subrange(16, 20) =~= u32_le(spec_flag(f2)));
    lemma_u32_le_inverts(spec_flag(f1));
    lemma_u32_le_inverts(spec_flag(f2));
}

/// `m` with a whole-document redraw spelled as the paint request it
/// abbreviates: the element handle zero, painted in the foreground.
pub open spec fn canonical(m: Message) -> Message {
    if m is Redraw {
        Message::Paint(PaintEvent { element: 0, foreground: true })
    } else {
        m
    }
}

/// The record carries the whole message: two messages whose records are
/// byte-identical are the same message, once a whole-document redraw is
/// read as the paint request it abbreviates.
pub proof fn lemma_record_determines_message(m1: Message, m2: Message)
    requires
        encoded(m1) == encoded(m2),
    ensures
        canonical(m1) == canonical(m2),
{
    lemma_same_record_same_code(m1, m2);
    match m1 {
        Message::Create { backend: b1, transparent: t1 } => {
            let b2 = m2->Create_backend;
            let t2 = m2->Create_transparent;
            assert(encoded(m1).subrange(4, 8) =~= u32_le(b1));
            assert(encoded(m2).subrange(4, 8) =~= u32_le(b2));
            lemma_u32_le_inverts(b1);
            lemma_u32_le_inverts(b2);
            assert(encoded(m1).subrange(8, 12) =~= u32_le(spec_flag(t1)));
            assert(encoded(m2).subrange(8, 12) =~= u32_le(spec_flag(t2)));
            lemma_u32_le_inverts(spec_flag(t1));
            lemma_u32_le_inverts(spec_flag(t2));
        },
        Message::Destroy => {
        },
        Message::Size { width: w1, height: h1 } => {
            let w2 = m2->Size_width;
            let h2 = m2->Size_height;
            assert(encoded(m1).subrange(4, 8) =~= u32_le(w1));
            assert(encoded(m2).subrange(4, 8) =~= u32_le(w2));
            lemma_u32_le_inverts(w1);
            lemma_u32_le_inverts(w2);
            assert(encoded(m1).subrange(8, 12) =~= u32_le(h1));
            assert(encoded(m2).subrange(8, 12) =~= u32_le(h2));
            lemma_u32_le_inverts(h1);
            lemma_u32_le_inverts(h2);
        },
        Message::Resolution { ppi: p1 } => {
            let p2 = m2->Resolution_ppi;
            assert(encoded(m1).subrange(4, 8) =~= u32_le(p1));
            assert(encoded(m2).subrange(4, 8) =~= u32_le(p2));
            lemma_u32_le_inverts(p1);
            lemma_u32_le_inverts(p2);
        },
        Message::Focus { enter: e1 } => {
            let e2 = m2->Focus_enter;
            assert(encoded(m1).subrange(4, 8) =~= u32_le(spec_flag(e1)));
            assert(encoded(m2).subrange(4, 8) =~= u32_le(spec_flag(e2)));
            lemma_u32_le_inverts(spec_flag(e1));
            lemma_u32_le_inverts(spec_flag(e2));
        },
        Message::Heartbit { milliseconds: t1 } => {
            let t2 = m2->Heartbit_milliseconds;
            assert(encoded(m1).subrange(4, 8) =~= u32_le(t1));
            assert(encoded(m2).subrange(4, 8) =~= u32_le(t2));
            lemma_u32_le_inverts(t1);
            lemma_u32_le_inverts(t2);
        },
        Message::Redraw => {
            if m2 is Paint {
                let p2 = m2->Paint_0;
                lemma_paint_record_fields(0, true, p2.element as u64, p2.foreground);
            }
        },
        Message::Paint(p1) => {
            if m2 is Redraw {
                lemma_paint_record_fields(p1.element as u64, p1.foreground, 0, true);
            } else {
                let p2 = m2->Paint_0;
                lemma_paint_record_fields(
                    p1.element as u64,
                    p1.foreground,
                    p2.element as u64,
                    p2.foreground,
                );
            }
        },
        Message::Mouse(e1) => {
            let e2 = m2->Mouse_0;
            assert(encoded(m1).subrange(4, 8) =~= u32_le(e1.event));
            assert(encoded(m2).subrange(4, 8) =~= u32_le(e2.event));
            lemma_u32_le_inverts(e1.event);
            lemma_u32_le_inverts(e2.event);
            assert(encoded(m1).subrange(8, 12) =~= u32_le(e1.button));
            assert(encoded(m2).subrange(8, 12) =~= u32_le(e2.button));
            lemma_u32_le_inverts(e1.button);
            lemma_u32_le_inverts(e2.button);
            assert(encoded(m1).subrange(12, 16) =~= u32_le(e1.modifiers));
            assert(encoded(m2).subrange(12, 16) =~= u32_le(e2.modifiers));
            lemma_u32_le_inverts(e1.modifiers);
            lemma_u32_le_inverts(e2.modifiers);
            assert(encoded(m1).subrange(16, 20) =~= u32_le(e1.pos.x as u32));
            assert(encoded(m2).subrange(16, 20) =~= u32_le(e2.pos.x as u32));
            lemma_u32_le_inverts(e1.pos.x as u32);
            lemma_u32_le_inverts(e2.pos.x as u32);
            assert(encoded(m1).subrange(20, 24) =~= u32_le(e1.pos.y as u32));
            assert(encoded(m2).subrange(20, 24) =~= u32_le(e2.pos.y as u32));
            lemma_u32_le_inverts(e1.pos.y as u32);
            lemma_u32_le_inverts(e2.pos.y as u32);
            let x1 = e1.pos.x;
            let x2 = e2.pos.x;
            let y1 = e1.pos.y;
            let y2 = e2.pos.y;
            assert(x1 as u32 == x2 as u32 ==> x1 == x2) by (bit_vector);
            assert(y1 as u32 == y2 as u32 ==> y1 == y2) by (bit_vector);
        },
        Message::Keyboard(k1) => {
            let k2 = m2->Keyboard_0;
            assert(encoded(m1).subrange(4, 8) =~= u32_le(k1.event));
            assert(encoded(m2).subrange(4, 8) =~= u32_le(k2.event));
            lemma_u32_le_inverts(k1.event);
            lemma_u32_le_inverts(k2.event);
            assert(encoded(m1).subrange(8, 12) =~= u32_le(k1.code));
            assert(encoded(m2).subrange(8, 12) =~= u32_le(k2.code));
            lemma_u32_le_inverts(k1.code);
            lemma_u32_le_inverts(k2.code);
            assert(encoded(m1).subrange(12, 16) =~= u32_le(k1.modifiers));
            assert(encoded(m2).subrange(12, 16) =~= u32_le(k2.modifiers));
            lemma_u32_le_inverts(k1.modifiers);
            lemma_u32_le_inverts(k2.modifiers);
        },
    }
}

/// Appends the four little-endian bytes of `v`.
fn push_u32_le(out: &mut Vec<u8>, v: u32)
    ensures
        final(out)@ == old(out)@ + u32_le(v),
{
    out.push((v & 0xff) as u8);
    out.push(((v >> 8) & 0xff) as u8);
    out.push(((v >> 16) & 0xff) as u8);
    out.push(((v >> 24) & 0xff) as u8);
    proof {
        assert(out@ =~= old(out)@ + u32_le(v));
    }
}

/// Appends the eight little-endian bytes of `v`.
fn push_u64_le(out: &mut Vec<u8>, v: u64)
    ensures
        final(out)@ == old(out)@ + u64_le(v),
{
    out.push((v & 0xff) as u8);
    out.push(((v >> 8) & 0xff) as u8);
    out.push(((v >> 16) & 0xff) as u8);
    out.push(((v >> 24) & 0xff) as u8);
    out.push(((v >> 32) & 0xff) as u8);
    out.push(((v >> 40) & 0xff) as u8);
    out.push(((v >> 48) & 0xff) as u8);
    out.push(((v >> 56) & 0xff) as u8);
    proof {
        assert(out@ =~= old(out)@ + u64_le(v));
    }
}

/// The engine's four-byte flag for a `bool`.
fn flag(b: bool) -> (r: u32)
    ensures
        r == spec_flag(b),
{
    if b {
        1
    } else {
        0
    }
}

/// The record that asks for an engine instance.
pub fn encode_create(backend: u32, transparent: bool) -> (r: Vec<u8>)
    ensures
        r@ == encoded(Message::Create { backend, transparent }),
{
    let mut out: Vec<u8> = Vec::new();
    push_u32_le(&mut out, CODE_CREATE);
    push_u32_le(&mut out, backend);
    push_u32_le(&mut out, flag(transparent));
    proof {
        assert(out@ =~= encoded(Message::Create { backend, transparent }));
    }
    out
}

/// The record that destroys the engine instance.
pub fn encode_destroy() -> (r: Vec<u8>)
    ensures
        r@ == encoded(Message::Destroy),
{
    let mut out: Vec<u8> = Vec::new();
    push_u32_le(&mut out, CODE_DESTROY);
    proof {
        assert(out@ =~= encoded(Message::Destroy));
    }
    out
}

/// The record that reports a window size.
pub fn encode_size(width: u32, height: u32) -> (r: Vec<u8>)
    ensures
        r@ == encoded(Message::Size { width, height }),
{
    let mut out: Vec<u8> = Vec::new();
    push_u32_le(&mut out, CODE_SIZE);
    push_u32_le(&mut out, width);
    push_u32_le(&mut out, height);
    proof {
        assert(out@ =~= encoded(Message::Size { width, height }));
    }
    out
}

/// The record that reports a screen resolution.
pub fn encode_resolution(ppi: u32) -> (r: Vec<u8>)
    ensures
        r@ == encoded(Message::Resolution { ppi }),
{
    let mut out: Vec<u8> = Vec::new();
    push_u32_le(&mut out, CODE_RESOLUTION);
    push_u32_le(&mut out, ppi);
    proof {
        assert(out@ =~= encoded(Message::Resolution { ppi }));
    }
    out
}

/// The record that reports focus entering or leaving the window.
pub fn encode_focus(enter: bool) -> (r: Vec<u8>)
    ensures
        r@ == encoded(Message::Focus { enter }),
{
    let mut out: Vec<u8> = Vec::new();
    push_u32_le(&mut out, CODE_FOCUS);
    push_u32_le(&mut out, flag(enter));
    proof {
        assert(out@ =~= encoded(Message::Focus { enter }));
    }
    out
}

/// The record that advances the engine's clock.
pub fn encode_heartbit(milliseconds: u32) -> (r: Vec<u8>)
    ensures
        r@ == encoded(Message::Heartbit { milliseconds }),
{
    let mut out: Vec<u8> = Vec::new();
    push_u32_le(&mut out, CODE_HEARTBIT);
    push_u32_le(&mut out, milliseconds);
    proof {
        assert(out@ =~= encoded(Message::Heartbit { milliseconds }));
    }
    out
}

/// The paint record for one element handle and layer.
fn encode_paint_record(element: usize, foreground: bool) -> (r: Vec<u8>)
    ensures
        r@ == paint_record(element as u64, foreground),
{
    let mut out: Vec<u8> = Vec::new();
    push_u32_le(&mut out, CODE_PAINT);
    push_u32_le(&mut out, 0);
    push_u64_le(&mut out, element as u64);
    push_u32_le(&mut out, flag(foreground));
    push_u32_le(&mut out, PAINT_TARGET_DEFAULT);
    push_u64_le(&mut out, 0);
    push_u64_le(&mut out, 0);
    proof {
        assert(out@ =~= paint_record(element as u64, foreground));
    }
    out
}

/// The record that redraws the whole document in the foreground layer.
pub fn encode_redraw() -> (r: Vec<u8>)
    ensures
        r@ == encoded(Message::Redraw),
{
    encode_paint_record(0, true)
}

/// The record that redraws one element's layer.
pub fn encode_paint(paint: &PaintEvent) -> (r: Vec<u8>)
    ensures
        r@ == encoded(Message::Paint(*paint)),
{
    encode_paint_record(paint.element, paint.foreground)
}

/// The record that reports mouse input.
pub fn encode_mouse(event: &MouseEvent) -> (r: Vec<u8>)
    ensures
        r@ == encoded(Message::Mouse(*event)),
{
    let mut out: Vec<u8> = Vec::new();
    push_u32_le(&mut out, CODE_MOUSE);
    push_u32_le(&mut out, event.event);
    push_u32_le(&mut out, event.button);
    push_u32_le(&mut out, event.modifiers);
    push_u32_le(&mut out, event.pos.x as u32);
    push_u32_le(&mut out, event.pos.y as u32);
    proof {
        assert(out@ =~= encoded(Message::Mouse(*event)));
    }
    out
}

/// The record that reports keyboard input.
pub fn encode_keyboard(key: &KeyboardEvent) -> (r: Vec<u8>)
    ensures
        r@ == encoded(Message::Keyboard(*key)),
{
    let mut out: Vec<u8> = Vec::new();
    push_u32_le(&mut out, CODE_KEY);
    push_u32_le(&mut out, key.event);
    push_u32_le(&mut out, key.code);
    push_u32_le(&mut out, key.modifiers);
    proof {
        assert(out@ =~= encoded(Message::Keyboard(*key)));
    }
    out
}

/// The record that carries `msg`, whatever its kind.
pub fn encode(msg: &Message) -> (r: Vec<u8>)
    ensures
        r@ == encoded(*msg),
{
    match msg {
        Message::Create { backend, transparent } => encode_create(*backend, *transparent),
        Message::Destroy => encode_destroy(),
        Message::Size { width, height } => encode_size(*width, *height),
        Message::Resolution { ppi } => encode_resolution(*ppi),
        Message::Focus { enter } => encode_focus(*enter),
        Message::Heartbit { milliseconds } => encode_heartbit(*milliseconds),
        Message::Redraw => encode_redraw(),
        Message::Paint(p) => encode_paint(p),
        Message::Mouse(e) => encode_mouse(e),
        Message::Keyboard(k) => encode_keyboard(k),
    }
}

} // verus!
