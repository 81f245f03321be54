//! The events a host reports to the windowless engine.

use vstd::prelude::*;

verus! {

/// A position in the window, in pixels from its top-left corner.
#[derive(Clone, Copy, Debug, PartialEq, Eq, Structural)]
pub struct Point {
    pub x: i32,
    pub y: i32,
}

/// Mouse input: what happened, which button, which modifier keys, and where.
///
/// The `event`, `button` and `modifiers` fields carry the engine's own
/// codes; the named constants in this crate give the ones a host needs.
#[derive(Clone, Copy, Debug, PartialEq, Eq, Structural)]
pub struct MouseEvent {
    pub event: u32,
    pub button: u32,
    pub modifiers: u32,
    pub pos: Point,
}

/// Keyboard input: key up or down, the scan code, and the modifier keys.
#[derive(Clone, Copy, Debug, PartialEq, Eq, Structural)]
pub struct KeyboardEvent {
    pub event: u32,
    pub code: u32,
    pub modifiers: u32,
}

/// A request to repaint one document element.
///
/// `element` is the engine's handle for the element, carried as the
/// address-sized value the engine gave out; zero stands for the whole
/// document.
#[derive(Clone, Copy, Debug, PartialEq, Eq, Structural)]
pub struct PaintEvent {
    pub element: usize,
    pub foreground: bool,
}

/// Host-provided events that notify the engine.
#[derive(Clone, Copy, Debug, PartialEq, Eq, Structural)]
pub enum Message {
    /// Creates an engine instance for the host's window.
    Create { backend: u32, transparent: bool },
    /// Destroys the engine instance.
    Destroy,
    /// The window size changed.
    Size { width: u32, height: u32 },
    /// The screen resolution changed.
    Resolution { ppi: u32 },
    /// The window gained or lost focus.
    Focus { enter: bool },
    /// Time passed: animations and timers should advance.
    Heartbit { milliseconds: u32 },
    /// Redraw the whole document.
    Redraw,
    /// Redraw one layer of one element.
    Paint(PaintEvent),
    /// Mouse input.
    Mouse(MouseEvent),
    /// Keyboard input.
    Keyboard(KeyboardEvent),
}

} // verus!
