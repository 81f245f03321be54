//! Messages for driving an embeddable HTML/CSS engine in windowless mode.
//!
//! In windowless operation the host application owns the window or surface
//! and forwards its UI events to the engine by hand.  Each event becomes a
//! fixed-layout message record: four little-endian bytes of record code,
//! then the record's fields.  This crate holds the message vocabulary, the
//! encoder that lays every record out byte for byte, and a small tracker
//! that turns raw pointer input into mouse messages.  The foreign call that
//! hands a record's address to the engine stays with the host: the engine
//! is a closed native library that no contract here can speak for.

mod adapter;
mod message;
mod wire;

pub use adapter::key_input;
pub use adapter::lemma_modifier_bits;
pub use adapter::modifier_bits;
pub use adapter::spec_modifier_bits;
pub use adapter::PointerTracker;
pub use adapter::BUTTON_MAIN;
pub use adapter::BUTTON_MIDDLE;
pub use adapter::BUTTON_NONE;
pub use adapter::BUTTON_PROP;
pub use adapter::KEY_DOWN;
pub use adapter::KEY_UP;
pub use adapter::MODIFIER_ALT;
pub use adapter::MODIFIER_CONTROL;
pub use adapter::MODIFIER_SHIFT;
pub use adapter::MOUSE_DOWN;
pub use adapter::MOUSE_ENTER;
pub use adapter::MOUSE_LEAVE;
pub use adapter::MOUSE_MOVE;
pub use adapter::MOUSE_UP;
pub use message::KeyboardEvent;
pub use message::Message;
pub use message::MouseEvent;
pub use message::PaintEvent;
pub use message::Point;
pub use wire::canonical;
pub use wire::code_of;
pub use wire::encode;
pub use wire::encode_create;
pub use wire::encode_destroy;
pub use wire::encode_focus;
pub use wire::encode_heartbit;
pub use wire::encode_keyboard;
pub use wire::encode_mouse;
pub use wire::encode_paint;
pub use wire::encode_redraw;
pub use wire::encode_resolution;
pub use wire::encode_size;
pub use wire::encoded;
pub use wire::lemma_record_determines_message;
pub use wire::lemma_record_shape;
pub use wire::lemma_u64_le_inverts;
pub use wire::u64_from_le;
pub use wire::lemma_same_record_same_code;
pub use wire::lemma_u32_le_inverts;
pub use wire::paint_record;
pub use wire::record_len;
pub use wire::spec_flag;
pub use wire::u32_from_le;
pub use wire::u32_le;
pub use wire::u64_le;
pub use wire::i32_le;
pub use wire::CODE_CREATE;
pub use wire::CODE_DESTROY;
pub use wire::CODE_FOCUS;
pub use wire::CODE_HEARTBIT;
pub use wire::CODE_KEY;
pub use wire::CODE_MOUSE;
pub use wire::CODE_PAINT;
pub use wire::CODE_RESOLUTION;
pub use wire::CODE_SIZE;
pub use wire::PAINT_TARGET_DEFAULT;
