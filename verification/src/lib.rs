//! Text for the UI that is not bound to the UI's layout tree: it is drawn at
//! the position, rotation and depth of its entity.
//!
//! This crate holds the rules of the two passes that make this work. The
//! layout pass decides when the text of an entity is laid out again and keeps
//! the queue of entities that wait for a font. The extraction pass turns a
//! laid-out text into one draw primitive for each glyph. Shaping the text,
//! placing the glyphs and talking to the engine are the host's part.

pub mod extract;
pub mod layout;
pub mod plugin;
pub mod retry_queue;
pub mod text;

pub use extract::{extract_text_sprite, resolve_camera, DrawPrimitive, StaleLayout, TextSprite};
pub use layout::{update_ui_independent_text_layout, LayoutAction, LayoutEvent, TextError};
pub use plugin::{IndependentTextPlugin, Registration};
pub use retry_queue::RetryQueue;
pub use text::{BreakLineOn, JustifyText, TextSection, UiText};
