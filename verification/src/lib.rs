//! Rendering core of a small 2D game framework.
//!
//! The crate turns a stream of "draw this image region at this screen
//! position with this color" requests into a minimal sequence of GPU draw
//! calls, while preserving back-to-front blending order and without ever
//! resolving a stale resource handle to another occupant's value.

use vstd::prelude::*;

pub mod buffer;
pub mod color;
pub mod error;
pub mod images;
pub mod input;
pub mod key;
pub mod metrics;
pub mod point;
pub mod rectangle;
pub mod shader;
pub mod slots;
pub mod sprite;
pub mod sprite_batch;

pub use color::Color;
pub use error::{NikoError, ShaderError, WebGLError};
pub use images::{Image, ImageData, Images};
pub use input::Input;
pub use key::Key;
pub use metrics::Metrics;
pub use point::Point;
pub use rectangle::Rectangle;
pub use shader::ShaderBindings;
pub use sprite::Sprite;
pub use sprite_batch::{DrawCall, FramePlan, QuadBits, SpriteBatch, SpriteInstance, VertexBits};

verus! {

/// An event the framework loop drains once per frame boundary, in queue
/// order, before update and draw run: a key transition or the completion
/// of an asynchronous image load.
#[derive(Debug, Copy, Clone, Eq, PartialEq, Structural)]
pub enum Event {
    /// A key went down.
    KeyDown(crate::key::Key),
    /// A key went up.
    KeyUp(crate::key::Key),
    /// An image's asynchronous load completed.
    ImageLoaded(crate::images::Image),
}

} // verus!
