//! Core of a 2D canvas rendering and input adapter.
//!
//! A host application hands the adapter a per-frame draw list of oriented,
//! colored or bitmap-textured rectangles together with a viewport, and reads
//! back a normalized snapshot of keyboard and pointer input.  This crate holds
//! the verified core: the exact affine-transform arithmetic for the two render
//! passes, the replay of a draw list into an ordered sequence of drawing
//! operations, and the normalization of raw input snapshots.  The embedding
//! shell that owns the actual drawing surface replays the operation sequence
//! and performs all I/O.

pub mod context;
pub mod control;
pub mod geometry;
pub mod raster;
pub mod scalar;
pub mod transform;

pub use context::{RenderFrame, Surface, WebContext};
pub use control::{Control, KeyEvent, WebControl, WebKeyEvent};
pub use geometry::{DrawCommand, OrientedRect, Texture, Vec2, Viewport};
pub use raster::{BitmapRegistry, CanvasOp, RenderError};
pub use scalar::Scalar;
pub use transform::Transform;
