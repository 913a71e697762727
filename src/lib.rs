//! A window that paints a procedural color field and wakes up on signals
//! from a background producer.
//!
//! The library holds the logic: the color field, the row-major painting of a
//! pixel buffer, the size binding between window and buffer, the window's
//! event dispatch, and the producer's stop rule. Window creation, pixel
//! presentation, threads and the floating-point ring shade stay with the
//! caller.
pub mod color;
pub mod dispatch;
pub mod frame;
pub mod producer;
pub mod surface;

pub use color::{draw, pack_color};
pub use dispatch::{Action, App, Event};
pub use frame::paint;
pub use producer::{Producer, ProducerStep};
pub use surface::RenderSurface;
