//! An embeddable terminal pager: a growable line buffer with an optional
//! pinned header and footer, a clamped scroll offset, and the layout and
//! key-dispatch rules that drive a full-screen redraw loop.

pub mod engine;
pub mod layout;
pub mod surface;
pub mod text;

pub use engine::{CycleStep, Key, KeyStep};
pub use layout::{body_height, ScreenLine};
pub use surface::PagerHandle;
pub use text::split_lines;
