//! A small retained-mode UI toolkit kernel: a pool of widget nodes, a message
//! bus, a family of widget builders, and a composite search-bar widget (a text
//! box with a magnifier icon and a "clear text" button) wired together by
//! message passing. A type-erased envelope for script messages rides along in
//! [`envelope`].
//!
//! All lengths are integer tenths of a logical pixel, so fractional sizes such
//! as one and a half pixels are representable without floating point.

pub mod border;
pub mod brush;
pub mod button;
pub mod decorator;
pub mod envelope;
pub mod grid;
pub mod message;
pub mod node;
pub mod pool;
pub mod searchbar;
pub mod style;
pub mod text;
pub mod text_box;
pub mod ui;
pub mod utils;
pub mod vector_image;
pub mod widget;
