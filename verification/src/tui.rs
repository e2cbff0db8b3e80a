//! What is drawn where. Colours, texts and widgets are the caller's; the places, the
//! order and the moving of cells are decided here.

pub mod buffer;
pub mod clock;
pub mod footer;
pub mod geometry;
pub mod header;
pub mod marks;
pub mod popups;
pub mod screen;
