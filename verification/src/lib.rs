//! The core of a small terminal text editor: a line buffer with tab-aware
//! rendering, a cursor, a scrolled viewport and the frame that draws them.

pub mod csi;
pub mod document;
pub mod editor;
pub mod key;
pub mod model;
pub mod position;
pub mod row;
pub mod screen;
pub mod text;
