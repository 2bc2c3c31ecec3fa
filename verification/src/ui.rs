//! What the interface is drawn with.
pub mod color;
pub mod icon;
