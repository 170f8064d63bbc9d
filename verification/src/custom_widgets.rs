//! What the widgets on the screen hold, apart from how they are drawn.

pub mod button;
pub mod circle;
