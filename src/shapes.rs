//! Box-drawing geometry and positioned text.
pub mod line;
pub mod rectangle;
pub mod text;
