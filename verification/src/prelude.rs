//! The names that most users need: the camera and the sizes of its viewport.

pub use crate::components::PixelCamera;
pub use crate::viewport::ViewportSize;
