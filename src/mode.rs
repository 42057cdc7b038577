//! The drawing modes: straight to the controller, or through a frame buffer.

pub use crate::driver::{BasicMode, BufferedGraphics, DisplayConfiguration, DrawError};
