//! The animations a strip can run.

pub mod fireworks;
pub mod simple_color;
pub mod off;
pub mod full_rainbow;
pub mod timer;
pub mod color_band;
