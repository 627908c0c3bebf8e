//! Escape-time fractal rendering core: the frame's pixel storage and its two
//! layouts, the shading of escape outcomes, the render gate and view controls,
//! the coordinates file layout and the frame-time window.

pub mod pixel;
pub mod buffer;
pub mod gate;
pub mod render;
pub mod controls;
pub mod coords;
pub mod ticks;
