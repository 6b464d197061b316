//! A verified Mandelbrot renderer: maps each pixel of a grid to a point
//! of the complex plane in the fixed view window [-2.5, 1.0] x [-1.0, 1.0],
//! runs the escape-time iteration on it in fixed-point arithmetic, turns
//! the iteration count into a grayscale intensity, and assembles the
//! pixels into an image buffer.

pub mod buffer;
pub mod color;
pub mod escape;
pub mod fixed;
pub mod mapper;
pub mod render;
