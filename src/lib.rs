pub mod mandelbrot;
pub mod palette;
pub mod render;
