//! A palette engine that represents colors both as hue/saturation/lightness
//! triples and as Cartesian points, and interpolates between anchor colors
//! along easing-deformed segments.
//!
//! All quantities are Q32.32 fixed-point numbers carried in `i64` values:
//! the real number `v` is stored as the integer `v * 2^32`.

pub mod error;
pub mod fns;
pub mod fx;
pub mod point;
pub mod poline;
pub mod trig;

pub use point::ColorPoint;
pub use point::Hsl;
pub use poline::Poline;

