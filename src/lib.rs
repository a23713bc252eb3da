//! Specified and computed CSS values for lengths, percentages, angles,
//! positions, colors and images, with their parsers and resolvers.

pub mod number;
pub mod token;
pub mod color;
pub mod specified;
pub mod gradient;
pub mod computed;
pub mod image;
pub mod serialize;

pub use image::parse_url;
pub use number::{Au, Number, Ratio};
