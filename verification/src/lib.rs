//! Coordinate points for scanline geometry: an integer point family in two
//! and three dimensions, with the inverse-slope classification used to order
//! edges during sweep processing.

pub mod point;
