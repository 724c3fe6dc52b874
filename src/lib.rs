//! Live reporting of a desktop's appearance preferences: color scheme,
//! accent color and contrast.
//!
//! [`builder`] turns the three initial fetches into the first snapshot,
//! [`merge`] turns each change notification into the next one, and
//! [`render`] gives the keys and values that a consumer reads.
pub mod appearance;
pub mod normalize;
pub mod builder;
pub mod merge;
pub mod render;
