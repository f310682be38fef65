//! Traits which extend types of the renderer.

mod response;

pub use response::{click_position, ResponseExt};
