//! General utility traits.

pub mod pluralize;
