//! The generic envelope and its codec.

pub mod util;
