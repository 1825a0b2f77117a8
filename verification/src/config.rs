//! What a client is configured with.

pub mod listener;
pub mod props;
pub mod source;
pub mod ty;
