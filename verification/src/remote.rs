//! The messages that cross the wire, and the envelope that carries them.

pub mod meta;
pub mod request;
pub mod response;
