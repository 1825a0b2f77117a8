//! Names and values that the client and the server agree on.

pub mod names;
pub mod path;
pub mod remote;
pub mod res_names;
pub mod val;
