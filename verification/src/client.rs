//! The client: where it connects, how it shakes hands, what it does with
//! what the server pushes, and its reconciliation loop.

pub mod cli;
pub mod conn;
pub mod grpc;
pub mod service;
pub mod worker;
