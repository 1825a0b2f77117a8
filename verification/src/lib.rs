//! Client-side runtime for a configuration and service-discovery server.

pub mod ability;
pub mod api_client;
pub mod api_routes;
pub mod cache;
pub mod client;
pub mod common;
pub mod config;
pub mod connection;
pub mod consts;
pub mod crypto;
pub mod env;
pub mod error;
pub mod grpc;
pub mod http;
pub mod listeners;
pub mod number;
pub mod remote;
pub mod security;
pub mod strmap;
pub mod text;
pub mod utils;
