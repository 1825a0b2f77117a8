[package]
name = "nacos_client"
version = "0.1.0"
edition = "2021"
publish = false

[dependencies]
md5 = "0.7"
itertools = "0.10"
serde = { version = "1", features = ["derive"] }
serde_json = "1"
chrono = "0.4"
log = "0.4"
tokio = { version = "1", features = ["rt-multi-thread", "macros", "sync", "time"] }
tonic = "0.12"
prost = "0.13"
prost-types = "0.13"
reqwest = { version = "0.12", default-features = false, features = ["gzip", "charset"] }
async-stream = "0.3"
config = { version = "0.13", default-features = false, features = ["toml"] }
local-ip-address = "0.6"
