[package]
name = "proto_types"
version = "0.1.0"
edition = "2021"
publish = false

[dependencies]
chrono = "0.4"
chrono-tz = "*"
num-traits = "0.2"
paste = "1"
prost = "*"
serde = { version = "1", features = ["derive"] }
thiserror = "*"
