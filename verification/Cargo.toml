[package]
name = "chibi_protocol_stack"
version = "0.1.0"
edition = "2021"
publish = false

[dependencies]
tokio = { version = "1", features = ["rt-multi-thread", "macros", "sync"] }
tun = "0.6"
once_cell = "1"
thiserror = "1"
