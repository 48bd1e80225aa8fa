[package]
name = "p2p_node_handshake"
version = "0.1.0"
edition = "2021"
publish = false

[dependencies]
bitcoin = "0.29"
rand = "0.8"
chrono = "0.4"
tokio = { version = "1", features = ["rt-multi-thread", "macros", "net", "time", "io-util"] }
log = "0.4"
env_logger = "0.10"
