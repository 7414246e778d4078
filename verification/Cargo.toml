[package]
name = "xor"
version = "0.1.0"
edition = "2021"
publish = false

[dependencies]
arrayvec = "=0.7.8"
anyhow = "=1.0.104"
coarsetime = "=0.1.38"
env_logger = "=0.11.11"
log = "=0.4.35"
log_limit = "=0.3.0"
parking_lot = "=0.12.5"
socket2 = { version = "=0.5.10", features = ["all"] }
supershorty = "=0.3.2"
tokio = { version = "=1.54.1", features = ["rt-multi-thread", "net", "signal", "macros", "sync", "time"] }
