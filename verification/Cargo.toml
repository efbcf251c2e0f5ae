[package]
name = "sandbox_ipc"
version = "0.1.0"
edition = "2021"
publish = false

[dependencies]
uuid = { version = "1", features = ["v4"] }
rand = "0.8"
byteorder = "1"
widestring = "1"
libc = "0.2"
log = "0.4"
lazy_static = "1"
serde = { version = "1", features = ["derive"] }
serde_json = "1"
bincode = "1"
futures = "0.1"
tokio-io = "0.1"
tokio-reactor = "0.1"
mio = "0.6"
