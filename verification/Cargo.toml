[package]
name = "inovo_rs"
version = "0.1.0"
edition = "2021"
publish = false

[dependencies]
chrono = "0.4"
colored = "*"
local-ip-address = "*"
nalgebra = "*"
net2 = "0.2"
serde = { version = "1", features = ["derive"] }
serde_json = "1"
thiserror = "*"
websocket = { version = "*", default-features = false, features = ["sync"] }
