[package]
name = "shielded_recv"
version = "0.1.0"
edition = "2021"
publish = false

[dependencies]
ibc = { version = "*", features = ["serde"] }
ibc-middleware-module = "*"
ibc-middleware-module-macros = "*"
ibc-middleware-overflow-receive = "*"
ibc-middleware-packet-forward = "*"
serde = { version = "1", features = ["derive"] }
serde_json = "1"
