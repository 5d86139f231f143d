[package]
name = "oxideterm"
version = "0.1.0"
edition = "2021"
publish = false

[dependencies]
serde = { version = "*", features = ["derive"] }
serde_json = "*"
regex = "*"
uuid = { version = "*", features = ["v4"] }
chrono = "*"
tokio = { version = "*", features = ["full"] }
russh = "*"
rmp-serde = "*"
redb = "*"
dashmap = "*"
parking_lot = "*"
