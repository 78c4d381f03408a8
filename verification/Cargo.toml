[package]
name = "arc_split"
version = "0.1.0"
edition = "2021"
publish = false

[dependencies]
rand = "0.8"
rmp-serde = "1"
rusqlite = "*"
serde = { version = "1", features = ["derive"] }
