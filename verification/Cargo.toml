[package]
name = "harbormaster"
version = "0.1.0"
edition = "2021"
publish = false

[dependencies]
rustix = { version = "*", features = ["fs", "process"] }
rusqlite = { version = "*", features = ["backup", "limits"] }
serde = { version = "1", features = ["derive"] }
serde_json = "1"
