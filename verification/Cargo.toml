[package]
name = "curriculum_board"
version = "0.1.0"
edition = "2021"
publish = false

[dependencies]
sha3 = "*"
base16ct = { version = "*", features = ["alloc"] }
rand = "*"
chrono = "*"

[dev-dependencies]
serde_json = "*"
