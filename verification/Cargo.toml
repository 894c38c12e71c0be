[package]
name = "brain_reader"
version = "0.1.0"
edition = "2021"
publish = false

[dependencies]
tello = "*"
tokio = { version = "*", features = ["rt-multi-thread"] }
reqwest = { version = "*", default-features = false, features = ["json"] }
serde = { version = "*", features = ["derive"] }
csv = "*"
