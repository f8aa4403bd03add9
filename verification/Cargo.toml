[package]
name = "operator"
version = "0.1.0"
edition = "2021"
publish = false

[dependencies]
serde_json = "1"
egui = "*"
rusty_spine = "*"
image = { version = "*", default-features = false, features = ["png"] }
tokio = { version = "1", features = ["sync"] }
chrono = { version = "0.4", default-features = false, features = ["clock"] }
