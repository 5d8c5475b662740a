[package]
name = "mover"
version = "0.1.0"
edition = "2021"
publish = false

[dependencies]
enigo = { version = "*", default-features = false, features = ["x11rb"] }
env_logger = "*"
image = { version = "*", default-features = false, features = ["png"] }
log = "0.4"
serde = { version = "1", features = ["derive"] }
serde_json = "1"
thiserror = "1"
