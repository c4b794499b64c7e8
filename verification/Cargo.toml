[package]
name = "password_generator"
version = "0.1.0"
edition = "2021"
publish = false

[dependencies]
rand = "0.8"
clipboard = "*"
native-windows-gui = "*"
serde = { version = "1", features = ["derive"] }
serde_yaml = "*"
