[package]
name = "ftpcli"
version = "0.1.0"
edition = "2021"
publish = false

[dependencies]
suppaftp = { version = "*", features = ["native-tls"] }

[dev-dependencies]
ansi_term = "*"
