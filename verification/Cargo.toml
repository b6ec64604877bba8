[package]
name = "tcp_proxy"
version = "0.1.0"
edition = "2021"
publish = false

[dependencies]
tokio = { version = "1", features = ["full"] }
futures = "0.3"
once_cell = "1"
serde = { version = "1", features = ["derive"] }
directories = "*"
config = { version = "*", default-features = false, features = ["yaml"] }
