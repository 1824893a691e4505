[package]
name = "autoflow"
version = "0.1.0"
edition = "2021"
publish = false

[dependencies]
anyhow = "*"
fantoccini = { version = "*", default-features = false, features = ["rustls-tls"] }
image = { version = "*", default-features = false, features = ["png"] }
serde = { version = "*", features = ["derive"] }
serde_json = "*"
tokio = { version = "*", features = ["rt-multi-thread", "macros", "time"] }
