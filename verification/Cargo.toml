[package]
name = "temi"
version = "0.1.0"
edition = "2021"
publish = false

[dependencies]
crossterm = "*"
hashbrown = "*"
http = "0.2"
hyper = { version = "0.14", features = ["client", "http1", "http2", "tcp"] }
hyper-tls = "0.5"
image = { version = "*", default-features = false }
ratatui = "*"
serde = { version = "1", features = ["derive"] }
serde_json = "1"
signal-hook = "*"
tokio = { version = "1", features = ["macros", "rt-multi-thread"] }
