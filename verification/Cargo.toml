[package]
name = "ric3"
version = "0.1.0"
edition = "2021"
publish = false

[dependencies]
toml = "*"
pulldown-cmark = "*"
mime_guess = "*"
http = "*"
axum = "*"
axum-server = { version = "*", features = ["tls-rustls"] }
tokio = { version = "*", features = ["full"] }
tokio-util = { version = "*", features = ["io"] }
clap = { version = "*", features = ["derive"] }
tracing = "*"
tracing-subscriber = "*"
