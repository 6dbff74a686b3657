[package]
name = "server_kit"
version = "0.1.0"
edition = "2021"
publish = false

[dependencies]
notify = "=8.2.0"
salvo = { version = "=0.96.0", default-features = false, features = ["server", "server-handle", "http1", "http2", "fix-http1-request-uri", "aws-lc-rs", "acme", "affix-state", "cors", "force-https", "quinn", "rustls"] }
serde = { version = "=1.0.229", features = ["derive"] }
serde_yaml = "=0.9.34"
tokio = { version = "=1.53.2", features = ["rt", "signal", "sync"] }
tracing = "=0.1.44"
tracing-appender = "=0.2.5"
tracing-subscriber = "=0.3.23"
