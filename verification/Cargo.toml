[package]
name = "thread_supervisor"
version = "0.1.0"
edition = "2021"
publish = false

[dependencies]
tokio = { version = "=1.54.1", features = ["sync", "time", "macros", "rt-multi-thread"] }
humantime = "=2.4.0"
serenity = { version = "=0.12.5", default-features = false, features = ["builder", "client", "collector", "gateway", "http", "model", "rustls_backend"] }
clap = { version = "=4.6.7", features = ["derive", "env"] }
futures = "=0.3.34"
serde = { version = "=1.0.229", features = ["derive"] }
serde_json = "=1.0.154"
thiserror = "=2.0.21"
tracing = "=0.1.44"
tracing-subscriber = "=0.3.23"
coral-rs = "0.1"
