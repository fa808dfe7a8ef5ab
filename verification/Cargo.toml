[package]
name = "calculator_chat"
version = "0.1.0"
edition = "2021"
publish = false

[dependencies]
anyhow = "=1.0.104"
clap = { version = "=4.6.7", features = ["derive", "env"] }
dotenvy = "=0.15.7"
reqwest = { version = "=0.13.5", default-features = false, features = ["json"] }
rmcp = { version = "=3.5.0", features = ["client", "server", "macros", "transport-child-process", "transport-io"] }
serde = { version = "=1.0.229", features = ["derive"] }
serde_json = "=1.0.151"
tokio = { version = "=1.53.2", features = ["macros", "rt-multi-thread", "process", "io-util"] }
tracing = "=0.1.44"
tracing-subscriber = { version = "=0.3.23", features = ["env-filter"] }
