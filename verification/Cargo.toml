[package]
name = "evm_arb_service"
version = "0.1.0"
edition = "2021"
publish = false

[dependencies]
anyhow = "=1.0.104"
chrono = { version = "=0.4.45", default-features = false, features = ["clock"] }
clap = { version = "4", default-features = false, features = ["std", "derive", "help"] }
ethers = { version = "=2.0.14", default-features = false }
hyper = { version = "=0.14.32", features = ["server", "http1", "tcp"] }
lazy_static = "=1.5.1"
prometheus = { version = "=0.13.4", default-features = false }
rand = "=0.9.5"
reqwest = { version = "=0.11.27", default-features = false }
serde = { version = "=1.0.229", features = ["derive"] }
serde_json = "=1.0.154"
thiserror = "=1.0.69"
tokio = { version = "=1.54.1", features = ["rt-multi-thread", "macros", "signal", "time"] }
tracing = "=0.1.44"
tracing-subscriber = { version = "0.3", default-features = false, features = ["fmt", "env-filter"] }
