[package]
name = "kingfisher"
version = "0.1.0"
edition = "2021"
publish = false

[dependencies]
bytes = "=1.12.1"
heapless = "=0.7.17"
tokio = { version = "=1.54.1", features = ["sync", "rt", "rt-multi-thread", "macros", "io-util", "signal"] }
tokio-util = { version = "=0.7.20", features = ["codec"] }
tokio-serial = { version = "5", default-features = false }
futures = "=0.3.34"
log = "=0.4.34"
clap = { version = "4", features = ["derive"] }
pretty_env_logger = "0.5"

[dev-dependencies]
postcard = { version = "=1.1.3", features = ["alloc"] }
serde = "=1.0.229"
