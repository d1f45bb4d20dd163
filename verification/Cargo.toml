[package]
name = "modl"
version = "0.1.0"
edition = "2021"
publish = false

[dependencies]
anyhow = "1"
arrow-array = { version = "*", default-features = false }
arrow-schema = { version = "*", default-features = false }
base64 = "0.22"
chrono = "0.4"
clap = { version = "4", default-features = false, features = ["derive", "env", "std", "help", "usage", "error-context"] }
futures-util = { version = "0.3", features = ["sink"] }
parquet = { version = "*", default-features = false, features = ["arrow", "zstd"] }
reqwest = { version = "0.12", default-features = false, features = ["rustls-tls"] }
rust_decimal = "1"
rustls = { version = "0.23", default-features = false, features = ["ring", "std"] }
serde = { version = "1", features = ["derive"] }
serde_json = { version = "1", features = ["arbitrary_precision"] }
tokio = { version = "1", features = ["macros", "rt-multi-thread", "signal", "sync", "time"] }
tokio-tungstenite = { version = "*", features = ["rustls-tls-webpki-roots"] }
zstd = "0.13"
