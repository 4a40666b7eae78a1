[package]
name = "threema_cli"
version = "0.1.0"
edition = "2021"
publish = false

[dependencies]
anyhow = "1"
clap = { version = "4", features = ["derive"] }
data-encoding = "=2.11.1"
futures-util = "0.3"
libthreema = "*"
prost = "=0.14.4"
reqwest = { version = "0.12", default-features = false }
serde = { version = "1", features = ["derive"] }
serde_json = "1"
tokio = { version = "1", features = ["io-std", "io-util", "macros", "net", "rt", "signal", "sync", "time"] }
tokio-tungstenite = "=0.30.0"
tracing = "0.1"
