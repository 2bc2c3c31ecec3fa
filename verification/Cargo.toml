[package]
name = "zed"
version = "0.1.0"
edition = "2021"
publish = false

[dependencies]
anyhow = "=1.0.104"
async-tungstenite = { version = "=0.16.1", default-features = false }
backtrace = "=0.3.77"
chrono = "=0.4.45"
clap = { version = "=4.6.7", features = ["derive"] }
env_logger = "=0.9.3"
futures = "=0.3.34"
image = "=0.23.14"
lazy_static = "=1.5.1"
log = "=0.4.35"
lsp-types = "=0.95.1"
parking_lot = "=0.11.2"
postage = { version = "=0.5.0", features = ["futures-traits"] }
serde = { version = "=1.0.229", features = ["derive"] }
serde_json = "=1.0.154"
simplelog = "=0.9.0"
smol = "=1.3.0"
thiserror = "=1.0.69"
urlencoding = "=2.1.3"
