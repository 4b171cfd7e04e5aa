[package]
name = "tl2"
version = "0.1.0"
edition = "2021"
publish = false

[dependencies]
chrono = { version = "=0.4.45", features = ["serde"] }
fasthash = "=0.4.0"
voca_rs = "=1.15.2"
humantime = "=2.4.0"
serde = { version = "1", features = ["derive"] }
serde_json = "1"
anyhow = "1"
log = "0.4"
env_logger = "0.11"
tokio = { version = "1", features = ["full"] }
futures = "0.3"
clap = { version = "4", features = ["derive"] }
reqwest = { version = "0.12", default-features = false, features = ["json", "rustls-tls"] }
tokio-tungstenite = { version = "0.24", features = ["rustls-tls-webpki-roots"] }
twitch-irc = { version = "5", default-features = false, features = ["transport-ws-rustls-webpki-roots"] }
sqlx = { version = "0.8", default-features = false, features = ["sqlite", "runtime-tokio"] }
async-compression = { version = "0.4", features = ["tokio", "gzip", "zstd", "brotli"] }
config = "0.14"
colored = "2"
bytesize = "1"
