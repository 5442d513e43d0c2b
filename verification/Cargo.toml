[package]
name = "filedrop"
version = "0.1.0"
edition = "2021"
publish = false

[dependencies]
mime-sniffer = "0.1"
random-fast-rng = "0.1"
bytes = "1"
futures = "0.3"
log = "0.4"
pretty_env_logger = "0.4"
config = "0.11"
serde = { version = "1", features = ["derive"] }
tokio = { version = "1", features = ["full"] }
warp = { version = "0.3", features = ["tls"] }
sqlx = { version = "0.6", default-features = false, features = ["mysql", "runtime-tokio-rustls"] }
