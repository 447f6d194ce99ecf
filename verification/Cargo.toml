[package]
name = "destinypedia"
version = "0.1.0"
edition = "2021"
publish = false

[dependencies]
chrono = "=0.4.45"
serde = { version = "=1.0.229", features = ["derive"] }
serde_json = "=1.0.154"
clap = { version = "=4.6.7", features = ["derive"] }
tokio = { version = "=1.54.1", features = ["full"] }
reqwest = { version = "=0.12.28", default-features = false, features = ["rustls-tls", "json", "stream"] }
sqlx = { version = "=0.8.6", default-features = false, features = ["sqlite", "runtime-tokio", "chrono"] }
inquire = "=0.7.5"
indicatif = "=0.17.11"
dirs = "=6.0.0"
tracing = "=0.1.44"
async-channel = "=2.5.0"
crossbeam-channel = "=0.5.17"
futures = "=0.3.34"
rayon = "=1.12.0"

[dev-dependencies]
tempfile = "3"
