[package]
name = "kommemeorate"
version = "0.1.0"
edition = "2021"
publish = false

[dependencies]
anyhow = "=1.0.104"
chrono = "=0.4.45"
clap = { version = "=4.6.7", default-features = false, features = ["derive", "std", "help"] }
config = { version = "=0.15.27", default-features = false, features = ["toml"] }
diesel = { version = "=2.3.14", default-features = false, features = ["postgres", "chrono"] }
diesel_migrations = "=2.3.2"
env_filter = "*"
env_logger = { version = "=0.11.11", default-features = false }
grammers-client = { version = "=0.7.0", default-features = false }
grammers-mtsender = { version = "=0.7.0", default-features = false }
log = "=0.4.34"
matrix-sdk = { version = "=0.11.0", default-features = false, features = ["rustls-tls"] }
sd-notify = "=0.4.5"
serde = { version = "=1.0.229", features = ["derive"] }
systemd-journal-logger = "*"
tokio = { version = "=1.54.1", features = ["macros", "rt-multi-thread", "signal", "sync", "time", "fs"] }
