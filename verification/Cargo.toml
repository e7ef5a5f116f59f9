[package]
name = "nbf"
version = "0.1.0"
edition = "2021"
publish = false

[dependencies]
sea-query = "=0.28.5"
regex = "=1.13.1"
serde = { version = "=1.0.229", features = ["derive"] }
serde_with = "=2.3.3"
reqwest = { version = "=0.11.27", default-features = false, features = ["json"] }
tokio = { version = "=1.54.1", features = ["rt-multi-thread", "macros"] }
futures = "=0.3.34"
futures-locks = "=0.7.1"
chrono = "=0.4.45"
log = "=0.4.35"
pretty_env_logger = "=0.4.0"
fluent = "=0.16.1"
fluent-syntax = "=0.11.1"
unic-langid = "=0.9.6"
intl-memoizer = "=0.5.3"
itertools = "=0.10.5"
sqlx = { version = "=0.6.3", default-features = false, features = ["postgres", "runtime-tokio-rustls", "macros"] }
sea-query-binder = { version = "=0.3.1", features = ["sqlx-postgres"] }
poise = "0.5"
