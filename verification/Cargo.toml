[package]
name = "calculator_bot"
version = "0.1.0"
edition = "2021"
rust-version = "1.95"
publish = false

[dependencies]
teloxide = { version = "=0.12.2", default-features = false, features = ["macros", "redis-storage", "cbor-serializer"] }
dptree = "=0.3.0"
serde = { version = "=1.0.229", features = ["derive"] }
serde_json = "=1.0.154"
tokio = { version = "=1.54.1", features = ["rt-multi-thread", "macros"] }
dotenvy = "=0.15.7"
pretty_env_logger = "=0.5.0"
# Not used by this crate. teloxide-core depends on it, and its release 0.1.2
# asks for a newer compiler than the rust-version above.
takecell = "<0.1.2"
