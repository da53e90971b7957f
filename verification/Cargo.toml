[package]
name = "power_pizza_bot"
version = "0.1.0"
edition = "2021"
publish = false

[dependencies]
chrono = { version = "=0.4.45", features = ["serde"] }
futures-util = "0.3"
lazy_static = "1"
log = "0.4"
mongodb = "3"
pretty_env_logger = "0.5"
regex = "=1.13.1"
reqwest = { version = "0.12", default-features = false, features = ["json", "multipart", "rustls-tls", "stream"] }
serde = { version = "1", features = ["derive"] }
serde_json = "1"
serde_with = "3"
substring = "=1.4.5"
takecell = "=0.1.1"
teloxide = { version = "0.13", default-features = false, features = ["ctrlc_handler", "macros", "rustls"] }
tokio = { version = "1", features = ["full"] }
tokio-stream = "0.1"
unidecode = "=0.3.0"
