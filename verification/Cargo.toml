[package]
name = "cavebot"
version = "0.1.0"
edition = "2021"
publish = false

[dependencies]
serde_json = "=1.0.151"
log = "=0.4.34"
dotenv = "=0.15.0"
pretty_env_logger = "=0.4.0"
takecell = "=0.1.1"
tokio = { version = "=1.53.2", features = ["macros", "rt-multi-thread"] }
reqwest = { version = "=0.11.27", default-features = false, features = ["rustls-tls"] }
teloxide = { version = "=0.12.2", default-features = false, features = ["macros", "rustls", "ctrlc_handler"] }
