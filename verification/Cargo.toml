[package]
name = "spoty"
version = "0.1.0"
edition = "2021"
publish = false

[dependencies]
rand = "0.8"
urlencoding = "2"
serde = { version = "1", features = ["derive"] }
serde_json = "1"
toml = "0.8"
dirs = "5"
dotenv = "0.15"
open = "5"
tokio = { version = "1", features = ["macros", "rt-multi-thread", "sync", "time"] }
actix-web = { version = "4", default-features = false, features = ["macros"] }
reqwest = { version = "0.12", default-features = false, features = ["rustls-tls", "json"] }
