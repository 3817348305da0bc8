[package]
name = "profile_switcher"
version = "0.1.0"
edition = "2021"
publish = false

[dependencies]
regex = "=1.13.1"
serde = { version = "=1.0.229", features = ["derive"] }
serde_json = "=1.0.151"
serde_yaml = "=0.9.34"
notify = "=8.2.0"
chrono = "=0.4.45"
thiserror = "=2.0.21"
futures = "=0.3.34"
async-trait = "=0.1.92"
tokio = { version = "=1.53.2", features = ["full"] }
tokio-util = { version = "=0.7.19", features = ["codec"] }
reqwest = { version = "=0.12.28", default-features = false, features = ["multipart", "stream"] }
reqwest-oauth1 = "=0.3.0"
