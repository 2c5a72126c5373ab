[package]
name = "taicho"
version = "0.1.0"
edition = "2021"
publish = false

[dependencies]
serde = { version = "=1.0.229", features = ["derive"] }
serde_json = "=1.0.154"
uuid = { version = "=1.29.0", features = ["v4"] }
chrono = "=0.4.45"
honcho-ai = "=0.1.6"
keyring-core = "=1.0.1"
dbus-secret-service-keyring-store = "=1.0.1"
apple-native-keyring-store = "=1.0.2"
windows-native-keyring-store = "=1.1.0"
directories = "=6.0.0"
tokio = { version = "=1.54.1", features = ["sync", "rt", "macros", "time"] }
futures-util = "=0.3.34"
tracing = "=0.1.44"
anyhow = "=1.0.104"
thiserror = "=2.0.21"
ammonia = "=4.2.4"
pulldown-cmark = "=0.13.6"
dioxus = { version = "=0.7.10", default-features = false, features = ["minimal"] }
rfd = "*"
