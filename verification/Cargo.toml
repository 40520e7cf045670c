[package]
name = "voiceflow"
version = "0.1.0"
edition = "2021"
publish = false

[dependencies]
hound = "3.5"
log = "0.4"
serde = { version = "1", features = ["derive"] }
serde_json = "1"
thiserror = "1"
uuid = { version = "1", features = ["v4"] }
dotenvy = "0.15"
rusqlite = { version = "0.37", features = ["bundled"] }
reqwest = { version = "0.12", default-features = false, features = ["json", "multipart", "rustls-tls"] }
arboard = { version = "3", default-features = false }
keyring = { version = "3", features = ["apple-native", "windows-native", "linux-native"] }
