[package]
name = "dataverse_heavy_uploader"
version = "0.1.0"
edition = "2021"
publish = false

[dependencies]
url = "2"
rand = "0.8"
mime_guess = "2"
serde = { version = "1", features = ["derive"] }
serde_json = "1"
chrono = { version = "0.4", features = ["serde"] }
uuid = { version = "1", features = ["v4"] }
csv = "1"
sha2 = "0.10"
walkdir = "2"
zip = { version = "0.6", default-features = false, features = ["deflate"] }
rusqlite = { version = "0.31", features = ["bundled"] }
reqwest = { version = "0.12", default-features = false, features = ["json", "multipart", "stream", "rustls-tls"] }
tokio = { version = "1", features = ["full"] }
tokio-util = { version = "0.7", features = ["io"] }
futures-util = "0.3"
keyring = { version = "3", features = ["linux-native"] }
thiserror = "1"

[dev-dependencies]
tempfile = "3"
