[package]
name = "axum_media"
version = "0.1.0"
edition = "2021"
publish = false

[dependencies]
axum = { version = "0.6", default-features = false }
bytes = "1"
mime = "0.3"
serde = "1"
serde_json = "1"
serde_path_to_error = "0.1"
serde_urlencoded = "0.7"
serde-xml-rs = "0.6"
serde_yaml = "0.9"
thiserror = "1"
tracing = "0.1"
