[package]
name = "matrix_bridge"
version = "0.1.0"
edition = "2021"
publish = false

[dependencies]
anyhow = "1"
eyeball = "*"
lazy_static = "1"
mime = "0.3"
parking_lot = "0.12"
ruma = { version = "*", default-features = false }
sanitize-filename-reader-friendly = "*"
serde_json = { version = "1", features = ["preserve_order"] }
thiserror = "1"
tokio = { version = "1", features = ["rt-multi-thread"] }
tracing = "0.1"
url = "2"
