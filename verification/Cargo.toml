[package]
name = "rustic_vfs"
version = "0.1.0"
edition = "2021"
publish = false

[dependencies]
opendal-core = "=0.57.0"
rustic_core = "=0.13.0"
rustic_backend = { version = "=0.7.0", default-features = false }
serde = { version = "1", features = ["derive"] }
humantime-serde = "1"
tokio = { version = "1", features = ["rt", "rt-multi-thread", "sync", "time", "macros"] }
log = "0.4"

[dev-dependencies]
tempfile = "3"
