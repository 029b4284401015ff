[package]
name = "disk_tidy"
version = "0.1.0"
edition = "2021"
publish = false

[dependencies]
sha2 = "=0.11.0"
lru = { version = "=0.18.5", default-features = false }
walkdir = "=2.5.0"
glob-match = "=0.2.1"
uuid = { version = "=1.27.0", features = ["v4"] }
chrono = "=0.4.45"
dirs = "=7.0.0"
tokio = { version = "=1.53.2", features = ["fs", "time", "rt"] }
serde = { version = "=1.0.229", features = ["derive"] }
serde_json = "=1.0.151"
rayon = "=1.12.0"
tempfile = "=3.27.0"
