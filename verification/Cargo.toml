[package]
name = "focl"
version = "0.1.0"
edition = "2021"
publish = false

[dependencies]
aws-config = "=1.12.0"
aws-sdk-s3 = "=1.152.0"
aws-types = "=1.6.0"
bgpkit-parser = { version = "=0.22.0", default-features = false, features = ["parser"] }
bytes = "=1.12.1"
bzip2 = "=0.6.1"
chrono = "=0.4.45"
flate2 = "=1.1.10"
hex = "=0.4.3"
ipnet = "=2.12.2"
libc = "=0.2.190"
rusqlite = { version = "=0.40.2", features = ["bundled"] }
serde = { version = "=1.0.229", features = ["derive"] }
serde_json = "=1.0.151"
sha2 = "=0.10.9"
tokio = { version = "=1.53.2", features = ["full"] }
toml = "=1.1.6"
zstd = "=0.14.0"

[dev-dependencies]
tempfile = "=3.27.0"
