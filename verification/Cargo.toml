[package]
name = "coffeeshop"
version = "0.1.0"
edition = "2021"
publish = false

[dependencies]
async-trait = "=0.1.92"
aws-config = "=1.13.0"
aws-sdk-dynamodb = "=1.136.0"
aws-sdk-sqs = "=1.119.0"
aws-sdk-sts = "=1.124.0"
axum = "=0.7.9"
base64 = "=0.22.1"
bincode = "=1.3.3"
chrono = "=0.4.45"
clap = { version = "=4.6.7", features = ["derive"] }
env_logger = "=0.11.11"
futures = "=0.3.34"
gethostname = "=0.5.0"
gzp = { version = "=0.11.3", default-features = false, features = ["deflate_rust", "libdeflate"] }
hashbrown = "=0.15.5"
http-serde = "=2.1.1"
log = "=0.4.35"
num_cpus = "=1.17.0"
prost = "=0.13.5"
prost-types = "=0.13.5"
serde = { version = "=1.0.229", features = ["derive"] }
serde_json = "=1.0.154"
serde_with = "=3.24.0"
socket2 = "=0.5.10"
strum = { version = "=0.26.3", features = ["derive"] }
tempfile = "=3.27.0"
thiserror = "=1.0.69"
tokio = { version = "=1.54.1", features = ["full"] }
tower-http = { version = "=0.5.2", features = ["timeout", "trace"] }
uuid = { version = "=1.29.0", features = ["v4"] }
