[package]
name = "agnt5-sdk-core"
version = "0.1.0"
edition = "2021"
publish = false

[dependencies]
anyhow = "=1.0.104"
async-stream = "=0.3.6"
async-trait = "=0.1.92"
bytes = "=1.12.1"
chrono = "=0.4.45"
crc32fast = "=1.5.4"
futures = "=0.3.34"
hex = "=0.4.3"
hmac = "=0.12.1"
lazy_static = "=1.5.1"
opentelemetry = "=0.33.1"
opentelemetry-semantic-conventions = { version = "=0.33.1", features = ["semconv_experimental"] }
qdrant-client = "=1.20.0"
rand = "=0.9.5"
reqwest = { version = "=0.12.28", default-features = false, features = ["json", "stream", "rustls-tls"] }
serde = { version = "=1.0.229", features = ["derive"] }
serde_json = "=1.0.154"
sha2 = "=0.10.9"
tokio = { version = "=1.54.1", features = ["rt-multi-thread", "macros", "process", "io-util", "io-std", "sync", "time", "net"] }
tracing = "=0.1.44"
tracing-log = "=0.2.0"
tracing-subscriber = { version = "=0.3.23", features = ["env-filter"] }
unicode-segmentation = "=1.13.3"
uuid = { version = "=1.29.0", features = ["v4"] }
