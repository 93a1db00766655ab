[package]
name = "audio-convert-rs"
version = "0.1.1"
edition = "2021"
publish = false

[dependencies]
anyhow = "1"
async-tempfile = "*"
clap = { version = "4", features = ["derive", "env"] }
rvoip-codec-core = "*"
ffmpeg-the-third = "3"
futures = "0.3"
hound = "3"
http = "1"
opentelemetry = "0.25"
opentelemetry-http = "0.25"
opentelemetry-otlp = { version = "0.25", default-features = false, features = ["trace", "http-proto", "reqwest-client"] }
opentelemetry_sdk = { version = "0.25", features = ["rt-tokio"] }
opentelemetry-stdout = { version = "0.25", features = ["trace"] }
prost = "0.13"
prost-types = "0.13"
rubato = "0.16"
thiserror = "2"
tokio = { version = "1", features = ["full"] }
tokio-stream = "0.1"
tokio-util = "0.7"
tonic = "0.13"
tonic-health = "0.13"
tonic-reflection = "0.13"
tracing = "0.1"
tracing-opentelemetry = "0.26"
tracing-subscriber = { version = "0.3", features = ["env-filter"] }
