[package]
name = "commerce"
version = "0.1.0"
edition = "2021"
publish = false

[dependencies]
uuid = { version = "1", features = ["v4"] }
base64 = "0.21"
infer = "0.15"
tonic = "0.10"
tonic-health = "0.10"
tonic-reflection = "0.10"
tonic-web = "0.10"
prost = "0.12"
tokio = { version = "1", features = ["macros", "rt"] }
deadpool-postgres = "0.11"
postgres-protocol = "0.6"
fallible-iterator = "0.2"
sea-query = { version = "0.30", features = ["with-uuid", "with-chrono", "backend-postgres"] }
sea-query-postgres = { version = "0.4", features = ["with-uuid", "with-chrono"] }
chrono = "0.4"
rust-s3 = "0.33"
image = { version = "0.24", default-features = false, features = ["png", "jpeg"] }
webp = "0.2"
async-nats = "0.32"
jwtk = "0.3"
tracing = "0.1"
tracing-subscriber = "0.3"
tower-http = { version = "0.4", features = ["trace", "cors"] }
http = "0.2"
futures = "0.3"
refinery = { version = "0.8", features = ["tokio-postgres"] }
