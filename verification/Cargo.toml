[package]
name = "opti_neko"
version = "0.1.0"
edition = "2021"
publish = false

[dependencies]
anyhow = "=1.0.104"
prost = "=0.13.5"
serde = { version = "=1.0.229", features = ["derive"] }
tokio = { version = "=1.54.1", features = ["full"] }
tonic = "=0.12.3"
tracing = "=0.1.44"
tracing-subscriber = "=0.3.23"
winapi = { version = "=0.3.9", features = ["handleapi", "processthreadsapi", "psapi", "winnt"] }
