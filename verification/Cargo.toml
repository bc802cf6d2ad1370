[package]
name = "zerofs"
version = "2.0.0"
edition = "2021"
publish = false

[dependencies]
anyhow = "=1.0.104"
arc-swap = "=1.9.3"
bytes = { version = "=1.12.1", features = ["serde"] }
foyer = { version = "=0.22.6", features = ["serde"] }
libc = "=0.2.191"
libsystemd = "=0.7.2"
object_store = { version = "=0.14.2", default-features = false }
serde = { version = "=1.0.229", features = ["derive"] }
shellexpand = "=3.1.2"
slatedb = { version = "=0.18.0", features = ["wal_disable"] }
slatedb-common = "=0.18.0"
tokio = { version = "=1.54.1", features = ["full"] }
tokio-stream = "=0.1.19"
tokio-util = "=0.7.20"
toml = "=1.1.8"
tracing = "=0.1.44"
tracing-subscriber = { version = "=0.3.23", features = ["env-filter"] }
uuid = "=1.29.0"
zerofs_nfsserve = "=0.19.1"
