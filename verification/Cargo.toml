[package]
name = "vibrance"
version = "0.1.0"
edition = "2021"
publish = false

[dependencies]
ulid = "1"
base64 = "0.22"
lrc = "*"
chrono = "0.4"
anyhow = "1"
once_cell = "1"
dirs = "*"
serde = { version = "1", features = ["derive"] }
serde_json = "1"
tokio = { version = "1", features = ["sync", "rt-multi-thread", "macros", "time", "fs", "io-util"] }
lofty = "*"
turso = "*"
