[package]
name = "multi_group_mining"
version = "0.1.0"
edition = "2021"
publish = false

[dependencies]
anyhow = "1"
log = "0.4"
reqwest = { version = "=0.12.28", default-features = false }
serde = { version = "1", features = ["derive"] }
serde_json = "1"
sysinfo = "=0.31.4"
tari_shutdown = "=5.1.0"
tokio = { version = "1", features = ["sync", "time"] }
uuid = { version = "=1.29.0", features = ["v4"] }
windows-sys = { version = "=0.52.0", features = ["Win32_Foundation", "Win32_System_Threading"] }
