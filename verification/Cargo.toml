[package]
name = "mc_server"
version = "0.1.0"
edition = "2021"
publish = false

[dependencies]
regex = "1"
chrono = "0.4"
serde = { version = "1", features = ["derive"] }
serde_json = "1"
tokio = { version = "1", features = ["full"] }
tokio-util = { version = "0.7", features = ["codec"] }
futures = "0.3"
tracing = "0.1"
tracing-subscriber = "0.3"
clap = { version = "4", features = ["derive"] }
colored = "2"
indicatif = "0.17"
sysinfo = "0.33"
dunce = "1"
directories = "5"
dotenvy = "0.15"
thiserror = "2"
anyhow = "1"
config = "0.14"
toml = "0.8"
flate2 = "1"
tar = "0.4"
windows-sys = { version = "0.59", features = ["Win32_Foundation"] }
