[package]
name = "toolkit"
version = "0.1.0"
edition = "2021"
publish = false

[dependencies]
anyhow = "1"
backtrace = "0.3"
clap = { version = "4", features = ["derive"] }
console = "0.15"
futures = "0.3"
futures-util = "0.3"
home = "0.5"
indicatif = "0.17"
lazy_static = "1"
path-absolutize = "3"
regex = "1"
reqwest = { version = "0.12", features = ["json", "stream"] }
serde = { version = "1", features = ["derive"] }
serde_json = "1"
tokio = { version = "1", features = ["full"] }
walkdir = "2"
winreg = "0.52"
