[package]
name = "nexa_core"
version = "0.1.0"
edition = "2021"
publish = false

[dependencies]
uuid = { version = "=1.29.0", features = ["v4"] }
sha2 = "=0.10.9"
rand = "=0.8.8"
num_cpus = "=1.17.0"
serde = { version = "=1.0.229", features = ["derive"] }
serde_yaml = "=0.9.34"
serde_json = "=1.0.154"
chrono = "=0.4.45"
clap = { version = "=4.6.7", features = ["derive"] }
reqwest = { version = "=0.12.28", default-features = false, features = ["blocking", "json"] }
nix = { version = "=0.29.0", features = ["signal"] }
sysinfo = "=0.33.1"
tokio-tungstenite = "0.24"
