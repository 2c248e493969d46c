[package]
name = "rolldown"
version = "0.1.0"
edition = "2021"
publish = false

[dependencies]
anyhow = "=1.0.104"
arcstr = "=1.2.0"
dashmap = "=6.2.1"
derivative = "=2.2.0"
oxc = { version = "0.30", features = ["codegen"] }
reqwest = { version = "=0.12.28", default-features = false }
rustc-hash = "=2.1.3"
schemars = "=0.8.22"
serde = { version = "=1.0.229", features = ["derive"] }
sugar_path = "=1.2.1"
url = "=2.5.8"
