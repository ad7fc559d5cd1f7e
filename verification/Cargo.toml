[package]
name = "zkpoex"
version = "0.1.0"
edition = "2021"
publish = false

[dependencies]
anyhow = "=1.0.104"
bincode = "=1.3.3"
bonsai-sdk = "=0.7.0"
bytemuck = "=1.25.2"
clap = { version = "=4.6.7", features = ["derive"] }
env_logger = "=0.11.11"
ethers-core = "=2.0.14"
ethers-providers = { version = "=2.0.14", default-features = false }
hex = "=0.4.3"
log = "=0.4.34"
reqwest = { version = "=0.11.27", default-features = false }
risc0-zkvm = { version = "0.21", default-features = false }
serde = { version = "=1.0.229", features = ["derive"] }
serde_json = "=1.0.154"
tokio = { version = "=1.54.1", features = ["rt"] }
x509-parser = "=0.18.1"
