[package]
name = "ethers_prometheus"
version = "0.1.0"
edition = "2021"
publish = false

[dependencies]
async-trait = "0.1"
ethers = { version = "1.0", default-features = false }
ethers-core = "1.0"
prometheus = { version = "0.13", default-features = false }
serde = { version = "1", features = ["derive"] }
thiserror = "1"
url = "2"
