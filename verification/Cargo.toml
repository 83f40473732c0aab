[package]
name = "chainhead_client"
version = "0.1.0"
edition = "2021"
publish = false

[dependencies]
derivative = "=2.2.0"
futures = "=0.3.34"
hex = "=0.4.3"
parity-scale-codec = { version = "=3.7.5", features = ["derive"] }
sp-core = "=43.0.0"
sp-core-hashing = "=16.0.0"
sp-runtime = "=49.0.0"
subxt-metadata = "=0.35.3"
thiserror = "=1.0.69"
