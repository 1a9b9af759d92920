[package]
name = "ttl_extend"
version = "0.1.0"
edition = "2021"
publish = false

[dependencies]
hcnet-strkey = "*"
soroban-env-host = "*"
clap = { version = "*", features = ["derive"] }
thiserror = "*"
tracing = "*"
