[package]
name = "koit"
version = "0.2.0"
edition = "2021"
publish = false

[dependencies]
async-std = "1"
async-trait = "0.1"
bincode = "1.3"
serde = "1"
serde_json = "1"
thiserror = "1"
toml = "0.5"
