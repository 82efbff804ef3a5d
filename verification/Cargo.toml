[package]
name = "reddit"
version = "0.1.0"
edition = "2021"
publish = false

[dependencies]
serde_json = "=1.0.154"
reqwest = "=0.13.5"
thiserror = "=2.0.21"
