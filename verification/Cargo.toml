[package]
name = "stack_control"
version = "0.1.0"
edition = "2021"
publish = false

[dependencies]
anyhow = "=1.0.104"
async-trait = "=0.1.92"
derive_builder = "=0.20.2"
mungos = "=3.9.1"
partial_derive2 = "=0.5.0"
reqwest = { version = "=0.13.5", default-features = false, features = ["json"] }
resolver_api = "=3.0.0"
serde = { version = "=1.0.229", features = ["derive"] }
slack_client_rs = "*"
typeshare = "=1.0.5"
