[package]
name = "salt_store"
version = "0.1.0"
edition = "2021"
publish = false

[dependencies]
actix-web = "4"
scylla = "0.11"
serde = { version = "1", features = ["derive"] }
