[package]
name = "sdk_harness"
version = "0.1.0"
edition = "2021"
publish = false

[dependencies]
serde_json = "1.0"
serde = { version = "1.0", features = ["derive"] }
actix-web = { version = "4", default-features = false, features = ["macros"] }
tempfile = "3"
