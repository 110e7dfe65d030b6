[package]
name = "music_bot"
version = "0.1.0"
edition = "2021"
publish = false

[dependencies]
rand = "0.8"
serenity = { version = "0.11", default-features = false, features = ["builder", "cache", "client", "framework", "gateway", "http", "model", "standard_framework", "utils", "voice", "rustls_backend"] }
songbird = { version = "0.3", features = ["builtin-queue"] }
