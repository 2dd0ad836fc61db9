[package]
name = "pastebot"
version = "0.1.0"
edition = "2021"
publish = false

[dependencies]
chrono = "0.4"
poise = "0.6"
reqwest = { version = "0.12", default-features = false, features = ["rustls-tls"] }
serenity = { version = "0.12", default-features = false, features = ["client", "gateway", "rustls_backend", "model"] }
tokio = { version = "1", features = ["macros", "rt-multi-thread"] }
