[package]
name = "link_relay"
version = "0.1.0"
edition = "2021"
publish = false

[dependencies]
regex = "=1.13.1"
serenity = { version = "=0.11.7", default-features = false, features = ["builder", "client", "gateway", "http", "model", "rustls_backend"] }
sqlx = { version = "=0.6.3", default-features = false, features = ["runtime-tokio-rustls", "postgres", "migrate"] }
tokio = { version = "=1.54.1", features = ["macros", "rt-multi-thread"] }
dotenv = "=0.15.0"
