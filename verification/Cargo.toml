[package]
name = "bdshorten"
version = "0.1.0"
edition = "2021"
publish = false

[dependencies]
base64 = "*"
rand = "*"
url = "*"
actix-web = "*"
tokio = { version = "*", features = ["rt-multi-thread", "macros"] }
tokio-postgres = "*"
chrono = { version = "*", features = ["serde"] }
serde = { version = "*", features = ["derive"] }
