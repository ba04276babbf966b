[package]
name = "twitch-extension-api"
version = "0.1.0"
edition = "2021"
publish = false

[dependencies]
actix-web = { version = "4", features = ["rustls-0_23"] }
actix-cors = "0.7"
actix-files = "0.6"
anyhow = "1"
charybdis = "*"
chrono = { version = "0.4", features = ["serde"] }
colog = "1"
dotenvy = "0.15"
log = "0.4"
rustls = "0.23"
rustls-pemfile = "2"
scylla = "*"
serde = { version = "1", features = ["derive"] }
serde_json = "1"
thiserror = "1"
