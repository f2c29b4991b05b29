[package]
name = "sync_ynab"
version = "0.1.0"
edition = "2021"
publish = false

[dependencies]
oauth2 = { version = "=4.4.2", default-features = false }
ureq = { version = "=2.12.1", default-features = false }
serde = { version = "1", features = ["derive"] }
serde_json = "1"
