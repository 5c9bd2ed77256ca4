[package]
name = "buzz_playbook"
version = "0.1.0"
edition = "2021"
publish = false

[dependencies]
chrono = { version = "=0.4.45", features = ["serde"] }
hex = "=0.4.3"
nostr = "0.44"
serde = { version = "1", features = ["derive"] }
serde_json = "1"
sqlx = { version = "0.8", default-features = false, features = ["runtime-tokio", "postgres", "uuid", "chrono", "json"] }
thiserror = "2"
uuid = { version = "=1.29.0", features = ["v4", "serde"] }
