[package]
name = "webhook_auth"
version = "0.1.0"
edition = "2021"
publish = false

[dependencies]
actix-http = "3"
actix-web = { version = "4", default-features = false, features = ["macros"] }
bytes = "1"
dotenvy = "0.15"
ed25519-dalek = "1"
futures-util = "0.3"
hex = "0.4"
serde = { version = "1", features = ["derive"] }
serde_repr = "0.1"

[dev-dependencies]
serde_json = "1"
