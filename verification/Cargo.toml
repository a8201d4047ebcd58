[package]
name = "pragma"
version = "0.1.0"
edition = "2021"
publish = false

[dependencies]
chrono = { version = "0.4", features = ["serde"] }
nanoid = "0.4"
rand = "0.8"
regex = "1"
serde_json = "1"
serde = { version = "1", features = ["derive"] }
actix-web = { version = "4", default-features = false, features = ["macros"] }
diesel = { version = "2", default-features = false, features = ["sqlite", "r2d2", "chrono"] }
mime_guess = "2"
env_logger = "0.11"
log = "0.4"
