[package]
name = "travels_backend"
version = "0.1.0"
edition = "2021"
publish = false

[dependencies]
actix-cors = "0.7"
actix-web = "4"
argon2 = "0.5"
bigdecimal = { version = "0.4", features = ["serde"] }
chrono = { version = "0.4", features = ["serde"] }
diesel = { version = "2", features = ["mysql", "r2d2", "chrono", "numeric"] }
diesel-derive-newtype = "2"
dotenvy = "0.15"
env_logger = "0.11"
jsonwebtoken = "9"
log = "0.4"
rand = "0.8"
serde = { version = "1", features = ["derive"] }
serde_json = "1"
uuid = { version = "1", features = ["v4"] }
