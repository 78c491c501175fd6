[package]
name = "session_auth"
version = "0.1.0"
edition = "2021"
publish = false

[dependencies]
actix-cors = "=0.2.0"
actix-rt = "=1.1.1"
actix-service = "=1.0.6"
actix-web = "=2.0.0"
actix-web-httpauth = "=0.4.2"
argonautica = "=0.2.0"
chrono = "=0.4.19"
config = "=0.10.1"
diesel = { version = "=1.4.8", features = ["postgres", "r2d2"] }
dotenv = "=0.15.0"
env_logger = "=0.7.1"
futures = "=0.3.34"
jsonwebtoken = "=7.2.0"
lazy_static = "=1.5.1"
serde = { version = "=1.0.229", features = ["derive"] }
serde_derive = "=1.0.229"
serde_json = "=1.0.154"
