[package]
name = "rust_auth"
version = "0.1.0"
edition = "2021"
publish = false

[dependencies]
bcrypt = "=0.19.3"
jsonwebtoken = { version = "=11.1.0", features = ["rust_crypto"] }
serde_json = "=1.0.151"
serde = { version = "=1.0.229", features = ["derive"] }
chrono = "=0.4.45"
dotenv = "=0.15.0"
mongodb = "=3.9.1"
actix-web = "=4.15.0"
actix-cors = "=0.7.2"
