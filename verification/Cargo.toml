[package]
name = "dino_store"
version = "0.1.0"
edition = "2021"
publish = false

[dependencies]
uuid = { version = "=1.27.0", features = ["v4", "serde"] }
serde = { version = "=1.0.229", features = ["derive"] }
serde_json = "=1.0.151"
sqlx = { version = "=0.7.4", default-features = false, features = ["postgres", "runtime-async-std", "uuid", "macros"] }
tide = "=0.16.0"
async-std = { version = "=1.13.2", features = ["attributes"] }
dotenv = "=0.15.0"
