[package]
name = "organizator"
version = "0.1.0"
edition = "2021"
publish = false

[dependencies]
ring = "0.17"
uuid = { version = "1", features = ["v4"] }
actix-web = { version = "4", default-features = false, features = ["macros", "cookies"] }
actix-session = { version = "*", features = ["cookie-session"] }
actix-multipart = "*"
futures = "0.3"
deadpool-postgres = { version = "*", features = ["serde"] }
tokio-postgres = { version = "0.7", features = ["with-uuid-1"] }
tokio-pg-mapper = { version = "*", features = ["derive"] }
serde = { version = "1", features = ["derive"] }
config = { version = "*", default-features = false }
dotenv = "0.15"
env_logger = "*"
log = "0.4"
