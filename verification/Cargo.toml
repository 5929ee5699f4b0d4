[package]
name = "user_auth"
version = "0.1.0"
edition = "2021"
publish = false

[dependencies]
bcrypt = "=0.19.3"
jsonwebtoken = "=9.3.1"
serde_json = { version = "=1.0.154", features = ["preserve_order"] }
uuid = { version = "=1.29.0", features = ["v4", "serde"] }
serde = { version = "=1.0.229", features = ["derive"] }
actix-web = { version = "=4.18.1", default-features = false, features = ["macros"] }
actix-web-httpauth = "=0.8.3"
sqlx = { version = "=0.8.6", default-features = false, features = ["runtime-tokio", "mysql", "derive", "uuid"] }
dotenvy = "=0.15.7"
env_logger = "=0.11.11"
log = "=0.4.34"
thiserror = "=1.0.69"
