[package]
name = "dash_core"
version = "0.1.0"
edition = "2021"
publish = false

[dependencies]
axum = { version = "0.8", features = ["ws"] }
axum-extra = { version = "0.10", features = ["typed-header"] }
base64 = "0.22"
bcrypt = "*"
dotenvy = "0.15"
email_address = "0.2"
futures = "0.3"
http = "1"
jsonwebtoken = "9"
once_cell = "1"
serde = { version = "1", features = ["derive"] }
serde_json = "1"
sqlx = { version = "0.8", default-features = false, features = ["any", "postgres", "runtime-tokio"] }
tokio = { version = "1", features = ["full"] }
tower = "0.5"
tower-http = { version = "0.6", features = ["cors"] }
uuid = { version = "1", features = ["v4"] }
