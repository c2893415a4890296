[package]
name = "meetup_api"
version = "0.1.0"
edition = "2021"
publish = false

[dependencies]
axum = "0.7"
dotenv = "0.15"
maud = { version = "0.26", features = ["axum"] }
serde = { version = "1", features = ["derive"] }
serde_json = "1"
sqlx = { version = "0.8", default-features = false, features = ["runtime-tokio", "postgres", "derive"] }
tokio = { version = "1", features = ["full"] }
tower-http = { version = "0.5", features = ["fs"] }
