[package]
name = "precise_api"
version = "0.1.0"
edition = "2021"
publish = false

[dependencies]
actix-web = "=4.15.0"
bcrypt = "=0.19.3"
chrono = "=0.4.45"
dotenv = "=0.15.0"
futures = "0.3"
jsonwebtoken = "=9.3.1"
serde = { version = "1", features = ["derive"] }
serde_json = "1"
sqlx = { version = "=0.9.0", default-features = false, features = ["mysql", "runtime-tokio", "derive"] }
utoipa = { version = "=6.0.0", features = ["actix_extras"] }
