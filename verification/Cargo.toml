[package]
name = "rust_app"
version = "0.1.0"
edition = "2021"
publish = false

[dependencies]
bcrypt = "=0.19.3"
actix-web = { version = "=4.18.1", default-features = false, features = ["macros", "cookies"] }
actix-rt = "=2.15.0"
actix-service = "=2.0.3"
futures = "=0.3.34"
serde = { version = "=1.0.229", features = ["derive"] }
serde_json = "=1.0.154"
sqlx = { version = "=0.8.6", default-features = false, features = ["postgres", "runtime-tokio", "chrono"] }
lettre = { version = "=0.10.4", default-features = false, features = ["builder", "smtp-transport", "rustls-tls", "hostname"] }
clap = "=4.6.7"
dotenv = "=0.15.0"
num_cpus = "=1.17.0"
derive_more = "=0.99.20"
chrono = "=0.4.45"
jsonwebtoken = "=9.3.1"
validator = { version = "0.20", features = ["derive"] }
