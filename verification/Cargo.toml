[package]
name = "ci_relay"
version = "0.1.0"
edition = "2021"
publish = false

[dependencies]
uuid = { version = "=1.27.0", features = ["v4"] }
teloxide = { version = "=0.17.0", default-features = false, features = ["rustls", "ctrlc_handler"] }
chrono = { version = "=0.4.45", default-features = false, features = ["clock"] }
axum = "=0.8.9"
tokio = { version = "*", features = ["full"] }
serde = { version = "*", features = ["derive"] }
sqlx = { version = "=0.9.0", default-features = false, features = ["runtime-tokio", "sqlite"] }
takecell = "=0.1.1"
