[package]
name = "auth_core"
version = "0.1.0"
edition = "2021"
publish = false

[dependencies]
bcrypt = "=0.19.3"
jsonwebtoken = { version = "=11.1.0", features = ["rust_crypto"] }
serde_json = "=1.0.151"
serde = { version = "*", features = ["derive"] }
axum = "*"
tokio = { version = "*", features = ["macros", "rt-multi-thread", "net"] }
sqlx = { version = "*", default-features = false, features = ["runtime-tokio", "postgres", "chrono", "derive"] }
chrono = { version = "*", features = ["serde"] }
dotenvy = "*"
tracing = "*"
tracing-subscriber = "*"
