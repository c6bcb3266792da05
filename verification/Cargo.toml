[package]
name = "stationery"
version = "0.1.0"
edition = "2021"
publish = false

[dependencies]
askama = "*"
askama_web = { version = "*", features = ["axum-0.8"] }
axum = "0.8"
chrono = { version = "0.4", default-features = false, features = ["std", "clock", "serde"] }
dotenvy = "0.15"
serde = { version = "1", features = ["derive"] }
serde_json = "1"
sqlx = { version = "0.8", default-features = false, features = ["runtime-tokio", "postgres", "chrono", "json", "derive"] }
tokio = { version = "1", features = ["macros", "rt-multi-thread", "net"] }
tower-http = { version = "0.6", features = ["cors", "fs"] }
tracing = "0.1"
