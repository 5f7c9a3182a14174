[package]
name = "oxidize"
version = "0.1.0"
edition = "2021"
publish = false

[dependencies]
anyhow = "*"
axum = "*"
chrono = "*"
clap = { version = "*", features = ["derive"] }
dotenvy = "*"
serde = { version = "*", features = ["derive"] }
sqlx = { version = "*", default-features = false, features = ["runtime-tokio", "postgres", "chrono"] }
tokio = { version = "*", features = ["rt-multi-thread", "macros", "net"] }
uuid = { version = "*", features = ["v4"] }
