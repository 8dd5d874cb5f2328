[package]
name = "sql_runner"
version = "0.1.0"
edition = "2021"
publish = false

[dependencies]
blake3 = "=1.8.7"
sqlx = { version = "=0.9.0", default-features = false, features = ["runtime-tokio", "postgres", "rust_decimal", "chrono", "derive", "json"] }
tokio = { version = "=1.53.2", features = ["rt-multi-thread", "macros", "net", "sync"] }
futures = "=0.3.34"
axum = "=0.8.9"
serde = { version = "=1.0.229", features = ["derive"] }
serde_json = "=1.0.151"
envy = "=0.4.2"
anyhow = "=1.0.104"
