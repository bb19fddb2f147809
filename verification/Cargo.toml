[package]
name = "owning_stream"
version = "0.1.0"
edition = "2021"
publish = false

[dependencies]
actix-web = { version = "4", default-features = false }
futures = "0.3"
serde = { version = "1", features = ["derive"] }
serde_json = "1"
sqlx = { version = "0.8", default-features = false, features = ["derive", "runtime-tokio", "sqlite"] }
tokio = { version = "1", features = ["macros", "rt"] }
