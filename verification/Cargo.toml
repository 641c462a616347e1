[package]
name = "axum-login"
version = "0.1.0"
edition = "2021"
publish = false

[dependencies]
aide = { version = "*", default-features = false, features = ["macros", "axum"] }
axum = { version = "0.8", default-features = false }
jsonwebtoken = { version = "10", default-features = false, features = ["rust_crypto"] }
serde = { version = "1", features = ["derive"] }
serde_json = "1"
subtle = "2"
thiserror = "2"
tokio = { version = "1", default-features = false, features = ["sync"] }
tower-layer = "0.3"
tower-service = "0.3"
tower-sessions = { version = "*", default-features = false, features = ["axum-core"] }
tracing = "0.1"
