[package]
name = "flashcards"
version = "0.1.0"
edition = "2021"
publish = false

[dependencies]
axum = "=0.6.20"
chrono = { version = "=0.4.45", features = ["serde"] }
deadpool-diesel = { version = "=0.7.0", features = ["postgres"] }
diesel = { version = "=2.3.14", features = ["postgres", "chrono"] }
diesel_migrations = "=2.3.2"
dotenv = "=0.15.0"
serde = { version = "=1.0.229", features = ["derive"] }
serde_json = "=1.0.154"
tokio = { version = "=1.54.1", features = ["full"] }
tracing = "=0.1.44"
tracing-subscriber = { version = "=0.3.23", features = ["env-filter"] }

[dev-dependencies]
tower-service = "=0.3.3"
