[package]
name = "speer_test"
version = "0.1.0"
edition = "2021"
publish = false

[dependencies]
anyhow = "1"
axum = "0.8"
axum-extra = { version = "0.10", features = ["typed-header"] }
bcrypt = "*"
chrono = { version = "0.4", features = ["serde"] }
deadpool-postgres = "0.14"
figment = { version = "0.10", features = ["toml", "env"] }
headers = "0.4"
postgres-types = "0.2"
rand = "0.9"
serde = { version = "1", features = ["derive"] }
thiserror = "2"
tokio = { version = "1", features = ["full"] }
tokio-pg-mapper = "0.2"
tokio-pg-mapper-derive = "0.2"
tokio-postgres = { version = "0.7", features = ["with-uuid-1", "with-chrono-0_4"] }
tower-http = { version = "0.6", features = ["cors", "trace"] }
tracing = "0.1"
tracing-subscriber = { version = "0.3", features = ["env-filter"] }
utoipa = { version = "5", features = ["axum_extras", "uuid", "chrono"] }
utoipa-rapidoc = { version = "6", features = ["axum"] }
uuid = { version = "1", features = ["serde", "v4"] }
