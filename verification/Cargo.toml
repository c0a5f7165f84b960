[package]
name = "backend"
version = "0.1.0"
edition = "2021"
publish = false

[dependencies]
argon2 = { version = "=0.5.3", features = ["std"] }
jsonwebtoken = { version = "=11.1.0", features = ["rust_crypto"] }
rand = "=0.10.3"
uuid = { version = "=1.27.0", features = ["serde"] }
serde = { version = "*", features = ["derive"] }
serde_json = "=1.0.151"
chrono = { version = "*", features = ["serde"] }
axum = "*"
tokio = { version = "*", features = ["macros", "rt-multi-thread", "net"] }
tokio-postgres = { version = "*", features = ["with-chrono-0_4", "with-uuid-1"] }
deadpool-postgres = "*"
dotenvy = "*"
lettre = "*"
thiserror = "*"
tower-http = { version = "*", features = ["cors", "trace"] }
tracing = "*"
tracing-subscriber = { version = "*", features = ["env-filter", "fmt"] }
native-tls = "*"
postgres-native-tls = "*"
