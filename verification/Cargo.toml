[package]
name = "server"
version = "0.1.0"
edition = "2021"
publish = false

[dependencies]
actix-cors = "=0.7.2"
actix-web = "=4.18.1"
argon2 = { version = "=0.5.3", features = ["std"] }
chrono = { version = "=0.4.45", features = ["serde"] }
config = "=0.15.27"
dotenvy = "=0.15.7"
jsonwebtoken = { version = "=10.4.0", features = ["rust_crypto"] }
serde = { version = "=1.0.229", features = ["derive"] }
serde_json = "=1.0.154"
serde_with = "=3.24.0"
sqlx = { version = "=0.8.6", default-features = false, features = ["postgres", "runtime-tokio", "macros", "migrate", "uuid", "chrono"] }
thiserror = "=2.0.21"
tokio = { version = "=1.54.1", features = ["macros", "rt-multi-thread"] }
tracing = "=0.1.44"
tracing-actix-web = "=0.7.25"
tracing-subscriber = { version = "=0.3.23", features = ["json", "env-filter"] }
utoipa = { version = "=5.5.0", features = ["actix_extras", "uuid", "chrono"] }
utoipa-swagger-ui = { version = "9", features = ["actix-web"] }
uuid = { version = "=1.29.0", features = ["v4", "serde"] }
validator = "=0.21.0"
