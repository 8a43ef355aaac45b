[package]
name = "some_axum_code"
version = "0.1.0"
edition = "2021"
publish = false

[dependencies]
ulid = "*"
axum = "*"
tokio = { version = "*", features = ["rt-multi-thread", "macros", "net"] }
sqlx = { version = "*", default-features = false, features = ["runtime-tokio", "postgres"] }
tower = "*"
tower-http = { version = "*", features = ["request-id", "trace", "compression-gzip"] }
tracing = "*"
tracing-subscriber = { version = "*", features = ["env-filter", "fmt"] }
dotenvy = "*"
