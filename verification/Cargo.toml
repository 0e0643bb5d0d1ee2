[package]
name = "vf_planning"
version = "0.1.0"
edition = "2021"
publish = false

[dependencies]
ulid = "*"
async-graphql = { version = "*", features = ["dynamic-schema"] }
async-graphql-axum = "*"
axum = "*"
sqlx = { version = "*", default-features = false, features = ["sqlite", "runtime-tokio"] }
tokio = { version = "*", features = ["macros", "rt-multi-thread", "net"] }
tower-http = { version = "*", features = ["cors"] }
tracing = "*"
tracing-subscriber = "*"

[dev-dependencies]
tower = { version = "*", features = ["util"] }
