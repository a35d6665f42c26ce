[package]
name = "oxicloud"
version = "0.1.0"
edition = "2021"
publish = false

[dependencies]
async-trait = "0.1"
axum = "0.8"
bytes = "1"
chrono = { version = "=0.4.45", features = ["serde"] }
futures = "0.3"
id3 = "1"
image = { version = "=0.25.10", default-features = false, features = ["jpeg", "png", "gif", "webp"] }
moka = { version = "0.12", features = ["future"] }
mp3-duration = "0.1"
rayon = "1"
serde = { version = "1", features = ["derive"] }
sqlx = { version = "0.8", default-features = false, features = ["runtime-tokio", "postgres", "uuid", "chrono", "macros"] }
thiserror = "2"
tokio = { version = "1", features = ["rt", "rt-multi-thread", "fs", "sync", "time", "macros", "io-util"] }
tracing = "0.1"
utoipa = { version = "5", features = ["chrono"] }
uuid = { version = "=1.29.0", features = ["v4"] }
