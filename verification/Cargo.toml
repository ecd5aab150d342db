[package]
name = "go_getta"
version = "0.1.0"
edition = "2021"
publish = false

[dependencies]
bcrypt = "0.15"
uuid = { version = "1", features = ["v4"] }
urlencoding = "2"
serde = { version = "1", features = ["derive"] }
serde_json = "1"
warp = "0.3"
tokio = { version = "1", features = ["full"] }
diesel = { version = "2.2", features = ["sqlite"] }
diesel_migrations = "2.2"
libsqlite3-sys = { version = "*", features = ["bundled"] }
dotenvy = "0.15"
futures = "0.3"
bytes = "1"
