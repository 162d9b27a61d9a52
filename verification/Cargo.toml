[package]
name = "course_server"
version = "0.1.0"
edition = "2021"
publish = false

[dependencies]
rand = "0.8"
chrono = "0.4"
prost = "*"
actix = "0.13"
actix-web = "4"
actix-web-actors = "4"
actix-identity = "0.4"
actix-protobuf = "*"
serde = { version = "1", features = ["derive"] }
serde_json = "1"
diesel = { version = "2", features = ["sqlite", "r2d2"] }
libsqlite3-sys = { version = "*", features = ["bundled"] }
dotenvy = "0.15"
env_logger = "0.10"
log = "0.4"
anyhow = "1"
time = "0.3"
