[package]
name = "chat_backend"
version = "0.1.0"
edition = "2021"
publish = false

[dependencies]
magic-crypt = "=3.1.13"
uuid = { version = "=1.29.1", features = ["v4", "serde"] }
chrono = { version = "=0.4.45", features = ["serde"] }
serde = { version = "=1.0.229", features = ["derive"] }
serde_json = "=1.0.154"
jsonwebtoken = "=9.3.1"
actix = "=0.13.5"
actix-web = "=4.18.1"
actix-web-actors = "=4.3.1"
actix-cors = "=0.7.2"
diesel = { version = "=2.3.14", default-features = false, features = ["postgres", "r2d2", "uuid", "chrono"] }
r2d2 = "=0.8.10"
deadpool-postgres = "=0.14.2"
tokio-postgres = { version = "=0.7.18", features = ["with-uuid-1", "with-chrono-0_4", "with-serde_json-1"] }
postgres-types = { version = "=0.2.14", features = ["derive", "with-uuid-1", "with-chrono-0_4", "with-serde_json-1"] }
derive_more = "=0.99.20"
dotenv = "=0.15.0"
futures = "=0.3.34"
futures-util = "=0.3.34"
async-trait = "=0.1.92"
