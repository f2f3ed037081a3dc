[package]
name = "ares_trade"
version = "0.1.0"
edition = "2021"
publish = false

[dependencies]
chrono = "0.4"
dotenv = "0.15"
postgres = { version = "0.19", features = ["with-chrono-0_4", "with-uuid-1"] }
r2d2 = "0.8"
r2d2_postgres = "0.18"
rust_decimal = { version = "1", features = ["db-postgres"] }
tokio = { version = "1", features = ["macros", "rt-multi-thread", "sync"] }
uuid = { version = "1", features = ["v4"] }
