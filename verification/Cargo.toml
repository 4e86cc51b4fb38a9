[package]
name = "graphstore_pg"
version = "0.1.0"
edition = "2021"
publish = false

[dependencies]
uuid = { version = "1", features = ["v4"] }
num_cpus = "1"
serde_json = "1"
chrono = { version = "0.4", default-features = false, features = ["std"] }
postgres = { version = "0.19", features = ["with-uuid-1", "with-serde_json-1", "with-chrono-0_4"] }
r2d2 = "0.8"
r2d2_postgres = "0.18"
