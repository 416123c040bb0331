[package]
name = "tpch_roundtrip"
version = "0.1.0"
edition = "2021"
publish = false

[dependencies]
datafusion = { version = "=55.1.0", default-features = false, features = ["sql", "parquet"] }
tokio = { version = "=1.53.2", features = ["rt-multi-thread", "macros"] }
